use pypnir::setup::path::{Answers, ExecutablePath, FailedCheck, Question, Step};
use std::io;
use std::path::Path;

/// Runs a validation of `exec`, recording in the answers what `answer`
/// reads for each question; returns the result and the questions asked.
fn run<E>(
    exec: &mut ExecutablePath,
    answer: impl Fn(Question, &[u8], &mut Answers<E>),
) -> (Result<bool, E>, Vec<Question>) {
    let mut answers = Answers::new();
    let mut asked = Vec::new();
    loop {
        match exec.verify(answers) {
            Step::Ask(q, mut a) => {
                asked.push(q);
                let path = exec.as_bytes().to_vec();
                answer(q, &path, &mut a);
                answers = a;
            }
            Step::Done(r) => return (r, asked),
        }
    }
}

/// Answers existence and file type from the real file system; these tests
/// must not reach the permission and header questions.
fn disk(q: Question, path: &[u8], a: &mut Answers<io::Error>) {
    let path = Path::new(std::str::from_utf8(path).unwrap());
    match q {
        Question::Exists => a.exists = Some(path.try_exists()),
        Question::IsFile => a.is_file = Some(path.metadata().map(|m| m.is_file())),
        Question::Mode | Question::Header => unreachable!(),
    }
}

/// A file system state: the answer to each question.
#[derive(Clone)]
struct State {
    exists: Result<bool, String>,
    is_file: Result<bool, String>,
    mode: Result<u32, String>,
    header: Result<Option<[u8; 4]>, String>,
}

impl State {
    fn answer(&self, q: Question, _: &[u8], a: &mut Answers<String>) {
        match q {
            Question::Exists => a.exists = Some(self.exists.clone()),
            Question::IsFile => a.is_file = Some(self.is_file.clone()),
            Question::Mode => a.mode = Some(self.mode.clone()),
            Question::Header => a.header = Some(self.header.clone()),
        }
    }
}

/// A regular file with the given mode and contents.
fn file(mode: u32, contents: &[u8]) -> State {
    let header = if contents.len() >= 4 {
        Some([contents[0], contents[1], contents[2], contents[3]])
    } else {
        None
    };
    State { exists: Ok(true), is_file: Ok(true), mode: Ok(mode), header: Ok(header) }
}

fn run_on(exec: &mut ExecutablePath, st: &State) -> (Result<bool, String>, Vec<Question>) {
    run(exec, |q, p, a| st.answer(q, p, a))
}

const ELF: &[u8] = &[0x7F, b'E', b'L', b'F'];

#[test]
fn test_non_existent_path() {
    let mut exec = ExecutablePath::new(b"/path/that/does/not/exist/pypnir_test");
    assert_eq!(run(&mut exec, disk).0.unwrap(), false);
}

#[test]
fn test_directory_is_not_executable_file() {
    let mut exec = ExecutablePath::new(b"/tmp");
    assert_eq!(run(&mut exec, disk).0.unwrap(), false);
}

#[test]
fn test_file_without_execution_permissions() {
    let mut exec = ExecutablePath::new(b"/tmp/pypnir_no_exec.txt");
    assert_eq!(run_on(&mut exec, &file(0o644, b"test file content")).0.unwrap(), false);
}

#[test]
fn test_executable_file_invalid_elf_header() {
    let mut exec = ExecutablePath::new(b"/tmp/pypnir_script.sh");
    assert_eq!(run_on(&mut exec, &file(0o755, b"#!/bin/sh\necho hello")).0.unwrap(), false);
}

#[test]
fn test_valid_elf_executable() {
    let mut exec = ExecutablePath::new(b"/tmp/pypnir_valid_elf");
    let elf: &[u8] = &[0x7F, b'E', b'L', b'F', 0x02, 0x01, 0x01, 0x00];
    assert_eq!(run_on(&mut exec, &file(0o755, elf)).0.unwrap(), true);
}

#[test]
fn new_path_has_no_check_passed() {
    let exec = ExecutablePath::new(b"build/test");
    assert_eq!(exec.inner, b"build/test".to_vec());
    assert_eq!(exec.as_bytes(), b"build/test");
    assert_eq!(
        exec.failed_checks(),
        vec![FailedCheck::Missing, FailedCheck::NotAFile, FailedCheck::NotExecutable]
    );
}

#[test]
fn non_utf8_path_is_kept() {
    let exec = ExecutablePath::new(&[b'b', 0xFF, b'n']);
    assert_eq!(exec.as_bytes(), &[b'b', 0xFF, b'n']);
}

#[test]
fn missing_path_is_asked_one_question() {
    let mut exec = ExecutablePath::new(b"/path/that/does/not/exist/pypnir_test");
    let (r, asked) = run(&mut exec, disk);
    assert_eq!(r.unwrap(), false);
    assert_eq!(asked, vec![Question::Exists]);
    assert_eq!(
        exec.failed_checks(),
        vec![FailedCheck::Missing, FailedCheck::NotAFile, FailedCheck::NotExecutable]
    );
}

#[test]
fn directory_is_never_opened() {
    let mut exec = ExecutablePath::new(b"/tmp");
    let (r, asked) = run(&mut exec, disk);
    assert_eq!(r.unwrap(), false);
    assert_eq!(asked, vec![Question::Exists, Question::IsFile]);
    assert_eq!(exec.failed_checks(), vec![FailedCheck::NotAFile, FailedCheck::NotExecutable]);
}

#[test]
fn file_without_exec_bit_is_never_opened() {
    let mut exec = ExecutablePath::new(b"notes.txt");
    let (r, asked) = run_on(&mut exec, &file(0o644, ELF));
    assert_eq!(r, Ok(false));
    assert_eq!(asked, vec![Question::Exists, Question::IsFile, Question::Mode]);
    assert_eq!(exec.failed_checks(), vec![FailedCheck::NotExecutable]);
}

#[test]
fn executable_is_asked_every_question_in_order() {
    let mut exec = ExecutablePath::new(b"bin");
    let (r, asked) = run_on(&mut exec, &file(0o755, ELF));
    assert_eq!(r, Ok(true));
    assert_eq!(
        asked,
        vec![Question::Exists, Question::IsFile, Question::Mode, Question::Header]
    );
    assert_eq!(exec.failed_checks(), Vec::<FailedCheck>::new());
}

#[test]
fn each_execute_bit_is_enough() {
    for mode in [0o100u32, 0o010, 0o001, 0o644 | 0o001] {
        let mut exec = ExecutablePath::new(b"bin");
        assert_eq!(run_on(&mut exec, &file(mode, ELF)).0, Ok(true));
    }
}

#[test]
fn short_file_is_not_executable() {
    let mut exec = ExecutablePath::new(b"short");
    assert_eq!(run_on(&mut exec, &file(0o755, b"\x7fEL")).0, Ok(false));
    assert_eq!(exec.failed_checks(), vec![FailedCheck::NotExecutable]);
}

#[test]
fn wrong_magic_byte_is_not_executable() {
    let mut exec = ExecutablePath::new(b"almost");
    assert_eq!(run_on(&mut exec, &file(0o755, b"\x7fELG")).0, Ok(false));
}

#[test]
fn existence_error_is_returned_and_keeps_flags() {
    let mut exec = ExecutablePath::new(b"/root/secret/bin");
    let st = State { exists: Err("permission denied".to_string()), ..file(0o755, ELF) };
    let (r, asked) = run_on(&mut exec, &st);
    assert_eq!(r, Err("permission denied".to_string()));
    assert_eq!(asked, vec![Question::Exists]);
    assert_eq!(exec.failed_checks().len(), 3);
}

#[test]
fn file_type_error_is_returned_and_keeps_flags() {
    let mut exec = ExecutablePath::new(b"bin");
    assert_eq!(run_on(&mut exec, &file(0o755, ELF)).0, Ok(true));
    let st = State { is_file: Err("io error".to_string()), ..file(0o755, ELF) };
    assert_eq!(run_on(&mut exec, &st).0, Err("io error".to_string()));
    assert_eq!(exec.failed_checks(), Vec::<FailedCheck>::new());
}

#[test]
fn metadata_error_is_returned_and_keeps_flags() {
    let mut exec = ExecutablePath::new(b"bin");
    assert_eq!(run_on(&mut exec, &file(0o755, ELF)).0, Ok(true));
    let st = State { mode: Err("permission denied".to_string()), ..file(0o755, ELF) };
    let (r, asked) = run_on(&mut exec, &st);
    assert_eq!(r, Err("permission denied".to_string()));
    assert_eq!(asked, vec![Question::Exists, Question::IsFile, Question::Mode]);
    assert_eq!(exec.failed_checks(), Vec::<FailedCheck>::new());
}

#[test]
fn open_error_is_returned() {
    let mut exec = ExecutablePath::new(b"bin");
    let st = State { header: Err("cannot open".to_string()), ..file(0o755, ELF) };
    assert_eq!(run_on(&mut exec, &st).0, Err("cannot open".to_string()));
    assert_eq!(exec.failed_checks().len(), 3);
}

#[test]
fn answers_given_out_of_order_are_not_trusted() {
    let mut exec = ExecutablePath::new(b"bin");
    let mut answers: Answers<String> = Answers::new();
    answers.header = Some(Ok(Some([0x7F, 0x45, 0x4C, 0x46])));
    answers.mode = Some(Ok(0o755));
    match exec.verify(answers) {
        Step::Ask(q, a) => {
            assert_eq!(q, Question::Exists);
            assert_eq!(a.mode, Some(Ok(0o755)));
        }
        Step::Done(_) => panic!("settled without knowing that the path exists"),
    }
    assert_eq!(exec.failed_checks().len(), 3);
}

#[test]
fn revalidation_gives_the_same_answer() {
    let mut exec = ExecutablePath::new(b"/tmp");
    let first = run(&mut exec, disk).0.unwrap();
    let flags = exec.failed_checks();
    assert_eq!(run(&mut exec, disk).0.unwrap(), first);
    assert_eq!(exec.failed_checks(), flags);
}

#[test]
fn a_later_failure_replaces_earlier_flags() {
    let mut exec = ExecutablePath::new(b"bin");
    assert_eq!(run_on(&mut exec, &file(0o755, ELF)).0, Ok(true));
    let st = State { exists: Ok(false), ..file(0o755, ELF) };
    assert_eq!(run_on(&mut exec, &st).0, Ok(false));
    assert_eq!(exec.failed_checks().len(), 3);
}
