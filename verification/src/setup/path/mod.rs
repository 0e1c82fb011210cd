//! Target executable path location and ELF binary validation.
//!
//! A path passes validation when three criteria hold, checked in this order:
//!
//! 1. **Existence**: the path names an entry of the file system.
//! 2. **File type**: the entry is a regular file.
//! 3. **Execution eligibility**: the permission mode has an execute bit
//!    (`mode & 0o111 != 0`) and the first four bytes of the file are the ELF
//!    magic number `[0x7F, 0x45, 0x4C, 0x46]`.
//!
//! Validation does not read the file system itself: it asks the caller one
//! [`Question`] at a time, and the caller records each answer (or the error
//! that kept it from answering) in [`Answers`]. Questions come in the order
//! of the criteria and stop at the first failing one, so a question is only
//! asked when its answer can change the result, and the file is only opened
//! once it is known to be a regular file with an execute bit.
use vstd::prelude::*;

verus! {

/// The three status flags that validation records for a path.
pub struct Checks {
    pub exist: bool,
    pub is_file: bool,
    pub is_exe: bool,
}

impl Checks {
    /// The flags say no more than the earlier criteria allow: an executable is
    /// a file, and a file exists.
    pub open spec fn consistent(self) -> bool {
        &&& self.is_exe ==> self.is_file
        &&& self.is_file ==> self.exist
    }
}

/// Flags of a path that has not been validated, or that does not exist.
pub open spec fn no_checks() -> Checks {
    Checks { exist: false, is_file: false, is_exe: false }
}

/// The permission bits `S_IXUSR | S_IXGRP | S_IXOTH`.
pub const EXEC_BITS: u32 = 0o111u32;

/// Some execute permission bit is set in `mode`.
pub open spec fn exec_permitted(mode: u32) -> bool {
    mode & EXEC_BITS != 0
}

/// The four-byte magic number that opens every ELF file.
pub open spec fn elf_magic() -> Seq<u8> {
    seq![0x7Fu8, 0x45u8, 0x4Cu8, 0x46u8]
}

/// The first four bytes of a file, when it has four, are the ELF magic number.
pub open spec fn is_elf_header(header: Option<[u8; 4]>) -> bool {
    match header {
        Some(bytes) => bytes@ == elf_magic(),
        None => false,
    }
}

/// What the execution check concludes from the permission mode and the
/// header that were read (a read error is returned as it came).
pub open spec fn exe_verdict<E>(mode: Result<u32, E>, header: Result<Option<[u8; 4]>, E>) -> Result<bool, E> {
    match mode {
        Err(e) => Err(e),
        Ok(m) => if !exec_permitted(m) {
            Ok(false)
        } else {
            match header {
                Err(e) => Err(e),
                Ok(h) => Ok(is_elf_header(h)),
            }
        },
    }
}

/// The result of validation, and the flags it leaves, given what the file
/// system answered. `before` are the flags held before validation; a read
/// error leaves them as they were.
pub open spec fn verdict<E>(
    before: Checks,
    exists: Result<bool, E>,
    is_file: Result<bool, E>,
    mode: Result<u32, E>,
    header: Result<Option<[u8; 4]>, E>,
) -> (Result<bool, E>, Checks) {
    match exists {
        Err(e) => (Err(e), before),
        Ok(false) => (Ok(false), no_checks()),
        Ok(true) => match is_file {
            Err(e) => (Err(e), before),
            Ok(false) => (Ok(false), Checks { exist: true, is_file: false, is_exe: false }),
            Ok(true) => match exe_verdict(mode, header) {
                Err(e) => (Err(e), before),
                Ok(x) => (Ok(x), Checks { exist: true, is_file: true, is_exe: x }),
            },
        },
    }
}

/// Validation accepts exactly the existing regular files with an execute
/// bit whose first four bytes are the ELF magic number.
pub proof fn lemma_accepts_exactly_elf_executables<E>(
    before: Checks,
    exists: Result<bool, E>,
    is_file: Result<bool, E>,
    mode: Result<u32, E>,
    header: Result<Option<[u8; 4]>, E>,
)
    ensures
        verdict(before, exists, is_file, mode, header).0 == Ok::<bool, E>(true) <==> {
            &&& exists == Ok::<bool, E>(true)
            &&& is_file == Ok::<bool, E>(true)
            &&& mode matches Ok(m) && m & 0o111u32 != 0
            &&& header matches Ok(Some(bytes)) && bytes@ == seq![0x7Fu8, 0x45u8, 0x4Cu8, 0x46u8]
        },
{
}

/// The permission stage looks at the execute bits alone: an existing
/// regular file that starts with the ELF magic number is accepted exactly
/// when its mode has one of the bits `0o111`, whatever its other bits
/// (write, setuid, sticky, ...), and it is then recorded as passing every
/// check.
pub proof fn lemma_only_execute_bits_matter<E>(before: Checks, mode: u32, header: [u8; 4])
    requires
        header@ == seq![0x7Fu8, 0x45u8, 0x4Cu8, 0x46u8],
    ensures
        exec_permitted(mode) <==> mode & 0o111u32 != 0,
        ({
            let (r, after) = verdict(before, Ok::<bool, E>(true), Ok::<bool, E>(true), Ok::<u32, E>(mode), Ok::<Option<[u8; 4]>, E>(Some(header)));
            &&& r == Ok::<bool, E>(mode & 0o111u32 != 0)
            &&& after.exist && after.is_file
            &&& after.is_exe == (mode & 0o111u32 != 0)
        }),
{
}

/// Each flag that a settled validation records says whether its stage
/// passed: `exist` that the path exists, `is_file` that it is moreover a
/// regular file, and `is_exe` the result itself.
pub proof fn lemma_flags_record_passed_stages<E>(
    before: Checks,
    exists: Result<bool, E>,
    is_file: Result<bool, E>,
    mode: Result<u32, E>,
    header: Result<Option<[u8; 4]>, E>,
)
    ensures
        ({
            let (r, after) = verdict(before, exists, is_file, mode, header);
            r matches Ok(b) ==> {
                &&& after.exist == (exists == Ok::<bool, E>(true))
                &&& after.is_file == (exists == Ok::<bool, E>(true) && is_file == Ok::<bool, E>(true))
                &&& after.is_exe == b
            }
        }),
{
}

/// Validation reports an error exactly when a question that it asked was
/// answered with an error, and then keeps the flags it held.
pub proof fn lemma_errors_come_from_reads<E>(
    before: Checks,
    exists: Result<bool, E>,
    is_file: Result<bool, E>,
    mode: Result<u32, E>,
    header: Result<Option<[u8; 4]>, E>,
)
    ensures
        ({
            let (r, after) = verdict(before, exists, is_file, mode, header);
            &&& r is Err <==> {
                ||| exists is Err
                ||| exists == Ok::<bool, E>(true) && is_file is Err
                ||| exists == Ok::<bool, E>(true) && is_file == Ok::<bool, E>(true) && mode is Err
                ||| exists == Ok::<bool, E>(true) && is_file == Ok::<bool, E>(true) && mode is Ok
                    && exec_permitted(mode->Ok_0) && header is Err
            }
            &&& r is Err ==> after == before
        }),
{
}

/// Validation stops at the first failing stage: the answers to the later
/// questions do not change its result or its flags.
pub proof fn lemma_verdict_short_circuits<E>(
    before: Checks,
    exists: Result<bool, E>,
    is_file: Result<bool, E>,
    mode: Result<u32, E>,
    header: Result<Option<[u8; 4]>, E>,
    other_is_file: Result<bool, E>,
    other_mode: Result<u32, E>,
    other_header: Result<Option<[u8; 4]>, E>,
)
    ensures
        exists != Ok::<bool, E>(true) ==> verdict(before, exists, is_file, mode, header) == verdict(
            before,
            exists,
            other_is_file,
            other_mode,
            other_header,
        ),
        exists == Ok::<bool, E>(true) && is_file != Ok::<bool, E>(true) ==> verdict(
            before,
            exists,
            is_file,
            mode,
            header,
        ) == verdict(before, exists, is_file, other_mode, other_header),
        (exists == Ok::<bool, E>(true) && is_file == Ok::<bool, E>(true) && mode is Ok
            && !exec_permitted(mode->Ok_0)) ==> verdict(before, exists, is_file, mode, header)
            == verdict(before, exists, is_file, mode, other_header),
{
}

/// Validating again against an unchanged file system gives the same result
/// and leaves the same flags.
pub proof fn lemma_revalidation_is_stable<E>(
    before: Checks,
    exists: Result<bool, E>,
    is_file: Result<bool, E>,
    mode: Result<u32, E>,
    header: Result<Option<[u8; 4]>, E>,
)
    ensures
        ({
            let first = verdict(before, exists, is_file, mode, header);
            verdict(first.1, exists, is_file, mode, header) == first
        }),
{
}

/// A question that validation asks about the file system, one per stage.
#[derive(Clone, Copy, Debug, PartialEq, Eq, Structural)]
pub enum Question {
    /// Does the path name an existing entry? An error means that this can
    /// be neither confirmed nor denied.
    Exists,
    /// Is that entry a regular file (from its metadata)?
    IsFile,
    /// The permission mode from the entry's metadata.
    Mode,
    /// The first four bytes of the file (`None` when it cannot give four),
    /// or the error of opening it.
    Header,
}

/// The answers that the caller has read from the file system so far, one
/// slot per [`Question`]; `None` where the question has not been answered.
pub struct Answers<E> {
    pub exists: Option<Result<bool, E>>,
    pub is_file: Option<Result<bool, E>>,
    pub mode: Option<Result<u32, E>>,
    pub header: Option<Result<Option<[u8; 4]>, E>>,
}

/// What [`ExecutablePath::verify`] asks for next: the answer to a question
/// (with the answers given back), or the settled result of validation.
pub enum Step<E> {
    Ask(Question, Answers<E>),
    Done(Result<bool, E>),
}

/// Answers to no question.
pub open spec fn no_answers<E>() -> Answers<E> {
    Answers { exists: None, is_file: None, mode: None, header: None }
}

impl<E> Answers<E> {
    /// Answers to no question, to start a validation.
    pub fn new() -> (r: Self)
        ensures
            r == no_answers::<E>(),
    {
        Answers { exists: None, is_file: None, mode: None, header: None }
    }
}

/// The question validation asks next: the first stage that the answers do
/// not settle, or `None` when the answers settle the result.
pub open spec fn next_question<E>(a: Answers<E>) -> Option<Question> {
    match a.exists {
        None => Some(Question::Exists),
        Some(Err(_)) | Some(Ok(false)) => None,
        Some(Ok(true)) => match a.is_file {
            None => Some(Question::IsFile),
            Some(Err(_)) | Some(Ok(false)) => None,
            Some(Ok(true)) => match a.mode {
                None => Some(Question::Mode),
                Some(Err(_)) => None,
                Some(Ok(m)) => if !exec_permitted(m) {
                    None
                } else {
                    match a.header {
                        None => Some(Question::Header),
                        Some(_) => None,
                    }
                },
            },
        },
    }
}

/// The result and flags that the answers call for once they settle
/// validation (slots left unanswered are not consulted).
pub open spec fn outcome<E>(before: Checks, a: Answers<E>) -> (Result<bool, E>, Checks) {
    verdict(before, a.exists->Some_0, a.is_file->Some_0, a.mode->Some_0, a.header->Some_0)
}

/// The answers `a` with the answer to `q` taken from a file system whose
/// state gives the answers `exists`, `is_file`, `mode` and `header`.
pub open spec fn answer_from<E>(
    a: Answers<E>,
    q: Question,
    exists: Result<bool, E>,
    is_file: Result<bool, E>,
    mode: Result<u32, E>,
    header: Result<Option<[u8; 4]>, E>,
) -> Answers<E> {
    match q {
        Question::Exists => Answers { exists: Some(exists), ..a },
        Question::IsFile => Answers { is_file: Some(is_file), ..a },
        Question::Mode => Answers { mode: Some(mode), ..a },
        Question::Header => Answers { header: Some(header), ..a },
    }
}

/// The answers after at most `rounds` questions, each answered from the
/// file system state, starting from `a`.
pub open spec fn answer_rounds<E>(
    a: Answers<E>,
    exists: Result<bool, E>,
    is_file: Result<bool, E>,
    mode: Result<u32, E>,
    header: Result<Option<[u8; 4]>, E>,
    rounds: nat,
) -> Answers<E>
    decreases rounds,
{
    if rounds == 0 {
        a
    } else {
        match next_question(a) {
            None => a,
            Some(q) => answer_rounds(
                answer_from(a, q, exists, is_file, mode, header),
                exists,
                is_file,
                mode,
                header,
                (rounds - 1) as nat,
            ),
        }
    }
}

/// Questions come in the order of the stages: each is asked only when the
/// earlier stages have passed, and only while it is unanswered. So the file
/// is only opened (`Header`) once it is known to be a regular file with an
/// execute bit.
pub proof fn lemma_questions_follow_stages<E>(a: Answers<E>)
    ensures
        next_question(a) == Some(Question::Exists) ==> a.exists is None,
        next_question(a) == Some(Question::IsFile) ==> a.exists == Some(Ok::<bool, E>(true))
            && a.is_file is None,
        next_question(a) == Some(Question::Mode) ==> a.exists == Some(Ok::<bool, E>(true))
            && a.is_file == Some(Ok::<bool, E>(true)) && a.mode is None,
        next_question(a) == Some(Question::Header) ==> {
            &&& a.exists == Some(Ok::<bool, E>(true))
            &&& a.is_file == Some(Ok::<bool, E>(true))
            &&& a.mode matches Some(Ok(m)) && exec_permitted(m)
            &&& a.header is None
        },
{
}

/// Answering each question from one state of the file system, starting
/// with no answers, validation settles after at most four questions, on the
/// result and flags that this state calls for.
pub proof fn lemma_questions_settle_on_file_system<E>(
    before: Checks,
    exists: Result<bool, E>,
    is_file: Result<bool, E>,
    mode: Result<u32, E>,
    header: Result<Option<[u8; 4]>, E>,
)
    ensures
        ({
            let settled = answer_rounds(no_answers::<E>(), exists, is_file, mode, header, 4);
            &&& next_question(settled) is None
            &&& outcome(before, settled) == verdict(before, exists, is_file, mode, header)
        }),
{
    reveal_with_fuel(answer_rounds, 5);
}

/// The execution stage's next move: ask for the mode or the header (given
/// back with the question), or its settled result.
enum ExeCheck<E> {
    Ask(Question, Option<Result<u32, E>>, Option<Result<Option<[u8; 4]>, E>>),
    Done(Result<bool, E>),
}

/// A validation criterion that a path did not meet.
#[derive(Clone, Copy, Debug, PartialEq, Eq, Structural)]
pub enum FailedCheck {
    /// The path does not name an existing entry.
    Missing,
    /// The entry is not a regular file.
    NotAFile,
    /// The file is not an executable ELF binary.
    NotExecutable,
}

/// The criteria whose flag is unset, in the order exist, is_file, is_exe.
pub open spec fn failed_checks_of(c: Checks) -> Seq<FailedCheck> {
    (if c.exist { seq![] } else { seq![FailedCheck::Missing] })
        + (if c.is_file { seq![] } else { seq![FailedCheck::NotAFile] })
        + (if c.is_exe { seq![] } else { seq![FailedCheck::NotExecutable] })
}

/// A candidate binary path and the flags recorded by its last validation.
#[derive(Debug, Clone)]
pub struct ExecutablePath {
    /// The target file system path, as the bytes of the operating system's
    /// path (not necessarily UTF-8).
    pub inner: Vec<u8>,
    exist: bool,
    is_file: bool,
    is_exe: bool,
}

impl ExecutablePath {
    /// The path held in `inner`.
    pub closed spec fn target(&self) -> Vec<u8> {
        self.inner
    }

    /// The flags recorded by the last validation.
    pub closed spec fn checks(&self) -> Checks {
        Checks { exist: self.exist, is_file: self.is_file, is_exe: self.is_exe }
    }

    /// Creates a candidate for `path`, with no criterion checked yet.
    pub fn new(path: &[u8]) -> (r: Self)
        ensures
            r.target()@ == path@,
            r.checks() == no_checks(),
    {
        ExecutablePath {
            inner: vstd::slice::slice_to_vec(path),
            exist: false,
            is_file: false,
            is_exe: false,
        }
    }

    /// Advances the validation of the target path on the answers read from
    /// the file system so far.
    ///
    /// When the answers do not settle the result it returns
    /// [`Step::Ask`] with the next question and the answers, and changes
    /// nothing: the caller reads the answer, records it and calls again.
    /// Questions come in stage order, and validation stops at the first
    /// failing stage with `Ok(false)`:
    /// 1. the path does not exist (no flag set);
    /// 2. it is not a regular file (only `exist` set);
    /// 3. it has no execute bit, or its first four bytes are not the ELF
    ///    magic number (`exist` and `is_file` set).
    ///
    /// It settles on `Ok(true)` with every flag set when all stages pass. A
    /// read that failed (existence that can be neither confirmed nor denied,
    /// the metadata, opening the file) settles it on that error, with the
    /// flags left as they were.
    pub fn verify<E>(&mut self, answers: Answers<E>) -> (r: Step<E>)
        ensures
            final(self).target() == old(self).target(),
            match next_question(answers) {
                Some(q) => r == Step::Ask(q, answers) && *final(self) == *old(self),
                None => {
                    let (res, after) = outcome(old(self).checks(), answers);
                    r == Step::<E>::Done(res) && final(self).checks() == after
                },
            },
            r matches Step::Done(Ok(b)) ==> b == final(self).checks().is_exe
                && final(self).checks().consistent(),
            r matches Step::Done(Err(_)) ==> final(self).checks() == old(self).checks(),
            old(self).checks().consistent() ==> final(self).checks().consistent(),
    {
        let Answers { exists, is_file, mode, header } = answers;
        let exist = match exists {
            None => return Step::Ask(Question::Exists, Answers { exists: None, is_file, mode, header }),
            Some(Err(e)) => return Step::Done(Err(e)),
            Some(Ok(b)) => b,
        };
        if !exist {
            self.exist = false;
            self.is_file = false;
            self.is_exe = false;
            return Step::Done(Ok(false));
        }
        let file = match is_file {
            None => return Step::Ask(
                Question::IsFile,
                Answers { exists: Some(Ok(true)), is_file: None, mode, header },
            ),
            Some(Err(e)) => return Step::Done(Err(e)),
            Some(Ok(b)) => b,
        };
        if !file {
            self.exist = true;
            self.is_file = false;
            self.is_exe = false;
            return Step::Done(Ok(false));
        }
        match Self::is_exe(mode, header) {
            ExeCheck::Ask(q, mode, header) => Step::Ask(
                q,
                Answers { exists: Some(Ok(true)), is_file: Some(Ok(true)), mode, header },
            ),
            ExeCheck::Done(Ok(x)) => {
                self.exist = true;
                self.is_file = true;
                self.is_exe = x;
                Step::Done(Ok(x))
            },
            ExeCheck::Done(Err(e)) => Step::Done(Err(e)),
        }
    }

    /// Evaluates the permission bits against `0o111` and, when one is set,
    /// checks the first four bytes of the file against the ELF magic number;
    /// asks for the mode, then the header, while they are unanswered.
    fn is_exe<E>(
        mode: Option<Result<u32, E>>,
        header: Option<Result<Option<[u8; 4]>, E>>,
    ) -> (r: ExeCheck<E>)
        ensures
            ({
                let a = Answers { exists: Some(Ok(true)), is_file: Some(Ok(true)), mode, header };
                match next_question(a) {
                    Some(q) => r == ExeCheck::Ask(q, mode, header),
                    None => r == ExeCheck::Done(exe_verdict(mode->Some_0, header->Some_0)),
                }
            }),
    {
        let m = match mode {
            None => return ExeCheck::Ask(Question::Mode, None, header),
            Some(Err(e)) => return ExeCheck::Done(Err(e)),
            Some(Ok(m)) => m,
        };
        if m & EXEC_BITS == 0 {
            return ExeCheck::Done(Ok(false));
        }
        match header {
            None => ExeCheck::Ask(Question::Header, Some(Ok(m)), None),
            Some(Err(e)) => ExeCheck::Done(Err(e)),
            Some(Ok(None)) => ExeCheck::Done(Ok(false)),
            Some(Ok(Some(bytes))) => {
                let elf = bytes[0] == 0x7Fu8 && bytes[1] == 0x45u8 && bytes[2] == 0x4Cu8 && bytes[3] == 0x46u8;
                assert(elf <==> bytes@ =~= elf_magic()) by {
                    if bytes@ == elf_magic() {
                        assert(bytes@[0] == 0x7Fu8 && bytes@[1] == 0x45u8);
                        assert(bytes@[2] == 0x4Cu8 && bytes@[3] == 0x46u8);
                    }
                }
                ExeCheck::Done(Ok(elf))
            },
        }
    }

    /// The target path as bytes.
    pub fn as_bytes(&self) -> (r: &[u8])
        ensures
            r@ == self.target()@,
    {
        self.inner.as_slice()
    }

    /// The criteria that the recorded flags report as failed, one entry per
    /// unset flag, for diagnostics.
    pub fn failed_checks(&self) -> (r: Vec<FailedCheck>)
        ensures
            r@ == failed_checks_of(self.checks()),
    {
        let mut failed: Vec<FailedCheck> = Vec::new();
        if !self.exist {
            failed.push(FailedCheck::Missing);
        }
        if !self.is_file {
            failed.push(FailedCheck::NotAFile);
        }
        if !self.is_exe {
            failed.push(FailedCheck::NotExecutable);
        }
        assert(failed@ =~= failed_checks_of(self.checks()));
        failed
    }
}

} // verus!
