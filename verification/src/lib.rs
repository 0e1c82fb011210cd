//! Pypnir sandbox library.
//!
//! [`Sandbox`] is the isolation environment in which a target binary runs.
//! It is only obtained through [`SandboxBuilder`], which validates the target
//! (see [`setup::path`]) before it hands out a sandbox.
pub mod setup;

use setup::path::{
    Answers, Checks, ExecutablePath, Question, Step, next_question,
    outcome, verdict,
};
use vstd::prelude::*;
use vstd::utf8::valid_utf8;

verus! {

/// Flags of a path that passed every validation criterion.
pub open spec fn all_checks() -> Checks {
    Checks { exist: true, is_file: true, is_exe: true }
}

/// The isolation environment for executing a validated target binary.
#[derive(Debug)]
pub struct Sandbox {
    /// Path to the validated executable.
    path: ExecutablePath,
}

/// Why [`SandboxBuilder::build`] refused to build a sandbox.
#[derive(Debug)]
pub enum BuildError {
    /// No executable path was set.
    PathRequired,
    /// The path failed validation; it carries the recorded flags.
    NotExecutable(ExecutablePath),
    /// Reading the metadata or opening the file failed.
    AccessFailed,
}

/// The message of each build error.
pub open spec fn build_error_message(e: BuildError) -> Seq<char> {
    match e {
        BuildError::PathRequired => "Executable path is required"@,
        BuildError::NotExecutable(_) => "Provided path is not a valid executable file"@,
        BuildError::AccessFailed => "Failed to access or read executable path"@,
    }
}

impl BuildError {
    /// The message that describes this error.
    pub fn message(&self) -> (r: &'static str)
        ensures
            r@ == build_error_message(*self),
    {
        match self {
            BuildError::PathRequired => "Executable path is required",
            BuildError::NotExecutable(_) => "Provided path is not a valid executable file",
            BuildError::AccessFailed => "Failed to access or read executable path",
        }
    }
}

/// A builder that configures and validates the target of a [`Sandbox`].
pub struct SandboxBuilder {
    /// Target executable, validated during [`build`](Self::build).
    path: Option<ExecutablePath>,
}

impl SandboxBuilder {
    /// The configured target, if any.
    pub closed spec fn pending(&self) -> Option<ExecutablePath> {
        self.path
    }
}

impl Default for SandboxBuilder {
    fn default() -> (r: Self)
        ensures
            r.pending() is None,
    {
        SandboxBuilder { path: None }
    }
}

/// The build result `r` is the one owed for the target `p` whose validation
/// returned `res` and left the flags `after`.
pub open spec fn built_from<E>(
    p: ExecutablePath,
    res: Result<bool, E>,
    after: Checks,
    r: Result<Sandbox, BuildError>,
) -> bool {
    match res {
        Ok(true) => r matches Ok(sb) && sb.target() == p.target() && sb.checks() == after,
        Ok(false) => r matches Err(BuildError::NotExecutable(q)) && q.target() == p.target()
            && q.checks() == after,
        Err(_) => r matches Err(BuildError::AccessFailed),
    }
}

impl SandboxBuilder {
    /// Creates a builder with no target.
    pub fn new() -> (r: Self)
        ensures
            r.pending() is None,
    {
        Self::default()
    }

    /// Sets the target executable path, replacing any earlier one; the new
    /// target has no criterion checked yet.
    pub fn path(self, path: &[u8]) -> (r: Self)
        ensures
            r.pending() matches Some(p) && p.target()@ == path@ && p.checks()
                == setup::path::no_checks(),
    {
        let mut b = self;
        b.path = Some(ExecutablePath::new(path));
        b
    }

    /// The configured target path, which the questions of
    /// [`build`](Self::build) are about.
    pub fn configured_path(&self) -> (r: Option<&[u8]>)
        ensures
            r is Some <==> self.pending() is Some,
            r matches Some(s) ==> s@ == self.pending()->Some_0.target()@,
    {
        match &self.path {
            Some(p) => Some(p.as_bytes()),
            None => None,
        }
    }

    /// Consumes the builder, validates the target on the answers read so far
    /// and builds a [`Sandbox`].
    ///
    /// While validation needs another answer it returns [`Building::Ask`]
    /// with the question, the answers and the builder unchanged (see
    /// [`ExecutablePath::verify`]). Otherwise it fails with
    /// [`BuildError::PathRequired`] when no target was set,
    /// [`BuildError::NotExecutable`] when validation settles on `Ok(false)`,
    /// and [`BuildError::AccessFailed`] when it settles on an error.
    pub fn build<E>(self, answers: Answers<E>) -> (r: Building<E>)
        ensures
            self.pending() is None ==> r matches Building::Finished(Err(BuildError::PathRequired)),
            self.pending() matches Some(p) ==> match next_question(answers) {
                Some(q) => r == Building::Ask(q, answers, self),
                None => {
                    let (res, after) = outcome(p.checks(), answers);
                    r matches Building::Finished(f) && built_from(p, res, after, f)
                },
            },
    {
        let mut exec_path = match self.path {
            Some(p) => p,
            None => return Building::Finished(Err(BuildError::PathRequired)),
        };
        match exec_path.verify(answers) {
            Step::Ask(q, answers) => Building::Ask(q, answers, SandboxBuilder { path: Some(exec_path) }),
            Step::Done(Ok(true)) => Building::Finished(Ok(Sandbox { path: exec_path })),
            Step::Done(Ok(false)) => Building::Finished(Err(BuildError::NotExecutable(exec_path))),
            Step::Done(Err(_)) => Building::Finished(Err(BuildError::AccessFailed)),
        }
    }
}

/// What [`SandboxBuilder::build`] asks for next: the answer to a question
/// about the target (with the answers and the builder given back), or the
/// finished build.
pub enum Building<E> {
    Ask(Question, Answers<E>, SandboxBuilder),
    Finished(Result<Sandbox, BuildError>),
}

impl Sandbox {
    /// A sandbox only ever holds a target that passed validation.
    #[verifier::type_invariant]
    spec fn validated(self) -> bool {
        self.path.checks() == all_checks()
    }

    /// The path of the target executable.
    pub closed spec fn target(&self) -> Vec<u8> {
        self.path.target()
    }

    /// The flags recorded by the validation of the target.
    pub closed spec fn checks(&self) -> Checks {
        self.path.checks()
    }

    /// Creates a new [`SandboxBuilder`], the entry point for setting up a sandbox.
    pub fn setup() -> (r: SandboxBuilder)
        ensures
            r.pending() is None,
    {
        SandboxBuilder::new()
    }

    /// The path of the target executable, which passed validation.
    pub fn path(&self) -> (r: &[u8])
        ensures
            r@ == self.target()@,
            self.checks() == all_checks(),
    {
        proof {
            use_type_invariant(self);
        }
        self.path.as_bytes()
    }

    /// The program that running the sandbox executes: the validated file
    /// itself, named from the working directory when the path is relative.
    /// `None` when the path is not UTF-8, which is not run.
    pub fn command_path(&self) -> (r: Option<Vec<u8>>)
        ensures
            r is Some <==> valid_utf8(self.target()@),
            r matches Some(program) ==> program@ == program_path(self.target()@),
    {
        let target = self.path.as_bytes();
        if !is_utf8(target) {
            return None;
        }
        let mut program: Vec<u8> = Vec::new();
        if target.len() == 0 || target[0] != 0x2Fu8 {
            program.push(0x2Eu8);
            program.push(0x2Fu8);
        }
        let ghost prefix = program@;
        let mut i: usize = 0;
        while i < target.len()
            invariant
                i <= target@.len(),
                program@ == prefix + target@.subrange(0, i as int),
            decreases target@.len() - i,
        {
            program.push(target[i]);
            i = i + 1;
            assert(program@ =~= prefix + target@.subrange(0, i as int));
        }
        assert(target@.subrange(0, target@.len() as int) =~= target@);
        Some(program)
    }
}

/// The program that runs the file at `target`: the path itself when it is
/// absolute (begins with `/`), otherwise the path behind `./`.
pub open spec fn program_path(target: Seq<u8>) -> Seq<u8> {
    if target.len() > 0 && target[0] == 0x2Fu8 {
        target
    } else {
        seq![0x2Eu8, 0x2Fu8] + target
    }
}

/// `std::str::from_utf8`, which succeeds exactly when `bytes` is valid
/// UTF-8 (its documentation); the contract states that with vstd's
/// definition of valid UTF-8.
#[verifier::external_body]
fn is_utf8(bytes: &[u8]) -> (r: bool)
    ensures
        r == valid_utf8(bytes@),
{
    std::str::from_utf8(bytes).is_ok()
}

/// A built sandbox keeps exactly the path that was configured, and is only
/// built when validation returned `Ok(true)`.
pub proof fn lemma_sandbox_keeps_configured_path<E>(
    p: ExecutablePath,
    path: Seq<u8>,
    res: Result<bool, E>,
    after: Checks,
    r: Result<Sandbox, BuildError>,
)
    requires
        p.target()@ == path,
        built_from(p, res, after, r),
    ensures
        r matches Ok(sb) ==> sb.target()@ == path,
        r is Ok <==> res == Ok::<bool, E>(true),
{
}

/// The program named to run a sandbox is always the validated file, never a
/// bare name that would be looked up in `PATH`: an absolute target is run as
/// it is, any other target behind `./`, so the program starts with `/` or
/// `./` and ends with the target.
pub proof fn lemma_program_is_the_target(target: Seq<u8>)
    ensures
        target.len() > 0 && target[0] == 0x2Fu8 ==> program_path(target) == target,
        !(target.len() > 0 && target[0] == 0x2Fu8) ==> program_path(target) == seq![0x2Eu8, 0x2Fu8]
            + target,
        ({
            let program = program_path(target);
            &&& program.len() > 0
            &&& program[0] == 0x2Fu8 || (program.len() >= 2 && program[0] == 0x2Eu8 && program[1]
                == 0x2Fu8)
            &&& program.len() >= target.len()
            &&& program.subrange(program.len() - target.len(), program.len() as int) == target
        }),
{
    let program = program_path(target);
    if target.len() > 0 && target[0] == 0x2Fu8 {
        assert(program.subrange(0, program.len() as int) =~= target);
    } else {
        assert(program.subrange(2, program.len() as int) =~= target);
    }
}

/// A build reports an access failure exactly when validation settled on an
/// error, and that the target is not executable exactly when validation
/// settled on `Ok(false)`, whatever flags it recorded; the refused target is
/// the configured path.
pub proof fn lemma_build_errors_follow_validation<E>(
    p: ExecutablePath,
    res: Result<bool, E>,
    after: Checks,
    r: Result<Sandbox, BuildError>,
)
    requires
        built_from(p, res, after, r),
    ensures
        r matches Err(BuildError::AccessFailed) <==> res is Err,
        (r matches Err(BuildError::NotExecutable(q)) && q.target() == p.target()) <==> res
            == Ok::<bool, E>(false),
        r is Ok <==> res == Ok::<bool, E>(true),
        !(r matches Err(BuildError::PathRequired)),
{
}

/// When every read about the target succeeds, a build never reports an
/// access failure: a readable regular file without an execute bit or
/// without the ELF magic number is refused as not executable.
pub proof fn lemma_successful_reads_never_fail_access<E>(
    p: ExecutablePath,
    exists: bool,
    is_file: bool,
    mode: u32,
    header: Option<[u8; 4]>,
    r: Result<Sandbox, BuildError>,
)
    requires
        ({
            let (res, after) = verdict(
                p.checks(),
                Ok::<bool, E>(exists),
                Ok::<bool, E>(is_file),
                Ok::<u32, E>(mode),
                Ok::<Option<[u8; 4]>, E>(header),
            );
            built_from(p, res, after, r)
        }),
    ensures
        !(r matches Err(BuildError::AccessFailed)),
        exists && is_file && mode & 0o111u32 == 0 ==> (r matches Err(BuildError::NotExecutable(q))
            && q.target() == p.target()),
{
}

/// When the questions are answered from one state of the file system, the
/// build finishes after at most four questions, and hands out a sandbox
/// exactly when the configured path names an existing regular file with an
/// execute bit whose first four bytes are the ELF magic number.
pub proof fn lemma_build_follows_file_system<E>(
    p: ExecutablePath,
    r: Result<Sandbox, BuildError>,
    exists: Result<bool, E>,
    is_file: Result<bool, E>,
    mode: Result<u32, E>,
    header: Result<Option<[u8; 4]>, E>,
)
    requires
        ({
            let settled = setup::path::answer_rounds(
                setup::path::no_answers::<E>(),
                exists,
                is_file,
                mode,
                header,
                4,
            );
            let (res, after) = outcome(p.checks(), settled);
            built_from(p, res, after, r)
        }),
    ensures
        next_question(
            setup::path::answer_rounds(setup::path::no_answers::<E>(), exists, is_file, mode, header, 4),
        ) is None,
        r is Ok <==> {
            &&& exists == Ok::<bool, E>(true)
            &&& is_file == Ok::<bool, E>(true)
            &&& mode matches Ok(m) && m & 0o111u32 != 0
            &&& header matches Ok(Some(bytes)) && bytes@ == seq![0x7Fu8, 0x45u8, 0x4Cu8, 0x46u8]
        },
        r matches Ok(sb) ==> sb.target() == p.target(),
{
    setup::path::lemma_questions_settle_on_file_system(p.checks(), exists, is_file, mode, header);
    setup::path::lemma_accepts_exactly_elf_executables(p.checks(), exists, is_file, mode, header);
}

} // verus!
