//! Run outcomes: the child's termination, the error taxonomy, and the
//! launcher's own exit behaviour.

use vstd::prelude::*;

use crate::resolve::ResolveError;

verus! {

/// How the launched child ended: exit status zero, or a failure carrying the
/// exit code when one exists (none when a signal ended the child).
pub enum ProcessOutcome {
    Success,
    Failed { code: Option<i32> },
}

/// Maps a child's termination — whether it exited with status zero, and its
/// exit code if any — to the run's outcome.
pub fn outcome_of(exited_zero: bool, code: Option<i32>) -> (r: ProcessOutcome)
    ensures
        r is Success <==> exited_zero,
        !exited_zero ==> (r matches ProcessOutcome::Failed { code: c } && c == code),
{
    if exited_zero {
        ProcessOutcome::Success
    } else {
        ProcessOutcome::Failed { code }
    }
}

/// Everything that can end a run without a successful child exit.
pub enum RunError {
    /// The scratch directory could not be created.
    Scratch,
    /// The bundle could not be opened or read as an archive; `path` names it.
    ArchiveUnreadable { path: String },
    /// One archive entry could not be extracted; `entry` names it.
    Extract { entry: String },
    /// The chosen manifest file could not be read; `path` names it.
    ManifestUnreadable { path: String },
    /// Manifest or executable resolution failed.
    Resolve(ResolveError),
    /// The operating system refused to spawn the resolved executable.
    Spawn,
    /// Waiting on the spawned child failed.
    Wait,
    /// The child ran and ended without exit status zero.
    Child { code: Option<i32> },
}

/// The classes a failure is reported under: the user's environment, the
/// bundle's author, the launch itself, or the child's own failure.
#[derive(PartialEq, Eq, Structural, Clone, Copy, Debug)]
pub enum ErrorClass {
    Environment,
    Author,
    Launch,
    ChildFailure,
}

/// The class each failure belongs to.  A manifest missing from both
/// candidates, a manifest that yields no descriptor, and a missing declared
/// executable are the bundle author's fault; an unusable bundle path, an
/// unreadable archive and a failed scratch directory are the environment's;
/// a refused spawn or wait is a launch failure; a non-zero child is its own.
pub open spec fn class_of(e: RunError) -> ErrorClass {
    match e {
        RunError::Scratch => ErrorClass::Environment,
        RunError::ArchiveUnreadable { .. } => ErrorClass::Environment,
        RunError::Extract { .. } => ErrorClass::Environment,
        RunError::ManifestUnreadable { .. } => ErrorClass::Environment,
        RunError::Resolve(re) => match re {
            ResolveError::StemUnavailable => ErrorClass::Environment,
            ResolveError::NotFound { .. } => ErrorClass::Author,
            ResolveError::ParseError { .. } => ErrorClass::Author,
            ResolveError::ExecutableMissing { .. } => ErrorClass::Author,
        },
        RunError::Spawn => ErrorClass::Launch,
        RunError::Wait => ErrorClass::Launch,
        RunError::Child { .. } => ErrorClass::ChildFailure,
    }
}

impl RunError {
    /// Classifies the failure.
    pub fn classify(&self) -> (c: ErrorClass)
        ensures
            c == class_of(*self),
    {
        match self {
            RunError::Scratch => ErrorClass::Environment,
            RunError::ArchiveUnreadable { .. } => ErrorClass::Environment,
            RunError::Extract { .. } => ErrorClass::Environment,
            RunError::ManifestUnreadable { .. } => ErrorClass::Environment,
            RunError::Resolve(re) => match re {
                ResolveError::StemUnavailable => ErrorClass::Environment,
                ResolveError::NotFound { .. } => ErrorClass::Author,
                ResolveError::ParseError { .. } => ErrorClass::Author,
                ResolveError::ExecutableMissing { .. } => ErrorClass::Author,
            },
            RunError::Spawn => ErrorClass::Launch,
            RunError::Wait => ErrorClass::Launch,
            RunError::Child { .. } => ErrorClass::ChildFailure,
        }
    }
}

/// The advisory that flags an application-author failure as such.
pub open spec fn author_advisory() -> Seq<char> {
    " Developer errors are issues that need a developer. If you're not one of them, contact the developer of the app."@
}

/// The text a failure is reported with: what failed, the path involved, and
/// for the bundle author's faults the advisory that says whom to contact.
pub open spec fn message_spec(e: RunError) -> Seq<char> {
    match e {
        RunError::Scratch => "failed to create the scratch directory"@,
        RunError::ArchiveUnreadable { path } => "failed to open the bundle as an archive: "@
            + path@,
        RunError::Extract { entry } => "failed to extract archive entry: "@ + entry@,
        RunError::ManifestUnreadable { path } => "failed to read the manifest file: "@ + path@,
        RunError::Resolve(re) => match re {
            ResolveError::StemUnavailable => "failed to derive a stem from the bundle's file name"@,
            ResolveError::NotFound { checked } =>
                "macpack.toml not found in either the extracted folder or the fallback folder: "@
                + checked@,
            ResolveError::ParseError { path, .. } => "Developer Error: failed to parse "@ + path@
                + author_advisory(),
            ResolveError::ExecutableMissing { path } =>
                "Developer Error: executable declared in macpack.toml not found: "@ + path@
                + author_advisory(),
        },
        RunError::Spawn => "failed to launch the executable"@,
        RunError::Wait => "failed to wait for the launched process"@,
        RunError::Child { .. } => "the executable exited with a failure status"@,
    }
}

impl RunError {
    /// Renders the failure's report text.
    pub fn message(&self) -> (r: String)
        ensures
            r@ == message_spec(*self),
    {
        match self {
            RunError::Scratch => "failed to create the scratch directory".to_owned(),
            RunError::ArchiveUnreadable { path } => {
                let mut r = "failed to open the bundle as an archive: ".to_owned();
                r.append(path.as_str());
                r
            },
            RunError::Extract { entry } => {
                let mut r = "failed to extract archive entry: ".to_owned();
                r.append(entry.as_str());
                r
            },
            RunError::ManifestUnreadable { path } => {
                let mut r = "failed to read the manifest file: ".to_owned();
                r.append(path.as_str());
                r
            },
            RunError::Resolve(re) => match re {
                ResolveError::StemUnavailable => "failed to derive a stem from the bundle's file name".to_owned(),
                ResolveError::NotFound { checked } => {
                    let mut r =
                        "macpack.toml not found in either the extracted folder or the fallback folder: ".to_owned();
                    r.append(checked.as_str());
                    r
                },
                ResolveError::ParseError { path, .. } => {
                    let mut r = "Developer Error: failed to parse ".to_owned();
                    r.append(path.as_str());
                    r.append(
                        " Developer errors are issues that need a developer. If you're not one of them, contact the developer of the app.",
                    );
                    r
                },
                ResolveError::ExecutableMissing { path } => {
                    let mut r =
                        "Developer Error: executable declared in macpack.toml not found: ".to_owned();
                    r.append(path.as_str());
                    r.append(
                        " Developer errors are issues that need a developer. If you're not one of them, contact the developer of the app.",
                    );
                    r
                },
            },
            RunError::Spawn => "failed to launch the executable".to_owned(),
            RunError::Wait => "failed to wait for the launched process".to_owned(),
            RunError::Child { .. } => "the executable exited with a failure status".to_owned(),
        }
    }
}

/// The launcher's own exit code for a run: zero exactly on success, one on
/// any failure.
pub fn launcher_exit_code(r: &Result<(), RunError>) -> (c: i32)
    ensures
        c == 0 <==> r is Ok,
        r is Err ==> c == 1,
{
    match r {
        Ok(()) => 0,
        Err(_) => 1,
    }
}

/// The permission bits forced onto the resolved executable before launch:
/// read and execute for owner, group and other, and write for the owner —
/// `rwxr-xr-x`, regardless of what the archive carried.
pub fn normalized_mode() -> (m: u32)
    ensures
        m == 0o755u32,
        m & 0o100 == 0o100,
        m & 0o010 == 0o010,
        m & 0o001 == 0o001,
{
    proof {
        assert(0o755u32 & 0o100u32 == 0o100u32) by (bit_vector);
        assert(0o755u32 & 0o010u32 == 0o010u32) by (bit_vector);
        assert(0o755u32 & 0o001u32 == 0o001u32) by (bit_vector);
    }
    0o755u32
}

} // verus!
