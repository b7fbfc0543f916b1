//! Opening a destination: the three overwrite policies and what each one
//! decides from what is already on disk.
use std::io;
use vstd::prelude::*;

verus! {

/// What to do when the destination already exists.
#[derive(Debug, Clone, Copy, PartialEq, Eq, Structural)]
pub enum OverwriteBehavior {
    /// Create the file, truncating any existing one.
    Do,
    /// Create the file; fail if it exists.
    Dont,
    /// Truncate an existing empty file, create a missing one, and fail on a
    /// non-empty one.
    DoIfEmpty,
}

impl Default for OverwriteBehavior {
    fn default() -> (r: OverwriteBehavior)
        ensures
            r == OverwriteBehavior::DoIfEmpty,
    {
        OverwriteBehavior::DoIfEmpty
    }
}

/// How the file is to be opened for writing.
#[derive(Debug, Clone, Copy, PartialEq, Eq, Structural)]
pub enum OpenMode {
    /// Create it, or truncate it where it exists.
    Truncate,
    /// Create it; the open fails with an already-exists error where it exists.
    CreateNew,
}

/// The first thing to do when opening.
#[derive(Debug, Clone, Copy, PartialEq, Eq, Structural)]
pub enum OpenStep {
    Open(OpenMode),
    /// Read the length of what is on disk (absent counts as `None`), then
    /// call `plan_if_empty`.
    Inspect,
}

/// Why a destination could not be opened.
#[derive(Debug)]
pub enum OpenError {
    /// A non-empty file of this length is already there.
    AlreadyExists(u64),
    Io(io::Error),
}

impl OverwriteBehavior {
    pub fn first_step(&self) -> (r: OpenStep)
        ensures
            match self {
                OverwriteBehavior::Do => r == OpenStep::Open(OpenMode::Truncate),
                OverwriteBehavior::Dont => r == OpenStep::Open(OpenMode::CreateNew),
                OverwriteBehavior::DoIfEmpty => r == OpenStep::Inspect,
            },
    {
        match self {
            OverwriteBehavior::Do => OpenStep::Open(OpenMode::Truncate),
            OverwriteBehavior::Dont => OpenStep::Open(OpenMode::CreateNew),
            OverwriteBehavior::DoIfEmpty => OpenStep::Inspect,
        }
    }
}

/// The decision of `DoIfEmpty` on what is on disk: a missing or empty file is
/// (re)created, a non-empty one is refused with its length, and a failure to
/// look is handed back.
pub fn plan_if_empty(existing: Result<Option<u64>, io::Error>) -> (r: Result<OpenMode, OpenError>)
    ensures
        match existing {
            Ok(None) => r == Ok::<OpenMode, OpenError>(OpenMode::Truncate),
            Ok(Some(n)) => if n == 0 {
                r == Ok::<OpenMode, OpenError>(OpenMode::Truncate)
            } else {
                r == Err::<OpenMode, OpenError>(OpenError::AlreadyExists(n))
            },
            Err(e) => r == Err::<OpenMode, OpenError>(OpenError::Io(e)),
        },
{
    match existing {
        Ok(None) => Ok(OpenMode::Truncate),
        Ok(Some(n)) => {
            if n == 0 {
                Ok(OpenMode::Truncate)
            } else {
                Err(OpenError::AlreadyExists(n))
            }
        },
        Err(e) => Err(OpenError::Io(e)),
    }
}

} // verus!
