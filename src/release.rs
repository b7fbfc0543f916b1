//! Releasing a managed file: the cleanup policy and the once-only sequence
//! that closes the handle and, where the policy says so, removes the file.
use std::io;
use vstd::prelude::*;

verus! {

/// Whether a managed file is removed when it is released.
#[derive(Debug, Clone, Copy, PartialEq, Eq, Structural)]
pub enum Delete {
    Yes,
    No,
    IfEmptyOnDrop,
}

impl Default for Delete {
    fn default() -> (r: Delete)
        ensures
            r == Delete::IfEmptyOnDrop,
    {
        Delete::IfEmptyOnDrop
    }
}

/// A failure while releasing a file; it reaches only the release callback.
#[derive(Debug)]
pub enum DropError {
    Metadata(io::Error),
    Deleting(io::Error),
}

/// An operation on the file that the release sequence asks for.
#[derive(Debug, Clone, Copy, PartialEq, Eq, Structural)]
pub enum FileOp {
    Close,
    Remove,
}

/// What the caller is to do next while releasing.
#[derive(Debug)]
pub enum ReleaseAction {
    /// Read the file's length on disk, then call `on_metadata`.
    Inspect,
    /// Hand the error to the release callback, then call `on_reported`.
    Report(DropError),
    /// Close the handle, then call `on_closed`.
    Close,
    /// Remove the file, then call `on_removed`.
    Remove,
    /// Nothing is left to do.
    Stop,
}

/// Whether a policy removes the file, given its length where it was read.
pub open spec fn removes(policy: Delete, len: u64) -> bool {
    match policy {
        Delete::Yes => true,
        Delete::No => false,
        Delete::IfEmptyOnDrop => len == 0,
    }
}

impl Delete {
    /// Whether this policy needs the file's length on disk to decide.
    pub fn needs_metadata(&self) -> (r: bool)
        ensures
            r == (*self == Delete::IfEmptyOnDrop),
    {
        match self {
            Delete::IfEmptyOnDrop => true,
            _ => false,
        }
    }

    /// Whether the file is to be removed, given its length on disk, or the
    /// failure to read it (which is handed back).
    pub fn should_delete(&self, len: Result<u64, io::Error>) -> (r: Result<bool, io::Error>)
        ensures
            match self {
                Delete::Yes => r == Ok::<bool, io::Error>(true),
                Delete::No => r == Ok::<bool, io::Error>(false),
                Delete::IfEmptyOnDrop => match len {
                    Ok(n) => r == Ok::<bool, io::Error>(n == 0),
                    Err(e) => r == Err::<bool, io::Error>(e),
                },
            },
    {
        match self {
            Delete::Yes => Ok(true),
            Delete::No => Ok(false),
            Delete::IfEmptyOnDrop => match len {
                Ok(n) => Ok(n == 0),
                Err(e) => Err(e),
            },
        }
    }
}

#[derive(Debug, Clone, Copy, PartialEq, Eq, Structural)]
enum Stage {
    Inspecting,
    ReportingMetadata,
    Closing,
    Removing,
    ReportingRemoval,
    Stopped,
}

/// The release of one managed file.
pub struct Release {
    policy: Delete,
    stage: Stage,
    remove_after_close: bool,
    log: Ghost<Seq<FileOp>>,
    observed: Ghost<Option<u64>>,
    inspection_failed: Ghost<bool>,
    removal_failed: Ghost<bool>,
}

impl Release {
    pub closed spec fn policy(&self) -> Delete {
        self.policy
    }

    /// The file operations asked for so far, in order.
    pub closed spec fn log(&self) -> Seq<FileOp> {
        self.log@
    }

    /// The length on disk that was read, where it was read.
    pub closed spec fn observed(&self) -> Option<u64> {
        self.observed@
    }

    /// Whether reading the length on disk failed.
    pub closed spec fn inspection_failed(&self) -> bool {
        self.inspection_failed@
    }

    /// Whether removing the file failed.
    pub closed spec fn removal_failed(&self) -> bool {
        self.removal_failed@
    }

    pub closed spec fn awaiting_metadata(&self) -> bool {
        self.stage == Stage::Inspecting
    }

    pub closed spec fn awaiting_report(&self) -> bool {
        self.stage == Stage::ReportingMetadata || self.stage == Stage::ReportingRemoval
    }

    pub closed spec fn awaiting_close(&self) -> bool {
        self.stage == Stage::Closing
    }

    pub closed spec fn awaiting_removal(&self) -> bool {
        self.stage == Stage::Removing
    }

    pub closed spec fn stopped(&self) -> bool {
        self.stage == Stage::Stopped
    }

    /// The state that the caller reaches by doing what `action` asks.
    pub open spec fn follows(&self, action: ReleaseAction) -> bool {
        match action {
            ReleaseAction::Inspect => self.awaiting_metadata(),
            ReleaseAction::Report(_) => self.awaiting_report(),
            ReleaseAction::Close => self.awaiting_close(),
            ReleaseAction::Remove => self.awaiting_removal(),
            ReleaseAction::Stop => self.stopped(),
        }
    }

    /// Whether the file is to be removed: the policy says so on the length
    /// that was read, and reading it did not fail.
    pub open spec fn removal_due(&self) -> bool {
        !self.inspection_failed() && match self.policy() {
            Delete::Yes => true,
            Delete::No => false,
            Delete::IfEmptyOnDrop => self.observed() == Some(0u64),
        }
    }

    pub closed spec fn wf(&self) -> bool {
        &&& (self.policy != Delete::IfEmptyOnDrop ==> self.observed@ is None && !self.inspection_failed@)
        &&& (self.inspection_failed@ ==> self.observed@ is None)
        &&& (self.stage != Stage::Inspecting && self.policy == Delete::IfEmptyOnDrop ==> self.observed@ is Some
            || self.inspection_failed@)
        &&& (self.removal_failed@ ==> self.removal_due() && self.log@ == seq![FileOp::Close, FileOp::Remove])
        &&& match self.stage {
            Stage::Inspecting => self.policy == Delete::IfEmptyOnDrop && self.observed@ is None
                && !self.inspection_failed@ && self.log@ == Seq::<FileOp>::empty(),
            Stage::ReportingMetadata => self.inspection_failed@ && self.log@ == Seq::<FileOp>::empty(),
            Stage::Closing => self.log@ == Seq::<FileOp>::empty()
                && self.remove_after_close == self.removal_due()
                && (self.policy == Delete::IfEmptyOnDrop && !self.inspection_failed@ ==> self.observed@ is Some),
            Stage::Removing => self.removal_due() && self.log@ == seq![FileOp::Close],
            Stage::ReportingRemoval => self.removal_failed@,
            Stage::Stopped => if self.removal_due() {
                self.log@ == seq![FileOp::Close, FileOp::Remove]
            } else {
                self.log@ == seq![FileOp::Close]
            },
        }
    }

    /// Starts releasing a file under `policy`: a policy that depends on the
    /// file's length asks for it first; the others go straight to closing.
    pub fn begin(policy: Delete) -> (r: (Release, ReleaseAction))
        ensures
            r.0.wf(),
            r.0.policy() == policy,
            r.0.log() == Seq::<FileOp>::empty(),
            r.0.follows(r.1),
            if policy == Delete::IfEmptyOnDrop { r.1 is Inspect } else { r.1 is Close },
    {
        let stage = if policy.needs_metadata() { Stage::Inspecting } else { Stage::Closing };
        let remove_after_close = match policy {
            Delete::Yes => true,
            _ => false,
        };
        let release = Release {
            policy,
            stage,
            remove_after_close,
            log: Ghost(Seq::empty()),
            observed: Ghost(None),
            inspection_failed: Ghost(false),
            removal_failed: Ghost(false),
        };
        let action = if policy.needs_metadata() { ReleaseAction::Inspect } else { ReleaseAction::Close };
        (release, action)
    }

    /// The length on disk, or the failure to read it. A failure is reported
    /// and the file is then closed without removal.
    pub fn on_metadata(&mut self, len: Result<u64, io::Error>) -> (r: ReleaseAction)
        requires
            old(self).wf(),
            old(self).awaiting_metadata(),
        ensures
            final(self).wf(),
            final(self).follows(r),
            final(self).policy() == old(self).policy(),
            final(self).log() == old(self).log(),
            match len {
                Ok(n) => r is Close && final(self).observed() == Some(n) && !final(self).inspection_failed(),
                Err(e) => r == ReleaseAction::Report(DropError::Metadata(e))
                    && final(self).inspection_failed(),
            },
    {
        match self.policy.should_delete(len) {
            Ok(remove) => {
                proof {
                    let n = len->Ok_0;
                    self.observed = Ghost(Some(n));
                }
                self.remove_after_close = remove;
                self.stage = Stage::Closing;
                ReleaseAction::Close
            },
            Err(e) => {
                proof {
                    self.inspection_failed = Ghost(true);
                }
                self.stage = Stage::ReportingMetadata;
                ReleaseAction::Report(DropError::Metadata(e))
            },
        }
    }

    /// The error was handed to the callback. After a failed inspection the
    /// file is closed; after a failed removal nothing is left to do.
    pub fn on_reported(&mut self) -> (r: ReleaseAction)
        requires
            old(self).wf(),
            old(self).awaiting_report(),
        ensures
            final(self).wf(),
            final(self).follows(r),
            final(self).policy() == old(self).policy(),
            final(self).log() == old(self).log(),
            final(self).observed() == old(self).observed(),
            final(self).inspection_failed() == old(self).inspection_failed(),
            final(self).removal_failed() == old(self).removal_failed(),
            old(self).removal_failed() ==> r is Stop,
            !old(self).removal_failed() ==> r is Close,
    {
        match self.stage {
            Stage::ReportingMetadata => {
                self.remove_after_close = false;
                self.stage = Stage::Closing;
                ReleaseAction::Close
            },
            _ => {
                self.stage = Stage::Stopped;
                ReleaseAction::Stop
            },
        }
    }

    /// The handle was closed. The file is removed next if that is due.
    pub fn on_closed(&mut self) -> (r: ReleaseAction)
        requires
            old(self).wf(),
            old(self).awaiting_close(),
        ensures
            final(self).wf(),
            final(self).follows(r),
            final(self).policy() == old(self).policy(),
            final(self).log() == old(self).log().push(FileOp::Close),
            final(self).observed() == old(self).observed(),
            final(self).inspection_failed() == old(self).inspection_failed(),
            final(self).removal_failed() == old(self).removal_failed(),
            if old(self).removal_due() { r is Remove } else { r is Stop },
    {
        proof {
            self.log = Ghost(self.log@.push(FileOp::Close));
            assert(self.log@ =~= seq![FileOp::Close]);
        }
        if self.remove_after_close {
            self.stage = Stage::Removing;
            ReleaseAction::Remove
        } else {
            self.stage = Stage::Stopped;
            ReleaseAction::Stop
        }
    }

    /// The outcome of removing the file; a failure is reported, and the
    /// sequence stops either way.
    pub fn on_removed(&mut self, removed: Result<(), io::Error>) -> (r: ReleaseAction)
        requires
            old(self).wf(),
            old(self).awaiting_removal(),
        ensures
            final(self).wf(),
            final(self).follows(r),
            final(self).policy() == old(self).policy(),
            final(self).log() == old(self).log().push(FileOp::Remove),
            final(self).observed() == old(self).observed(),
            final(self).inspection_failed() == old(self).inspection_failed(),
            match removed {
                Ok(_) => r is Stop && !final(self).removal_failed(),
                Err(e) => r == ReleaseAction::Report(DropError::Deleting(e)) && final(self).removal_failed(),
            },
    {
        proof {
            self.log = Ghost(self.log@.push(FileOp::Remove));
            assert(self.log@ =~= seq![FileOp::Close, FileOp::Remove]);
        }
        match removed {
            Ok(()) => {
                self.stage = Stage::Stopped;
                ReleaseAction::Stop
            },
            Err(e) => {
                proof {
                    self.removal_failed = Ghost(true);
                }
                self.stage = Stage::ReportingRemoval;
                ReleaseAction::Report(DropError::Deleting(e))
            },
        }
    }
}

/// Once a release has stopped, the handle was closed exactly once, the file
/// was removed at most once and only after the close, and removal was asked
/// for exactly when it was due, whether or not reading the length or
/// removing the file failed.
pub proof fn lemma_single_release(r: Release)
    requires
        r.wf(),
        r.stopped(),
    ensures
        r.log() == seq![FileOp::Close] || r.log() == seq![FileOp::Close, FileOp::Remove],
        r.log().contains(FileOp::Remove) == r.removal_due(),
{
    if r.removal_due() {
        assert(r.log()[1] == FileOp::Remove);
    } else {
        assert(r.log().len() == 1);
        assert(r.log()[0] == FileOp::Close);
        assert(!r.log().contains(FileOp::Remove)) by {
            if r.log().contains(FileOp::Remove) {
                let i = choose|i: int| 0 <= i < r.log().len() && r.log()[i] == FileOp::Remove;
                assert(i == 0);
            }
        }
    }
}

/// Under the default policy, a file found empty at release is removed, one
/// found to hold at least one byte is kept, and one whose length could not be
/// read is kept.
pub proof fn lemma_empty_cleanup(r: Release)
    requires
        r.wf(),
        r.stopped(),
        r.policy() == Delete::IfEmptyOnDrop,
    ensures
        r.observed() == Some(0u64) ==> r.log() == seq![FileOp::Close, FileOp::Remove],
        r.observed() matches Some(n) && n > 0 ==> r.log() == seq![FileOp::Close],
        r.inspection_failed() ==> r.log() == seq![FileOp::Close],
        r.observed() is Some || r.inspection_failed(),
{
}

} // verus!
