//! The copy driver: the decisions of one transfer from a chunked byte source
//! into a sink, as a state machine. The caller performs each request (acquire
//! a permit, fetch a chunk, write, flush) and hands the outcome back.
use crate::progress::DlProgress;
use std::io;
use std::path::Path;
use vstd::prelude::*;

verus! {

/// Where a transfer stands.
#[derive(Debug, Clone, Copy, PartialEq, Eq, Structural)]
pub enum Phase {
    AcquiringPermit,
    AwaitingSource,
    Draining,
    Flushing,
    Done,
    Failed,
}

/// A notification for the progress sink.
#[derive(Debug, Clone, Copy, PartialEq, Eq, Structural)]
pub enum Notice {
    Start(Option<u64>),
    Update(u64),
    Finished,
}

/// Why a transfer stopped early.
#[derive(Debug)]
pub enum CopyError {
    Source(io::Error),
    Write(io::Error),
    Flush(io::Error),
}

impl CopyError {
    /// The underlying I/O error, whichever side it came from.
    pub fn into_io_error(self) -> (r: io::Error)
        ensures
            r == match self {
                CopyError::Source(e) => e,
                CopyError::Write(e) => e,
                CopyError::Flush(e) => e,
            },
    {
        match self {
            CopyError::Source(e) => e,
            CopyError::Write(e) => e,
            CopyError::Flush(e) => e,
        }
    }
}

/// What the caller is to do next.
#[derive(Debug)]
pub enum Request {
    /// Wait for a permit of the admission gate, then call `permit_acquired`.
    AcquirePermit,
    /// Fetch the next item of the source, then call `on_chunk`.
    NextChunk,
    /// Write (a prefix of) `unwritten()` to the sink, then call `on_write`.
    Write,
    /// Flush the sink, then call `on_flush`.
    Flush,
    /// The transfer is complete; the value is the number of bytes copied.
    Done(u64),
    /// The transfer failed; bytes already written stay in the sink.
    Failed(CopyError),
}

/// The outcome of one call: at most one notice, and the next request.
#[derive(Debug)]
pub struct Step {
    pub notice: Option<Notice>,
    pub request: Request,
}

/// The phase that a request leads to.
pub open spec fn phase_after(request: Request) -> Phase {
    match request {
        Request::AcquirePermit => Phase::AcquiringPermit,
        Request::NextChunk => Phase::AwaitingSource,
        Request::Write => Phase::Draining,
        Request::Flush => Phase::Flushing,
        Request::Done(_) => Phase::Done,
        Request::Failed(_) => Phase::Failed,
    }
}

/// Every value strictly below each later one.
pub open spec fn strictly_increasing(s: Seq<u64>) -> bool {
    forall|i: int, j: int| 0 <= i < j < s.len() ==> s[i] < s[j]
}

/// State of one transfer.
pub struct CopyDriver {
    phase: Phase,
    declared: Option<u64>,
    pending: Vec<u8>,
    cursor: usize,
    bytes_copied: u64,
    source: Ghost<Seq<u8>>,
    updates: Ghost<Seq<u64>>,
}

impl CopyDriver {
    pub closed spec fn phase(&self) -> Phase {
        self.phase
    }

    /// The size declared by the caller, reported with `start`.
    pub closed spec fn declared(&self) -> Option<u64> {
        self.declared
    }

    /// The concatenation of every chunk received so far.
    pub closed spec fn source(&self) -> Seq<u8> {
        self.source@
    }

    /// The number of bytes committed to the sink.
    pub closed spec fn copied(&self) -> nat {
        self.bytes_copied as nat
    }

    /// The values passed to `update`, in order.
    pub closed spec fn updates(&self) -> Seq<u64> {
        self.updates@
    }

    /// The bytes received but not yet written.
    pub open spec fn backlog(&self) -> Seq<u8> {
        self.source().subrange(self.copied() as int, self.source().len() as int)
    }

    pub closed spec fn wf(&self) -> bool {
        &&& self.cursor <= self.pending@.len()
        &&& self.bytes_copied <= self.source@.len()
        &&& self.source@.subrange(self.bytes_copied as int, self.source@.len() as int)
            == self.pending@.subrange(self.cursor as int, self.pending@.len() as int)
        &&& (self.phase == Phase::Draining ==> self.cursor < self.pending@.len())
        &&& (self.phase != Phase::Draining && self.phase != Phase::Failed ==> self.cursor
            == self.pending@.len())
        &&& strictly_increasing(self.updates@)
        &&& (self.updates@.len() == 0 <==> self.bytes_copied == 0)
        &&& (self.updates@.len() > 0 ==> self.updates@.last() == self.bytes_copied)
    }

    /// Starts a transfer of a source whose size may be declared. A gated
    /// transfer first asks for a permit; otherwise it starts at once.
    pub fn new(gated: bool, declared: Option<u64>) -> (r: (CopyDriver, Step))
        ensures
            r.0.wf(),
            r.0.declared() == declared,
            r.0.source() == Seq::<u8>::empty(),
            r.0.copied() == 0,
            r.0.updates() == Seq::<u64>::empty(),
            r.0.phase() == phase_after(r.1.request),
            gated ==> r.1.notice is None && r.1.request is AcquirePermit,
            !gated ==> r.1.notice == Some(Notice::Start(declared)) && r.1.request is NextChunk,
    {
        let driver = CopyDriver {
            phase: if gated { Phase::AcquiringPermit } else { Phase::AwaitingSource },
            declared,
            pending: Vec::new(),
            cursor: 0,
            bytes_copied: 0,
            source: Ghost(Seq::empty()),
            updates: Ghost(Seq::empty()),
        };
        proof {
            assert(driver.pending@.subrange(0, 0) =~= Seq::<u8>::empty());
            assert(driver.source@.subrange(0, 0) =~= Seq::<u8>::empty());
        }
        let step = if gated {
            Step { notice: None, request: Request::AcquirePermit }
        } else {
            Step { notice: Some(Notice::Start(declared)), request: Request::NextChunk }
        };
        (driver, step)
    }

    /// The permit was granted: the transfer starts.
    pub fn permit_acquired(&mut self) -> (r: Step)
        requires
            old(self).wf(),
            old(self).phase() == Phase::AcquiringPermit,
        ensures
            final(self).wf(),
            final(self).phase() == Phase::AwaitingSource,
            final(self).declared() == old(self).declared(),
            final(self).source() == old(self).source(),
            final(self).copied() == old(self).copied(),
            final(self).updates() == old(self).updates(),
            r.notice == Some(Notice::Start(old(self).declared())),
            r.request is NextChunk,
    {
        self.phase = Phase::AwaitingSource;
        Step { notice: Some(Notice::Start(self.declared)), request: Request::NextChunk }
    }

    /// One item of the source: the end of it, a failure, or a chunk. An empty
    /// chunk is skipped; a failure ends the transfer at once.
    pub fn on_chunk(&mut self, item: Option<Result<Vec<u8>, io::Error>>) -> (r: Step)
        requires
            old(self).wf(),
            old(self).phase() == Phase::AwaitingSource,
        ensures
            final(self).wf(),
            final(self).phase() == phase_after(r.request),
            final(self).declared() == old(self).declared(),
            final(self).copied() == old(self).copied(),
            final(self).updates() == old(self).updates(),
            r.notice is None,
            match item {
                None => final(self).source() == old(self).source() && r.request is Flush,
                Some(Err(e)) => final(self).source() == old(self).source()
                    && r.request == Request::Failed(CopyError::Source(e)),
                Some(Ok(chunk)) => final(self).source() == old(self).source() + chunk@
                    && (if chunk@.len() == 0 { r.request is NextChunk } else { r.request is Write }),
            },
    {
        match item {
            None => {
                self.phase = Phase::Flushing;
                Step { notice: None, request: Request::Flush }
            },
            Some(Err(e)) => {
                self.phase = Phase::Failed;
                Step { notice: None, request: Request::Failed(CopyError::Source(e)) }
            },
            Some(Ok(chunk)) => {
                let ghost before = self.source@;
                proof {
                    assert(self.pending@.subrange(self.cursor as int, self.pending@.len() as int).len() == 0);
                    assert(before.subrange(self.bytes_copied as int, before.len() as int).len() == 0);
                }
                if chunk.len() == 0 {
                    proof {
                        assert(before + chunk@ =~= before);
                    }
                    Step { notice: None, request: Request::NextChunk }
                } else {
                    self.pending = chunk;
                    self.cursor = 0;
                    self.source = Ghost(before + self.pending@);
                    self.phase = Phase::Draining;
                    proof {
                        assert(self.source@.subrange(self.bytes_copied as int, self.source@.len() as int)
                            =~= self.pending@.subrange(0, self.pending@.len() as int));
                    }
                    Step { notice: None, request: Request::Write }
                }
            },
        }
    }

    /// The bytes to hand to the sink next.
    pub fn unwritten(&self) -> (r: &[u8])
        requires
            self.wf(),
            self.phase() == Phase::Draining,
        ensures
            r@ == self.backlog(),
            r@.len() > 0,
    {
        vstd::slice::slice_subrange(self.pending.as_slice(), self.cursor, self.pending.len())
    }

    /// The number of bytes committed to the sink so far.
    pub fn bytes_copied(&self) -> (r: u64)
        ensures
            r == self.copied(),
    {
        self.bytes_copied
    }

    /// The sink accepted a prefix of `unwritten()` of the given length, or failed.
    /// A write that advanced reports the new total; one of zero bytes reports nothing.
    pub fn on_write(&mut self, written: Result<usize, io::Error>) -> (r: Step)
        requires
            old(self).wf(),
            old(self).phase() == Phase::Draining,
            written matches Ok(n) ==> n <= old(self).backlog().len()
                && old(self).copied() + n <= u64::MAX,
        ensures
            final(self).wf(),
            final(self).phase() == phase_after(r.request),
            final(self).declared() == old(self).declared(),
            final(self).source() == old(self).source(),
            match written {
                Err(e) => final(self).copied() == old(self).copied()
                    && final(self).updates() == old(self).updates()
                    && r.notice is None
                    && r.request == Request::Failed(CopyError::Write(e)),
                Ok(n) => final(self).copied() == old(self).copied() + n
                    && (if n == 0 {
                        final(self).updates() == old(self).updates() && r.notice is None
                    } else {
                        final(self).updates() == old(self).updates().push(final(self).copied() as u64)
                        && r.notice == Some(Notice::Update(final(self).copied() as u64))
                    })
                    && (if final(self).copied() == old(self).source().len() {
                        r.request is NextChunk
                    } else {
                        r.request is Write
                    }),
            },
    {
        match written {
            Err(e) => {
                self.phase = Phase::Failed;
                Step { notice: None, request: Request::Failed(CopyError::Write(e)) }
            },
            Ok(n) => {
                let ghost old_pending = self.pending@;
                let ghost old_copied = self.bytes_copied as int;
                let ghost old_tail = self.pending@.subrange(self.cursor as int, self.pending@.len() as int);
                proof {
                    assert(old_tail.len() == self.backlog().len());
                    assert(n <= self.backlog().len());
                    assert(old_tail =~= self.source@.subrange(old_copied, self.source@.len() as int));
                }
                let pending_len = self.pending.len();
                proof {
                    assert(self.cursor + n <= pending_len);
                }
                let notice = if n > 0 {
                    self.cursor = self.cursor + n;
                    self.bytes_copied = self.bytes_copied + n as u64;
                    self.updates = Ghost(self.updates@.push(self.bytes_copied));
                    Some(Notice::Update(self.bytes_copied))
                } else {
                    None
                };
                proof {
                    let src = self.source@;
                    assert forall|k: int| 0 <= k < src.len() - self.bytes_copied implies
                        #[trigger] src.subrange(self.bytes_copied as int, src.len() as int)[k]
                        == old_pending.subrange(self.cursor as int, old_pending.len() as int)[k] by {
                        assert(old_tail[k + n] == src.subrange(old_copied, src.len() as int)[k + n]);
                    }
                    assert(src.subrange(self.bytes_copied as int, src.len() as int)
                        =~= old_pending.subrange(self.cursor as int, old_pending.len() as int));
                    assert forall|i: int, j: int| 0 <= i < j < self.updates@.len()
                        implies self.updates@[i] < self.updates@[j] by {
                        if j == self.updates@.len() - 1 && n > 0 {
                            if i < j - 1 {
                                assert(self.updates@[i] < self.updates@[j - 1]);
                            }
                        }
                    }
                }
                if self.cursor == self.pending.len() {
                    self.pending = Vec::new();
                    self.cursor = 0;
                    self.phase = Phase::AwaitingSource;
                    proof {
                        assert(self.source@.subrange(self.bytes_copied as int, self.source@.len() as int)
                            =~= Seq::<u8>::empty());
                        assert(self.pending@.subrange(0, 0) =~= Seq::<u8>::empty());
                    }
                    Step { notice, request: Request::NextChunk }
                } else {
                    Step { notice, request: Request::Write }
                }
            },
        }
    }

    /// The outcome of the final flush. Only a successful flush completes the
    /// transfer and reports `finished`.
    pub fn on_flush(&mut self, flushed: Result<(), io::Error>) -> (r: Step)
        requires
            old(self).wf(),
            old(self).phase() == Phase::Flushing,
        ensures
            final(self).wf(),
            final(self).phase() == phase_after(r.request),
            final(self).declared() == old(self).declared(),
            final(self).source() == old(self).source(),
            final(self).copied() == old(self).copied(),
            final(self).updates() == old(self).updates(),
            match flushed {
                Ok(_) => r.notice == Some(Notice::Finished)
                    && r.request == Request::Done(old(self).copied() as u64),
                Err(e) => r.notice is None && r.request == Request::Failed(CopyError::Flush(e)),
            },
    {
        match flushed {
            Ok(()) => {
                self.phase = Phase::Done;
                Step { notice: Some(Notice::Finished), request: Request::Done(self.bytes_copied) }
            },
            Err(e) => {
                self.phase = Phase::Failed;
                Step { notice: None, request: Request::Failed(CopyError::Flush(e)) }
            },
        }
    }
} // impl CopyDriver

/// Passes a notice to the progress sink as the matching call.
pub fn notify<P: DlProgress + ?Sized>(progress: &mut P, path: &Path, notice: Notice) {
    match notice {
        Notice::Start(total_bytes) => progress.start(path, total_bytes),
        Notice::Update(bytes_written) => progress.update(path, bytes_written),
        Notice::Finished => progress.finished(path),
    }
}

/// Running total of the bytes that a writer handed to the sink.
#[derive(Debug)]
pub struct WriteCounter {
    written: u64,
}

impl WriteCounter {
    pub closed spec fn total(&self) -> nat {
        self.written as nat
    }

    pub fn new() -> (r: WriteCounter)
        ensures
            r.total() == 0,
    {
        WriteCounter { written: 0 }
    }

    pub fn written(&self) -> (r: u64)
        ensures
            r == self.total(),
    {
        self.written
    }

    /// Adds one write of `count` bytes; a write that advanced yields the new
    /// total to report, one of zero bytes yields nothing.
    pub fn record(&mut self, count: usize) -> (r: Option<u64>)
        requires
            old(self).total() + count <= u64::MAX,
        ensures
            final(self).total() == old(self).total() + count,
            count == 0 ==> r is None,
            count > 0 ==> r == Some(final(self).total() as u64),
    {
        self.written = self.written + count as u64;
        if count > 0 {
            Some(self.written)
        } else {
            None
        }
    }
}

/// In every state of a transfer, the values reported through `update`
/// strictly increase and the last one is the number of bytes committed.
/// Once the transfer is done every byte received has been committed, so the
/// last value reported is the total size of the source, where that is not 0.
pub proof fn lemma_progress_monotonic(d: CopyDriver)
    requires
        d.wf(),
    ensures
        strictly_increasing(d.updates()),
        d.updates().len() > 0 ==> d.updates().last() == d.copied(),
        d.copied() <= d.source().len(),
        d.phase() == Phase::Done ==> d.copied() == d.source().len(),
        d.phase() == Phase::Done && d.source().len() > 0 ==> d.updates().len() > 0
            && d.updates().last() == d.source().len(),
{
    if d.phase() == Phase::Done {
        assert(d.pending@.subrange(d.cursor as int, d.pending@.len() as int).len() == 0);
        assert(d.source@.subrange(d.bytes_copied as int, d.source@.len() as int).len() == 0);
    }
}

} // verus!
