//! Progress reporting: the three-call sink interface and its adapters.
use std::path::Path;
use std::sync::atomic::AtomicBool;
use std::sync::atomic::AtomicU64;
use std::sync::atomic::Ordering::Relaxed;
use std::sync::Arc;
use vstd::prelude::*;

verus! {

/// Receives the notifications of one transfer: `start` once, `update` with the
/// running byte count after every write that advanced, and `finished` once after
/// a successful flush.
pub trait DlProgress: Send {
    fn start(&mut self, path: &Path, total_bytes: Option<u64>);

    fn update(&mut self, path: &Path, bytes_written: u64);

    fn finished(&mut self, path: &Path);
}

impl<'a, P: DlProgress + ?Sized> DlProgress for &'a mut P {
    fn start(&mut self, path: &Path, total_bytes: Option<u64>) {
        (**self).start(path, total_bytes)
    }

    fn update(&mut self, path: &Path, bytes_written: u64) {
        (**self).update(path, bytes_written)
    }

    fn finished(&mut self, path: &Path) {
        (**self).finished(path)
    }
}

impl<P: DlProgress + ?Sized> DlProgress for Box<P> {
    fn start(&mut self, path: &Path, total_bytes: Option<u64>) {
        (**self).start(path, total_bytes)
    }

    fn update(&mut self, path: &Path, bytes_written: u64) {
        (**self).update(path, bytes_written)
    }

    fn finished(&mut self, path: &Path) {
        (**self).finished(path)
    }
}

impl<P> DlProgress for Arc<P> where P: Send + Sync + ?Sized, for<'a> &'a P: DlProgress {
    fn start(&mut self, path: &Path, total_bytes: Option<u64>) {
        let mut shared: &P = &**self;
        shared.start(path, total_bytes)
    }

    fn update(&mut self, path: &Path, bytes_written: u64) {
        let mut shared: &P = &**self;
        shared.update(path, bytes_written)
    }

    fn finished(&mut self, path: &Path) {
        let mut shared: &P = &**self;
        shared.finished(path)
    }
}

/// A context value and callbacks over it. `start_fn` and `finish_fn` run at most
/// once each; `update_fn` runs on every update.
#[derive(Debug)]
pub struct ProgressContainer<
    Ctx,
    S = fn(&mut Ctx, &Path, Option<u64>),
    U = fn(&mut Ctx, &Path, u64),
    F = fn(&mut Ctx, &Path),
> {
    ctx: Ctx,
    start_fn: Option<S>,
    update_fn: U,
    finish_fn: Option<F>,
}

impl<Ctx, S, U, F> ProgressContainer<Ctx, S, U, F> {
    pub closed spec fn context(&self) -> Ctx {
        self.ctx
    }

    /// Whether the start callback has not run yet.
    pub closed spec fn start_pending(&self) -> bool {
        self.start_fn is Some
    }

    /// Whether the finish callback has not run yet.
    pub closed spec fn finish_pending(&self) -> bool {
        self.finish_fn is Some
    }

    pub fn new(ctx: Ctx, start_fn: S, update_fn: U, finish_fn: F) -> (r: Self)
        ensures
            r.context() == ctx,
            r.start_pending(),
            r.finish_pending(),
    {
        ProgressContainer { ctx, start_fn: Some(start_fn), update_fn, finish_fn: Some(finish_fn) }
    }
}

/// Relies on the caller-supplied start callback, whose code this library does not see.
#[verifier::external_body]
fn call_start_mut<Ctx, S: FnOnce(&mut Ctx, &Path, Option<u64>)>(
    f: S,
    ctx: &mut Ctx,
    path: &Path,
    total_bytes: Option<u64>,
) {
    f(ctx, path, total_bytes)
}

/// Relies on the caller-supplied update callback, whose code this library does not see.
#[verifier::external_body]
fn call_update_mut<Ctx, U: FnMut(&mut Ctx, &Path, u64)>(
    f: &mut U,
    ctx: &mut Ctx,
    path: &Path,
    bytes_written: u64,
) {
    f(ctx, path, bytes_written)
}

/// Relies on the caller-supplied finish callback, whose code this library does not see.
#[verifier::external_body]
fn call_finish_mut<Ctx, F: FnOnce(&mut Ctx, &Path)>(f: F, ctx: &mut Ctx, path: &Path) {
    f(ctx, path)
}

impl<Ctx, S, U, F> DlProgress for ProgressContainer<Ctx, S, U, F> where
    S: FnOnce(&mut Ctx, &Path, Option<u64>) + Send,
    U: FnMut(&mut Ctx, &Path, u64) + Send,
    F: FnOnce(&mut Ctx, &Path) + Send,
    Ctx: Send,
 {
    fn start(&mut self, path: &Path, total_bytes: Option<u64>) {
        if let Some(start_fn) = self.start_fn.take() {
            call_start_mut(start_fn, &mut self.ctx, path, total_bytes);
        }
    }

    fn update(&mut self, path: &Path, bytes_written: u64) {
        call_update_mut(&mut self.update_fn, &mut self.ctx, path, bytes_written);
    }

    fn finished(&mut self, path: &Path) {
        if let Some(finish_fn) = self.finish_fn.take() {
            call_finish_mut(finish_fn, &mut self.ctx, path);
        }
    }
}

/// Relies on the caller-supplied start callback, whose code this library does not see.
#[verifier::external_body]
fn call_start_ref<Ctx, S: Fn(&Ctx, &Path, Option<u64>)>(
    f: &S,
    ctx: &Ctx,
    path: &Path,
    total_bytes: Option<u64>,
) {
    f(ctx, path, total_bytes)
}

/// Relies on the caller-supplied update callback, whose code this library does not see.
#[verifier::external_body]
fn call_update_ref<Ctx, U: Fn(&Ctx, &Path, u64)>(
    f: &U,
    ctx: &Ctx,
    path: &Path,
    bytes_written: u64,
) {
    f(ctx, path, bytes_written)
}

/// Relies on the caller-supplied finish callback, whose code this library does not see.
#[verifier::external_body]
fn call_finish_ref<Ctx, F: Fn(&Ctx, &Path)>(f: &F, ctx: &Ctx, path: &Path) {
    f(ctx, path)
}

impl<'a, Ctx, S, U, F> DlProgress for &'a ProgressContainer<Ctx, S, U, F> where
    Ctx: Sync,
    S: Fn(&Ctx, &Path, Option<u64>) + Sync,
    U: Fn(&Ctx, &Path, u64) + Sync,
    F: Fn(&Ctx, &Path) + Sync,
 {
    fn start(&mut self, path: &Path, total_bytes: Option<u64>) {
        if let Some(start_fn) = &self.start_fn {
            call_start_ref(start_fn, &self.ctx, path, total_bytes);
        }
    }

    fn update(&mut self, path: &Path, bytes_written: u64) {
        call_update_ref(&self.update_fn, &self.ctx, path, bytes_written);
    }

    fn finished(&mut self, path: &Path) {
        if let Some(finish_fn) = &self.finish_fn {
            call_finish_ref(finish_fn, &self.ctx, path);
        }
    }
}

/// Coarse phase of a transfer as seen by a concurrent observer.
#[derive(Debug, Clone, Copy, PartialEq, Eq, PartialOrd, Ord, Hash)]
pub enum DlState {
    Starting,
    Running,
    Finished,
}

/// The phase that a finished flag and a byte count describe: finished wins,
/// then a zero count means nothing has been written yet.
pub open spec fn state_of(finished: bool, bytes_written: u64) -> DlState {
    if finished {
        DlState::Finished
    } else if bytes_written == 0 {
        DlState::Starting
    } else {
        DlState::Running
    }
}

/// The declared total as stored in the shared counter, where 0 stands for unknown.
pub open spec fn total_of(raw: u64) -> Option<u64> {
    if raw == 0 {
        None
    } else {
        Some(raw)
    }
}

impl DlState {
    /// The phase described by a finished flag and a byte count.
    pub fn from_counts(finished: bool, bytes_written: u64) -> (r: DlState)
        ensures
            r == state_of(finished, bytes_written),
    {
        if finished {
            DlState::Finished
        } else if bytes_written == 0 {
            DlState::Starting
        } else {
            DlState::Running
        }
    }
}

/// Reads a stored total: 0 means that no total was declared.
pub fn total_from_raw(raw: u64) -> (r: Option<u64>)
    ensures
        r == total_of(raw),
{
    if raw == 0 {
        None
    } else {
        Some(raw)
    }
}

/// Merges a reported byte count into the largest one seen so far, so that
/// updates arriving out of order never make the count go back.
pub fn merge_written(seen: u64, reported: u64) -> (r: u64)
    ensures
        r >= seen,
        r >= reported,
        r == seen || r == reported,
{
    if seen > reported {
        seen
    } else {
        reported
    }
}

/// Progress state shared between the transfer and any number of readers.
#[derive(Debug)]
pub struct ProgressHandleShared {
    total_bytes: AtomicU64,
    bytes_written: AtomicU64,
    finished: AtomicBool,
}

impl ProgressHandleShared {
    /// The phase derived from the finished flag and the byte count, each read once.
    /// Other threads may change them in between, so the result is one of the
    /// three phases with no further promise.
    pub fn state(&self) -> (r: DlState) {
        let finished = self.is_finished();
        let written = self.get_bytes_written();
        DlState::from_counts(finished, written)
    }

    pub fn is_finished(&self) -> bool {
        self.finished.load(Relaxed)
    }

    pub fn get_bytes_written(&self) -> u64 {
        self.bytes_written.load(Relaxed)
    }

    /// The declared total, or `None` where none (or 0) was declared.
    pub fn get_total_bytes(&self) -> (r: Option<u64>)
        ensures
            r matches Some(t) ==> t > 0,
    {
        let raw = self.total_bytes.load(Relaxed);
        total_from_raw(raw)
    }
}

/// A progress sink whose counters can be read from other threads while the
/// transfer runs; `on_update` sees every notification with the merged counts.
#[derive(Debug)]
pub struct ProgressHandle<F: Fn(&Path, u64, Option<u64>, DlState) = fn(&Path, u64, Option<u64>, DlState)> {
    shared: Arc<ProgressHandleShared>,
    on_update: F,
}

impl<F: Fn(&Path, u64, Option<u64>, DlState)> ProgressHandle<F> {
    #[verifier::type_invariant]
    spec fn callback_total(self) -> bool {
        forall|p: &Path, w: u64, t: Option<u64>, s: DlState| self.on_update.requires((p, w, t, s))
    }

    /// The callback must accept every notification.
    pub fn new(on_update: F) -> (r: Self)
        requires
            forall|p: &Path, w: u64, t: Option<u64>, s: DlState| on_update.requires((p, w, t, s)),
    {
        ProgressHandle {
            shared: Arc::new(
                ProgressHandleShared {
                    total_bytes: AtomicU64::new(0),
                    bytes_written: AtomicU64::new(0),
                    finished: AtomicBool::new(false),
                },
            ),
            on_update,
        }
    }

    /// The state that readers observe; every clone of it sees the same counters.
    pub closed spec fn shared_state(&self) -> Arc<ProgressHandleShared> {
        self.shared
    }

    pub fn shared(&self) -> (r: &Arc<ProgressHandleShared>)
        ensures
            r == self.shared_state(),
    {
        &self.shared
    }
}

impl<'a, F: Fn(&Path, u64, Option<u64>, DlState) + Sync> DlProgress for &'a ProgressHandle<F> {
    fn start(&mut self, path: &Path, total_bytes: Option<u64>) {
        proof {
            use_type_invariant(&**self);
        }
        if let Some(total) = total_bytes {
            self.shared.total_bytes.store(total, Relaxed);
        }
        (self.on_update)(path, 0, total_bytes, DlState::Starting);
    }

    fn update(&mut self, path: &Path, bytes_written: u64) {
        proof {
            use_type_invariant(&**self);
        }
        let seen = self.shared.bytes_written.fetch_max(bytes_written, Relaxed);
        let max = merge_written(seen, bytes_written);
        (self.on_update)(path, max, self.shared.get_total_bytes(), DlState::Running);
    }

    fn finished(&mut self, path: &Path) {
        proof {
            use_type_invariant(&**self);
        }
        self.shared.finished.store(true, Relaxed);
        (self.on_update)(
            path,
            self.shared.get_bytes_written(),
            self.shared.get_total_bytes(),
            DlState::Finished,
        );
    }
}

} // verus!
