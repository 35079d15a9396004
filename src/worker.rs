use std::sync::mpsc::{Receiver, SyncSender, TryRecvError, TrySendError};
use vstd::prelude::*;

verus! {

#[verifier::external_type_specification]
#[verifier::external_body]
#[verifier::reject_recursive_types(T)]
pub struct ExSyncSender<T>(SyncSender<T>);

#[verifier::external_type_specification]
#[verifier::external_body]
#[verifier::reject_recursive_types(T)]
pub struct ExReceiver<T>(Receiver<T>);

/// Why a worker could not do what was asked of it.
#[derive(Debug, Clone, Copy, PartialEq, Eq, Structural)]
pub enum PlatformWorkerError {
    /// The worker's execution context has terminated.
    Disconnected,
    /// A message could not be posted to the worker.
    MessagePostFailed,
    /// The worker's execution context could not be created.
    SpawnFailed,
}

/// What is posted to the execution context of a worker.
pub enum Message<Args> {
    /// Stop waiting for work and end.
    Stop,
    /// Compute the result for these arguments.
    Process(Args),
}

/// What became of an attempt to post work without blocking.
enum SendOutcome {
    /// The work was handed over.
    Accepted,
    /// The worker could not take the work now.
    Full,
    /// The worker is gone.
    Disconnected,
}

/// What a poll for a result found, without blocking.
enum PollOutcome<Res> {
    /// A result was waiting.
    Ready(Res),
    /// No result yet.
    Empty,
    /// The worker is gone.
    Disconnected,
}

/// The contract of `send`, over whether the worker is busy before and after.
///
/// A busy worker refuses work with `Ok(false)` and stays busy. An idle
/// worker is busy afterwards exactly when it accepted the work (`Ok(true)`).
pub open spec fn send_post(
    busy_before: bool,
    busy_after: bool,
    r: Result<bool, PlatformWorkerError>,
) -> bool {
    if busy_before {
        r == Ok::<bool, PlatformWorkerError>(false) && busy_after
    } else {
        busy_after <==> r == Ok::<bool, PlatformWorkerError>(true)
    }
}

/// The contract of `results`, over whether the worker is busy before and
/// after.
///
/// A result comes only from a busy worker, which is idle afterwards; an
/// idle worker has nothing to hand out; when nothing comes the worker stays
/// as it was.
pub open spec fn results_post<Res>(
    busy_before: bool,
    busy_after: bool,
    r: Result<Option<Res>, PlatformWorkerError>,
) -> bool {
    &&& !busy_before ==> r == Ok::<Option<Res>, PlatformWorkerError>(None)
    &&& match r {
        Ok(Some(_)) => busy_before && !busy_after,
        _ => busy_after == busy_before,
    }
}

/// A worker that computes results from arguments, at most one at a time,
/// without blocking the caller.
pub trait ComputeWorker<Args, Res> {
    /// Whether a computation has been accepted and its result not yet taken.
    spec fn busy(&self) -> bool;

    /// The worker's own consistency, kept by every method.
    spec fn wf(&self) -> bool;

    /// The arguments of the last computation that was accepted.
    spec fn job(&self) -> Option<Args>;

    /// Whether the worker computes on the caller's thread, inside `send`:
    /// it then accepts all work when idle, and its result is ready at once.
    spec fn eager(&self) -> bool;

    /// Whether `r` may be the result of a computation on `a`, as far as the
    /// worker knows its function.
    spec fn computes(&self, a: Args, r: Res) -> bool;

    /// Hands over arguments for computation.
    fn send(&mut self, data: Args) -> (r: Result<bool, PlatformWorkerError>)
        requires
            old(self).wf(),
        ensures
            final(self).wf(),
            send_post(old(self).busy(), final(self).busy(), r),
            r == Ok::<bool, PlatformWorkerError>(true) ==> final(self).job() == Some(data),
            r != Ok::<bool, PlatformWorkerError>(true) ==> final(self).job() == old(self).job(),
            final(self).eager() == old(self).eager(),
            forall|a: Args, v: Res| #[trigger]
                final(self).computes(a, v) == old(self).computes(a, v),
            old(self).eager() && !old(self).busy() ==> r == Ok::<bool, PlatformWorkerError>(true),
    ;

    /// Takes the result of the outstanding computation if it is ready.
    fn results(&mut self) -> (r: Result<Option<Res>, PlatformWorkerError>)
        requires
            old(self).wf(),
        ensures
            final(self).wf(),
            results_post(old(self).busy(), final(self).busy(), r),
            final(self).job() == old(self).job(),
            final(self).eager() == old(self).eager(),
            forall|a: Args, v: Res| #[trigger]
                final(self).computes(a, v) == old(self).computes(a, v),
            old(self).eager() && old(self).busy() ==> r matches Ok(Some(_)),
            old(self).eager() ==> (r matches Ok(Some(v)) ==> (old(self).job() matches Some(j)
                && old(self).computes(j, v))),
    ;

    /// Whether a computation is outstanding.
    fn computing(&self) -> (r: bool)
        ensures
            r == self.busy(),
    ;
}

/// Relies on `SyncSender::try_send`: tells apart its three outcomes; the
/// outcome depends on the other side of the channel.
#[verifier::external_body]
fn post_work<Args>(tx: &SyncSender<Message<Args>>, data: Args) -> (r: SendOutcome) {
    match tx.try_send(Message::Process(data)) {
        Ok(()) => SendOutcome::Accepted,
        Err(TrySendError::Full(_)) => SendOutcome::Full,
        Err(TrySendError::Disconnected(_)) => SendOutcome::Disconnected,
    }
}

/// Relies on `SyncSender::try_send`: posts the stop message if the channel
/// can take it now, without blocking; where it cannot, dropping the sender
/// ends the worker's wait all the same.
#[verifier::external_body]
fn post_stop<Args>(tx: &SyncSender<Message<Args>>)
    opens_invariants none
    no_unwind
{
    let _ = tx.try_send(Message::Stop);
}

/// Relies on `Receiver::try_recv`: tells apart its three outcomes; the
/// outcome depends on the other side of the channel.
#[verifier::external_body]
fn poll_result<Res>(rx: &Receiver<Res>) -> (r: PollOutcome<Res>) {
    match rx.try_recv() {
        Ok(res) => PollOutcome::Ready(res),
        Err(TryRecvError::Empty) => PollOutcome::Empty,
        Err(TryRecvError::Disconnected) => PollOutcome::Disconnected,
    }
}

/// A worker whose computations run in a separate execution context, reached
/// through a channel for work and a channel for results.
#[verifier::reject_recursive_types(Args)]
#[verifier::reject_recursive_types(Res)]
pub struct PlatformWorker<Args, Res> {
    tx: SyncSender<Message<Args>>,
    rx: Receiver<Res>,
    computing: bool,
    job: Ghost<Option<Args>>,
}

impl<Args, Res> PlatformWorker<Args, Res> {
    /// A worker over the two ends that talk to its execution context, which
    /// must take `Message`s from the other end of `tx` and put each result on
    /// the other end of `rx`.
    pub fn new(tx: SyncSender<Message<Args>>, rx: Receiver<Res>) -> (r: Self)
        ensures
            !r.busy(),
            r.wf(),
    {
        PlatformWorker { tx, rx, computing: false, job: Ghost(None) }
    }
}

impl<Args, Res> ComputeWorker<Args, Res> for PlatformWorker<Args, Res> {
    closed spec fn busy(&self) -> bool {
        self.computing
    }

    open spec fn wf(&self) -> bool {
        true
    }

    closed spec fn job(&self) -> Option<Args> {
        self.job@
    }

    open spec fn eager(&self) -> bool {
        false
    }

    /// The function runs in another execution context: nothing is known of
    /// it here.
    open spec fn computes(&self, a: Args, r: Res) -> bool {
        true
    }

    fn send(&mut self, data: Args) -> (r: Result<bool, PlatformWorkerError>) {
        if self.computing {
            return Ok(false);
        }
        let ghost handed = data;
        match post_work(&self.tx, data) {
            SendOutcome::Accepted => {
                self.computing = true;
                self.job = Ghost(Some(handed));
                Ok(true)
            },
            SendOutcome::Full => Ok(false),
            SendOutcome::Disconnected => Err(PlatformWorkerError::Disconnected),
        }
    }

    fn results(&mut self) -> (r: Result<Option<Res>, PlatformWorkerError>) {
        if !self.computing {
            return Ok(None);
        }
        match poll_result(&self.rx) {
            PollOutcome::Ready(res) => {
                self.computing = false;
                Ok(Some(res))
            },
            PollOutcome::Empty => Ok(None),
            PollOutcome::Disconnected => Err(PlatformWorkerError::Disconnected),
        }
    }

    fn computing(&self) -> (r: bool) {
        self.computing
    }
}

impl<Args, Res> Drop for PlatformWorker<Args, Res> {
    /// Tells the execution context to stop.
    fn drop(&mut self)
        opens_invariants none
        no_unwind
    {
        post_stop(&self.tx);
    }
}

/// A worker that computes eagerly, inside `send`, on the caller's own
/// thread: the fallback where no separate execution context can be made.
/// It keeps the contract of every worker: the result is handed out by the
/// next `results`, and until then further work is refused.
#[verifier::reject_recursive_types(Args)]
#[verifier::reject_recursive_types(Res)]
#[verifier::reject_recursive_types(F)]
pub struct DummyWorker<Args, Res, F: Fn(Args) -> Res> {
    fun: F,
    result: Option<Res>,
    computing: bool,
    job: Ghost<Option<Args>>,
}

impl<Args, Res, F: Fn(Args) -> Res> DummyWorker<Args, Res, F> {
    /// A fallback worker that computes with `fun`.
    pub fn new(fun: F) -> (r: Result<Self, PlatformWorkerError>)
        requires
            forall|a: Args| #[trigger] fun.requires((a,)),
        ensures
            r matches Ok(w) && !w.busy() && w.wf() && w.eager() && forall|a: Args, v: Res| #[trigger]
                w.computes(a, v) == fun.ensures((a,), v),
    {
        Ok(DummyWorker { fun, result: None, computing: false, job: Ghost(None) })
    }
}

impl<Args, Res, F: Fn(Args) -> Res> ComputeWorker<Args, Res> for DummyWorker<Args, Res, F> {
    closed spec fn busy(&self) -> bool {
        self.computing
    }

    closed spec fn wf(&self) -> bool {
        &&& self.computing == self.result.is_some()
        &&& forall|a: Args| #[trigger] self.fun.requires((a,))
        &&& self.result matches Some(v) ==> (self.job@ matches Some(j) && self.fun.ensures((j,), v))
    }

    closed spec fn job(&self) -> Option<Args> {
        self.job@
    }

    open spec fn eager(&self) -> bool {
        true
    }

    closed spec fn computes(&self, a: Args, r: Res) -> bool {
        self.fun.ensures((a,), r)
    }

    fn send(&mut self, data: Args) -> (r: Result<bool, PlatformWorkerError>) {
        if self.result.is_some() {
            Ok(false)
        } else {
            let ghost handed = data;
            let res = (self.fun)(data);
            self.job = Ghost(Some(handed));
            self.result = Some(res);
            self.computing = true;
            Ok(true)
        }
    }

    fn results(&mut self) -> (r: Result<Option<Res>, PlatformWorkerError>) {
        let r = self.result.take();
        self.computing = false;
        Ok(r)
    }

    fn computing(&self) -> (r: bool) {
        self.computing
    }
}

/// The worker a simulation runs on: one with its own execution context, or
/// the eager fallback, chosen once when it is made.
#[verifier::reject_recursive_types(Args)]
#[verifier::reject_recursive_types(Res)]
#[verifier::reject_recursive_types(F)]
pub enum Worker<Args, Res, F: Fn(Args) -> Res> {
    Threaded(PlatformWorker<Args, Res>),
    Inline(DummyWorker<Args, Res, F>),
}

impl<Args, Res, F: Fn(Args) -> Res> ComputeWorker<Args, Res> for Worker<Args, Res, F> {
    open spec fn busy(&self) -> bool {
        match self {
            Worker::Threaded(w) => w.busy(),
            Worker::Inline(w) => w.busy(),
        }
    }

    open spec fn wf(&self) -> bool {
        match self {
            Worker::Threaded(w) => w.wf(),
            Worker::Inline(w) => w.wf(),
        }
    }

    open spec fn job(&self) -> Option<Args> {
        match self {
            Worker::Threaded(w) => w.job(),
            Worker::Inline(w) => w.job(),
        }
    }

    open spec fn eager(&self) -> bool {
        match self {
            Worker::Threaded(w) => w.eager(),
            Worker::Inline(w) => w.eager(),
        }
    }

    open spec fn computes(&self, a: Args, r: Res) -> bool {
        match self {
            Worker::Threaded(w) => w.computes(a, r),
            Worker::Inline(w) => w.computes(a, r),
        }
    }

    fn send(&mut self, data: Args) -> (r: Result<bool, PlatformWorkerError>) {
        match self {
            Worker::Threaded(w) => w.send(data),
            Worker::Inline(w) => w.send(data),
        }
    }

    fn results(&mut self) -> (r: Result<Option<Res>, PlatformWorkerError>) {
        match self {
            Worker::Threaded(w) => w.results(),
            Worker::Inline(w) => w.results(),
        }
    }

    fn computing(&self) -> (r: bool) {
        match self {
            Worker::Threaded(w) => w.computing(),
            Worker::Inline(w) => w.computing(),
        }
    }
}

/// Chooses the worker: the one with its own execution context if it could be
/// made, else the eager fallback that computes with `fun`.
pub fn create_worker<Args, Res, F: Fn(Args) -> Res>(
    spawned: Result<PlatformWorker<Args, Res>, PlatformWorkerError>,
    fun: F,
) -> (r: Worker<Args, Res, F>)
    requires
        forall|a: Args| #[trigger] fun.requires((a,)),
    ensures
        r.wf(),
        spawned matches Ok(w) ==> r == Worker::<Args, Res, F>::Threaded(w),
        spawned is Err ==> r is Inline && !r.busy() && r.eager() && forall|a: Args, v: Res| #[trigger]
            r.computes(a, v) == fun.ensures((a,), v),
{
    match spawned {
        Ok(w) => Worker::Threaded(w),
        Err(_) => match DummyWorker::new(fun) {
            Ok(w) => Worker::Inline(w),
            Err(_) => unreached(),
        },
    }
}

/// No worker starts a second computation before the result of the first has
/// been taken: after a `send` that was accepted, a further `send` with no
/// `results` in between is refused with `Ok(false)`.
pub proof fn lemma_single_flight(
    busy0: bool,
    busy1: bool,
    busy2: bool,
    r1: Result<bool, PlatformWorkerError>,
    r2: Result<bool, PlatformWorkerError>,
)
    requires
        send_post(busy0, busy1, r1),
        send_post(busy1, busy2, r2),
        r1 == Ok::<bool, PlatformWorkerError>(true),
    ensures
        r2 == Ok::<bool, PlatformWorkerError>(false),
        busy2,
{
}

} // verus!
