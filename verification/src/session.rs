use vstd::prelude::*;
use std::sync::mpsc::{Receiver, Sender};
use crate::record::PacketInfo;
use crate::decode::{decode, decode_spec};

verus! {

// ---------------------------------------------------------------------------
// Trusted view of the event channel: a single-producer/single-consumer queue
// between the capture worker and the consumer. What crosses it depends on
// the other thread, so the contracts state nothing of the traffic itself.
// ---------------------------------------------------------------------------

#[verifier::external_type_specification]
#[verifier::external_body]
#[verifier::reject_recursive_types(T)]
pub struct ExSender<T>(Sender<T>);

#[verifier::external_type_specification]
#[verifier::external_body]
#[verifier::reject_recursive_types(T)]
pub struct ExReceiver<T>(Receiver<T>);

/// Relies on std::sync::mpsc::channel: returns a connected sender/receiver
/// pair.
#[verifier::external_body]
fn channel_pair<T>() -> (Sender<T>, Receiver<T>) {
    std::sync::mpsc::channel()
}

/// Relies on Receiver::try_recv: returns one queued value without blocking,
/// or nothing when the queue is empty or the sender is gone.
#[verifier::external_body]
fn try_take<T>(rx: &Receiver<T>) -> Option<T> {
    rx.try_recv().ok()
}

/// Relies on Sender::send: hands the value to the receiving end; when that
/// end is gone the value is simply dropped, and the call still returns.
#[verifier::external_body]
fn send_value<T>(tx: &Sender<T>, v: T) {
    let _ = tx.send(v);
}

// ---------------------------------------------------------------------------
// The session lifecycle.
// ---------------------------------------------------------------------------

/// Externally visible state of a capture session.
#[derive(Clone, Copy, Debug, PartialEq, Eq, Structural)]
pub enum SessionState {
    Idle,
    Capturing,
}

/// Everything the worker loop needs: the interface to read from, the
/// producer end of the event channel, and the cancellation signal. The
/// caller runs the loop on its own thread; the session keeps the consumer
/// ends.
pub struct WorkerHandle {
    /// Name of the interface the worker must capture on.
    pub interface: String,
    /// Producer end: one decoded record per captured frame.
    pub records: Sender<PacketInfo>,
    /// Cancellation signal: a value arrives here when the session stops.
    pub cancel: Receiver<bool>,
}

/// A capture session: owns the consumer end of the event channel and the
/// cancellation sender for the one worker it spawned, if any. Reusable
/// across repeated start/stop cycles.
pub struct CaptureSession {
    state: SessionState,
    records: Option<Receiver<PacketInfo>>,
    cancel: Option<Sender<bool>>,
}

impl CaptureSession {
    /// The externally visible lifecycle state.
    pub closed spec fn state_spec(&self) -> SessionState {
        self.state
    }

    /// While capturing, the session can always signal its worker.
    pub closed spec fn wf(&self) -> bool {
        self.state is Capturing ==> self.cancel is Some
    }

    /// Whether the session holds the consumer end of an event channel. It
    /// holds none before the first start; from then on it keeps one across
    /// stops, so that records still in flight stay drainable.
    pub closed spec fn has_channel(&self) -> bool {
        self.records is Some
    }

    /// A fresh session: idle, nothing captured, no worker, no channel.
    pub fn new() -> (r: Self)
        ensures
            r.state_spec() is Idle,
            r.wf(),
            !r.has_channel(),
    {
        CaptureSession { state: SessionState::Idle, records: None, cancel: None }
    }

    /// The externally visible state.
    pub fn state(&self) -> (r: SessionState)
        ensures
            r == self.state_spec(),
    {
        self.state
    }

    /// Begins a capture on `interface`. A full no-op on a session that is
    /// already capturing: it spawns nothing, returns nothing, and leaves the
    /// session — the live worker's channel ends included — exactly as it
    /// was. Otherwise it wires
    /// a fresh event channel and cancellation signal, turns Capturing, and
    /// returns the handle the caller's worker loop runs on; exactly one
    /// worker per start. Opening the capture handle is the caller's part: if
    /// the interface cannot be opened, the caller reports it unavailable and
    /// calls `stop`, and the session is idle again with no worker loop run.
    pub fn start(&mut self, interface: String) -> (r: Option<WorkerHandle>)
        requires
            old(self).wf(),
        ensures
            final(self).wf(),
            final(self).state_spec() is Capturing,
            old(self).state_spec() is Capturing <==> r is None,
            old(self).state_spec() is Capturing ==> *final(self) == *old(self),
            old(self).state_spec() is Idle ==> final(self).has_channel(),
            r matches Some(h) ==> h.interface == interface,
    {
        if self.state == SessionState::Capturing {
            return None;
        }
        let (records_tx, records_rx) = channel_pair::<PacketInfo>();
        let (cancel_tx, cancel_rx) = channel_pair::<bool>();
        self.records = Some(records_rx);
        self.cancel = Some(cancel_tx);
        self.state = SessionState::Capturing;
        Some(WorkerHandle { interface, records: records_tx, cancel: cancel_rx })
    }

    /// Stops the session: always safe, also on a session that was never
    /// started, and idempotent. Signals the worker, if one is live, and is
    /// immediately Idle; the worker observes the signal at its next
    /// iteration boundary and exits without emitting another record.
    /// Records already queued remain available to `drain_events`: the event
    /// channel's consumer end is kept, and only the cancellation side moves.
    pub fn stop(&mut self)
        requires
            old(self).wf(),
        ensures
            final(self).wf(),
            final(self).state_spec() is Idle,
            final(self).has_channel() == old(self).has_channel(),
    {
        if let Some(tx) = &self.cancel {
            send_value(tx, true);
        }
        self.cancel = None;
        self.state = SessionState::Idle;
    }

    /// Pops everything currently queued, without blocking: an empty vector
    /// when nothing is pending, and deterministically empty on a session
    /// that holds no channel end. The lifecycle state and the channel end
    /// are untouched, and nothing is discarded: every queued record is
    /// handed out.
    pub fn drain_events(&mut self) -> (r: Vec<PacketInfo>)
        requires
            old(self).wf(),
        ensures
            final(self).wf(),
            final(self).state_spec() == old(self).state_spec(),
            final(self).has_channel() == old(self).has_channel(),
            !old(self).has_channel() ==> r@ == Seq::<PacketInfo>::empty(),
    {
        let mut out: Vec<PacketInfo> = Vec::new();
        if let Some(rx) = &self.records {
            // More records than addresses cannot be queued, so this bound
            // never cuts a drain short; it only bounds the loop.
            let mut budget: usize = usize::MAX;
            loop
                invariant
                    self.wf(),
                    self.state_spec() == old(self).state_spec(),
                    self.has_channel() == old(self).has_channel(),
                decreases budget,
            {
                if budget == 0 {
                    break;
                }
                budget = budget - 1;
                match try_take::<PacketInfo>(rx) {
                    Some(p) => out.push(p),
                    None => { break; },
                }
            }
        }
        out
    }
}

// ---------------------------------------------------------------------------
// The worker machine: the decisions of the capture loop. The caller performs
// the blocking read and feeds what happened in as an event; the machine says
// what to do with it. Everything the worker decides is here and verified;
// only the blocking I/O around it is not.
// ---------------------------------------------------------------------------

/// One thing the worker loop can observe between two iteration boundaries.
pub enum WorkerEvent {
    /// A frame was read, with its capture instant in seconds.
    Frame(Vec<u8>, u64),
    /// The blocking read failed: the interface is gone or erroring.
    ReadFailed,
    /// The cancellation signal was observed.
    Cancelled,
    /// The consumer end of the event channel is gone.
    ConsumerGone,
}

/// What the worker loop must do with an event.
pub enum WorkerAction {
    /// Push this record onto the event channel, then keep reading.
    Emit(PacketInfo),
    /// Leave the loop; the worker is finished.
    Exit,
}

/// An event after which the worker must be finished for good.
pub open spec fn event_stops(e: WorkerEvent) -> bool {
    !(e is Frame)
}

/// The decision state of one capture worker.
pub struct CaptureWorker {
    stopped: bool,
}

impl CaptureWorker {
    /// Whether the worker has decided to finish.
    pub closed spec fn stopped_spec(&self) -> bool {
        self.stopped
    }

    /// A fresh worker, ready to read.
    pub fn new() -> (r: Self)
        ensures
            !r.stopped_spec(),
    {
        CaptureWorker { stopped: false }
    }

    /// One iteration boundary: a frame is decoded and emitted; a read
    /// failure, the cancellation signal or a gone consumer finishes the
    /// worker, and a finished worker only ever exits — it never emits again.
    pub fn step(&mut self, event: WorkerEvent) -> (r: WorkerAction)
        ensures
            final(self).stopped_spec() == (old(self).stopped_spec() || event_stops(event)),
            old(self).stopped_spec() || event_stops(event) ==> r is Exit,
            !old(self).stopped_spec() ==> (event matches WorkerEvent::Frame(raw, ts)
                ==> r matches WorkerAction::Emit(p) && p@ == decode_spec(raw@, ts)),
    {
        if self.stopped {
            return WorkerAction::Exit;
        }
        match event {
            WorkerEvent::Frame(raw, ts) => WorkerAction::Emit(decode(raw.as_slice(), ts)),
            _ => {
                self.stopped = true;
                WorkerAction::Exit
            },
        }
    }
}

// ---------------------------------------------------------------------------
// Laws of the lifecycle.
// ---------------------------------------------------------------------------

/// Whether a fresh worker fed these events in order has finished.
pub open spec fn stopped_after(events: Seq<WorkerEvent>) -> bool
    decreases events.len(),
{
    if events.len() == 0 {
        false
    } else {
        stopped_after(events.drop_last()) || event_stops(events.last())
    }
}

/// Whether a fresh worker fed these events emits a record on event `k`:
/// exactly when that event is a frame and no earlier event finished the
/// worker. This is `step` iterated: before event `k` the worker's state is
/// `stopped_after` of the earlier events.
pub open spec fn emits_at(events: Seq<WorkerEvent>, k: int) -> bool
    recommends
        0 <= k < events.len(),
{
    events[k] is Frame && !stopped_after(events.take(k))
}

/// A finished worker stays finished, whatever else arrives.
proof fn lemma_stopped_is_final(events: Seq<WorkerEvent>, a: int, b: int)
    requires
        0 <= a <= b <= events.len(),
        stopped_after(events.take(a)),
    ensures
        stopped_after(events.take(b)),
    decreases b - a,
{
    if a < b {
        lemma_stopped_is_final(events, a, b - 1);
        assert(events.take(b).drop_last() =~= events.take(b - 1));
        assert(events.take(b).len() != 0);
    }
}

/// After a stopping event — the cancellation signal among them — the worker
/// emits no further record: every later step exits. So once `stop` has been
/// observed, at most the one record already pushed before the observation
/// can still be in flight, and nothing more is ever produced.
pub proof fn lemma_no_emission_after_stop(events: Seq<WorkerEvent>, i: int, j: int)
    requires
        0 <= i < j < events.len(),
        event_stops(events[i]),
    ensures
        !emits_at(events, j),
{
    assert(events.take(i + 1).len() != 0);
    assert(events.take(i + 1).last() == events[i]);
    assert(stopped_after(events.take(i + 1)));
    lemma_stopped_is_final(events, i + 1, j);
}

/// One lifecycle operation on a session.
pub enum SessionOp {
    Start,
    Stop,
}

/// The session state after a run of operations, starting idle.
pub open spec fn state_after(ops: Seq<SessionOp>) -> SessionState
    decreases ops.len(),
{
    if ops.len() == 0 {
        SessionState::Idle
    } else {
        match ops.last() {
            SessionOp::Start => SessionState::Capturing,
            SessionOp::Stop => SessionState::Idle,
        }
    }
}

/// How many workers are live — spawned and not yet signalled to stop —
/// after a run of operations, starting idle with none. A start spawns one
/// worker only from the idle state, exactly as `CaptureSession::start`
/// returns a handle only then; a stop signals the worker, exactly as
/// `CaptureSession::stop` does, after which it exits without reading on.
pub open spec fn live_workers_after(ops: Seq<SessionOp>) -> int
    decreases ops.len(),
{
    if ops.len() == 0 {
        0
    } else {
        match ops.last() {
            SessionOp::Start => if state_after(ops.drop_last()) is Idle {
                live_workers_after(ops.drop_last()) + 1
            } else {
                live_workers_after(ops.drop_last())
            },
            SessionOp::Stop => 0,
        }
    }
}

/// However start and stop are interleaved, the session never has more than
/// one live worker: a start on a capturing session spawns nothing, and a
/// stop signals the one worker away before the next start can spawn again.
pub proof fn lemma_at_most_one_worker(ops: Seq<SessionOp>)
    ensures
        live_workers_after(ops) <= 1,
        live_workers_after(ops) == if state_after(ops) is Capturing { 1int } else { 0int },
    decreases ops.len(),
{
    if ops.len() > 0 {
        lemma_at_most_one_worker(ops.drop_last());
    }
}

} // verus!
