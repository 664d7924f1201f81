use vstd::prelude::*;

use crate::response::{EventModel, WorkerResponse};

verus! {

/// Declares std::sync::mpsc::Sender, the sending half of std's unbounded
/// FIFO channel, opaque to the verifier.
#[verifier::external_type_specification]
#[verifier::external_body]
#[verifier::reject_recursive_types(T)]
pub struct ExSender<T>(std::sync::mpsc::Sender<T>);

/// Declares std::sync::mpsc::Receiver, the receiving half of the same
/// channel, opaque to the verifier.
#[verifier::external_type_specification]
#[verifier::external_body]
#[verifier::reject_recursive_types(T)]
pub struct ExReceiver<T>(std::sync::mpsc::Receiver<T>);

/// The identity of the channel a sending half feeds. Nothing is known of
/// this name beyond what the trusted items below state: creation pairs the
/// two halves of one channel, and cloning preserves the channel.
pub uninterp spec fn sender_channel(sender: std::sync::mpsc::Sender<WorkerResponse>) -> int;

/// The identity of the channel a receiving half drains; the counterpart of
/// `sender_channel`.
pub uninterp spec fn receiver_channel(receiver: std::sync::mpsc::Receiver<WorkerResponse>) -> int;

/// Relies on std::sync::mpsc::channel: the returned sender and receiver
/// are the two halves of one fresh, unbounded FIFO channel — what the one
/// sends, the other receives.
#[verifier::external_body]
fn new_raw_channel() -> (r: (
    std::sync::mpsc::Sender<WorkerResponse>,
    std::sync::mpsc::Receiver<WorkerResponse>,
))
    ensures
        sender_channel(r.0) == receiver_channel(r.1),
{
    std::sync::mpsc::channel()
}

/// Relies on std::sync::mpsc::Sender::clone: the clone sends to the same
/// channel as the original sender.
#[verifier::external_body]
fn clone_event_sender(sender: &std::sync::mpsc::Sender<WorkerResponse>) -> (r: std::sync::mpsc::Sender<
    WorkerResponse,
>)
    ensures
        sender_channel(r) == sender_channel(*sender),
{
    sender.clone()
}

/// Relies on std::sync::mpsc::Sender::clone: a second handle on the wake
/// channel.
#[verifier::external_body]
fn clone_wake_sender(sender: &std::sync::mpsc::Sender<u64>) -> (r: std::sync::mpsc::Sender<u64>) {
    sender.clone()
}

/// Relies on std::sync::mpsc::Sender::send: hands the event to the channel;
/// the result tells whether the receiving half was still alive.
#[verifier::external_body]
fn send_raw(sender: &std::sync::mpsc::Sender<WorkerResponse>, event: WorkerResponse) -> bool {
    sender.send(event).is_ok()
}

/// Relies on std::sync::mpsc::Receiver::try_recv: takes the next pending
/// event without blocking; `None` when nothing is pending or the sending
/// side is gone.
#[verifier::external_body]
fn try_recv_raw(receiver: &std::sync::mpsc::Receiver<WorkerResponse>) -> Option<WorkerResponse> {
    receiver.try_recv().ok()
}

/// Relies on std::sync::mpsc::Sender::send: delivers this connection's
/// identity to its owning event loop; a failure means that loop is gone and
/// the wake is a harmless no-op.
#[verifier::external_body]
fn send_wake(sender: &std::sync::mpsc::Sender<u64>, conn_id: u64) -> bool {
    sender.send(conn_id).is_ok()
}

/// The cross-thread capability to reschedule one suspended connection: it
/// captures the connection's identity and a way to reach its event loop.
/// Safe to invoke from any thread, any number of times; a wake that finds
/// nothing suspended coalesces into the loop's next readiness pass.
pub struct WakeHandle {
    conn_id: u64,
    notify: std::sync::mpsc::Sender<u64>,
}

impl WakeHandle {
    /// The identity of the connection this handle wakes.
    pub closed spec fn id(&self) -> u64 {
        self.conn_id
    }

    /// Binds a handle to the connection `conn_id` served by the event loop
    /// listening on `notify`.
    pub fn new(conn_id: u64, notify: std::sync::mpsc::Sender<u64>) -> (r: Self)
        ensures
            r.id() == conn_id,
    {
        WakeHandle { conn_id, notify }
    }

    /// Schedules the bound connection for its next readiness callback.
    pub fn wake(&self) {
        let _ = send_wake(&self.notify, self.conn_id);
    }

    /// A second handle waking the same connection, for use from another
    /// call site.
    pub fn duplicate(&self) -> (r: Self)
        ensures
            r.id() == self.id(),
    {
        WakeHandle { conn_id: self.conn_id, notify: clone_wake_sender(&self.notify) }
    }
}

/// The sending half of one response channel, together with the trace of
/// every event this half has handed to the channel, oldest first.
pub struct EventSender {
    inner: std::sync::mpsc::Sender<WorkerResponse>,
    trace: Ghost<Seq<EventModel>>,
}

impl EventSender {
    /// Every event this half has sent, oldest first.
    pub closed spec fn trace(&self) -> Seq<EventModel> {
        self.trace@
    }

    /// The identity of the channel this half feeds.
    pub closed spec fn channel_id(&self) -> int {
        sender_channel(self.inner)
    }

    /// Hands one event to the channel this half feeds. Delivery order on
    /// the receiving side follows this half's send order.
    pub fn send(&mut self, event: WorkerResponse)
        ensures
            final(self).trace() =~= old(self).trace().push(event@),
            final(self).channel_id() == old(self).channel_id(),
    {
        let ghost sent = event@;
        let _ = send_raw(&self.inner, event);
        self.trace = Ghost(self.trace@.push(sent));
    }

    /// A second sending half of the same channel, its own trace empty, for
    /// a caller that must be able to speak even after the first half is
    /// lost.
    pub fn duplicate(&self) -> (r: Self)
        ensures
            r.trace() =~= Seq::<EventModel>::empty(),
            r.channel_id() == self.channel_id(),
    {
        EventSender { inner: clone_event_sender(&self.inner), trace: Ghost(Seq::empty()) }
    }
}

/// The receiving half of one response channel, owned by the connection the
/// channel answers.
pub struct EventReceiver {
    inner: std::sync::mpsc::Receiver<WorkerResponse>,
}

impl EventReceiver {
    /// The identity of the channel this half drains.
    pub closed spec fn channel_id(&self) -> int {
        receiver_channel(self.inner)
    }
}

/// A fresh response channel: an untouched sending half and the receiving
/// half of that same channel.
pub fn new_event_channel() -> (r: (EventSender, EventReceiver))
    ensures
        r.0.trace() =~= Seq::<EventModel>::empty(),
        r.0.channel_id() == r.1.channel_id(),
{
    let (sender, receiver) = new_raw_channel();
    (EventSender { inner: sender, trace: Ghost(Seq::empty()) }, EventReceiver { inner: receiver })
}

/// Takes up to `limit` of the events currently pending on `receiver`, in
/// arrival order, without blocking; one readiness callback takes one such
/// batch. What arrives is decided by the worker on the far side, so the
/// callers are verified for every possible outcome. Anything left behind
/// stays in the channel, and since every send is paired with a wake, a
/// leftover always has a wake behind it to bring the connection back.
pub fn drain_events(receiver: &EventReceiver, limit: usize) -> (r: Vec<WorkerResponse>)
    ensures
        r@.len() <= limit,
{
    let mut drained: Vec<WorkerResponse> = Vec::new();
    let mut budget: usize = limit;
    while budget > 0
        invariant
            drained@.len() + budget <= limit,
        decreases budget,
    {
        match try_recv_raw(&receiver.inner) {
            Some(event) => drained.push(event),
            None => {
                return drained;
            },
        }
        budget = budget - 1;
    }
    drained
}

} // verus!
