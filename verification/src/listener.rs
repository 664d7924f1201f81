use vstd::prelude::*;

use crate::channel::{drain_events, new_event_channel, EventReceiver, WakeHandle};
use crate::queue::WorkQueue;
use crate::request::{Method, RequestTarget, TargetModel};
use crate::response::{events_of, headers_model, EventModel, Headers, WorkerResponse};
use crate::worker::{CommandModel, RequestToken, WorkerCommand};
use crate::NextAction;

verus! {

/// Default ceiling on a buffered request body: eight mebibytes.
pub const DEFAULT_BODY_CAP: usize = 8388608;

/// The most bytes the engine hands over in one readable callback; the body
/// buffer can overshoot the cap by at most this much slack.
pub const READ_CHUNK: usize = 4096;

/// How many response events one callback takes from the channel at most;
/// anything beyond stays put, and the wake sent with every event brings
/// the connection back for it.
pub const DRAIN_LIMIT: usize = 4096;

/// The per-connection state machine, carrying exactly the data each state
/// needs: while reading, the parsed head, the body buffer and the wake
/// handle to be captured by the token; while suspended, the receiving half
/// of the response channel; while writing, that half plus the events
/// drained but not yet written; closed, nothing.
pub enum ConnState {
    ReadingRequest {
        method: Method,
        uri: RequestTarget,
        data: Vec<u8>,
        wake: WakeHandle,
    },
    AwaitingWorker { receiver: EventReceiver },
    Writing { receiver: EventReceiver, pending: Vec<WorkerResponse> },
    Closed,
}

/// Spec-level image of a connection's state.
pub enum ConnModel {
    ReadingRequest { conn: u64, method: Method, target: TargetModel, data: Seq<u8> },
    AwaitingWorker { chan: int },
    Writing { chan: int, pending: Seq<EventModel> },
    Closed,
}

impl View for ConnState {
    type V = ConnModel;

    closed spec fn view(&self) -> ConnModel {
        match self {
            ConnState::ReadingRequest { method, uri, data, wake } => (
                ConnModel::ReadingRequest {
                    conn: wake.id(),
                    method: *method,
                    target: uri@,
                    data: data@,
                }
            ),
            ConnState::AwaitingWorker { receiver } => (
                ConnModel::AwaitingWorker { chan: receiver.channel_id() }
            ),
            ConnState::Writing { receiver, pending } => (
                ConnModel::Writing { chan: receiver.channel_id(), pending: events_of(pending@) }
            ),
            ConnState::Closed => ConnModel::Closed,
        }
    }
}

/// What the write phase makes of a run of events, first to last: the
/// payloads written, in order, and the readiness the connection asks for
/// afterwards. Data chunks are written out until the one `Finish` — or a
/// protocol-violating extra header — ends the connection; a run that goes
/// dry leaves it waiting for the next wake.
pub open spec fn write_run(events: Seq<EventModel>) -> (Seq<Seq<u8>>, NextAction)
    decreases events.len(),
{
    if events.len() == 0 {
        (Seq::<Seq<u8>>::empty(), NextAction::Wait)
    } else {
        match events[0] {
            EventModel::Data(payload) => {
                let rest = write_run(events.drop_first());
                (seq![payload] + rest.0, rest.1)
            },
            _ => (Seq::<Seq<u8>>::empty(), NextAction::End),
        }
    }
}

/// Law: once a `Finish` — or any event other than a data chunk — is among
/// a write phase's events, the run ends the connection; it is never left
/// suspended waiting for more.
pub proof fn lemma_terminator_forces_end(events: Seq<EventModel>)
    requires
        exists|i: int| 0 <= i < events.len() && !(events[i] is Data),
    ensures
        write_run(events).1 == NextAction::End,
    decreases events.len(),
{
    let i = choose|i: int| 0 <= i < events.len() && !(events[i] is Data);
    if events[0] is Data {
        assert(1 <= i);
        assert(!(events.drop_first()[i - 1] is Data));
        lemma_terminator_forces_end(events.drop_first());
    }
}

/// Law: the events a finished response sends after its header — its data
/// chunks in send order, closed by the one `Finish` — drive the write
/// phase to write exactly those chunks, byte for byte and in that order,
/// and then end the connection: what the worker sent is what the
/// connection writes.
pub proof fn lemma_response_round_trip(chunks: Seq<Seq<u8>>)
    ensures
        write_run(chunks.map_values(|d: Seq<u8>| EventModel::Data(d)) + seq![EventModel::Finish]).0
            =~= chunks,
        write_run(chunks.map_values(|d: Seq<u8>| EventModel::Data(d)) + seq![EventModel::Finish]).1
            == NextAction::End,
    decreases chunks.len(),
{
    let events = chunks.map_values(|d: Seq<u8>| EventModel::Data(d)) + seq![EventModel::Finish];
    if chunks.len() == 0 {
        assert(events =~= seq![EventModel::Finish]);
        assert(events[0] is Finish);
    } else {
        let tail_chunks = chunks.drop_first();
        lemma_response_round_trip(tail_chunks);
        assert(events[0] == EventModel::Data(chunks[0]));
        assert(events.drop_first() =~= tail_chunks.map_values(|d: Seq<u8>| EventModel::Data(d))
            + seq![EventModel::Finish]);
        assert(write_run(events).0 =~= seq![chunks[0]] + write_run(events.drop_first()).0);
        assert(write_run(events).0 =~= chunks);
    }
}

/// The phase a connection is in, as running code can observe it; each
/// readiness callback is legal in exactly one phase.
#[derive(Clone, Copy, PartialEq, Eq, Structural, Debug)]
pub enum Phase {
    ReadingRequest,
    AwaitingWorker,
    Writing,
    Closed,
}

/// One connection of a listener thread's event loop, owned by that thread
/// alone and driven by readiness callbacks; workers reach it only through
/// its response channel and wake handle.
pub struct Connection {
    state: ConnState,
    body_cap: usize,
}

impl Connection {
    /// The state this connection is in.
    pub closed spec fn model(&self) -> ConnModel {
        self.state@
    }

    /// The body-size cap this connection enforces.
    pub closed spec fn cap(&self) -> usize {
        self.body_cap
    }

    /// Which phase the connection is in.
    pub fn phase(&self) -> (r: Phase)
        ensures
            (r == Phase::ReadingRequest) == (self.model() is ReadingRequest),
            (r == Phase::AwaitingWorker) == (self.model() is AwaitingWorker),
            (r == Phase::Writing) == (self.model() is Writing),
            (r == Phase::Closed) == (self.model() is Closed),
    {
        match &self.state {
            ConnState::ReadingRequest { .. } => Phase::ReadingRequest,
            ConnState::AwaitingWorker { .. } => Phase::AwaitingWorker,
            ConnState::Writing { .. } => Phase::Writing,
            ConnState::Closed => Phase::Closed,
        }
    }

    /// A connection as it stands right after accept, once the codec has
    /// parsed the request head: reading the body, nothing buffered yet.
    pub fn new(method: Method, uri: RequestTarget, wake: WakeHandle, body_cap: usize) -> (r: Self)
        ensures
            r.cap() == body_cap,
            r.model() == (ConnModel::ReadingRequest {
                conn: wake.id(),
                method: method,
                target: uri@,
                data: Seq::<u8>::empty(),
            }),
    {
        let connection = Connection {
            state: ConnState::ReadingRequest { method, uri, data: Vec::new(), wake },
            body_cap,
        };
        proof {
            assert(connection.model() == (ConnModel::ReadingRequest {
                conn: wake.id(),
                method: method,
                target: uri@,
                data: Seq::<u8>::empty(),
            }));
        }
        connection
    }

    /// One readable callback while the body is arriving: `chunk` is what
    /// the engine read this round, at most one read-chunk. A buffer already
    /// grown past the cap aborts the connection on the spot — deliberate
    /// backpressure instead of unbounded buffering — so the buffer never
    /// holds more than the cap plus one chunk of slack; otherwise the bytes
    /// are appended, byte for byte, in order, and reading goes on.
    pub fn on_read(&mut self, chunk: Vec<u8>) -> (r: NextAction)
        requires
            old(self).model() is ReadingRequest,
            chunk@.len() <= READ_CHUNK,
        ensures
            final(self).cap() == old(self).cap(),
            old(self).model() matches ConnModel::ReadingRequest { conn, method, target, data }
                ==> if data.len() > old(self).cap() {
                    final(self).model() is Closed && r == NextAction::End
                } else {
                    final(self).model() == (ConnModel::ReadingRequest {
                        conn,
                        method,
                        target,
                        data: data + chunk@,
                    }) && r == NextAction::Read
                },
    {
        let over = match &self.state {
            ConnState::ReadingRequest { data, .. } => data.len() > self.body_cap,
            _ => false,
        };
        if over {
            self.state = ConnState::Closed;
            return NextAction::End;
        }
        match &mut self.state {
            ConnState::ReadingRequest { data, .. } => {
                let mut chunk = chunk;
                data.append(&mut chunk);
                NextAction::Read
            },
            _ => NextAction::End,
        }
    }

    /// The read that returns no more bytes: the peer is done sending. A
    /// body that ran past the cap is rejected here too — the whole
    /// over-cap stream never reaches the queue, however it ends. Otherwise
    /// the buffer is frozen into a request token — method, target, body,
    /// the untouched sending half of a fresh response channel, and this
    /// connection's wake handle — which goes onto the work-distribution
    /// queue whole; the connection keeps the receiving half of that same
    /// channel and suspends until a worker wakes it.
    pub fn on_read_eof(&mut self, queue: &mut WorkQueue) -> (r: NextAction)
        requires
            old(self).model() is ReadingRequest,
        ensures
            final(self).cap() == old(self).cap(),
            old(self).model() matches ConnModel::ReadingRequest { conn, method, target, data }
                ==> if data.len() > old(self).cap() {
                    final(self).model() is Closed && r == NextAction::End
                        && final(queue).commands() =~= old(queue).commands()
                } else {
                    (final(self).model() matches ConnModel::AwaitingWorker { chan }
                        && final(queue).commands() =~= old(queue).commands().push(
                        (CommandModel {
                            conn,
                            chan,
                            method,
                            target,
                            body: data,
                            trace: Seq::<EventModel>::empty(),
                        }),
                    ) && r == NextAction::Wait)
                },
    {
        let over = match &self.state {
            ConnState::ReadingRequest { data, .. } => data.len() > self.body_cap,
            _ => false,
        };
        if over {
            self.state = ConnState::Closed;
            return NextAction::End;
        }
        let mut taken = ConnState::Closed;
        std::mem::swap(&mut self.state, &mut taken);
        match taken {
            ConnState::ReadingRequest { method, uri, data, wake } => {
                let (sender, receiver) = new_event_channel();
                let token = RequestToken::new(method, uri, data, wake, sender);
                queue.push(WorkerCommand::HandleRequest(token));
                self.state = ConnState::AwaitingWorker { receiver };
                NextAction::Wait
            },
            _ => {
                proof {
                    assert(false);
                }
                NextAction::End
            },
        }
    }

    /// The wake-up decision of a suspended connection, over whichever
    /// events have arrived, in arrival order. Nothing yet means keep
    /// waiting — a spurious wake is a harmless no-op. A first event that is
    /// the header moves the connection into the write phase, hands status
    /// and headers out for the outbound response, and leaves the rest
    /// pending; write readiness is requested exactly when something is
    /// already pending. Any other first event breaks the response protocol
    /// and forces the connection closed.
    pub fn apply_header_events(&mut self, events: Vec<WorkerResponse>) -> (r: (
        NextAction,
        Option<(u16, Headers)>,
    ))
        requires
            old(self).model() is AwaitingWorker,
        ensures
            final(self).cap() == old(self).cap(),
            events@.len() == 0 ==> final(self).model() is AwaitingWorker && r.0 == NextAction::Wait
                && r.1 is None,
            events@.len() > 0 ==> match events@[0]@ {
                EventModel::Header(status, headers) => {
                    &&& (old(self).model() matches ConnModel::AwaitingWorker { chan }
                        && final(self).model() == (ConnModel::Writing {
                        chan,
                        pending: events_of(events@).drop_first(),
                    }))
                    &&& r.1 matches Some(h) && h.0 == status && headers_model(h.1) == headers
                    &&& r.0 == if events@.len() == 1 {
                        NextAction::Wait
                    } else {
                        NextAction::Write
                    }
                },
                _ => final(self).model() is Closed && r.0 == NextAction::End && r.1 is None,
            },
    {
        let mut events = events;
        if events.len() == 0 {
            return (NextAction::Wait, None);
        }
        let mut taken = ConnState::Closed;
        std::mem::swap(&mut self.state, &mut taken);
        match taken {
            ConnState::AwaitingWorker { receiver } => {
                let ghost orig = events@;
                let first = events.remove(0);
                match first {
                    WorkerResponse::Header(status, headers) => {
                        let request_write = events.len() > 0;
                        proof {
                            assert(events@ =~= orig.drop_first());
                            assert(events_of(events@) =~= events_of(orig).drop_first());
                        }
                        self.state = ConnState::Writing { receiver, pending: events };
                        (
                            if request_write {
                                NextAction::Write
                            } else {
                                NextAction::Wait
                            },
                            Some((status, headers)),
                        )
                    },
                    _ => (NextAction::End, None),
                }
            },
            _ => {
                proof {
                    assert(false);
                }
                (NextAction::End, None)
            },
        }
    }

    /// The write-phase decision over the events already pending plus those
    /// newly `arrived`, worked off in order: every data payload comes out,
    /// in order, for the engine to write; the one `Finish` — or a
    /// protocol-violating extra header — closes the connection; a buffer
    /// that runs dry is written out in full and leaves the connection
    /// suspended until the next wake.
    #[verifier::loop_isolation(false)]
    pub fn apply_body_events(&mut self, arrived: Vec<WorkerResponse>) -> (r: (
        NextAction,
        Vec<Vec<u8>>,
    ))
        requires
            old(self).model() is Writing,
        ensures
            final(self).cap() == old(self).cap(),
            r.0 == NextAction::Wait || r.0 == NextAction::End,
            old(self).model() matches ConnModel::Writing { chan, pending } ==> {
                let run = write_run(pending + events_of(arrived@));
                &&& r.1.deep_view() =~= run.0
                &&& r.0 == run.1
                &&& (r.0 == NextAction::End ==> final(self).model() is Closed)
                &&& (r.0 == NextAction::Wait ==> final(self).model() == (ConnModel::Writing {
                    chan,
                    pending: Seq::<EventModel>::empty(),
                }))
            },
    {
        let ghost arrived_events = events_of(arrived@);
        let mut taken = ConnState::Closed;
        std::mem::swap(&mut self.state, &mut taken);
        match taken {
            ConnState::Writing { receiver, pending } => {
                let mut pending = pending;
                let ghost buffered_events = events_of(pending@);
                let mut newly = arrived;
                pending.append(&mut newly);
                let ghost total = buffered_events + arrived_events;
                proof {
                    assert(events_of(pending@) =~= total);
                }
                let mut outputs: Vec<Vec<u8>> = Vec::new();
                loop
                    invariant
                        self.cap() == old(self).cap(),
                        self.model() is Closed,
                        write_run(total).0 =~= outputs.deep_view() + write_run(
                            events_of(pending@),
                        ).0,
                        write_run(total).1 == write_run(events_of(pending@)).1,
                    decreases pending@.len(),
                {
                    if pending.len() == 0 {
                        proof {
                            assert(events_of(pending@) =~= Seq::<EventModel>::empty());
                            assert(write_run(total).0 =~= outputs.deep_view());
                        }
                        self.state = ConnState::Writing { receiver, pending };
                        return (NextAction::Wait, outputs);
                    }
                    let ghost before = events_of(pending@);
                    let event = pending.remove(0);
                    proof {
                        assert(events_of(pending@) =~= before.drop_first());
                    }
                    match event {
                        WorkerResponse::Data(payload) => {
                            let ghost outputs_before = outputs.deep_view();
                            outputs.push(payload);
                            proof {
                                assert(payload.deep_view() =~= payload@);
                                assert(outputs.deep_view() =~= outputs_before.push(payload@));
                                assert(write_run(before).0 =~= seq![payload@] + write_run(
                                    before.drop_first(),
                                ).0);
                                assert(write_run(total).0 =~= outputs.deep_view() + write_run(
                                    events_of(pending@),
                                ).0);
                            }
                        },
                        _ => {
                            proof {
                                assert(write_run(before).1 == NextAction::End);
                                assert(write_run(total).0 =~= outputs.deep_view());
                            }
                            return (NextAction::End, outputs);
                        },
                    }
                }
            },
            _ => {
                proof {
                    assert(false);
                }
                (NextAction::End, Vec::new())
            },
        }
    }

    /// An I/O fault reported by the engine — a failed read or a failed
    /// write: the connection is forced closed, and the fault travels no
    /// further than this one connection.
    pub fn on_io_error(&mut self) -> (r: NextAction)
        ensures
            final(self).cap() == old(self).cap(),
            final(self).model() is Closed,
            r == NextAction::End,
    {
        self.state = ConnState::Closed;
        NextAction::End
    }

    /// The callback a wake schedules while the connection sits suspended:
    /// takes one batch of what the worker has sent so far — at most
    /// `DRAIN_LIMIT` events; a leftover's own wake brings the connection
    /// straight back — and decides as `apply_header_events` says. What
    /// arrives is the worker's business;
    /// whatever it is, the connection either keeps waiting, enters the
    /// write phase carrying the received status and headers, or is forced
    /// closed on a protocol violation.
    pub fn on_wake(&mut self) -> (r: (NextAction, Option<(u16, Headers)>))
        requires
            old(self).model() is AwaitingWorker,
        ensures
            final(self).cap() == old(self).cap(),
            r.1 is Some <==> final(self).model() is Writing,
            r.1 is None ==> (r.0 == NextAction::Wait && final(self).model() is AwaitingWorker) || (
            r.0 == NextAction::End && final(self).model() is Closed),
            r.1 is Some ==> r.0 == NextAction::Write || r.0 == NextAction::Wait,
    {
        let events = match &self.state {
            ConnState::AwaitingWorker { receiver } => drain_events(receiver, DRAIN_LIMIT),
            _ => Vec::new(),
        };
        self.apply_header_events(events)
    }

    /// One writable-readiness callback during the write phase: takes one
    /// more batch of what the worker has sent (bounded by `DRAIN_LIMIT`,
    /// like every drain), then works the whole buffer off as
    /// `apply_body_events` says. Whatever arrived, the connection either
    /// wrote everything out and suspends until the next wake, or reached
    /// the end of the response — or a protocol violation — and is closed.
    pub fn on_writable(&mut self) -> (r: (NextAction, Vec<Vec<u8>>))
        requires
            old(self).model() is Writing,
        ensures
            final(self).cap() == old(self).cap(),
            r.0 == NextAction::Wait || r.0 == NextAction::End,
            (r.0 == NextAction::End) <==> final(self).model() is Closed,
            r.0 == NextAction::Wait ==> (final(self).model() matches ConnModel::Writing {
                chan: _,
                pending,
            } && pending.len() == 0),
    {
        let events = match &self.state {
            ConnState::Writing { receiver, .. } => drain_events(receiver, DRAIN_LIMIT),
            _ => Vec::new(),
        };
        self.apply_body_events(events)
    }
}

} // verus!
