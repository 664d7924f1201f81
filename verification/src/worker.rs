use vstd::prelude::*;

use crate::channel::{EventSender, WakeHandle};
use crate::request::{decode_target, target_path, Method, Request, RequestTarget, TargetModel};
use crate::response::{
    complete_events, headers_model, started_events, EventModel, Headers, WorkerResponse,
};

verus! {

/// Status answered for a request whose target the worker cannot decode.
pub const BAD_REQUEST_STATUS: u16 = 400;

/// Status of the best-effort response synthesized when the application
/// handler fails.
pub const SERVER_ERROR_STATUS: u16 = 500;

/// Spec-level image of a request token: which connection it answers, the
/// captured request data, and the trace of its response channel's sending
/// half.
pub struct CommandModel {
    pub conn: u64,
    pub chan: int,
    pub method: Method,
    pub target: TargetModel,
    pub body: Seq<u8>,
    pub trace: Seq<EventModel>,
}

/// The unit handed from a listener thread to a worker thread: the fully
/// buffered request plus everything needed to answer it — the sending half
/// of this request's response channel and the wake handle of the owning
/// connection. It moves whole: built once by the connection, consumed once
/// by exactly one worker, never cloned or shared.
pub struct RequestToken {
    method: Method,
    uri: RequestTarget,
    body: Vec<u8>,
    wake: WakeHandle,
    sender: EventSender,
}

impl View for RequestToken {
    type V = CommandModel;

    closed spec fn view(&self) -> CommandModel {
        CommandModel {
            conn: self.wake.id(),
            chan: self.sender.channel_id(),
            method: self.method,
            target: self.uri@,
            body: self.body@,
            trace: self.sender.trace(),
        }
    }
}

impl RequestToken {
    /// Bundles a buffered request with the untouched sending half of its
    /// fresh response channel and its connection's wake handle.
    pub fn new(
        method: Method,
        uri: RequestTarget,
        body: Vec<u8>,
        wake: WakeHandle,
        sender: EventSender,
    ) -> (r: Self)
        requires
            sender.trace() =~= Seq::<EventModel>::empty(),
        ensures
            r@ == (CommandModel {
                conn: wake.id(),
                chan: sender.channel_id(),
                method: method,
                target: uri@,
                body: body@,
                trace: Seq::<EventModel>::empty(),
            }),
    {
        let token = RequestToken { method, uri, body, wake, sender };
        proof {
            assert(token@.trace =~= Seq::<EventModel>::empty());
        }
        token
    }

    /// The request method.
    pub fn method(&self) -> (r: Method)
        ensures
            r == self@.method,
    {
        self.method
    }

    /// The request target, as parsed by the codec.
    pub fn uri(&self) -> (r: &RequestTarget)
        ensures
            r@ == self@.target,
    {
        &self.uri
    }

    /// The fully buffered request body.
    pub fn body(&self) -> (r: &Vec<u8>)
        ensures
            r@ == self@.body,
    {
        &self.body
    }

    /// The semantic request value handed to the application handler:
    /// method and body are carried over unchanged, byte for byte.
    pub fn to_request(&self, path: String) -> (r: Request)
        ensures
            r.method == self@.method,
            r.path@ == path@,
            r.body@ == self@.body,
    {
        Request { method: self.method(), path, body: self.body().clone() }
    }

    /// Spare handles for the worker-loop boundary: a second sending half of
    /// this token's response channel and a second wake handle, so a failure
    /// response can still be delivered after the token is lost inside a
    /// failing handler.
    pub fn salvage_handles(&self) -> (r: (EventSender, WakeHandle))
        ensures
            r.0.trace() =~= Seq::<EventModel>::empty(),
            r.0.channel_id() == self@.chan,
            r.1.id() == self@.conn,
    {
        (self.sender.duplicate(), self.wake.duplicate())
    }

    /// Sends the header event and schedules the connection to pick it up.
    fn send_header(&mut self, status_code: u16, headers: Headers)
        ensures
            final(self)@ == (CommandModel {
                trace: old(self)@.trace.push(
                    EventModel::Header(status_code, headers_model(headers)),
                ),
                ..old(self)@
            }),
    {
        self.sender.send(WorkerResponse::Header(status_code, headers));
        self.wake.wake();
    }

    /// Sends one body chunk and schedules the connection to pick it up.
    fn send_data(&mut self, response_data: Vec<u8>)
        ensures
            final(self)@ == (CommandModel {
                trace: old(self)@.trace.push(EventModel::Data(response_data@)),
                ..old(self)@
            }),
    {
        self.sender.send(WorkerResponse::Data(response_data));
        self.wake.wake();
    }

    /// Sends the terminating event, schedules the connection one last time,
    /// and consumes the token.
    fn finish(self) -> (r: Ghost<Seq<EventModel>>)
        ensures
            r@ =~= self@.trace.push(EventModel::Finish),
    {
        let mut this = self;
        this.sender.send(WorkerResponse::Finish);
        this.wake.wake();
        Ghost(this.sender.trace())
    }
}

/// A command for a worker thread, moved through the work-distribution
/// queue.
pub enum WorkerCommand {
    HandleRequest(RequestToken),
}

impl View for WorkerCommand {
    type V = CommandModel;

    open spec fn view(&self) -> CommandModel {
        match self {
            WorkerCommand::HandleRequest(token) => token@,
        }
    }
}

/// The initial response-emission capability held by the application
/// handler. The one thing it can do is `start` the response, which turns it
/// into a `BodyResponder`; data can therefore never precede the header.
pub struct Responder {
    token: RequestToken,
}

impl Responder {
    /// Which connection this responder answers.
    pub closed spec fn conn(&self) -> u64 {
        self.token@.conn
    }

    /// The identity of the response channel this responder feeds.
    pub closed spec fn channel_id(&self) -> int {
        self.token@.chan
    }

    #[verifier::type_invariant]
    spec fn wf(self) -> bool {
        self.token@.trace =~= Seq::<EventModel>::empty()
    }

    /// Wraps a token whose response channel nothing has been sent on.
    pub fn new(token: RequestToken) -> (r: Self)
        requires
            token@.trace =~= Seq::<EventModel>::empty(),
        ensures
            r.conn() == token@.conn,
            r.channel_id() == token@.chan,
    {
        Responder { token }
    }

    /// Starts the response: sends the `Header` event — necessarily the
    /// first event of this channel — fires the wake, and hands back the
    /// body-stage capability.
    pub fn start(self, status_code: u16, headers: Headers) -> (r: BodyResponder)
        ensures
            r.wf(),
            r.trace() =~= seq![EventModel::Header(status_code, headers_model(headers))],
            r.conn() == self.conn(),
            r.channel_id() == self.channel_id(),
    {
        proof {
            use_type_invariant(&self);
        }
        let Responder { mut token } = self;
        token.send_header(status_code, headers);
        BodyResponder { token }
    }
}

/// The body-stage response-emission capability: any number of `send`
/// chunks, then exactly one `finish`, which consumes it. Held by a handler,
/// it keeps the event order Header, then data, then `Finish` a structural
/// fact rather than a runtime check.
pub struct BodyResponder {
    token: RequestToken,
}

impl BodyResponder {
    /// Every event sent on this responder's channel so far, oldest first.
    pub closed spec fn trace(&self) -> Seq<EventModel> {
        self.token@.trace
    }

    /// Which connection this responder answers.
    pub closed spec fn conn(&self) -> u64 {
        self.token@.conn
    }

    /// The identity of the response channel this responder feeds.
    pub closed spec fn channel_id(&self) -> int {
        self.token@.chan
    }

    /// A body-stage capability is always mid-response: its channel has seen
    /// the one `Header` and otherwise only data chunks. `start` establishes
    /// this and both operations keep it.
    pub open spec fn wf(&self) -> bool {
        started_events(self.trace())
    }

    /// Sends one body chunk, after the header and after every earlier
    /// chunk, and fires the wake.
    pub fn send(&mut self, data: Vec<u8>)
        requires
            old(self).wf(),
        ensures
            final(self).wf(),
            final(self).trace() =~= old(self).trace().push(EventModel::Data(data@)),
            final(self).conn() == old(self).conn(),
            final(self).channel_id() == old(self).channel_id(),
    {
        self.token.send_data(data);
    }

    /// Ends the response: sends the one `Finish` event, fires the wake, and
    /// consumes the capability, leaving a receipt that certifies a complete
    /// response went out on this connection's channel.
    pub fn finish(self) -> (r: Done)
        requires
            self.wf(),
        ensures
            r.trace() =~= self.trace().push(EventModel::Finish),
            r.conn() == self.conn(),
            r.channel_id() == self.channel_id(),
            complete_events(r.trace()),
    {
        let BodyResponder { token } = self;
        let ghost conn = token@.conn;
        let ghost chan = token@.chan;
        let events = token.finish();
        Done { conn: Ghost(conn), chan: Ghost(chan), events: Ghost(events@) }
    }
}

/// The receipt a finished response leaves behind: evidence that its channel
/// received exactly one `Header` first, then only data chunks, then exactly
/// one `Finish`. A handler can produce it only by finishing a responder.
pub struct Done {
    conn: Ghost<u64>,
    chan: Ghost<int>,
    events: Ghost<Seq<EventModel>>,
}

impl Done {
    /// The full event trace the finished response sent, oldest first.
    pub closed spec fn trace(&self) -> Seq<EventModel> {
        self.events@
    }

    /// Which connection the finished response answered.
    pub closed spec fn conn(&self) -> u64 {
        self.conn@
    }

    /// The identity of the response channel the finished response went out
    /// on.
    pub closed spec fn channel_id(&self) -> int {
        self.chan@
    }

    #[verifier::type_invariant]
    spec fn wf(self) -> bool {
        complete_events(self.events@)
    }
}

/// The application layer, as this core consumes it: one operation, invoked
/// synchronously by a worker thread with the decoded request and the
/// response-emission capability for that request's connection. A shared
/// instance must tolerate concurrent invocations; the returned receipt is
/// what forces every handler to finish its response.
pub trait Application {
    /// Handles one request, and must answer it: the receipt it returns is
    /// for the very responder it was given — a response finished on that
    /// request's own channel.
    fn on_request(&self, request: Request, responder: Responder) -> (r: Done)
        ensures
            r.conn() == responder.conn(),
            r.channel_id() == responder.channel_id(),
    ;
}

/// One worker-loop iteration after the blocking pop: decode the target,
/// hand the request and the emission capability to the application, and
/// insist on the receipt. A target that is not in absolute-path form is a
/// contract violation of that one request: the handler is never invoked and
/// a status-coded failure with an empty body is finished instead, so the
/// connection is answered either way.
pub fn handle_request<A: Application>(command: WorkerCommand, application: &A) -> (r: Done)
    requires
        command@.trace =~= Seq::<EventModel>::empty(),
    ensures
        complete_events(r.trace()),
        r.conn() == command@.conn,
        r.channel_id() == command@.chan,
        target_path(command@.target) is None ==> r.trace() =~= seq![
            EventModel::Header(BAD_REQUEST_STATUS, Seq::<(Seq<char>, Seq<char>)>::empty()),
            EventModel::Finish,
        ],
{
    let WorkerCommand::HandleRequest(token) = command;
    let path = match decode_target(token.uri()) {
        Some(path) => path,
        None => {
            let responder = Responder::new(token);
            let no_headers: Headers = Vec::new();
            proof {
                assert(headers_model(no_headers) =~= Seq::<(Seq<char>, Seq<char>)>::empty());
            }
            let body_responder = responder.start(BAD_REQUEST_STATUS, no_headers);
            return body_responder.finish();
        },
    };
    let request = token.to_request(path);
    let responder = Responder::new(token);
    let done = application.on_request(request, responder);
    proof {
        use_type_invariant(&done);
    }
    done
}

/// Best-effort recovery at the worker-loop boundary: when the handler fails
/// without finishing, send a status-coded failure header with no body and
/// the terminating `Finish` on the salvage half, waking the connection for
/// each, so no connection stays suspended forever.
pub fn send_failure_response(sender: &mut EventSender, wake: &WakeHandle)
    ensures
        final(sender).trace() =~= old(sender).trace().push(
            EventModel::Header(SERVER_ERROR_STATUS, Seq::<(Seq<char>, Seq<char>)>::empty()),
        ).push(EventModel::Finish),
{
    let no_headers: Headers = Vec::new();
    proof {
        assert(headers_model(no_headers) =~= Seq::<(Seq<char>, Seq<char>)>::empty());
    }
    sender.send(WorkerResponse::Header(SERVER_ERROR_STATUS, no_headers));
    wake.wake();
    sender.send(WorkerResponse::Finish);
    wake.wake();
}

} // verus!
