use std::sync::mpsc::{channel, Receiver};

use cobweb::channel::WakeHandle;
use cobweb::listener::{Connection, DEFAULT_BODY_CAP, READ_CHUNK};
use cobweb::queue::WorkQueue;
use cobweb::request::{Method, Request, RequestTarget};
use cobweb::worker::{
    handle_request, send_failure_response, Application, Done, Responder, WorkerCommand,
};
use cobweb::NextAction;
use cobweb::Server;

fn new_connection(path: &str, conn_id: u64) -> (Connection, Receiver<u64>) {
    let (wake_tx, wake_rx) = channel::<u64>();
    let wake = WakeHandle::new(conn_id, wake_tx);
    let connection = Connection::new(
        Method::Get,
        RequestTarget::AbsolutePath(path.to_string()),
        wake,
        DEFAULT_BODY_CAP,
    );
    (connection, wake_rx)
}

struct PongApp;

impl Application for PongApp {
    fn on_request(&self, request: Request, responder: Responder) -> Done {
        assert_eq!(request.path, "/hello");
        assert!(request.body.is_empty());
        let mut body = responder.start(200, Vec::new());
        body.send(b"pong".to_vec());
        body.finish()
    }
}

#[test]
fn hello_request_round_trips_through_the_pipeline() {
    let (mut connection, wake_rx) = new_connection("/hello", 1);
    let mut queue = WorkQueue::new();

    // The peer sends no body: the read returns nothing and the token goes
    // onto the queue.
    assert_eq!(connection.on_read_eof(&mut queue), NextAction::Wait);

    // One worker picks the token up and runs the handler.
    let command = queue.try_pop().expect("the token must be queued");
    let _done = handle_request(command, &PongApp);

    // The worker's sends woke the connection.
    assert!(wake_rx.try_recv().is_ok());

    // Woken, the connection receives the header and enters the write phase
    // with the chunk and the finish already pending.
    let (action, header) = connection.on_wake();
    assert_eq!(action, NextAction::Write);
    let (status, headers) = header.expect("the first event must be the header");
    assert_eq!(status, 200);
    assert!(headers.is_empty());

    // The write phase hands the body out in order and ends the connection.
    let (action, written) = connection.on_writable();
    assert_eq!(action, NextAction::End);
    assert_eq!(written, vec![b"pong".to_vec()]);
}

#[test]
fn body_chunks_accumulate_in_order() {
    let (mut connection, _wake_rx) = new_connection("/upload", 2);
    let mut queue = WorkQueue::new();
    assert_eq!(connection.on_read(b"abc".to_vec()), NextAction::Read);
    assert_eq!(connection.on_read(b"def".to_vec()), NextAction::Read);
    assert_eq!(connection.on_read_eof(&mut queue), NextAction::Wait);
    let command = queue.try_pop().expect("the token must be queued");
    let WorkerCommand::HandleRequest(token) = command;
    assert_eq!(token.body(), &b"abcdef".to_vec());
}

#[test]
fn oversized_body_aborts_before_the_queue_sees_it() {
    let (mut connection, _wake_rx) = new_connection("/big", 3);
    let chunk = vec![0u8; READ_CHUNK];
    let ten_mebibytes = 10 * 1024 * 1024;
    let mut fed = 0usize;
    let mut aborted = false;
    while fed < ten_mebibytes {
        match connection.on_read(chunk.clone()) {
            NextAction::Read => fed += READ_CHUNK,
            NextAction::End => {
                aborted = true;
                break;
            }
            other => panic!("unexpected readiness {:?}", other),
        }
    }
    // The connection was aborted before the whole stream was buffered, and
    // never got further than the cap plus one chunk of slack.
    assert!(aborted);
    assert!(fed <= DEFAULT_BODY_CAP + READ_CHUNK);
}

#[test]
fn over_cap_body_at_eof_is_rejected() {
    let (mut connection, _wakes) = new_connection("/big", 4);
    let mut queue = WorkQueue::new();
    // Fill the buffer exactly to the cap — each append is allowed while
    // the buffer has not yet passed it — then push one byte over.
    let chunk = vec![0u8; READ_CHUNK];
    let mut fed: usize = 0;
    while fed < DEFAULT_BODY_CAP {
        assert_eq!(connection.on_read(chunk.clone()), NextAction::Read);
        fed += READ_CHUNK;
    }
    assert_eq!(connection.on_read(vec![0u8; 1]), NextAction::Read);
    // The peer ends the stream just past the cap: the body is still
    // rejected, and the queue never sees it.
    assert_eq!(connection.on_read_eof(&mut queue), NextAction::End);
    assert!(queue.try_pop().is_none());
}

struct CountedApp;

impl Application for CountedApp {
    fn on_request(&self, request: Request, responder: Responder) -> Done {
        let mut body = responder.start(200, Vec::new());
        body.send(request.body);
        body.finish()
    }
}

#[test]
fn two_connections_one_worker_both_finish() {
    let (mut first, _first_wakes) = new_connection("/hello", 10);
    let (mut second, _second_wakes) = new_connection("/hello", 11);
    let mut queue = WorkQueue::new();

    // Both arrive before any worker runs.
    first.on_read(b"one".to_vec());
    first.on_read_eof(&mut queue);
    second.on_read(b"two".to_vec());
    second.on_read_eof(&mut queue);

    // A single worker drains the queue one token at a time.
    let mut handled: usize = 0;
    while let Some(command) = queue.try_pop() {
        let _done = handle_request(command, &CountedApp);
        handled += 1;
    }
    assert_eq!(handled, 2);

    // Both connections make it to the end of their responses.
    for connection in [&mut first, &mut second] {
        let (action, header) = connection.on_wake();
        assert_eq!(action, NextAction::Write);
        assert!(header.is_some());
        let (action, _written) = connection.on_writable();
        assert_eq!(action, NextAction::End);
    }
}

#[test]
fn drain_yields_every_command_exactly_once_in_order() {
    let mut queue = WorkQueue::new();
    let bodies: [&[u8]; 3] = [b"first", b"second", b"third"];
    for (i, body) in bodies.iter().enumerate() {
        let (mut connection, _wakes) = new_connection("/queued", i as u64);
        connection.on_read(body.to_vec());
        connection.on_read_eof(&mut queue);
    }
    let drained = queue.drain();
    assert_eq!(drained.len(), 3);
    for (command, body) in drained.into_iter().zip(bodies.iter()) {
        let WorkerCommand::HandleRequest(token) = command;
        assert_eq!(token.body(), &body.to_vec());
    }
    assert!(queue.try_pop().is_none());
}

#[test]
fn lost_responder_after_start_still_ends_the_connection() {
    let (mut connection, _wakes) = new_connection("/doomed", 20);
    let mut queue = WorkQueue::new();
    connection.on_read_eof(&mut queue);
    let WorkerCommand::HandleRequest(token) = queue.try_pop().expect("queued");

    // The handler starts the response, then is lost before finishing; the
    // worker-loop boundary still delivers a terminating failure response
    // on the spare handles.
    let (mut spare_sender, spare_wake) = token.salvage_handles();
    let body = Responder::new(token).start(200, Vec::new());
    drop(body);
    send_failure_response(&mut spare_sender, &spare_wake);

    // The connection takes the header, then runs into the failure events
    // and closes instead of suspending forever.
    let (action, header) = connection.on_wake();
    assert!(header.is_some());
    assert_eq!(action, NextAction::Write);
    let (action, written) = connection.on_writable();
    assert_eq!(action, NextAction::End);
    assert!(written.is_empty());
}

#[test]
fn lost_responder_before_start_still_ends_the_connection() {
    let (mut connection, _wakes) = new_connection("/doomed", 21);
    let mut queue = WorkQueue::new();
    connection.on_read_eof(&mut queue);
    let WorkerCommand::HandleRequest(token) = queue.try_pop().expect("queued");

    let (mut spare_sender, spare_wake) = token.salvage_handles();
    drop(token);
    send_failure_response(&mut spare_sender, &spare_wake);

    let (action, header) = connection.on_wake();
    let (status, _headers) = header.expect("the failure header must arrive first");
    assert_eq!(status, 500);
    assert_eq!(action, NextAction::Write);
    let (action, written) = connection.on_writable();
    assert_eq!(action, NextAction::End);
    assert!(written.is_empty());
}

#[test]
fn io_fault_forces_the_connection_closed() {
    let (mut connection, _wakes) = new_connection("/faulty", 30);
    assert_eq!(connection.on_read(b"partial".to_vec()), NextAction::Read);
    // The engine reports a failed read: terminal for this connection only.
    assert_eq!(connection.on_io_error(), NextAction::End);
}

struct NoopApp;

impl Application for NoopApp {
    fn on_request(&self, _request: Request, responder: Responder) -> Done {
        responder.start(204, Vec::new()).finish()
    }
}

#[test]
fn server_configuration_is_kept() {
    let server = Server::new(NoopApp).worker_threads(3).listener_threads(2);
    let (_application, workers, listeners) = server.into_parts();
    assert_eq!(workers, 3);
    assert_eq!(listeners, 2);

    let (_application, workers, listeners) = Server::new(NoopApp).into_parts();
    assert!(workers >= 1);
    assert_eq!(workers, listeners);
}
