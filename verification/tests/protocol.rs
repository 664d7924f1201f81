use std::cell::Cell;
use std::sync::mpsc::{channel, Receiver};

use cobweb::channel::{drain_events, new_event_channel, EventReceiver, WakeHandle};
use cobweb::request::{decode_target, Method, Request, RequestTarget};
use cobweb::response::WorkerResponse;
use cobweb::worker::{
    handle_request, send_failure_response, Application, Done, RequestToken, Responder,
    WorkerCommand, BAD_REQUEST_STATUS, SERVER_ERROR_STATUS,
};

fn fresh_token(
    method: Method,
    target: RequestTarget,
    body: Vec<u8>,
    conn_id: u64,
) -> (RequestToken, EventReceiver, Receiver<u64>) {
    let (wake_tx, wake_rx) = channel::<u64>();
    let wake = WakeHandle::new(conn_id, wake_tx);
    let (sender, receiver) = new_event_channel();
    let token = RequestToken::new(method, target, body, wake, sender);
    (token, receiver, wake_rx)
}

fn collect_events(receiver: &EventReceiver) -> Vec<WorkerResponse> {
    drain_events(receiver, 1024)
}

fn collect_wakes(receiver: &Receiver<u64>) -> Vec<u64> {
    let mut wakes = Vec::new();
    while let Ok(id) = receiver.try_recv() {
        wakes.push(id);
    }
    wakes
}

#[test]
fn responder_emits_header_data_finish_in_order() {
    let (token, events_rx, wakes_rx) =
        fresh_token(Method::Get, RequestTarget::AbsolutePath("/hello".to_string()), Vec::new(), 7);
    let responder = Responder::new(token);
    let headers = vec![("content-type".to_string(), "text/plain".to_string())];
    let mut body = responder.start(200, headers);
    body.send(b"po".to_vec());
    body.send(b"ng".to_vec());
    let _done: Done = body.finish();

    let events = collect_events(&events_rx);
    assert_eq!(events.len(), 4);
    match &events[0] {
        WorkerResponse::Header(status, headers) => {
            assert_eq!(*status, 200);
            assert_eq!(headers.len(), 1);
            assert_eq!(headers[0].0, "content-type");
            assert_eq!(headers[0].1, "text/plain");
        }
        other => panic!("expected the header first, got {:?}", other),
    }
    match &events[1] {
        WorkerResponse::Data(data) => assert_eq!(data, &b"po".to_vec()),
        other => panic!("expected the first chunk, got {:?}", other),
    }
    match &events[2] {
        WorkerResponse::Data(data) => assert_eq!(data, &b"ng".to_vec()),
        other => panic!("expected the second chunk, got {:?}", other),
    }
    assert!(matches!(events[3], WorkerResponse::Finish));

    // One wake per event, each carrying the connection's identity.
    assert_eq!(collect_wakes(&wakes_rx), vec![7, 7, 7, 7]);
}

#[test]
fn responder_with_no_chunks_emits_header_then_finish() {
    let (token, events_rx, _wakes_rx) =
        fresh_token(Method::Head, RequestTarget::AbsolutePath("/".to_string()), Vec::new(), 1);
    let body = Responder::new(token).start(204, Vec::new());
    let _done = body.finish();
    let events = collect_events(&events_rx);
    assert_eq!(events.len(), 2);
    assert!(matches!(events[0], WorkerResponse::Header(204, _)));
    assert!(matches!(events[1], WorkerResponse::Finish));
}

#[test]
fn token_exposes_what_it_captured() {
    let (token, _events_rx, _wakes_rx) = fresh_token(
        Method::Post,
        RequestTarget::AbsolutePath("/submit?q=1".to_string()),
        b"payload".to_vec(),
        9,
    );
    assert_eq!(token.method(), Method::Post);
    assert!(matches!(token.uri(), RequestTarget::AbsolutePath(path) if path == "/submit?q=1"));
    assert_eq!(token.body(), &b"payload".to_vec());
    let request: Request = token.to_request("/submit?q=1".to_string());
    assert_eq!(request.method, Method::Post);
    assert_eq!(request.path, "/submit?q=1");
    assert_eq!(request.body, b"payload".to_vec());
}

#[test]
fn decode_target_accepts_only_absolute_paths() {
    assert_eq!(
        decode_target(&RequestTarget::AbsolutePath("/a/b?c=d".to_string())),
        Some("/a/b?c=d".to_string())
    );
    assert_eq!(decode_target(&RequestTarget::AbsoluteUri("http://e/".to_string())), None);
    assert_eq!(decode_target(&RequestTarget::Authority("e:80".to_string())), None);
    assert_eq!(decode_target(&RequestTarget::Star), None);
}

struct EchoApp {
    invoked: Cell<bool>,
}

impl Application for EchoApp {
    fn on_request(&self, request: Request, responder: Responder) -> Done {
        self.invoked.set(true);
        assert_eq!(request.path, "/echo");
        let mut body = responder.start(200, Vec::new());
        body.send(request.body.clone());
        body.finish()
    }
}

#[test]
fn handle_request_hands_the_body_through_and_finishes() {
    let (token, events_rx, _wakes_rx) = fresh_token(
        Method::Post,
        RequestTarget::AbsolutePath("/echo".to_string()),
        b"abc".to_vec(),
        3,
    );
    let app = EchoApp { invoked: Cell::new(false) };
    let _done = handle_request(WorkerCommand::HandleRequest(token), &app);
    assert!(app.invoked.get());
    let events = collect_events(&events_rx);
    assert_eq!(events.len(), 3);
    assert!(matches!(events[0], WorkerResponse::Header(200, _)));
    match &events[1] {
        WorkerResponse::Data(data) => assert_eq!(data, &b"abc".to_vec()),
        other => panic!("expected the echoed body, got {:?}", other),
    }
    assert!(matches!(events[2], WorkerResponse::Finish));
}

#[test]
fn handle_request_answers_a_bad_target_without_the_handler() {
    let (token, events_rx, _wakes_rx) =
        fresh_token(Method::Get, RequestTarget::Star, Vec::new(), 4);
    let app = EchoApp { invoked: Cell::new(false) };
    let _done = handle_request(WorkerCommand::HandleRequest(token), &app);
    assert!(!app.invoked.get());
    let events = collect_events(&events_rx);
    assert_eq!(events.len(), 2);
    match &events[0] {
        WorkerResponse::Header(status, headers) => {
            assert_eq!(*status, BAD_REQUEST_STATUS);
            assert!(headers.is_empty());
        }
        other => panic!("expected the failure header, got {:?}", other),
    }
    assert!(matches!(events[1], WorkerResponse::Finish));
}

#[test]
fn salvage_sends_failure_header_and_finish() {
    let (token, events_rx, wakes_rx) =
        fresh_token(Method::Get, RequestTarget::AbsolutePath("/x".to_string()), Vec::new(), 5);
    let (mut spare_sender, spare_wake) = token.salvage_handles();
    drop(token);
    send_failure_response(&mut spare_sender, &spare_wake);
    let events = collect_events(&events_rx);
    assert_eq!(events.len(), 2);
    match &events[0] {
        WorkerResponse::Header(status, headers) => {
            assert_eq!(*status, SERVER_ERROR_STATUS);
            assert!(headers.is_empty());
        }
        other => panic!("expected the failure header, got {:?}", other),
    }
    assert!(matches!(events[1], WorkerResponse::Finish));
    assert_eq!(collect_wakes(&wakes_rx), vec![5, 5]);
}
