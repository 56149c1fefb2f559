use pipeline_server::body::BodyStream;
use pipeline_server::codec::{decode, echo_message, encode, join_message, split_message};
use pipeline_server::handler::{echo_exchange, EchoHandler, Handler};
use pipeline_server::message::{HeaderField, Message, Request, RequestHead, Response, ResponseHead};

fn get_root() -> RequestHead {
    RequestHead {
        method: b"GET".to_vec(),
        target: b"/".to_vec(),
        headers: vec![HeaderField { name: b"host".to_vec(), value: b"localhost".to_vec() }],
    }
}

fn ok_head() -> ResponseHead {
    ResponseHead { status: 200, headers: Vec::new() }
}

#[test]
fn empty_body_encodes_head_only() {
    let response = Response { head: ok_head(), body: BodyStream::empty() };
    match encode(response) {
        Message::HeadOnly(head) => assert_eq!(head, ok_head()),
        Message::HeadWithBody(_, _) => panic!("empty body must encode as HeadOnly"),
    }
}

#[test]
fn nonempty_body_encodes_head_with_body() {
    let body = BodyStream::from_chunks(vec![b"payload".to_vec()]);
    let response = Response { head: ok_head(), body };
    match encode(response) {
        Message::HeadOnly(_) => panic!("nonempty body must encode as HeadWithBody"),
        Message::HeadWithBody(head, mut body) => {
            assert_eq!(head, ok_head());
            assert_eq!(body.poll_chunk(), Some(b"payload".to_vec()));
            assert_eq!(body.poll_chunk(), None);
        }
    }
}

#[test]
fn head_only_decodes_to_terminated_body() {
    let request = decode(Message::HeadOnly(get_root()));
    assert_eq!(request.head, get_root());
    let mut body = request.body;
    assert!(body.is_empty());
    assert_eq!(body.poll_chunk(), None);
    assert_eq!(body.poll_chunk(), None);
}

#[test]
fn head_with_body_decodes_to_same_chunks() {
    let body = BodyStream::from_chunks(vec![b"ab".to_vec(), b"cd".to_vec()]);
    let request = decode(Message::HeadWithBody(get_root(), body));
    assert_eq!(request.head, get_root());
    let mut body = request.body;
    assert_eq!(body.poll_chunk(), Some(b"ab".to_vec()));
    assert_eq!(body.poll_chunk(), Some(b"cd".to_vec()));
    assert_eq!(body.poll_chunk(), None);
}

#[test]
fn echo_round_trip_preserves_head_and_chunks() {
    let body = BodyStream::from_chunks(vec![b"he".to_vec(), b"llo".to_vec()]);
    match echo_message(Message::HeadWithBody(get_root(), body)) {
        Message::HeadOnly(_) => panic!("nonempty chunks must stay HeadWithBody"),
        Message::HeadWithBody(head, mut body) => {
            assert_eq!(head, get_root());
            assert_eq!(body.poll_chunk(), Some(b"he".to_vec()));
            assert_eq!(body.poll_chunk(), Some(b"llo".to_vec()));
            assert_eq!(body.poll_chunk(), None);
        }
    }
}

#[test]
fn echo_round_trip_zero_chunk_stream_becomes_head_only() {
    let body = BodyStream::from_chunks(Vec::new());
    match echo_message(Message::HeadWithBody(get_root(), body)) {
        Message::HeadOnly(head) => assert_eq!(head, get_root()),
        Message::HeadWithBody(_, _) => {
            panic!("a zero-chunk stream must not survive an encode")
        }
    }
}

#[test]
fn split_head_only_supplies_empty_stream() {
    let (head, mut body) = split_message(Message::HeadOnly(ok_head()));
    assert_eq!(head, ok_head());
    assert_eq!(body.poll_chunk(), None);
}

#[test]
fn join_decides_variant_by_emptiness() {
    match join_message(ok_head(), BodyStream::empty()) {
        Message::HeadOnly(_) => {}
        Message::HeadWithBody(_, _) => panic!("empty stream must join as HeadOnly"),
    }
    match join_message(ok_head(), BodyStream::from_chunks(vec![b"x".to_vec()])) {
        Message::HeadOnly(_) => panic!("nonempty stream must join as HeadWithBody"),
        Message::HeadWithBody(_, _) => {}
    }
}

#[test]
fn echo_handler_reflects_request_body() {
    let mut handler = EchoHandler { status: 200 };
    let request = Request {
        head: get_root(),
        body: BodyStream::from_chunks(vec![b"ping".to_vec()]),
    };
    let response = handler.call(request).expect("echo handler never fails");
    assert_eq!(response.head.status, 200);
    assert!(response.head.headers.is_empty());
    let mut body = response.body;
    assert_eq!(body.poll_chunk(), Some(b"ping".to_vec()));
    assert_eq!(body.poll_chunk(), None);
}

#[test]
fn echo_exchange_reproduces_chunks_under_given_status() {
    let body = BodyStream::from_chunks(vec![b"a".to_vec(), b"b".to_vec(), b"c".to_vec()]);
    match echo_exchange(204, Message::HeadWithBody(get_root(), body)) {
        Message::HeadOnly(_) => panic!("three chunks must stay HeadWithBody"),
        Message::HeadWithBody(head, mut body) => {
            assert_eq!(head.status, 204);
            assert_eq!(body.poll_chunk(), Some(b"a".to_vec()));
            assert_eq!(body.poll_chunk(), Some(b"b".to_vec()));
            assert_eq!(body.poll_chunk(), Some(b"c".to_vec()));
            assert_eq!(body.poll_chunk(), None);
        }
    }
    match echo_exchange(204, Message::HeadOnly(get_root())) {
        Message::HeadOnly(head) => assert_eq!(head.status, 204),
        Message::HeadWithBody(_, _) => panic!("an empty exchange must be HeadOnly"),
    }
}

#[test]
fn body_stream_push_then_poll_in_order() {
    let mut body = BodyStream::empty();
    body.push_chunk(b"one".to_vec());
    body.push_chunk(b"two".to_vec());
    assert!(!body.is_empty());
    assert_eq!(body.poll_chunk(), Some(b"one".to_vec()));
    assert_eq!(body.poll_chunk(), Some(b"two".to_vec()));
    assert_eq!(body.poll_chunk(), None);
}
