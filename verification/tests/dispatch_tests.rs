use pipeline_server::body::BodyStream;
use pipeline_server::dispatch::Dispatch;
use pipeline_server::handler::resume;
use pipeline_server::message::{Message, Response, ResponseHead};

#[test]
fn pipelined_responses_leave_in_receipt_order() {
    let mut dispatch: Dispatch<&str> = Dispatch::new();
    let first = dispatch.accept_request();
    let second = dispatch.accept_request();
    assert_eq!(first, 0);
    assert_eq!(second, 1);

    // The second request's handler resolves before the first's.
    dispatch.complete(second, "response B");
    let held = dispatch.flush();
    assert!(held.is_empty());

    dispatch.complete(first, "response A");
    let released = dispatch.flush();
    assert_eq!(released, vec!["response A", "response B"]);
}

#[test]
fn flush_stops_at_first_pending_slot() {
    let mut dispatch: Dispatch<u32> = Dispatch::new();
    let a = dispatch.accept_request();
    let b = dispatch.accept_request();
    let c = dispatch.accept_request();

    dispatch.complete(a, 10);
    dispatch.complete(c, 30);
    assert_eq!(dispatch.flush(), vec![10]);

    dispatch.complete(b, 20);
    assert_eq!(dispatch.flush(), vec![20, 30]);
}

#[test]
fn flush_of_fresh_dispatch_is_empty() {
    let mut dispatch: Dispatch<u32> = Dispatch::new();
    assert!(dispatch.flush().is_empty());
}

#[test]
fn resumption_holds_early_completions_and_encodes_in_order() {
    let mut dispatch: Dispatch<Response> = Dispatch::new();
    let a = dispatch.accept_request();
    let b = dispatch.accept_request();

    // B's handler resolves first: its response is held.
    let early = Response {
        head: ResponseHead { status: 201, headers: Vec::new() },
        body: BodyStream::from_chunks(vec![b"b".to_vec()]),
    };
    assert!(resume(&mut dispatch, b, early).is_empty());

    // A's handler resolves: both responses leave, A's first, each encoded.
    let late = Response {
        head: ResponseHead { status: 200, headers: Vec::new() },
        body: BodyStream::empty(),
    };
    let mut out = resume(&mut dispatch, a, late).into_iter();
    match out.next().unwrap() {
        Message::HeadOnly(head) => assert_eq!(head.status, 200),
        Message::HeadWithBody(_, _) => panic!("an empty response must encode as HeadOnly"),
    }
    match out.next().unwrap() {
        Message::HeadOnly(_) => panic!("a nonempty response must encode as HeadWithBody"),
        Message::HeadWithBody(head, mut body) => {
            assert_eq!(head.status, 201);
            assert_eq!(body.poll_chunk(), Some(b"b".to_vec()));
            assert_eq!(body.poll_chunk(), None);
        }
    }
    assert!(out.next().is_none());
}

#[test]
fn receipt_indices_count_up_across_flushes() {
    let mut dispatch: Dispatch<u32> = Dispatch::new();
    let a = dispatch.accept_request();
    dispatch.complete(a, 1);
    assert_eq!(dispatch.flush(), vec![1]);
    let b = dispatch.accept_request();
    assert_eq!(b, 1);
    dispatch.complete(b, 2);
    assert_eq!(dispatch.flush(), vec![2]);
}
