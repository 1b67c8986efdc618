use apple_ai_bridge::relay::{classify_chunk, Delivery, StreamRelay, ERROR_SENTINEL};

fn bytes(s: &str) -> Vec<u8> {
    s.as_bytes().to_vec()
}

fn error_chunk(msg: &str) -> Vec<u8> {
    let mut v = vec![ERROR_SENTINEL];
    v.extend_from_slice(msg.as_bytes());
    v
}

#[test]
fn classify_plain_chunk_is_success() {
    let d = classify_chunk(&bytes("hello"));
    assert_eq!(d, Some(Delivery::Success(bytes("hello"))));
}

#[test]
fn classify_sentinel_chunk_is_failure_with_remaining_bytes() {
    let d = classify_chunk(&error_chunk("bad argument"));
    assert_eq!(d, Some(Delivery::Failure(bytes("bad argument"))));
}

#[test]
fn classify_bare_sentinel_is_failure_with_empty_message() {
    let d = classify_chunk(&vec![ERROR_SENTINEL]);
    assert_eq!(d, Some(Delivery::Failure(Vec::new())));
}

#[test]
fn classify_empty_chunk_is_dropped() {
    let d = classify_chunk(&Vec::new());
    assert_eq!(d, None);
}

#[test]
fn session_delivers_chunks_in_order_then_end_marker() {
    let mut relay = StreamRelay::new();
    let prev = relay.start(1);
    assert_eq!(prev, None);

    let chunks = vec![bytes("hello"), error_chunk("bad argument"), bytes(" world")];
    let out = relay.run_session(&chunks);

    assert_eq!(
        out,
        vec![
            Delivery::Success(bytes("hello")),
            Delivery::Failure(bytes("bad argument")),
            Delivery::Success(bytes(" world")),
            Delivery::Success(Vec::new()),
        ]
    );
    assert_eq!(relay.current_handle(), None);
}

#[test]
fn session_with_no_chunks_delivers_only_end_marker() {
    let mut relay = StreamRelay::new();
    relay.start(1);
    let out = relay.run_session(&Vec::new());
    assert_eq!(out, vec![Delivery::Success(Vec::new())]);
}

#[test]
fn empty_chunks_are_dropped_mid_stream() {
    let mut relay = StreamRelay::new();
    relay.start(1);
    let out = relay.run_session(&vec![Vec::new(), bytes("a"), Vec::new(), bytes("b")]);
    assert_eq!(
        out,
        vec![
            Delivery::Success(bytes("a")),
            Delivery::Success(bytes("b")),
            Delivery::Success(Vec::new()),
        ]
    );
}

#[test]
fn stepwise_stream_matches_chunk_classification() {
    let mut relay = StreamRelay::new();
    relay.start(9);

    assert_eq!(
        relay.on_chunk(Some(&bytes("hi"))),
        Some(Delivery::Success(bytes("hi")))
    );
    assert_eq!(relay.on_chunk(Some(&Vec::new())), None);
    assert_eq!(
        relay.on_chunk(Some(&error_chunk("oops"))),
        Some(Delivery::Failure(bytes("oops")))
    );
    assert_eq!(relay.current_handle(), Some(9));

    assert_eq!(relay.on_chunk(None), Some(Delivery::Success(Vec::new())));
    assert_eq!(relay.current_handle(), None);
}

#[test]
fn error_chunk_does_not_terminate_the_stream() {
    let mut relay = StreamRelay::new();
    relay.start(3);
    relay.on_chunk(Some(&error_chunk("transient")));
    assert_eq!(relay.current_handle(), Some(3));
    assert_eq!(
        relay.on_chunk(Some(&bytes("more"))),
        Some(Delivery::Success(bytes("more")))
    );
}

#[test]
fn starting_new_stream_retires_previous_handle() {
    let mut relay = StreamRelay::new();
    assert_eq!(relay.start(1), None);
    let prev = relay.start(2);
    assert_eq!(prev, Some(1));
    assert_eq!(relay.current_handle(), Some(2));
}

#[test]
fn stream_can_restart_after_clean_end() {
    let mut relay = StreamRelay::new();
    relay.start(1);
    relay.on_chunk(None);
    assert_eq!(relay.current_handle(), None);
    let prev = relay.start(2);
    assert_eq!(prev, None);
    assert_eq!(relay.current_handle(), Some(2));
}
