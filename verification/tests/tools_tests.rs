use apple_ai_bridge::tools::{
    empty_object_bytes, normalize_args, prepare_dispatch_reply, prepare_tool_result, PendingTools,
};
use apple_ai_bridge::{BridgeError, PayloadKind};

fn bytes(s: &str) -> Vec<u8> {
    s.as_bytes().to_vec()
}

#[test]
fn empty_object_is_two_brace_bytes() {
    assert_eq!(empty_object_bytes(), bytes("{}"));
}

#[test]
fn null_arguments_become_empty_object() {
    assert_eq!(normalize_args(None), bytes("{}"));
}

#[test]
fn present_arguments_pass_through_unchanged() {
    assert_eq!(normalize_args(Some(bytes("{\"a\":1}"))), bytes("{\"a\":1}"));
}

#[test]
fn result_before_timeout_is_returned_exactly() {
    let mut pending: PendingTools<u32> = PendingTools::new();
    assert_eq!(pending.count(), 0);

    // The foreign callback fires with identifier 42 and arguments "{}".
    let args = normalize_args(Some(bytes("{}")));
    assert_eq!(args, bytes("{}"));
    pending.begin(42, 7);
    assert!(pending.contains(42));
    assert_eq!(pending.count(), 1);

    // The host answers within the timeout: its delivery finds the waiting
    // endpoint and removes the record.
    let endpoint = pending.take(42);
    assert_eq!(endpoint, Some(7));

    // The dispatcher receives the result and returns it unchanged.
    let returned = pending.complete(42, Some(bytes("{\"ok\":true}")));
    assert_eq!(returned, bytes("{\"ok\":true}"));
    assert!(!pending.contains(42));
    assert_eq!(pending.count(), 0);
}

#[test]
fn timeout_returns_empty_object_and_cleans_up() {
    let mut pending: PendingTools<u32> = PendingTools::new();

    // The foreign callback fires with identifier 7; the host never responds.
    pending.begin(7, 1);
    assert!(pending.contains(7));

    // The wait times out: the dispatcher removes its own record and falls
    // back to the empty object.
    let returned = pending.complete(7, None);
    assert_eq!(returned, bytes("{}"));
    assert!(!pending.contains(7));
    assert_eq!(pending.count(), 0);
}

#[test]
fn late_delivery_finds_no_waiter_and_changes_nothing() {
    let mut pending: PendingTools<u32> = PendingTools::new();
    pending.begin(7, 1);
    let fallback = pending.complete(7, None);
    assert_eq!(fallback, bytes("{}"));

    // The host answers after the timeout: the delivery still succeeds, finds
    // no waiter, and is dropped silently.
    let endpoint = pending.take(7);
    assert_eq!(endpoint, None);
    assert_eq!(pending.count(), 0);
}

#[test]
fn pending_count_returns_to_precall_value() {
    let mut pending: PendingTools<u32> = PendingTools::new();
    pending.begin(1, 10);
    let before = pending.count();

    pending.begin(42, 11);
    assert_eq!(pending.count(), before + 1);
    pending.complete(42, Some(bytes("r")));
    assert_eq!(pending.count(), before);

    pending.begin(43, 12);
    pending.complete(43, None);
    assert_eq!(pending.count(), before);
    assert!(pending.contains(1));
}

#[test]
fn tool_result_buffer_is_terminated() {
    let buf = prepare_tool_result(&bytes("{\"x\":2}")).unwrap();
    let mut expected = bytes("{\"x\":2}");
    expected.push(0);
    assert_eq!(buf, expected);
}

#[test]
fn tool_result_with_embedded_terminator_is_rejected() {
    let r = prepare_tool_result(&vec![123, 0, 125]);
    assert_eq!(r, Err(BridgeError::InvalidPayload(PayloadKind::ToolResult)));
}

#[test]
fn dispatch_reply_is_terminated_result() {
    let reply = prepare_dispatch_reply(&bytes("{\"ok\":true}"));
    let mut expected = bytes("{\"ok\":true}");
    expected.push(0);
    assert_eq!(reply, expected);
}

#[test]
fn dispatch_reply_falls_back_instead_of_failing() {
    let reply = prepare_dispatch_reply(&vec![123, 0, 125]);
    let mut expected = bytes("{}");
    expected.push(0);
    assert_eq!(reply, expected);
}
