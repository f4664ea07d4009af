use wallet_server::gateway::submit_transaction;
use wallet_server::mailbox::Mailbox;
use wallet_server::push::EmptyTickPolicy;
use wallet_server::push::keep_alive_text;
use wallet_server::push::push_event_name;
use wallet_server::push::sse_tick;
use wallet_server::wire::TransactionPayload;

fn transfer_payload() -> TransactionPayload {
    TransactionPayload {
        kind: String::from("entry"),
        function: String::from("transfer"),
        arguments: vec![String::from("0x1"), String::from("100")],
        type_arguments: vec![],
    }
}

#[test]
fn submitted_payload_is_emitted_exactly_once() {
    let mut slot: Mailbox<TransactionPayload> = Mailbox::new();
    let ack = submit_transaction(&mut slot, transfer_payload(), true);
    assert_eq!(ack, Ok(String::from("{\"message\":\"Ok\"}")));

    let first = sse_tick(&mut slot, EmptyTickPolicy::SkipWhenEmpty);
    assert_eq!(
        first,
        Some(String::from(
            "{\"type\":\"entry\",\"function\":\"transfer\",\"arguments\":[\"0x1\",\"100\"],\"type_arguments\":[]}"
        ))
    );
    assert!(slot.peek_is_empty());

    let second = sse_tick(&mut slot, EmptyTickPolicy::SkipWhenEmpty);
    assert_eq!(second, None);
}

#[test]
fn empty_tick_emits_nothing_under_skip_policy() {
    let mut slot: Mailbox<TransactionPayload> = Mailbox::new();
    assert_eq!(sse_tick(&mut slot, EmptyTickPolicy::SkipWhenEmpty), None);
    assert!(slot.peek_is_empty());
}

#[test]
fn empty_tick_emits_cleared_payload_under_emit_policy() {
    let mut slot: Mailbox<TransactionPayload> = Mailbox::new();
    let emitted = sse_tick(&mut slot, EmptyTickPolicy::EmitClearedWhenEmpty);
    assert_eq!(
        emitted,
        Some(String::from(
            "{\"type\":\"\",\"function\":\"\",\"arguments\":[],\"type_arguments\":[]}"
        ))
    );
    assert!(slot.peek_is_empty());
}

#[test]
fn second_submission_overwrites_the_first() {
    let mut slot: Mailbox<TransactionPayload> = Mailbox::new();
    let mut first = transfer_payload();
    first.function = String::from("mint");
    submit_transaction(&mut slot, first, true).unwrap();
    submit_transaction(&mut slot, transfer_payload(), true).unwrap();

    let emitted = sse_tick(&mut slot, EmptyTickPolicy::SkipWhenEmpty).unwrap();
    assert!(emitted.contains("\"transfer\""));
    assert!(!emitted.contains("\"mint\""));
    assert_eq!(sse_tick(&mut slot, EmptyTickPolicy::SkipWhenEmpty), None);
}

#[test]
fn stream_frame_constants() {
    assert_eq!(push_event_name(), "payload");
    assert_eq!(keep_alive_text(), "keep-alive-text");
}
