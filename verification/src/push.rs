//! The push channel's tick: drain the payload mailbox into one emission.
//!
//! A persistently connected browser client receives one event per tick that
//! finds the payload mailbox occupied. The surrounding stream — the fixed
//! tick interval, the keep-alive heartbeat between deliveries, restart on a
//! fresh connection — is transport plumbing and lives with the listener; the
//! decision of what a tick emits and what it leaves in the mailbox is here.

use vstd::prelude::*;
use crate::mailbox::Mailbox;
use crate::wire::TransactionPayload;
use crate::wire::encode_payload;
use crate::wire::spec_cleared_json;
use crate::wire::spec_payload_json;

verus! {

/// What a tick does when it finds the mailbox empty: either emit nothing and
/// leave the slot alone, or read-and-clear unconditionally and so emit the
/// all-empty payload each empty tick. The choice is the caller's to make and
/// to document.
#[derive(Clone, Copy, Debug, PartialEq, Eq, Structural)]
pub enum EmptyTickPolicy {
    /// Emit nothing on an empty tick; only the keep-alive heartbeat runs.
    SkipWhenEmpty,
    /// Emit the cleared (all-empty) payload on an empty tick.
    EmitClearedWhenEmpty,
}

/// One tick of the push channel: if the mailbox holds a payload, consume it
/// and emit its wire text; if it is empty, emit nothing or the cleared
/// payload, as the policy says. The mailbox never holds a value after a tick
/// that emitted one.
pub fn sse_tick(slot: &mut Mailbox<TransactionPayload>, policy: EmptyTickPolicy) -> (r: Option<
    String,
>)
    ensures
        old(slot).contents() matches Some(p) ==> final(slot).contents() is None && (
        r matches Some(text) && text@ == spec_payload_json(p)),
        old(slot).contents() is None && policy == EmptyTickPolicy::SkipWhenEmpty
            ==> final(slot).contents() is None && r is None,
        old(slot).contents() is None && policy == EmptyTickPolicy::EmitClearedWhenEmpty
            ==> final(slot).contents() is None && (r matches Some(text) && text@
            == spec_cleared_json()),
{
    match slot.try_take() {
        Some(payload) => Some(encode_payload(&payload)),
        None => match policy {
            EmptyTickPolicy::SkipWhenEmpty => None,
            EmptyTickPolicy::EmitClearedWhenEmpty => {
                let cleared = TransactionPayload::empty();
                Some(encode_payload(&cleared))
            },
        },
    }
}

/// The event name every push frame carries.
pub fn push_event_name() -> (r: &'static str)
    ensures
        r@ == "payload"@,
{
    "payload"
}

/// The text of the keep-alive heartbeat frame.
pub fn keep_alive_text() -> (r: &'static str)
    ensures
        r@ == "keep-alive-text"@,
{
    "keep-alive-text"
}

} // verus!
