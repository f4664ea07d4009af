//! The two listeners' shared decision logic and fixed configuration.
//!
//! The browser-facing listener serves the UI bundle, the push channel and
//! the address-submission route; the application-facing listener serves the
//! address request and the transaction submission. Both wrap every request
//! in the same wall-clock timeout and map every failure to a generic
//! outcome; the timeout outcome stays distinguishable from all internal
//! errors. Binding sockets, routing, tracing and the browser-opening side
//! effect live with the runtime around the library; what each request does
//! to the mailboxes, and which status each outcome carries, is decided here.

use vstd::prelude::*;
use crate::mailbox::Mailbox;
use crate::wire::AddressRecord;
use crate::wire::TransactionPayload;
use crate::wire::encode_message;
use crate::wire::spec_message_json;

verus! {

/// The port the browser-facing listener binds on localhost.
pub const BROWSER_PORT: u16 = 8080;

/// The port the application-facing listener binds on localhost.
pub const APPLICATION_PORT: u16 = 8081;

/// The uniform wall-clock budget every request gets on either listener.
pub const REQUEST_TIMEOUT_SECS: u64 = 10;

/// How long the address rendezvous sleeps between polls.
pub const POLL_INTERVAL_MILLIS: u64 = 100;

/// How many seconds pass between ticks of the push channel, and between its
/// keep-alive heartbeats.
pub const PUSH_INTERVAL_SECS: u64 = 10;

/// The successful HTTP status.
pub const STATUS_OK: u16 = 200;

/// The status a request that outran its wall-clock budget receives.
pub const STATUS_REQUEST_TIMEOUT: u16 = 408;

/// The status every other component-level failure collapses to.
pub const STATUS_INTERNAL_SERVER_ERROR: u16 = 500;

/// Everything a request can fail with, as the gateway boundary reports it:
/// the distinct timeout outcome, and one opaque internal error that all
/// component-level failures (serialization, UI focus, lock poisoning)
/// collapse to.
#[derive(Clone, Copy, Debug, PartialEq, Eq, Structural)]
pub enum GatewayError {
    /// The request exceeded the uniform wall-clock budget.
    Timeout,
    /// Any other failure inside a handler or the stack under it.
    Internal,
}

/// Sort an error caught by the listeners' wrapping layer: an
/// elapsed-timeout error becomes the timeout outcome, everything else the
/// opaque internal one.
pub fn classify_boxed_error(is_timeout: bool) -> (e: GatewayError)
    ensures
        e == GatewayError::Timeout <==> is_timeout,
        e == GatewayError::Internal <==> !is_timeout,
{
    if is_timeout {
        GatewayError::Timeout
    } else {
        GatewayError::Internal
    }
}

/// The HTTP status each failure outcome maps to; never the success status.
pub fn error_status(e: GatewayError) -> (s: u16)
    ensures
        e == GatewayError::Timeout ==> s == STATUS_REQUEST_TIMEOUT,
        e == GatewayError::Internal ==> s == STATUS_INTERNAL_SERVER_ERROR,
        s != STATUS_OK,
{
    match e {
        GatewayError::Timeout => STATUS_REQUEST_TIMEOUT,
        GatewayError::Internal => STATUS_INTERNAL_SERVER_ERROR,
    }
}

/// Law: a request that times out is distinguishable both from a success and
/// from every other internal error.
pub proof fn lemma_timeout_outcome_distinct()
    ensures
        STATUS_REQUEST_TIMEOUT != STATUS_OK,
        STATUS_REQUEST_TIMEOUT != STATUS_INTERNAL_SERVER_ERROR,
{
}

/// The application submitted a transaction: after the UI focus signal's
/// outcome is known, either store the payload — overwriting any unread one —
/// and acknowledge, or reject the request with the mailbox untouched.
pub fn submit_transaction(
    slot: &mut Mailbox<TransactionPayload>,
    payload: TransactionPayload,
    ui_focus_ok: bool,
) -> (r: Result<String, GatewayError>)
    ensures
        ui_focus_ok ==> final(slot).contents() == Some(payload) && (r matches Ok(ack) && ack@
            == spec_message_json("Ok"@)),
        !ui_focus_ok ==> final(slot).contents() == old(slot).contents() && r == Err::<
            String,
            GatewayError,
        >(GatewayError::Internal),
{
    if ui_focus_ok {
        slot.put(payload);
        Ok(encode_message("Ok"))
    } else {
        Err(GatewayError::Internal)
    }
}

/// The browser submitted an address: store it — overwriting any unread one —
/// and acknowledge.
pub fn submit_address(slot: &mut Mailbox<AddressRecord>, address: AddressRecord) -> (r: String)
    ensures
        final(slot).contents() == Some(address),
        r@ == spec_message_json("Ok"@),
{
    slot.put(address);
    encode_message("Ok")
}

/// The UI focus target a transaction submission opens.
pub fn payload_focus_url() -> (r: &'static str)
    ensures
        r@ == "http://127.0.0.1:8080/?payload=true"@,
{
    "http://127.0.0.1:8080/?payload=true"
}

/// The UI focus target an address request opens.
pub fn address_focus_url() -> (r: &'static str)
    ensures
        r@ == "http://127.0.0.1:8080/?address=true"@,
{
    "http://127.0.0.1:8080/?address=true"
}

} // verus!
