//! The address rendezvous: a blocking request bridged to a browser action.
//!
//! The application asks for "the current wallet address"; the browser UI is
//! brought to the foreground, and the request then polls the address mailbox
//! at a fixed short interval until a value appears, consumes it, and answers
//! with it. The loop itself has no intrinsic timeout: it relies on the
//! listeners' uniform per-request timeout layer to abort it, and that
//! layering is deliberate. The sleeping and the UI side effect belong to the
//! runtime around the library; each iteration's decision is `poll_address`.

use vstd::prelude::*;
use crate::gateway::GatewayError;
use crate::mailbox::Mailbox;
use crate::wire::AddressRecord;
use crate::wire::encode_message;
use crate::wire::spec_message_json;

verus! {

/// The first step of an address request: the UI focus signal has been sent,
/// with the given outcome. A failed signal rejects the request as an
/// internal error before any polling starts.
pub fn begin_address_request(ui_focus_ok: bool) -> (r: Result<(), GatewayError>)
    ensures
        r is Ok <==> ui_focus_ok,
        !ui_focus_ok ==> r == Err::<(), GatewayError>(GatewayError::Internal),
{
    if ui_focus_ok {
        Ok(())
    } else {
        Err(GatewayError::Internal)
    }
}

/// One iteration of the polling loop: observe the address mailbox, and if it
/// holds a record, consume it and answer with its hex text in a `message`
/// object; otherwise leave it empty-handed so the caller sleeps one interval
/// and polls again.
pub fn poll_address(slot: &mut Mailbox<AddressRecord>) -> (r: Option<String>)
    ensures
        old(slot).contents() is None ==> r is None && final(slot).contents() is None,
        old(slot).contents() matches Some(a) ==> final(slot).contents() is None && (
        r matches Some(text) && text@ == spec_message_json(a.hex@)),
{
    if slot.peek_is_empty() {
        None
    } else {
        let taken = slot.try_take();
        let record = taken.unwrap();
        Some(encode_message(record.hex.as_str()))
    }
}

} // verus!
