use vstd::prelude::*;

use crate::error::SmpError;
use crate::header::{NmpGroup, NmpId, NmpIdDef, NmpOp};
use crate::transport::{carries, reply_rc, reply_rc_outcome, send, sent_carries, SmpRequest, Transport};

verus! {

/// The reset request: a write of the reset command with no body.
pub fn reset_request() -> (r: SmpRequest)
    ensures
        carries(r, NmpOp::Write, NmpGroup::Default, 5, None),
{
    SmpRequest { op: NmpOp::Write, group: NmpGroup::Default, id: NmpIdDef::Reset.to_u8(), body: None }
}

/// Resets the device: sends `reset_request()` and returns `reply_rc` of the reply,
/// so an absent or zero return code is `Ok`, a non-zero one a device error, and the
/// link's errors pass through.
pub fn reset_transport<T: Transport>(transport: &mut T) -> (r: Result<(), SmpError>)
    ensures
        sent_carries(final(transport).last_request(), NmpOp::Write, NmpGroup::Default, 5, None),
        r == reply_rc_outcome(final(transport).last_reply()), {
    let req = reset_request();
    reply_rc(&send(transport, &req))
}

} // verus!
