use vstd::prelude::*;

use crate::cbor::{empty_map, Wire};
use crate::error::SmpError;
use crate::header::{NmpGroup, NmpId, NmpIdStat, NmpOp};
use crate::records::{StatListRsp, StatReadReq, StatReadRsp};
use crate::transport::{carries, reply_decodes, reply_record, send, sent_carries, SmpRequest, Transport};

verus! {

/// The request for the statistics group names: a read with an empty map.
pub fn stat_list_request() -> (r: SmpRequest)
    ensures
        carries(r, NmpOp::Read, NmpGroup::Stat, 1, Some(Seq::empty())),
{
    SmpRequest { op: NmpOp::Read, group: NmpGroup::Stat, id: NmpIdStat::List.to_u8(), body: Some(empty_map()) }
}

/// The request for the counters of group `name`.
pub fn stat_read_request(name: &str) -> (r: SmpRequest)
    ensures
        carries(r, NmpOp::Read, NmpGroup::Stat, 0, Some(Seq::empty().push(("name"@, Wire::Text(name@))))),
{
    let body = StatReadReq { name: name.to_owned() }.to_cbor();
    SmpRequest { op: NmpOp::Read, group: NmpGroup::Stat, id: NmpIdStat::Read.to_u8(), body: Some(body) }
}

/// Names of the statistics groups: `reply_record` of the reply to `stat_list_request`.
pub fn stat_list_transport<T: Transport>(transport: &mut T) -> (r: Result<StatListRsp, SmpError>)
    ensures
        sent_carries(final(transport).last_request(), NmpOp::Read, NmpGroup::Stat, 1, Some(Seq::empty())),
        reply_decodes::<StatListRsp>(final(transport).last_reply(), r), {
    let req = stat_list_request();
    reply_record(&send(transport, &req))
}

/// Counters of group `name`: `reply_record` of the reply to `stat_read_request`.
pub fn stat_read_transport<T: Transport>(transport: &mut T, name: &str) -> (r: Result<StatReadRsp, SmpError>)
    ensures
        sent_carries(final(transport).last_request(), NmpOp::Read, NmpGroup::Stat, 0, Some(Seq::empty().push(("name"@, Wire::Text(name@))))),
        reply_decodes::<StatReadRsp>(final(transport).last_reply(), r), {
    let req = stat_read_request(name);
    reply_record(&send(transport, &req))
}

} // verus!
