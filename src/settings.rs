use vstd::prelude::*;

use crate::cbor::Wire;
use crate::error::SmpError;
use crate::header::{NmpGroup, NmpId, NmpIdConfig, NmpOp};
use crate::records::{
    SettingsCommitReq, SettingsDeleteReq, SettingsLoadReq, SettingsReadReq, SettingsReadRsp,
    SettingsSaveReq, SettingsWriteReq,
};
use crate::transport::{carries, reply_decodes, reply_rc, reply_rc_outcome, reply_record, send, sent_carries, SmpRequest, Transport};

verus! {

/// The fields of a settings read.
pub open spec fn settings_read_fields(name: Seq<char>, max_size: Option<u32>) -> Seq<
    (Seq<char>, Wire),
> {
    let f = Seq::empty().push(("name"@, Wire::Text(name)));
    match max_size {
        Some(m) => f.push(("max_size"@, Wire::Uint(m as int))),
        None => f,
    }
}

/// Reads setting `name`, at most `max_size` bytes of it if given.
pub fn settings_read_request(name: &str, max_size: Option<u32>) -> (r: SmpRequest)
    ensures
        carries(r, NmpOp::Read, NmpGroup::Config, 0, Some(settings_read_fields(name@, max_size))),
{
    let body = SettingsReadReq { name: name.to_owned(), max_size }.to_cbor();
    SmpRequest { op: NmpOp::Read, group: NmpGroup::Config, id: NmpIdConfig::Val.to_u8(), body: Some(body) }
}

/// Sets setting `name` to `value`, sent as a byte string.
pub fn settings_write_request(name: &str, value: Vec<u8>) -> (r: SmpRequest)
    ensures
        carries(
            r,
            NmpOp::Write,
            NmpGroup::Config,
            0,
            Some(Seq::empty().push(("name"@, Wire::Text(name@))).push(("val"@, Wire::Bytes(value@)))),
        ),
{
    let body = SettingsWriteReq { name: name.to_owned(), val: value }.to_cbor();
    SmpRequest { op: NmpOp::Write, group: NmpGroup::Config, id: NmpIdConfig::Val.to_u8(), body: Some(body) }
}

/// Deletes setting `name`: a write that carries the name alone.
pub fn settings_delete_request(name: &str) -> (r: SmpRequest)
    ensures
        carries(r, NmpOp::Write, NmpGroup::Config, 0, Some(Seq::empty().push(("name"@, Wire::Text(name@))))),
{
    let body = SettingsDeleteReq { name: name.to_owned() }.to_cbor();
    SmpRequest { op: NmpOp::Write, group: NmpGroup::Config, id: NmpIdConfig::Val.to_u8(), body: Some(body) }
}

/// Commits the settings written so far: a write with an empty map.
pub fn settings_commit_request() -> (r: SmpRequest)
    ensures
        carries(r, NmpOp::Write, NmpGroup::Config, 0, Some(Seq::empty())),
{
    let body = SettingsCommitReq {  }.to_cbor();
    SmpRequest { op: NmpOp::Write, group: NmpGroup::Config, id: NmpIdConfig::Val.to_u8(), body: Some(body) }
}

/// Loads the settings from persistent storage: a read with an empty map.
pub fn settings_load_request() -> (r: SmpRequest)
    ensures
        carries(r, NmpOp::Read, NmpGroup::Config, 0, Some(Seq::empty())),
{
    let body = SettingsLoadReq {  }.to_cbor();
    SmpRequest { op: NmpOp::Read, group: NmpGroup::Config, id: NmpIdConfig::Val.to_u8(), body: Some(body) }
}

/// Saves the settings to persistent storage: a write with an empty map.
pub fn settings_save_request() -> (r: SmpRequest)
    ensures
        carries(r, NmpOp::Write, NmpGroup::Config, 0, Some(Seq::empty())),
{
    let body = SettingsSaveReq {  }.to_cbor();
    SmpRequest { op: NmpOp::Write, group: NmpGroup::Config, id: NmpIdConfig::Val.to_u8(), body: Some(body) }
}

/// Reads setting `name`: `reply_record` of the reply to `settings_read_request`.
pub fn settings_read_transport<T: Transport>(
    transport: &mut T,
    name: &str,
    max_size: Option<u32>,
) -> (r: Result<SettingsReadRsp, SmpError>)
    ensures
        sent_carries(final(transport).last_request(), NmpOp::Read, NmpGroup::Config, 0, Some(settings_read_fields(name@, max_size))),
        reply_decodes::<SettingsReadRsp>(final(transport).last_reply(), r), {
    let req = settings_read_request(name, max_size);
    reply_record(&send(transport, &req))
}

/// Sets setting `name`: `reply_rc` of the reply to `settings_write_request`.
pub fn settings_write_transport<T: Transport>(transport: &mut T, name: &str, value: Vec<u8>) -> (r: Result<(), SmpError>)
    ensures
        sent_carries(final(transport).last_request(), NmpOp::Write, NmpGroup::Config, 0, Some(Seq::empty().push(("name"@, Wire::Text(name@))).push(("val"@, Wire::Bytes(value@))))),
        r == reply_rc_outcome(final(transport).last_reply()), {
    let req = settings_write_request(name, value);
    reply_rc(&send(transport, &req))
}

/// Deletes setting `name`: `reply_rc` of the reply to `settings_delete_request`.
pub fn settings_delete_transport<T: Transport>(transport: &mut T, name: &str) -> (r: Result<(), SmpError>)
    ensures
        sent_carries(final(transport).last_request(), NmpOp::Write, NmpGroup::Config, 0, Some(Seq::empty().push(("name"@, Wire::Text(name@))))),
        r == reply_rc_outcome(final(transport).last_reply()), {
    let req = settings_delete_request(name);
    reply_rc(&send(transport, &req))
}

/// Commits settings: `reply_rc` of the reply to `settings_commit_request`.
pub fn settings_commit_transport<T: Transport>(transport: &mut T) -> (r: Result<(), SmpError>)
    ensures
        sent_carries(final(transport).last_request(), NmpOp::Write, NmpGroup::Config, 0, Some(Seq::empty())),
        r == reply_rc_outcome(final(transport).last_reply()), {
    let req = settings_commit_request();
    reply_rc(&send(transport, &req))
}

/// Loads settings: `reply_rc` of the reply to `settings_load_request`.
pub fn settings_load_transport<T: Transport>(transport: &mut T) -> (r: Result<(), SmpError>)
    ensures
        sent_carries(final(transport).last_request(), NmpOp::Read, NmpGroup::Config, 0, Some(Seq::empty())),
        r == reply_rc_outcome(final(transport).last_reply()), {
    let req = settings_load_request();
    reply_rc(&send(transport, &req))
}

/// Saves settings: `reply_rc` of the reply to `settings_save_request`.
pub fn settings_save_transport<T: Transport>(transport: &mut T) -> (r: Result<(), SmpError>)
    ensures
        sent_carries(final(transport).last_request(), NmpOp::Write, NmpGroup::Config, 0, Some(Seq::empty())),
        r == reply_rc_outcome(final(transport).last_reply()), {
    let req = settings_save_request();
    reply_rc(&send(transport, &req))
}

} // verus!
