use vstd::prelude::*;

use crate::cbor::{empty_map, rc_outcome, req_text, Wire};
use crate::error::SmpError;
use crate::header::{NmpGroup, NmpId, NmpIdDef, NmpOp};
use crate::records::{
    BootloaderInfoReq, BootloaderInfoRsp, EchoReq, EchoRsp, McumgrParamsRsp, OsInfoReq, OsInfoRsp,
    TaskStatRsp,
};
use crate::transport::{carries, reply_decodes, reply_record, send, sent_carries, Reply, SmpRequest, Transport};

verus! {

/// Display name of an MCUboot mode number.
pub open spec fn mode_name(mode: i32) -> Seq<char> {
    if mode == 0 {
        "Single application"@
    } else if mode == 1 {
        "Swap using scratch partition"@
    } else if mode == 2 {
        "Overwrite (upgrade-only)"@
    } else if mode == 3 {
        "Swap without scratch"@
    } else if mode == 4 {
        "Direct XIP without revert"@
    } else if mode == 5 {
        "Direct XIP with revert"@
    } else if mode == 6 {
        "RAM loader"@
    } else if mode == 7 {
        "Firmware loader"@
    } else if mode == 8 {
        "RAM load with network core"@
    } else if mode == 9 {
        "Swap using move"@
    } else {
        "Unknown"@
    }
}

/// MCUboot mode names for display.
pub fn mcuboot_mode_name(mode: i32) -> (r: &'static str)
    ensures
        r@ == mode_name(mode),
{
    match mode {
        0 => "Single application",
        1 => "Swap using scratch partition",
        2 => "Overwrite (upgrade-only)",
        3 => "Swap without scratch",
        4 => "Direct XIP without revert",
        5 => "Direct XIP with revert",
        6 => "RAM loader",
        7 => "Firmware loader",
        8 => "RAM load with network core",
        9 => "Swap using move",
        _ => "Unknown",
    }
}

/// Copies an optional text argument.
fn owned(s: Option<&str>) -> (r: Option<String>)
    ensures
        s is None <==> r is None,
        r matches Some(t) ==> t@ == s->Some_0@,
{
    match s {
        Some(t) => Some(t.to_owned()),
        None => None,
    }
}

/// The fields of a request with one optional text field `k`.
pub open spec fn optional_text_field(k: Seq<char>, t: Option<&str>) -> Seq<(Seq<char>, Wire)> {
    match t {
        Some(s) => Seq::empty().push((k, Wire::Text(s@))),
        None => Seq::empty(),
    }
}

/// Whether `r` is what a reply yields as the text field `k`: the link's error as it
/// is, then the return-code check, then the text (its absence is a decode error).
pub open spec fn reply_text(reply: Reply, k: Seq<char>, r: Result<String, SmpError>) -> bool {
    match reply {
        Err(e) => r == Err::<String, SmpError>(e),
        Ok((_, v)) => match rc_outcome(v) {
            Err(e) => r == Err::<String, SmpError>(e),
            Ok(_) => match req_text(v, k) {
                Some(s) => r matches Ok(t) && t@ == s,
                None => r == Err::<String, SmpError>(SmpError::DecodeError),
            },
        },
    }
}

/// The echo request: a write of the echo command carrying `{"d": message}`.
pub fn echo_request(message: &str) -> (r: SmpRequest)
    ensures
        carries(
            r,
            NmpOp::Write,
            NmpGroup::Default,
            0,
            Some(Seq::empty().push(("d"@, Wire::Text(message@)))),
        ),
{
    let body = EchoReq { d: message.to_owned() }.to_cbor();
    SmpRequest { op: NmpOp::Write, group: NmpGroup::Default, id: NmpIdDef::Echo.to_u8(), body: Some(body) }
}

/// The text an echo reply sends back.
pub fn echo_reply(reply: &Reply) -> (r: Result<String, SmpError>)
    ensures
        reply_text(*reply, "r"@, r),
{
    let rsp: EchoRsp = reply_record(reply)?;
    Ok(rsp.r)
}

/// Sends `message` with `echo_request` and returns `echo_reply` of the reply.
pub fn echo_transport<T: Transport>(transport: &mut T, message: &str) -> (r: Result<String, SmpError>)
    ensures
        sent_carries(
            final(transport).last_request(),
            NmpOp::Write,
            NmpGroup::Default,
            0,
            Some(Seq::empty().push(("d"@, Wire::Text(message@)))),
        ),
        reply_text(final(transport).last_reply(), "r"@, r), {
    let req = echo_request(message);
    echo_reply(&send(transport, &req))
}

/// The task statistics request: a read with an empty map.
pub fn taskstat_request() -> (r: SmpRequest)
    ensures
        carries(r, NmpOp::Read, NmpGroup::Default, 2, Some(Seq::empty())),
{
    SmpRequest { op: NmpOp::Read, group: NmpGroup::Default, id: NmpIdDef::TaskStat.to_u8(), body: Some(empty_map()) }
}

/// Task statistics of the device: `reply_record` of the reply to `taskstat_request`.
pub fn taskstat_transport<T: Transport>(transport: &mut T) -> (r: Result<TaskStatRsp, SmpError>)
    ensures
        sent_carries(final(transport).last_request(), NmpOp::Read, NmpGroup::Default, 2, Some(Seq::empty())),
        reply_decodes::<TaskStatRsp>(final(transport).last_reply(), r), {
    let req = taskstat_request();
    reply_record(&send(transport, &req))
}

/// The parameters request: a read with an empty map.
pub fn mcumgr_params_request() -> (r: SmpRequest)
    ensures
        carries(r, NmpOp::Read, NmpGroup::Default, 6, Some(Seq::empty())),
{
    SmpRequest {
        op: NmpOp::Read,
        group: NmpGroup::Default,
        id: NmpIdDef::McumgrParams.to_u8(),
        body: Some(empty_map()),
    }
}

/// Buffer size and count of the device's management transport: `reply_record` of
/// the reply to `mcumgr_params_request`.
pub fn mcumgr_params_transport<T: Transport>(transport: &mut T) -> (r: Result<McumgrParamsRsp, SmpError>)
    ensures
        sent_carries(final(transport).last_request(), NmpOp::Read, NmpGroup::Default, 6, Some(Seq::empty())),
        reply_decodes::<McumgrParamsRsp>(final(transport).last_reply(), r), {
    let req = mcumgr_params_request();
    reply_record(&send(transport, &req))
}

/// The OS information request, with the field letters of `format` if given.
pub fn os_info_request(format: Option<&str>) -> (r: SmpRequest)
    ensures
        carries(r, NmpOp::Read, NmpGroup::Default, 7, Some(optional_text_field("format"@, format))),
{
    let body = OsInfoReq { format: owned(format) }.to_cbor();
    SmpRequest { op: NmpOp::Read, group: NmpGroup::Default, id: NmpIdDef::Info.to_u8(), body: Some(body) }
}

/// The text an OS information reply carries.
pub fn os_info_reply(reply: &Reply) -> (r: Result<String, SmpError>)
    ensures
        reply_text(*reply, "output"@, r),
{
    let rsp: OsInfoRsp = reply_record(reply)?;
    Ok(rsp.output)
}

/// OS and application information: `os_info_reply` of the reply to `os_info_request`.
pub fn os_info_transport<T: Transport>(transport: &mut T, format: Option<&str>) -> (r: Result<String, SmpError>)
    ensures
        sent_carries(
            final(transport).last_request(),
            NmpOp::Read,
            NmpGroup::Default,
            7,
            Some(optional_text_field("format"@, format)),
        ),
        reply_text(final(transport).last_reply(), "output"@, r), {
    let req = os_info_request(format);
    os_info_reply(&send(transport, &req))
}

/// The bootloader information request, with `query` if given.
pub fn bootloader_info_request(query: Option<&str>) -> (r: SmpRequest)
    ensures
        carries(r, NmpOp::Read, NmpGroup::Default, 8, Some(optional_text_field("query"@, query))),
{
    let body = BootloaderInfoReq { query: owned(query) }.to_cbor();
    SmpRequest {
        op: NmpOp::Read,
        group: NmpGroup::Default,
        id: NmpIdDef::BootloaderInfo.to_u8(),
        body: Some(body),
    }
}

/// Bootloader name and mode details: `reply_record` of the reply to
/// `bootloader_info_request`.
pub fn bootloader_info_transport<T: Transport>(transport: &mut T, query: Option<&str>) -> (r: Result<BootloaderInfoRsp, SmpError>)
    ensures
        sent_carries(final(transport).last_request(), NmpOp::Read, NmpGroup::Default, 8, Some(optional_text_field("query"@, query))),
        reply_decodes::<BootloaderInfoRsp>(final(transport).last_reply(), r), {
    let req = bootloader_info_request(query);
    reply_record(&send(transport, &req))
}

} // verus!
