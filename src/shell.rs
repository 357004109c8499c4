use vstd::prelude::*;

use crate::cbor::{text_views, Wire};
use crate::error::SmpError;
use crate::header::{NmpGroup, NmpId, NmpIdShell, NmpOp};
use crate::records::{CborRecord, ShellExecReq, ShellExecRsp};
use crate::transport::{carries, send, sent_carries, Reply, SmpRequest, Transport};

verus! {

/// The shell request: a write carrying the command line as an array of texts.
pub fn shell_exec_request(argv: Vec<String>) -> (r: SmpRequest)
    ensures
        carries(
            r,
            NmpOp::Write,
            NmpGroup::Shell,
            0,
            Some(Seq::empty().push(("argv"@, Wire::TextList(text_views(argv@))))),
        ),
{
    let body = ShellExecReq { argv }.to_cbor();
    SmpRequest { op: NmpOp::Write, group: NmpGroup::Shell, id: NmpIdShell::Exec.to_u8(), body: Some(body) }
}

/// Whether `r` is what a shell reply yields: the link's error as it is, else the
/// output and exit code (their absence, or a body that is not a map, is a decode error).
pub open spec fn shell_reply_outcome(reply: Reply, r: Result<ShellExecRsp, SmpError>) -> bool {
    match reply {
        Err(e) => r == Err::<ShellExecRsp, SmpError>(e),
        Ok((_, v)) => {
            &&& (r is Ok <==> ShellExecRsp::decodable(v))
            &&& (r matches Ok(x) ==> ShellExecRsp::decodes_to(v, x))
            &&& (r is Err ==> r == Err::<ShellExecRsp, SmpError>(SmpError::DecodeError))
        },
    }
}

/// The output and exit code that a shell reply carries. Its `"rc"` is the
/// command's exit code, not a device error.
pub fn shell_exec_reply(reply: &Reply) -> (r: Result<ShellExecRsp, SmpError>)
    ensures
        shell_reply_outcome(*reply, r),
{
    match reply {
        Err(e) => Err(*e),
        Ok((_, v)) => ShellExecRsp::from_cbor(v),
    }
}

/// Runs a shell command line on the device: `shell_exec_reply` of the reply to
/// `shell_exec_request`. An empty command line is a configuration error and is not sent.
pub fn shell_exec_transport<T: Transport>(transport: &mut T, argv: Vec<String>) -> (r: Result<
    ShellExecRsp,
    SmpError,
>)
    ensures
        argv@.len() == 0 ==> r == Err::<ShellExecRsp, SmpError>(SmpError::ConfigError),
        argv@.len() == 0 ==> *final(transport) == *old(transport),
        argv@.len() > 0 ==> sent_carries(
            final(transport).last_request(),
            NmpOp::Write,
            NmpGroup::Shell,
            0,
            Some(Seq::empty().push(("argv"@, Wire::TextList(text_views(argv@))))),
        ) && shell_reply_outcome(final(transport).last_reply(), r), {
    if argv.len() == 0 {
        return Err(SmpError::ConfigError);
    }
    let req = shell_exec_request(argv);
    shell_exec_reply(&send(transport, &req))
}

} // verus!
