use vstd::prelude::*;

use crate::cbor::{check_rc, empty_map, encodes, rc_outcome, CborValue, Wire};
use crate::error::SmpError;
use crate::frame::{crc16_xmodem, payload_middle, slice_to_vec, unframe, unframe_payload};
use crate::header::{
    decode_header_v2, encode_header_v2, op_code, parse_udp_header, udp_header_bytes, NmpGroup,
    NmpHdr, NmpOp,
};
use crate::records::CborRecord;

verus! {

/// The response operation that answers a request operation, if it is one.
pub open spec fn response_op(op: NmpOp) -> Option<NmpOp> {
    match op {
        NmpOp::Read => Some(NmpOp::ReadRsp),
        NmpOp::Write => Some(NmpOp::WriteRsp),
        _ => None,
    }
}

/// `rsp` answers `req`: same sequence number and group, and the matching response operation.
pub open spec fn answers(req: NmpHdr, rsp: NmpHdr) -> bool {
    &&& rsp.seq == req.seq
    &&& response_op(req.op) == Some(rsp.op)
    &&& rsp.group == req.group
}

/// Whether `response_header` answers `request_header`.
pub fn check_answer(request_header: &NmpHdr, response_header: &NmpHdr) -> (r: bool)
    ensures
        r == answers(*request_header, *response_header),
{
    if response_header.seq != request_header.seq {
        return false;
    }
    let expected_op_type = match request_header.op {
        NmpOp::Read => NmpOp::ReadRsp,
        NmpOp::Write => NmpOp::WriteRsp,
        _ => return false,
    };
    response_header.op == expected_op_type && response_header.group == request_header.group
}

/// `Ok` when `response_header` answers `request_header`, else `WrongResponseType`.
pub fn validate_response(request_header: &NmpHdr, response_header: &NmpHdr) -> (r: Result<(), SmpError>)
    ensures
        r == if answers(*request_header, *response_header) {
            Ok::<(), SmpError>(())
        } else {
            Err(SmpError::WrongResponseType)
        },
{
    if check_answer(request_header, response_header) {
        Ok(())
    } else {
        Err(SmpError::WrongResponseType)
    }
}

/// A response accepted for a `Read` or `Write` request has the operation code one
/// above the request's, the same group and the same sequence number.
pub proof fn lemma_accepted_response(req: NmpHdr, rsp: NmpHdr)
    requires
        req.op == NmpOp::Read || req.op == NmpOp::Write,
        answers(req, rsp),
    ensures
        op_code(rsp.op) == op_code(req.op) + 1,
        rsp.group == req.group,
        rsp.seq == req.seq,
{
}

/// Settings of a serial connection.
#[derive(Debug, Clone)]
pub struct SerialSpecs {
    pub device: String,
    pub initial_timeout_s: u32,
    pub subsequent_timeout_ms: u32,
    pub nb_retry: u32,
    pub linelength: usize,
    pub mtu: usize,
    pub baudrate: u32,
}

/// Settings of a UDP connection.
#[derive(Debug, Clone)]
pub struct UdpSpecs {
    pub host: String,
    pub port: u16,
    pub timeout_s: u32,
    pub mtu: usize,
}

impl Default for UdpSpecs {
    fn default() -> (r: UdpSpecs)
        ensures
            r.host@.len() == 0,
            r.port == 1337,
            r.timeout_s == 5,
            r.mtu == 1024,
    {
        UdpSpecs { host: String::new(), port: 1337, timeout_s: 5, mtu: 1024 }
    }
}

/// Either kind of connection.
#[derive(Debug, Clone)]
pub enum ConnSpec {
    Serial(SerialSpecs),
    Udp(UdpSpecs),
}

impl ConnSpec {
    pub fn is_udp(&self) -> (r: bool)
        ensures
            r == (self is Udp),
    {
        match self {
            ConnSpec::Udp(_) => true,
            ConnSpec::Serial(_) => false,
        }
    }

    pub fn is_serial(&self) -> (r: bool)
        ensures
            r == (self is Serial),
    {
        match self {
            ConnSpec::Serial(_) => true,
            ConnSpec::Udp(_) => false,
        }
    }
}

/// A request as a link records it: operation, group, command id and body.
pub type SentRequest = (NmpOp, NmpGroup, u8, Option<CborValue>);

/// What a link returns for a request: the response header and body, or an error.
pub type Reply = Result<(NmpHdr, CborValue), SmpError>;

/// The body value behind an optional reference.
pub open spec fn body_value(body: Option<&CborValue>) -> Option<CborValue> {
    match body {
        Some(b) => Some(*b),
        None => None,
    }
}

/// A link to a device that carries one request and its response at a time. Each
/// link keeps the last request it was handed and what it returned for it.
pub trait Transport {
    /// The last request handed to the link.
    spec fn last_request(&self) -> SentRequest;

    /// What the link returned for the last request.
    spec fn last_reply(&self) -> Reply;

    /// Sends a request (an absent body is sent as zero bytes) and returns the
    /// response header and body. A response that comes back answers the request:
    /// the matching response operation, in the same group.
    fn transceive(
        &mut self,
        op: NmpOp,
        group: NmpGroup,
        id: u8,
        body: Option<&CborValue>,
    ) -> (r: Result<(NmpHdr, CborValue), SmpError>)
        ensures
            final(self).last_request() == (op, group, id, body_value(body)),
            final(self).last_reply() == r,
            r matches Ok((h, _)) ==> response_op(op) == Some(h.op) && h.group == group,
    ;

    /// Sets the timeout of the reads that follow.
    fn set_timeout(&mut self, timeout_ms: u32) -> Result<(), SmpError>;

    /// Largest body of one request.
    fn mtu(&self) -> usize;

    /// Largest framed line (serial links).
    fn linelength(&self) -> usize;
}

/// A request as it is handed to a link: operation, group, command id and body
/// (an absent body is sent as zero bytes).
#[derive(Debug)]
pub struct SmpRequest {
    pub op: NmpOp,
    pub group: NmpGroup,
    pub id: u8,
    pub body: Option<CborValue>,
}

/// The recorded request `s` is `(op, group, id)` with the body that `fields`
/// describes: none for `None`, else a map of exactly those fields in that order.
pub open spec fn sent_carries(
    s: SentRequest,
    op: NmpOp,
    group: NmpGroup,
    id: u8,
    fields: Option<Seq<(Seq<char>, Wire)>>,
) -> bool {
    &&& s.0 == op
    &&& s.1 == group
    &&& s.2 == id
    &&& match fields {
        None => s.3 is None,
        Some(f) => s.3 matches Some(v) && encodes(v, f),
    }
}

/// `req` is `(op, group, id)` with the body that `fields` describes.
pub open spec fn carries(
    req: SmpRequest,
    op: NmpOp,
    group: NmpGroup,
    id: u8,
    fields: Option<Seq<(Seq<char>, Wire)>>,
) -> bool {
    sent_carries((req.op, req.group, req.id, req.body), op, group, id, fields)
}

/// Hands `req` to the link and returns what the link returns.
pub fn send<T: Transport>(transport: &mut T, req: &SmpRequest) -> (r: Reply)
    ensures
        final(transport).last_request() == (req.op, req.group, req.id, req.body),
        final(transport).last_reply() == r,
        r matches Ok((h, _)) ==> response_op(req.op) == Some(h.op) && h.group == req.group,
{
    match &req.body {
        Some(b) => transport.transceive(req.op, req.group, req.id, Some(b)),
        None => transport.transceive(req.op, req.group, req.id, None),
    }
}

/// The outcome of a reply that carries nothing but a return code: the link's
/// error as it is, else the return-code check.
pub open spec fn reply_rc_outcome(reply: Reply) -> Result<(), SmpError> {
    match reply {
        Err(e) => Err(e),
        Ok((_, v)) => rc_outcome(v),
    }
}

/// Whether `r` is what a reply yields as a record of type `R`: the link's error as
/// it is, then the return-code check (a non-zero `"rc"` is a device error), then the
/// record (a body without it is a decode error).
pub open spec fn reply_decodes<R: CborRecord>(reply: Reply, r: Result<R, SmpError>) -> bool {
    match reply {
        Err(e) => r == Err::<R, SmpError>(e),
        Ok((_, v)) => match rc_outcome(v) {
            Err(e) => r == Err::<R, SmpError>(e),
            Ok(_) => {
                &&& (r is Ok <==> R::decodable(v))
                &&& (r matches Ok(x) ==> R::decodes_to(v, x))
                &&& (r is Err ==> r == Err::<R, SmpError>(SmpError::DecodeError))
            },
        },
    }
}

/// Reads a response body as a record, after the return-code check: a non-zero
/// `"rc"` is a device error, a body without the record is a decode error.
pub fn from_response<R: CborRecord>(v: &CborValue) -> (r: Result<R, SmpError>)
    ensures
        rc_outcome(*v) matches Err(e) ==> r == Err::<R, SmpError>(e),
        rc_outcome(*v) is Ok ==> (r is Ok <==> R::decodable(*v)),
        rc_outcome(*v) is Ok ==> (r matches Ok(x) ==> R::decodes_to(*v, x)),
        rc_outcome(*v) is Ok && r is Err ==> r == Err::<R, SmpError>(SmpError::DecodeError),
{
    match check_rc(v) {
        Err(e) => Err(e),
        Ok(()) => R::from_cbor(v),
    }
}

/// What a reply that carries nothing but a return code yields.
pub fn reply_rc(reply: &Reply) -> (r: Result<(), SmpError>)
    ensures
        r == reply_rc_outcome(*reply),
{
    match reply {
        Err(e) => Err(*e),
        Ok((_, v)) => check_rc(v),
    }
}

/// What a reply yields as a record of type `R`.
pub fn reply_record<R: CborRecord>(reply: &Reply) -> (r: Result<R, SmpError>)
    ensures
        reply_decodes::<R>(*reply, r),
{
    match reply {
        Err(e) => Err(*e),
        Ok((_, v)) => from_response::<R>(v),
    }
}

/// What a serial response frame yields for `request_header`: the frame's header and
/// body when it unframes and answers the request.
pub open spec fn serial_outcome(request_header: NmpHdr, decoded: Seq<u8>) -> Result<
    (NmpHdr, Seq<u8>),
    SmpError,
> {
    match unframe(decoded, crc16_xmodem(payload_middle(decoded))) {
        Err(e) => Err(e),
        Ok((h, body)) => if answers(request_header, h) {
            Ok((h, body))
        } else {
            Err(SmpError::WrongResponseType)
        },
    }
}

/// Checks a reassembled serial response against its request.
pub fn accept_serial_response(request_header: &NmpHdr, decoded: &[u8]) -> (r: Result<
    (NmpHdr, Vec<u8>),
    SmpError,
>)
    ensures
        r matches Ok(v) ==> serial_outcome(*request_header, decoded@) == Ok::<
            (NmpHdr, Seq<u8>),
            SmpError,
        >((v.0, v.1@)),
        r matches Err(e) ==> serial_outcome(*request_header, decoded@) == Err::<
            (NmpHdr, Seq<u8>),
            SmpError,
        >(e),
{
    let (h, body) = unframe_payload(decoded)?;
    validate_response(request_header, &h)?;
    Ok((h, body))
}

/// Largest body of one UDP request.
pub const MAX_UDP_BODY: usize = 65535;

/// The UDP datagram of a request: the v2 header, then the body.
pub fn udp_request_packet(op: NmpOp, group: NmpGroup, id: u8, body: &[u8], seq: u8) -> (r: Result<
    Vec<u8>,
    SmpError,
>)
    ensures
        body@.len() > MAX_UDP_BODY ==> r == Err::<Vec<u8>, SmpError>(SmpError::FramingError),
        body@.len() <= MAX_UDP_BODY ==> (r matches Ok(p) && p@ == udp_header_bytes(
            op,
            group,
            id,
            body@.len() as u16,
            seq,
        ) + body@),
{
    if body.len() > MAX_UDP_BODY {
        return Err(SmpError::FramingError);
    }
    let mut packet = encode_header_v2(op, group, id, body.len() as u16, seq);
    let mut i: usize = 0;
    while i < body.len()
        invariant
            i <= body@.len() <= MAX_UDP_BODY,
            packet@ == udp_header_bytes(op, group, id, body@.len() as u16, seq) + body@.subrange(
                0,
                i as int,
            ),
        decreases body@.len() - i,
    {
        packet.push(body[i]);
        i += 1;
        assert(body@.subrange(0, i as int) =~= body@.subrange(0, i - 1) + seq![body@[i - 1]]);
    }
    assert(body@.subrange(0, body@.len() as int) =~= body@);
    Ok(packet)
}

/// What a UDP response datagram yields for the request `(op, group, seq)`.
pub open spec fn udp_outcome(op: NmpOp, group: NmpGroup, seq: u8, datagram: Seq<u8>) -> Result<
    (NmpHdr, Seq<u8>),
    SmpError,
> {
    if datagram.len() < 8 {
        Err(SmpError::FramingError)
    } else {
        match parse_udp_header(datagram) {
            None => Err(SmpError::DecodeError),
            Some(h) => if h.seq == seq && response_op(op) == Some(h.op) && h.group == group {
                Ok((h, datagram.subrange(8, datagram.len() as int)))
            } else {
                Err(SmpError::WrongResponseType)
            },
        }
    }
}

/// Checks a UDP response datagram against its request and splits off the body.
pub fn udp_parse_response(op: NmpOp, group: NmpGroup, seq: u8, datagram: &[u8]) -> (r: Result<
    (NmpHdr, Vec<u8>),
    SmpError,
>)
    ensures
        r matches Ok(v) ==> udp_outcome(op, group, seq, datagram@) == Ok::<
            (NmpHdr, Seq<u8>),
            SmpError,
        >((v.0, v.1@)),
        r matches Err(e) ==> udp_outcome(op, group, seq, datagram@) == Err::<
            (NmpHdr, Seq<u8>),
            SmpError,
        >(e),
{
    if datagram.len() < 8 {
        return Err(SmpError::FramingError);
    }
    let h = decode_header_v2(datagram)?;
    if h.seq != seq {
        return Err(SmpError::WrongResponseType);
    }
    let expected = match op {
        NmpOp::Read => NmpOp::ReadRsp,
        NmpOp::Write => NmpOp::WriteRsp,
        _ => return Err(SmpError::WrongResponseType),
    };
    if h.op != expected || h.group != group {
        return Err(SmpError::WrongResponseType);
    }
    Ok((h, slice_to_vec(datagram, 8, datagram.len())))
}

/// The body value of a response without body bytes: an empty map. `None` when there
/// are bytes to decode.
pub fn empty_body_value(tail: &[u8]) -> (r: Option<CborValue>)
    ensures
        r is Some <==> tail@.len() == 0,
        r matches Some(v) ==> (v matches CborValue::Dict(e) && e@.len() == 0),
{
    if tail.len() == 0 {
        Some(empty_map())
    } else {
        None
    }
}

} // verus!
