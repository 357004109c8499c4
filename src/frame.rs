use vstd::prelude::*;

use base64::engine::general_purpose;
use base64::Engine as _;
use crc16::{State, XMODEM};

use crate::error::SmpError;
use crate::header::{be16, be16_value, header_bytes, parse_header, push_be16, read_be16, NmpGroup, NmpHdr, NmpId, NmpOp};

verus! {

/// First marker byte of the first line of a frame.
pub const SOF_0: u8 = 6;

/// Second marker byte of the first line of a frame.
pub const SOF_1: u8 = 9;

/// First marker byte of every later line.
pub const CONT_0: u8 = 4;

/// Second marker byte of every later line.
pub const CONT_1: u8 = 20;

/// Terminates every line.
pub const NEWLINE: u8 = 10;

/// Largest body whose payload length still fits the 16-bit length prefix.
pub const MAX_BODY_LEN: usize = 65525;

/// CRC16/XMODEM (polynomial 0x1021, initial value 0, no reflection, no final xor) of `b`.
pub uninterp spec fn crc16_xmodem(b: Seq<u8>) -> u16;

/// Standard-alphabet, `=`-padded base64 text of `b`.
pub uninterp spec fn base64_of(b: Seq<u8>) -> Seq<u8>;

/// A byte of the standard base64 alphabet or the padding `=`.
pub open spec fn is_base64_byte(c: u8) -> bool {
    (65 <= c <= 90) || (97 <= c <= 122) || (48 <= c <= 57) || c == 43 || c == 47 || c == 61
}

/// Relies on crc16::State::<XMODEM>::calculate: the CRC16/XMODEM of the bytes.
#[verifier::external_body]
fn crc16_of(b: &[u8]) -> (r: u16)
    ensures
        r == crc16_xmodem(b@),
{
    State::<XMODEM>::calculate(b)
}

/// Relies on base64's STANDARD engine `encode`: padded text of four characters per
/// started group of three bytes, drawn from the standard alphabet and `=`.
#[verifier::external_body]
fn base64_encode(b: &[u8]) -> (r: Vec<u8>)
    requires
        b@.len() <= usize::MAX / 2,
    ensures
        r@ == base64_of(b@),
        r@.len() == 4 * ((b@.len() + 2) / 3),
        forall|i: int| 0 <= i < r@.len() ==> is_base64_byte(#[trigger] r@[i]),
{
    general_purpose::STANDARD.encode(b).into_bytes()
}

/// Relies on base64's STANDARD engine `decode`, which accepts only canonical padded
/// text: a success re-encodes to the input, and the encoding of `x` decodes to `x`.
#[verifier::external_body]
pub(crate) fn base64_decode(s: &[u8]) -> (r: Result<Vec<u8>, base64::DecodeError>)
    ensures
        r is Ok ==> base64_of(r->Ok_0@) == s@,
        forall|x: Seq<u8>| #[trigger] base64_of(x) == s@ ==> (r is Ok && r->Ok_0@ == x),
{
    general_purpose::STANDARD.decode(s)
}

#[verifier::external_type_specification]
#[verifier::external_body]
pub struct ExDecodeError(base64::DecodeError);

/// The decoded frame: length prefix, header and body, then the checksum, all big-endian.
pub open spec fn payload_bytes(middle: Seq<u8>, crc: u16) -> Seq<u8> {
    be16((middle.len() + 2) as u16) + middle + be16(crc)
}

/// The header and body region of a decoded frame (empty when it is too short to hold one).
pub open spec fn payload_middle(p: Seq<u8>) -> Seq<u8> {
    if p.len() >= 4 {
        p.subrange(2, p.len() - 2)
    } else {
        Seq::empty()
    }
}

/// What a decoded frame `p` holds, given the checksum `crc` of its middle region:
/// the length prefix must count the bytes after it, the trailing checksum must equal
/// `crc`, and the middle must start with a valid header.
pub open spec fn unframe(p: Seq<u8>, crc: u16) -> Result<(NmpHdr, Seq<u8>), SmpError> {
    if p.len() < 4 {
        Err(SmpError::FramingError)
    } else if be16_value(p[0], p[1]) != p.len() - 2 {
        Err(SmpError::FramingError)
    } else if be16_value(p[p.len() - 2], p[p.len() - 1]) != crc {
        Err(SmpError::FramingError)
    } else {
        match parse_header(payload_middle(p)) {
            Some(h) => Ok((h, payload_middle(p).subrange(8, payload_middle(p).len() as int))),
            None => Err(SmpError::DecodeError),
        }
    }
}

/// The wire bytes that carry base64 text `t` in lines of at most `w` characters:
/// each line is a two-byte marker (start of frame for the first, continuation after),
/// the characters, and a newline.
pub open spec fn frame_lines(t: Seq<u8>, w: nat, first: bool) -> Seq<u8>
    decreases t.len(),
{
    if t.len() == 0 || w == 0 {
        Seq::empty()
    } else {
        let k = if t.len() < w {
            t.len()
        } else {
            w
        };
        let marker = if first {
            seq![SOF_0, SOF_1]
        } else {
            seq![CONT_0, CONT_1]
        };
        marker + t.subrange(0, k as int) + seq![NEWLINE] + frame_lines(
            t.subrange(k as int, t.len() as int),
            w,
            false,
        )
    }
}

/// The base64 text of the request frame for `h` and `body`.
pub open spec fn request_text(h: NmpHdr, body: Seq<u8>) -> Seq<u8> {
    base64_of(payload_bytes(header_bytes(h) + body, crc16_xmodem(header_bytes(h) + body)))
}

/// The request frame for `h` and `body`, split in lines of `w` base64 characters.
pub open spec fn request_frame(h: NmpHdr, body: Seq<u8>, w: nat) -> Seq<u8> {
    frame_lines(request_text(h, body), w, true)
}

/// Decoded frame for a header and body whose checksum is `crc`.
pub fn assemble_payload(header: &NmpHdr, body: &[u8], crc: u16) -> (r: Vec<u8>)
    requires
        body@.len() <= MAX_BODY_LEN,
    ensures
        r@ == payload_bytes(header_bytes(*header) + body@, crc),
{
    let mut out: Vec<u8> = Vec::new();
    push_be16(&mut out, (body.len() + 10) as u16);
    let hdr = header.serialize();
    let mut i: usize = 0;
    while i < hdr.len()
        invariant
            i <= hdr@.len(),
            hdr@ == header_bytes(*header),
            out@ == be16((body@.len() + 10) as u16) + hdr@.subrange(0, i as int),
        decreases hdr@.len() - i,
    {
        out.push(hdr[i]);
        i += 1;
        assert(hdr@.subrange(0, i as int) =~= hdr@.subrange(0, i - 1) + seq![hdr@[i - 1]]);
    }
    let mut j: usize = 0;
    while j < body.len()
        invariant
            j <= body@.len(),
            hdr@ == header_bytes(*header),
            out@ == be16((body@.len() + 10) as u16) + hdr@ + body@.subrange(0, j as int),
        decreases body@.len() - j,
    {
        out.push(body[j]);
        j += 1;
        assert(body@.subrange(0, j as int) =~= body@.subrange(0, j - 1) + seq![body@[j - 1]]);
    }
    push_be16(&mut out, crc);
    assert(hdr@.subrange(0, 8) =~= hdr@);
    assert(body@.subrange(0, body@.len() as int) =~= body@);
    assert(out@ =~= payload_bytes(header_bytes(*header) + body@, crc));
    out
}

/// Splits base64 text in framed lines of at most `width` characters.
pub fn chunk_lines(text: &[u8], width: usize) -> (r: Vec<u8>)
    requires
        width > 0,
    ensures
        r@ == frame_lines(text@, width as nat, true),
{
    let mut data: Vec<u8> = Vec::new();
    let totlen = text.len();
    let mut written: usize = 0;
    assert(text@.subrange(0, totlen as int) =~= text@);
    while written < totlen
        invariant
            written <= totlen == text@.len(),
            width > 0,
            data@ + frame_lines(text@.subrange(written as int, totlen as int), width as nat, written == 0)
                == frame_lines(text@, width as nat, true),
        decreases totlen - written,
    {
        let ghost rest = text@.subrange(written as int, totlen as int);
        let ghost data0 = data@;
        let first = written == 0;
        if first {
            data.push(SOF_0);
            data.push(SOF_1);
        } else {
            data.push(CONT_0);
            data.push(CONT_1);
        }
        let write_len = if width < totlen - written {
            width
        } else {
            totlen - written
        };
        let mut i: usize = 0;
        while i < write_len
            invariant
                i <= write_len,
                written + write_len <= totlen == text@.len(),
                data@ == data0 + (if first {
                    seq![SOF_0, SOF_1]
                } else {
                    seq![CONT_0, CONT_1]
                }) + text@.subrange(written as int, written + i),
            decreases write_len - i,
        {
            data.push(text[written + i]);
            i += 1;
            assert(text@.subrange(written as int, written + i) =~= text@.subrange(
                written as int,
                written + i - 1,
            ) + seq![text@[written + i - 1]]);
        }
        data.push(NEWLINE);
        let ghost next = text@.subrange((written + write_len) as int, totlen as int);
        assert(rest.subrange(0, write_len as int) =~= text@.subrange(
            written as int,
            written + write_len,
        ));
        assert(rest.subrange(write_len as int, rest.len() as int) =~= next);
        written = written + write_len;
        assert(data@ + frame_lines(next, width as nat, false) =~= data0 + frame_lines(
            rest,
            width as nat,
            first,
        ));
    }
    assert(text@.subrange(totlen as int, totlen as int) =~= Seq::<u8>::empty());
    assert(data@ =~= frame_lines(text@, width as nat, true));
    data
}

/// Builds the serial frame of a request: header with `seq_id` and the body length,
/// checksum, length prefix, base64, and lines of at most `linelength - 4` characters.
/// A line length under 6 is a configuration error; a body too long for the 16-bit
/// length prefix is a framing error.
pub fn encode_request<I: NmpId>(
    linelength: usize,
    op: NmpOp,
    group: NmpGroup,
    id: I,
    body: &Vec<u8>,
    seq_id: u8,
) -> (r: Result<(Vec<u8>, NmpHdr), SmpError>)
    ensures
        linelength < 6 ==> r == Err::<(Vec<u8>, NmpHdr), SmpError>(SmpError::ConfigError),
        linelength >= 6 && body@.len() > MAX_BODY_LEN ==> r == Err::<(Vec<u8>, NmpHdr), SmpError>(
            SmpError::FramingError,
        ),
        linelength >= 6 && body@.len() <= MAX_BODY_LEN ==> {
            &&& r is Ok
            &&& r->Ok_0.1 == (NmpHdr {
                op,
                flags: 0,
                len: body@.len() as u16,
                group,
                seq: seq_id,
                id: id.id_code(),
            })
            &&& r->Ok_0.0@ == request_frame(r->Ok_0.1, body@, (linelength - 4) as nat)
            &&& request_text(r->Ok_0.1, body@).len() == 4 * ((body@.len() + 14) / 3)
            &&& forall|i: int|
                #![trigger request_text(r->Ok_0.1, body@)[i]]
                0 <= i < request_text(r->Ok_0.1, body@).len() ==> is_base64_byte(
                    request_text(r->Ok_0.1, body@)[i],
                )
        },
{
    if linelength < 6 {
        return Err(SmpError::ConfigError);
    }
    if body.len() > MAX_BODY_LEN {
        return Err(SmpError::FramingError);
    }
    let mut request_header = NmpHdr::new_req(op, group, id);
    request_header.seq = seq_id;
    request_header.len = body.len() as u16;
    let mut middle = request_header.serialize();
    let mut i: usize = 0;
    while i < body.len()
        invariant
            i <= body@.len(),
            middle@ == header_bytes(request_header) + body@.subrange(0, i as int),
        decreases body@.len() - i,
    {
        middle.push(body[i]);
        i += 1;
        assert(body@.subrange(0, i as int) =~= body@.subrange(0, i - 1) + seq![body@[i - 1]]);
    }
    assert(body@.subrange(0, body@.len() as int) =~= body@);
    let checksum = crc16_of(middle.as_slice());
    let payload = assemble_payload(&request_header, body.as_slice(), checksum);
    let text = base64_encode(payload.as_slice());
    let data = chunk_lines(text.as_slice(), linelength - 4);
    Ok((data, request_header))
}

/// Reads a decoded frame: checks the length prefix and the checksum, then parses the
/// header; the rest is the body.
pub fn unframe_payload(decoded: &[u8]) -> (r: Result<(NmpHdr, Vec<u8>), SmpError>)
    ensures
        r matches Ok(v) ==> unframe(decoded@, crc16_xmodem(payload_middle(decoded@))) == Ok::<
            (NmpHdr, Seq<u8>),
            SmpError,
        >((v.0, v.1@)),
        r matches Err(e) ==> unframe(decoded@, crc16_xmodem(payload_middle(decoded@))) == Err::<
            (NmpHdr, Seq<u8>),
            SmpError,
        >(e),
{
    let n = decoded.len();
    if n < 4 {
        return Err(SmpError::FramingError);
    }
    let middle = slice_to_vec(decoded, 2, n - 2);
    let crc = crc16_of(middle.as_slice());
    unframe_checked(decoded, crc)
}

/// Reads a decoded frame whose middle region has checksum `crc`.
pub fn unframe_checked(decoded: &[u8], crc: u16) -> (r: Result<(NmpHdr, Vec<u8>), SmpError>)
    ensures
        r matches Ok(v) ==> unframe(decoded@, crc) == Ok::<(NmpHdr, Seq<u8>), SmpError>(
            (v.0, v.1@),
        ),
        r matches Err(e) ==> unframe(decoded@, crc) == Err::<(NmpHdr, Seq<u8>), SmpError>(e),
{
    let n = decoded.len();
    if n < 4 {
        return Err(SmpError::FramingError);
    }
    if read_be16(decoded, 0) as usize != n - 2 {
        return Err(SmpError::FramingError);
    }
    if read_be16(decoded, n - 2) != crc {
        return Err(SmpError::FramingError);
    }
    let middle = slice_to_vec(decoded, 2, n - 2);
    assert(middle@ == payload_middle(decoded@));
    match NmpHdr::deserialize(middle.as_slice()) {
        Ok(h) => {
            let body = slice_to_vec(middle.as_slice(), 8, middle.len());
            Ok((h, body))
        },
        Err(e) => Err(e),
    }
}

/// A copy of `b[from..to]`.
pub fn slice_to_vec(b: &[u8], from: usize, to: usize) -> (r: Vec<u8>)
    requires
        from <= to <= b@.len(),
    ensures
        r@ == b@.subrange(from as int, to as int),
{
    let mut out: Vec<u8> = Vec::new();
    let mut i: usize = from;
    while i < to
        invariant
            from <= i <= to <= b@.len(),
            out@ == b@.subrange(from as int, i as int),
        decreases to - i,
    {
        out.push(b[i]);
        i += 1;
        assert(b@.subrange(from as int, i as int) =~= b@.subrange(from as int, i - 1) + seq![
            b@[i - 1],
        ]);
    }
    out
}

/// Reading back the decoded frame of a header and body gives them back, with the
/// checksum check passing.
pub proof fn lemma_payload_round_trip(h: NmpHdr, body: Seq<u8>)
    requires
        h.len == body.len(),
        body.len() <= MAX_BODY_LEN,
    ensures
        payload_middle(payload_bytes(header_bytes(h) + body, crc16_xmodem(header_bytes(h) + body)))
            == header_bytes(h) + body,
        unframe(
            payload_bytes(header_bytes(h) + body, crc16_xmodem(header_bytes(h) + body)),
            crc16_xmodem(header_bytes(h) + body),
        ) == Ok::<(NmpHdr, Seq<u8>), SmpError>((h, body)),
{
    let middle = header_bytes(h) + body;
    let crc = crc16_xmodem(middle);
    let p = payload_bytes(middle, crc);
    assert(p.len() == middle.len() + 4);
    assert(p.subrange(2, p.len() - 2) =~= middle);
    assert(p[0] == be16((middle.len() + 2) as u16)[0]);
    assert(p[1] == be16((middle.len() + 2) as u16)[1]);
    assert(p[p.len() - 2] == be16(crc)[0]);
    assert(p[p.len() - 1] == be16(crc)[1]);
    crate::header::lemma_header_round_trip(h, body);
    assert(middle.subrange(8, middle.len() as int) =~= body);
}

/// Text whose length is a multiple of the line width `w` is framed in lines of
/// exactly `w` characters: `t.len() / w` lines of `w + 3` bytes each (marker,
/// characters, newline).
pub proof fn lemma_frame_lines_full(t: Seq<u8>, w: nat, first: bool)
    requires
        w > 0,
        t.len() % w == 0,
    ensures
        frame_lines(t, w, first).len() == (t.len() / w) * (w + 3),
        t.len() >= w ==> frame_lines(t, w, first).subrange(0, (w + 3) as int) == (if first {
            seq![SOF_0, SOF_1]
        } else {
            seq![CONT_0, CONT_1]
        }) + t.subrange(0, w as int) + seq![NEWLINE],
    decreases t.len(),
{
    if t.len() > 0 {
        assert(t.len() >= w) by {
            if t.len() < w {
                assert(t.len() % w == t.len()) by (nonlinear_arith)
                    requires
                        t.len() < w,
                ;
            }
        }
        let rest = t.subrange(w as int, t.len() as int);
        assert(rest.len() % w == 0 && rest.len() / w + 1 == t.len() / w) by (nonlinear_arith)
            requires
                rest.len() == t.len() - w,
                t.len() % w == 0,
                t.len() >= w,
                w > 0,
        ;
        lemma_frame_lines_full(rest, w, false);
        let marker = if first {
            seq![SOF_0, SOF_1]
        } else {
            seq![CONT_0, CONT_1]
        };
        let head = marker + t.subrange(0, w as int) + seq![NEWLINE];
        assert(frame_lines(t, w, first) == head + frame_lines(rest, w, false));
        let a = rest.len() / w;
        let b = t.len() / w;
        let c = w + 3;
        assert(a * c + c == b * c) by (nonlinear_arith)
            requires
                a + 1 == b,
        ;
        assert((head + frame_lines(rest, w, false)).subrange(0, (w + 3) as int) =~= head);
    } else {
        assert(t.len() / w == 0) by (nonlinear_arith)
            requires
                t.len() == 0,
                w > 0,
        ;
    }
}

/// With a line length of 6 every line of a request frame holds exactly two base64
/// characters: the text length is a multiple of four, so the frame is
/// `text.len() / 2` lines of five bytes.
pub proof fn lemma_two_character_lines(h: NmpHdr, body: Seq<u8>)
    requires
        request_text(h, body).len() == 4 * ((body.len() + 14) / 3),
    ensures
        request_frame(h, body, 2).len() == (request_text(h, body).len() / 2) * 5,
{
    let t = request_text(h, body);
    assert(t.len() % 2 == 0) by (nonlinear_arith)
        requires
            t.len() == 4 * ((body.len() + 14) / 3),
    ;
    lemma_frame_lines_full(t, 2, true);
}

} // verus!
