use vstd::prelude::*;

use crate::error::SmpError;
use crate::frame::{
    base64_decode, base64_of, crc16_xmodem, frame_lines, is_base64_byte, payload_middle,
    request_frame, request_text, unframe, unframe_payload, CONT_0, CONT_1, NEWLINE, SOF_0, SOF_1,
};
use crate::header::{be16_value, read_be16, NmpHdr};

verus! {

/// Where the line layer of the receiver stands.
#[derive(Debug, Clone, Copy, PartialEq, Eq, Structural)]
pub enum RxPhase {
    /// Waiting for the first byte of a line marker.
    Marker0,
    /// Waiting for the second byte of a line marker.
    Marker1,
    /// Inside a line, collecting base64 text up to the newline.
    Line,
    /// A marker byte was wrong.
    Failed,
}

/// What the receiver reports after each byte.
#[derive(Debug, Clone, Copy, PartialEq, Eq, Structural)]
pub enum RxStatus {
    /// More bytes are needed.
    Pending,
    /// The whole frame has arrived; its decoded bytes are in `payload`.
    Complete,
    /// The frame is broken; no further byte is read.
    Failed(SmpError),
}

/// The line layer of the receiver: its phase, whether a line was completed, the text so far.
pub struct LineState {
    pub phase: RxPhase,
    pub started: bool,
    pub text: Seq<u8>,
}

/// The marker byte expected first on a line.
pub open spec fn marker_0(started: bool) -> u8 {
    if started {
        CONT_0
    } else {
        SOF_0
    }
}

/// The marker byte expected second on a line.
pub open spec fn marker_1(started: bool) -> u8 {
    if started {
        CONT_1
    } else {
        SOF_1
    }
}

/// The line layer after byte `b`.
pub open spec fn line_step(s: LineState, b: u8) -> LineState {
    match s.phase {
        RxPhase::Marker0 => if b == marker_0(s.started) {
            LineState { phase: RxPhase::Marker1, ..s }
        } else {
            LineState { phase: RxPhase::Failed, ..s }
        },
        RxPhase::Marker1 => if b == marker_1(s.started) {
            LineState { phase: RxPhase::Line, ..s }
        } else {
            LineState { phase: RxPhase::Failed, ..s }
        },
        RxPhase::Line => if b == NEWLINE {
            LineState { phase: RxPhase::Marker0, started: true, text: s.text }
        } else {
            LineState { text: s.text.push(b), ..s }
        },
        RxPhase::Failed => s,
    }
}

/// The line layer after the bytes `bytes`, one by one.
pub open spec fn line_scan(s: LineState, bytes: Seq<u8>) -> LineState
    decreases bytes.len(),
{
    if bytes.len() == 0 {
        s
    } else {
        line_scan(line_step(s, bytes[0]), bytes.subrange(1, bytes.len() as int))
    }
}

/// The line layer of a fresh receiver.
pub open spec fn line_init() -> LineState {
    LineState { phase: RxPhase::Marker0, started: false, text: Seq::empty() }
}

/// The expected payload length once decoded text `x` is known: the length prefix is
/// taken from the first decode that holds two bytes.
pub open spec fn expected_after(expected: usize, x: Seq<u8>) -> usize {
    if expected == 0 && x.len() >= 2 {
        be16_value(x[0], x[1]) as usize
    } else {
        expected
    }
}

/// Whether decoded text `x` holds the whole frame.
pub open spec fn holds_frame(expected: usize, x: Seq<u8>) -> bool {
    x.len() >= 2 && x.len() - 2 >= expected_after(expected, x)
}

/// Reassembles one response frame from the serial byte stream, a byte at a time.
pub struct Receiver {
    pub phase: RxPhase,
    pub started: bool,
    pub text: Vec<u8>,
    pub expected: usize,
    pub status: RxStatus,
    pub payload: Vec<u8>,
}

impl Receiver {
    pub open spec fn line_state(&self) -> LineState {
        LineState { phase: self.phase, started: self.started, text: self.text@ }
    }

    /// A receiver waiting for the start-of-frame marker.
    pub fn new() -> (r: Receiver)
        ensures
            r.line_state() == line_init(),
            r.expected == 0,
            r.status == RxStatus::Pending,
            r.payload@.len() == 0,
    {
        Receiver {
            phase: RxPhase::Marker0,
            started: false,
            text: Vec::new(),
            expected: 0,
            status: RxStatus::Pending,
            payload: Vec::new(),
        }
    }

    /// Takes the next byte of the stream and reports where the frame stands.
    /// A wrong marker fails the frame at once. At each newline, text whose length is
    /// a multiple of four is decoded: text that does not decode fails the frame, and
    /// decoded bytes that cover the length prefix complete it. Once complete or
    /// failed, further bytes change nothing.
    pub fn push(&mut self, b: u8) -> (r: RxStatus)
        ensures
            r == final(self).status,
            old(self).status != RxStatus::Pending ==> *final(self) == *old(self),
            old(self).status == RxStatus::Pending ==> {
                &&& final(self).line_state() == line_step(old(self).line_state(), b)
                &&& final(self).phase == RxPhase::Failed ==> r == RxStatus::Failed(
                    SmpError::FramingError,
                )
            },
            old(self).status == RxStatus::Pending && !(old(self).phase == RxPhase::Line && b
                == NEWLINE) && final(self).phase != RxPhase::Failed ==> {
                &&& r == RxStatus::Pending
                &&& final(self).expected == old(self).expected
            },
            old(self).status == RxStatus::Pending && old(self).phase == RxPhase::Line && b
                == NEWLINE ==> {
                &&& old(self).text@.len() % 4 != 0 ==> r == RxStatus::Pending && final(self).expected
                    == old(self).expected
                &&& r == RxStatus::Complete ==> base64_of(final(self).payload@) == old(self).text@
                    && holds_frame(old(self).expected, final(self).payload@)
                &&& r == RxStatus::Failed(SmpError::DecodeError) ==> forall|x: Seq<u8>|
                    base64_of(x) != old(self).text@
                &&& old(self).text@.len() % 4 == 0 && (forall|x: Seq<u8>|
                    base64_of(x) != old(self).text@) ==> r == RxStatus::Failed(SmpError::DecodeError)
                &&& r == RxStatus::Complete ==> forall|x: Seq<u8>|
                    base64_of(x) == old(self).text@ ==> final(self).payload@ == x
                &&& forall|x: Seq<u8>|
                    #![trigger base64_of(x)]
                    old(self).text@.len() % 4 == 0 && base64_of(x) == old(self).text@ ==> {
                        &&& final(self).expected == expected_after(old(self).expected, x)
                        &&& (r == RxStatus::Complete) == holds_frame(old(self).expected, x)
                        &&& r == RxStatus::Complete || r == RxStatus::Pending
                    }
            },
    {
        if self.status != RxStatus::Pending {
            return self.status;
        }
        match self.phase {
            RxPhase::Marker0 => {
                let m = if self.started {
                    CONT_0
                } else {
                    SOF_0
                };
                if b == m {
                    self.phase = RxPhase::Marker1;
                } else {
                    self.phase = RxPhase::Failed;
                    self.status = RxStatus::Failed(SmpError::FramingError);
                }
            },
            RxPhase::Marker1 => {
                let m = if self.started {
                    CONT_1
                } else {
                    SOF_1
                };
                if b == m {
                    self.phase = RxPhase::Line;
                } else {
                    self.phase = RxPhase::Failed;
                    self.status = RxStatus::Failed(SmpError::FramingError);
                }
            },
            RxPhase::Line => {
                if b == NEWLINE {
                    self.phase = RxPhase::Marker0;
                    self.started = true;
                    self.end_line();
                } else {
                    self.text.push(b);
                }
            },
            RxPhase::Failed => {
                self.status = RxStatus::Failed(SmpError::FramingError);
            },
        }
        self.status
    }

    fn end_line(&mut self)
        requires
            old(self).status == RxStatus::Pending,
            old(self).phase == RxPhase::Marker0,
        ensures
            final(self).phase == old(self).phase,
            final(self).started == old(self).started,
            final(self).text@ == old(self).text@,
            old(self).text@.len() % 4 != 0 ==> final(self).status == RxStatus::Pending
                && final(self).expected == old(self).expected,
            final(self).status == RxStatus::Complete ==> base64_of(final(self).payload@) == old(
                self,
            ).text@ && holds_frame(old(self).expected, final(self).payload@),
            final(self).status == RxStatus::Failed(SmpError::DecodeError) ==> forall|x: Seq<u8>|
                base64_of(x) != old(self).text@,
            old(self).text@.len() % 4 == 0 && (forall|x: Seq<u8>| base64_of(x) != old(self).text@)
                ==> final(self).status == RxStatus::Failed(SmpError::DecodeError),
            final(self).status == RxStatus::Complete ==> forall|x: Seq<u8>|
                base64_of(x) == old(self).text@ ==> final(self).payload@ == x,
            final(self).status == RxStatus::Pending || final(self).status == RxStatus::Complete
                || final(self).status == RxStatus::Failed(SmpError::DecodeError),
            forall|x: Seq<u8>|
                #![trigger base64_of(x)]
                old(self).text@.len() % 4 == 0 && base64_of(x) == old(self).text@ ==> {
                    &&& final(self).expected == expected_after(old(self).expected, x)
                    &&& (final(self).status == RxStatus::Complete) == holds_frame(
                        old(self).expected,
                        x,
                    )
                    &&& final(self).status == RxStatus::Complete || final(self).status
                        == RxStatus::Pending
                },
    {
        if self.text.len() % 4 != 0 {
            return ;
        }
        match base64_decode(self.text.as_slice()) {
            Err(_) => {
                self.status = RxStatus::Failed(SmpError::DecodeError);
            },
            Ok(d) => {
                if d.len() >= 2 {
                    if self.expected == 0 {
                        self.expected = read_be16(d.as_slice(), 0) as usize;
                    }
                    if d.len() - 2 >= self.expected {
                        self.status = RxStatus::Complete;
                        self.payload = d;
                    }
                }
            },
        }
    }

    /// The header and body of a completed frame, after the length and checksum checks.
    pub fn finish(&self) -> (r: Result<(NmpHdr, Vec<u8>), SmpError>)
        ensures
            r matches Ok(v) ==> unframe(self.payload@, crc16_xmodem(payload_middle(self.payload@)))
                == Ok::<(NmpHdr, Seq<u8>), SmpError>((v.0, v.1@)),
            r matches Err(e) ==> unframe(self.payload@, crc16_xmodem(payload_middle(self.payload@)))
                == Err::<(NmpHdr, Seq<u8>), SmpError>(e),
    {
        unframe_payload(self.payload.as_slice())
    }
}

/// Scanning the concatenation of two byte strings is scanning one after the other.
pub proof fn lemma_line_scan_concat(s: LineState, a: Seq<u8>, b: Seq<u8>)
    ensures
        line_scan(s, a + b) == line_scan(line_scan(s, a), b),
    decreases a.len(),
{
    if a.len() == 0 {
        assert(a + b =~= b);
    } else {
        assert((a + b).subrange(1, (a + b).len() as int) =~= a.subrange(1, a.len() as int) + b);
        lemma_line_scan_concat(line_step(s, a[0]), a.subrange(1, a.len() as int), b);
    }
}

/// Inside a line, text without a newline is collected as it is.
proof fn lemma_scan_text(s: LineState, t: Seq<u8>)
    requires
        s.phase == RxPhase::Line,
        forall|i: int| 0 <= i < t.len() ==> t[i] != NEWLINE,
    ensures
        line_scan(s, t) == (LineState { text: s.text + t, ..s }),
    decreases t.len(),
{
    if t.len() == 0 {
        assert(s.text + t =~= s.text);
    } else {
        let s1 = line_step(s, t[0]);
        let rest = t.subrange(1, t.len() as int);
        lemma_scan_text(s1, rest);
        assert(s1.text + rest =~= s.text + t);
    }
}

/// The receiver's line layer takes back exactly the base64 text that was framed, for
/// any line width: framing text without newlines and scanning the frame from a line
/// start collects the text and ends at a line start.
pub proof fn lemma_lines_round_trip(s: LineState, t: Seq<u8>, w: nat)
    requires
        w > 0,
        s.phase == RxPhase::Marker0,
        forall|i: int| 0 <= i < t.len() ==> t[i] != NEWLINE,
    ensures
        line_scan(s, frame_lines(t, w, !s.started)) == (LineState {
            phase: RxPhase::Marker0,
            started: s.started || t.len() > 0,
            text: s.text + t,
        }),
    decreases t.len(),
{
    if t.len() == 0 {
        assert(s.text + t =~= s.text);
    } else {
        let k: nat = if t.len() < w {
            t.len()
        } else {
            w
        };
        let marker = if !s.started {
            seq![SOF_0, SOF_1]
        } else {
            seq![CONT_0, CONT_1]
        };
        let chunk = t.subrange(0, k as int);
        let rest = t.subrange(k as int, t.len() as int);
        let head = marker + chunk + seq![NEWLINE];
        assert(frame_lines(t, w, !s.started) == head + frame_lines(rest, w, false));
        lemma_line_scan_concat(s, head, frame_lines(rest, w, false));
        lemma_line_scan_concat(s, marker, chunk + seq![NEWLINE]);
        assert(head =~= marker + (chunk + seq![NEWLINE]));
        let s_line = LineState { phase: RxPhase::Line, ..s };
        assert(line_scan(s, marker) == s_line) by {
            let m1 = marker.subrange(1, 2);
            let s_m = line_step(s, marker[0]);
            assert(m1 =~= seq![marker[1]]);
            assert(m1.subrange(1, 1) =~= Seq::<u8>::empty());
            assert(line_scan(line_step(s_m, m1[0]), m1.subrange(1, 1)) == line_step(s_m, m1[0]));
            assert(line_scan(s_m, m1) == line_step(s_m, m1[0]));
            assert(line_scan(s, marker) == line_scan(s_m, m1));
        }
        lemma_line_scan_concat(s_line, chunk, seq![NEWLINE]);
        lemma_scan_text(s_line, chunk);
        let s_mid = LineState { text: s.text + chunk, ..s_line };
        let s_next = LineState { phase: RxPhase::Marker0, started: true, text: s.text + chunk };
        assert(line_scan(s_mid, seq![NEWLINE]) == s_next) by {
            let nl = seq![NEWLINE];
            assert(nl.subrange(1, 1) =~= Seq::<u8>::empty());
            assert(line_scan(line_step(s_mid, nl[0]), nl.subrange(1, 1)) == line_step(s_mid, nl[0]));
            assert(line_step(s_mid, nl[0]) == s_next);
        }
        assert(forall|i: int| 0 <= i < rest.len() ==> rest[i] == t[i + k]);
        lemma_lines_round_trip(s_next, rest, w);
        assert(s.text + chunk + rest =~= s.text + t);
    }
}

/// Taking the text back out of a frame and framing it again gives the same wire bytes.
pub proof fn lemma_reframe_idempotent(t: Seq<u8>, w: nat)
    requires
        w > 0,
        forall|i: int| 0 <= i < t.len() ==> t[i] != NEWLINE,
    ensures
        frame_lines(line_scan(line_init(), frame_lines(t, w, true)).text, w, true) == frame_lines(
            t,
            w,
            true,
        ),
{
    lemma_lines_round_trip(line_init(), t, w);
    assert(Seq::<u8>::empty() + t =~= t);
}

/// The line layer of a receiver fed a request frame takes back exactly the frame's
/// base64 text (which `encode_request` guarantees to hold base64 bytes only), for any
/// line width; the decoded text is then checked by `unframe` against the checksum.
pub proof fn lemma_request_frame_lines(h: NmpHdr, body: Seq<u8>, w: nat)
    requires
        w > 0,
        forall|i: int|
            0 <= i < request_text(h, body).len() ==> is_base64_byte(
                #[trigger] request_text(h, body)[i],
            ),
    ensures
        line_scan(line_init(), request_frame(h, body, w)).text == request_text(h, body),
        line_scan(line_init(), request_frame(h, body, w)).phase == RxPhase::Marker0,
{
    let t = request_text(h, body);
    assert forall|i: int| 0 <= i < t.len() implies t[i] != NEWLINE by {
        assert(is_base64_byte(t[i]));
    }
    lemma_lines_round_trip(line_init(), t, w);
    assert(Seq::<u8>::empty() + t =~= t);
}

} // verus!
