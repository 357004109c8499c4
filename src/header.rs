use vstd::prelude::*;

use crate::error::SmpError;

verus! {

/// Operation carried by a header: a request (`Read`, `Write`) or its response.
#[derive(Debug, Clone, Copy, PartialEq, Eq, Structural)]
pub enum NmpOp {
    Read,
    ReadRsp,
    Write,
    WriteRsp,
}

/// Wire value of an operation.
pub open spec fn op_code(op: NmpOp) -> u8 {
    match op {
        NmpOp::Read => 0,
        NmpOp::ReadRsp => 1,
        NmpOp::Write => 2,
        NmpOp::WriteRsp => 3,
    }
}

/// The operation with wire value `v`, if there is one.
pub open spec fn op_from_code(v: u8) -> Option<NmpOp> {
    if v == 0 {
        Some(NmpOp::Read)
    } else if v == 1 {
        Some(NmpOp::ReadRsp)
    } else if v == 2 {
        Some(NmpOp::Write)
    } else if v == 3 {
        Some(NmpOp::WriteRsp)
    } else {
        None
    }
}

impl NmpOp {
    pub fn to_u8(&self) -> (r: u8)
        ensures
            r == op_code(*self),
    {
        match self {
            NmpOp::Read => 0,
            NmpOp::ReadRsp => 1,
            NmpOp::Write => 2,
            NmpOp::WriteRsp => 3,
        }
    }

    pub fn from_u8(v: u8) -> (r: Option<NmpOp>)
        ensures
            r == op_from_code(v),
    {
        if v == 0 {
            Some(NmpOp::Read)
        } else if v == 1 {
            Some(NmpOp::ReadRsp)
        } else if v == 2 {
            Some(NmpOp::Write)
        } else if v == 3 {
            Some(NmpOp::WriteRsp)
        } else {
            None
        }
    }
}

/// Return codes defined by the management protocol.
#[derive(Debug, Clone, Copy, PartialEq, Eq, Structural)]
pub enum NmpErr {
    EOk,
    EUnknown,
    ENoMem,
    EInvalid,
    ETimeout,
    ENoEnt,
}

impl NmpErr {
    pub fn to_u8(&self) -> (r: u8)
        ensures
            r == match *self {
                NmpErr::EOk => 0u8,
                NmpErr::EUnknown => 1u8,
                NmpErr::ENoMem => 2u8,
                NmpErr::EInvalid => 3u8,
                NmpErr::ETimeout => 4u8,
                NmpErr::ENoEnt => 5u8,
            },
    {
        match self {
            NmpErr::EOk => 0,
            NmpErr::EUnknown => 1,
            NmpErr::ENoMem => 2,
            NmpErr::EInvalid => 3,
            NmpErr::ETimeout => 4,
            NmpErr::ENoEnt => 5,
        }
    }
}

/// Management group a command belongs to.
#[derive(Debug, Clone, Copy, PartialEq, Eq, Structural)]
pub enum NmpGroup {
    Default,
    Image,
    Stat,
    Config,
    Log,
    Crash,
    Split,
    Run,
    Fs,
    Shell,
    PerUser,
}

/// Wire value of a group.
pub open spec fn group_code(g: NmpGroup) -> u16 {
    match g {
        NmpGroup::Default => 0,
        NmpGroup::Image => 1,
        NmpGroup::Stat => 2,
        NmpGroup::Config => 3,
        NmpGroup::Log => 4,
        NmpGroup::Crash => 5,
        NmpGroup::Split => 6,
        NmpGroup::Run => 7,
        NmpGroup::Fs => 8,
        NmpGroup::Shell => 9,
        NmpGroup::PerUser => 64,
    }
}

/// The group with wire value `v`, if there is one.
pub open spec fn group_from_code(v: u16) -> Option<NmpGroup> {
    if v == 0 {
        Some(NmpGroup::Default)
    } else if v == 1 {
        Some(NmpGroup::Image)
    } else if v == 2 {
        Some(NmpGroup::Stat)
    } else if v == 3 {
        Some(NmpGroup::Config)
    } else if v == 4 {
        Some(NmpGroup::Log)
    } else if v == 5 {
        Some(NmpGroup::Crash)
    } else if v == 6 {
        Some(NmpGroup::Split)
    } else if v == 7 {
        Some(NmpGroup::Run)
    } else if v == 8 {
        Some(NmpGroup::Fs)
    } else if v == 9 {
        Some(NmpGroup::Shell)
    } else if v == 64 {
        Some(NmpGroup::PerUser)
    } else {
        None
    }
}

impl NmpGroup {
    pub fn to_u16(&self) -> (r: u16)
        ensures
            r == group_code(*self),
    {
        match self {
            NmpGroup::Default => 0,
            NmpGroup::Image => 1,
            NmpGroup::Stat => 2,
            NmpGroup::Config => 3,
            NmpGroup::Log => 4,
            NmpGroup::Crash => 5,
            NmpGroup::Split => 6,
            NmpGroup::Run => 7,
            NmpGroup::Fs => 8,
            NmpGroup::Shell => 9,
            NmpGroup::PerUser => 64,
        }
    }

    pub fn from_u16(v: u16) -> (r: Option<NmpGroup>)
        ensures
            r == group_from_code(v),
    {
        if v == 0 {
            Some(NmpGroup::Default)
        } else if v == 1 {
            Some(NmpGroup::Image)
        } else if v == 2 {
            Some(NmpGroup::Stat)
        } else if v == 3 {
            Some(NmpGroup::Config)
        } else if v == 4 {
            Some(NmpGroup::Log)
        } else if v == 5 {
            Some(NmpGroup::Crash)
        } else if v == 6 {
            Some(NmpGroup::Split)
        } else if v == 7 {
            Some(NmpGroup::Run)
        } else if v == 8 {
            Some(NmpGroup::Fs)
        } else if v == 9 {
            Some(NmpGroup::Shell)
        } else if v == 64 {
            Some(NmpGroup::PerUser)
        } else {
            None
        }
    }
}

/// A command identifier within its group.
pub trait NmpId {
    spec fn id_code(&self) -> u8;

    fn to_u8(&self) -> (r: u8)
        ensures
            r == self.id_code(),
    ;
}

/// A raw command identifier.
impl NmpId for u8 {
    open spec fn id_code(&self) -> u8 {
        *self
    }

    fn to_u8(&self) -> (r: u8) {
        *self
    }
}

/// Commands of the default (OS) group.
#[derive(Debug, Clone, Copy, PartialEq, Eq, Structural)]
pub enum NmpIdDef {
    Echo,
    ConsEchoCtrl,
    TaskStat,
    MpStat,
    DateTimeStr,
    Reset,
    McumgrParams,
    Info,
    BootloaderInfo,
}

impl NmpId for NmpIdDef {
    open spec fn id_code(&self) -> u8 {
        match *self {
            NmpIdDef::Echo => 0,
            NmpIdDef::ConsEchoCtrl => 1,
            NmpIdDef::TaskStat => 2,
            NmpIdDef::MpStat => 3,
            NmpIdDef::DateTimeStr => 4,
            NmpIdDef::Reset => 5,
            NmpIdDef::McumgrParams => 6,
            NmpIdDef::Info => 7,
            NmpIdDef::BootloaderInfo => 8,
        }
    }

    fn to_u8(&self) -> (r: u8) {
        match self {
            NmpIdDef::Echo => 0,
            NmpIdDef::ConsEchoCtrl => 1,
            NmpIdDef::TaskStat => 2,
            NmpIdDef::MpStat => 3,
            NmpIdDef::DateTimeStr => 4,
            NmpIdDef::Reset => 5,
            NmpIdDef::McumgrParams => 6,
            NmpIdDef::Info => 7,
            NmpIdDef::BootloaderInfo => 8,
        }
    }
}

/// Commands of the image group.
#[derive(Debug, Clone, Copy, PartialEq, Eq, Structural)]
pub enum NmpIdImage {
    State,
    Upload,
    CoreList,
    CoreLoad,
    Erase,
}

impl NmpId for NmpIdImage {
    open spec fn id_code(&self) -> u8 {
        match *self {
            NmpIdImage::State => 0,
            NmpIdImage::Upload => 1,
            NmpIdImage::CoreList => 3,
            NmpIdImage::CoreLoad => 4,
            NmpIdImage::Erase => 5,
        }
    }

    fn to_u8(&self) -> (r: u8) {
        match self {
            NmpIdImage::State => 0,
            NmpIdImage::Upload => 1,
            NmpIdImage::CoreList => 3,
            NmpIdImage::CoreLoad => 4,
            NmpIdImage::Erase => 5,
        }
    }
}

/// Commands of the statistics group.
#[derive(Debug, Clone, Copy, PartialEq, Eq, Structural)]
pub enum NmpIdStat {
    Read,
    List,
}

impl NmpId for NmpIdStat {
    open spec fn id_code(&self) -> u8 {
        match *self {
            NmpIdStat::Read => 0,
            NmpIdStat::List => 1,
        }
    }

    fn to_u8(&self) -> (r: u8) {
        match self {
            NmpIdStat::Read => 0,
            NmpIdStat::List => 1,
        }
    }
}

/// Commands of the settings (config) group.
#[derive(Debug, Clone, Copy, PartialEq, Eq, Structural)]
pub enum NmpIdConfig {
    Val,
}

impl NmpId for NmpIdConfig {
    open spec fn id_code(&self) -> u8 {
        0
    }

    fn to_u8(&self) -> (r: u8) {
        0
    }
}

/// Commands of the log group.
#[derive(Debug, Clone, Copy, PartialEq, Eq, Structural)]
pub enum NmpIdLog {
    Show,
    Clear,
    Append,
    ModuleList,
    LevelList,
    List,
}

/// Commands of the crash group.
#[derive(Debug, Clone, Copy, PartialEq, Eq, Structural)]
pub enum NmpIdCrash {
    Trigger,
}

/// Commands of the run group.
#[derive(Debug, Clone, Copy, PartialEq, Eq, Structural)]
pub enum NmpIdRun {
    Test,
    List,
}

/// Commands of the file-system group.
#[derive(Debug, Clone, Copy, PartialEq, Eq, Structural)]
pub enum NmpIdFs {
    File,
    FileStat,
    FileHash,
    SupportedHashTypes,
    FileClose,
}

impl NmpId for NmpIdFs {
    open spec fn id_code(&self) -> u8 {
        match *self {
            NmpIdFs::File => 0,
            NmpIdFs::FileStat => 1,
            NmpIdFs::FileHash => 2,
            NmpIdFs::SupportedHashTypes => 3,
            NmpIdFs::FileClose => 4,
        }
    }

    fn to_u8(&self) -> (r: u8) {
        match self {
            NmpIdFs::File => 0,
            NmpIdFs::FileStat => 1,
            NmpIdFs::FileHash => 2,
            NmpIdFs::SupportedHashTypes => 3,
            NmpIdFs::FileClose => 4,
        }
    }
}

/// Commands of the shell group.
#[derive(Debug, Clone, Copy, PartialEq, Eq, Structural)]
pub enum NmpIdShell {
    Exec,
}

impl NmpId for NmpIdShell {
    open spec fn id_code(&self) -> u8 {
        0
    }

    fn to_u8(&self) -> (r: u8) {
        0
    }
}

/// The eight-byte header that precedes every request and response body.
#[derive(Debug, Clone, Copy, PartialEq, Eq, Structural)]
pub struct NmpHdr {
    pub op: NmpOp,
    pub flags: u8,
    pub len: u16,
    pub group: NmpGroup,
    pub seq: u8,
    pub id: u8,
}

/// Big-endian bytes of a 16-bit value.
pub open spec fn be16(v: u16) -> Seq<u8> {
    seq![(v / 256) as u8, (v % 256) as u8]
}

/// The 16-bit value of two big-endian bytes.
pub open spec fn be16_value(hi: u8, lo: u8) -> u16 {
    (hi * 256 + lo) as u16
}

/// Serial (SMP v1) wire form of a header.
pub open spec fn header_bytes(h: NmpHdr) -> Seq<u8> {
    seq![op_code(h.op), h.flags] + be16(h.len) + be16(group_code(h.group)) + seq![h.seq, h.id]
}

/// The header that the first eight bytes of `b` hold in the serial form, if any.
pub open spec fn parse_header(b: Seq<u8>) -> Option<NmpHdr> {
    if b.len() < 8 {
        None
    } else {
        match (op_from_code(b[0]), group_from_code(be16_value(b[4], b[5]))) {
            (Some(op), Some(group)) => Some(
                NmpHdr {
                    op,
                    flags: b[1],
                    len: be16_value(b[2], b[3]),
                    group,
                    seq: b[6],
                    id: b[7],
                },
            ),
            _ => None,
        }
    }
}

/// UDP (SMP v2) wire form of a header: version 1 in bits 3-4 of byte 0, flags zero.
pub open spec fn udp_header_bytes(op: NmpOp, group: NmpGroup, id: u8, len: u16, seq: u8) -> Seq<u8> {
    seq![(8 + op_code(op)) as u8, 0u8] + be16(len) + be16(group_code(group)) + seq![seq, id]
}

/// The header that the first eight bytes of `b` hold in the UDP form, if any:
/// the operation is the low three bits of byte 0, flags are not read.
pub open spec fn parse_udp_header(b: Seq<u8>) -> Option<NmpHdr> {
    if b.len() < 8 {
        None
    } else {
        match (op_from_code((b[0] % 8) as u8), group_from_code(be16_value(b[4], b[5]))) {
            (Some(op), Some(group)) => Some(
                NmpHdr {
                    op,
                    flags: 0,
                    len: be16_value(b[2], b[3]),
                    group,
                    seq: b[6],
                    id: b[7],
                },
            ),
            _ => None,
        }
    }
}

/// Appends the big-endian bytes of `v` to `buf`.
pub fn push_be16(buf: &mut Vec<u8>, v: u16)
    ensures
        final(buf)@ == old(buf)@ + be16(v),
{
    buf.push((v / 256) as u8);
    buf.push((v % 256) as u8);
}

/// Reads the big-endian 16-bit value at `b[i]`, `b[i + 1]`.
pub fn read_be16(b: &[u8], i: usize) -> (r: u16)
    requires
        i + 1 < b@.len(),
    ensures
        r == be16_value(b@[i as int], b@[i + 1]),
{
    (b[i] as u16) * 256 + (b[i + 1] as u16)
}

impl NmpHdr {
    /// A request header for `op` on `(group, id)`, with zero flags, length and sequence.
    pub fn new_req<I: NmpId>(op: NmpOp, group: NmpGroup, id: I) -> (r: NmpHdr)
        ensures
            r == (NmpHdr { op, flags: 0, len: 0, group, seq: 0, id: id.id_code() }),
    {
        NmpHdr { op, flags: 0, len: 0, group, seq: 0, id: id.to_u8() }
    }

    /// The serial wire form of this header.
    pub fn serialize(&self) -> (r: Vec<u8>)
        ensures
            r@ == header_bytes(*self),
    {
        let mut buffer: Vec<u8> = Vec::new();
        buffer.push(self.op.to_u8());
        buffer.push(self.flags);
        push_be16(&mut buffer, self.len);
        push_be16(&mut buffer, self.group.to_u16());
        buffer.push(self.seq);
        buffer.push(self.id);
        assert(buffer@ =~= header_bytes(*self));
        buffer
    }

    /// Reads a serial-form header from the first eight bytes of `data`;
    /// a short input or an unknown operation or group is a decode error.
    pub fn deserialize(data: &[u8]) -> (r: Result<NmpHdr, SmpError>)
        ensures
            r == match parse_header(data@) {
                Some(h) => Ok(h),
                None => Err(SmpError::DecodeError),
            },
    {
        if data.len() < 8 {
            return Err(SmpError::DecodeError);
        }
        let op = NmpOp::from_u8(data[0]);
        let group = NmpGroup::from_u16(read_be16(data, 4));
        match (op, group) {
            (Some(op), Some(group)) => Ok(
                NmpHdr {
                    op,
                    flags: data[1],
                    len: read_be16(data, 2),
                    group,
                    seq: data[6],
                    id: data[7],
                },
            ),
            _ => Err(SmpError::DecodeError),
        }
    }
}

/// The UDP (SMP v2) wire form of a header.
pub fn encode_header_v2(op: NmpOp, group: NmpGroup, id: u8, len: u16, seq: u8) -> (r: Vec<u8>)
    ensures
        r@ == udp_header_bytes(op, group, id, len, seq),
{
    let mut buffer: Vec<u8> = Vec::new();
    buffer.push(8 + op.to_u8());
    buffer.push(0);
    push_be16(&mut buffer, len);
    push_be16(&mut buffer, group.to_u16());
    buffer.push(seq);
    buffer.push(id);
    assert(buffer@ =~= udp_header_bytes(op, group, id, len, seq));
    buffer
}

/// Reads a UDP-form header from the first eight bytes of `data`;
/// a short input or an unknown operation or group is a decode error.
pub fn decode_header_v2(data: &[u8]) -> (r: Result<NmpHdr, SmpError>)
    ensures
        r == match parse_udp_header(data@) {
            Some(h) => Ok(h),
            None => Err(SmpError::DecodeError),
        },
{
    if data.len() < 8 {
        return Err(SmpError::DecodeError);
    }
    let op = NmpOp::from_u8(data[0] % 8);
    let group = NmpGroup::from_u16(read_be16(data, 4));
    match (op, group) {
        (Some(op), Some(group)) => Ok(
            NmpHdr { op, flags: 0, len: read_be16(data, 2), group, seq: data[6], id: data[7] },
        ),
        _ => Err(SmpError::DecodeError),
    }
}

proof fn lemma_be16_round_trip(v: u16)
    ensures
        be16_value(be16(v)[0], be16(v)[1]) == v,
{
}

/// Reading the serial form of a header gives the header back, whatever follows it.
pub proof fn lemma_header_round_trip(h: NmpHdr, rest: Seq<u8>)
    ensures
        parse_header(header_bytes(h) + rest) == Some(h),
{
    let b = header_bytes(h) + rest;
    lemma_be16_round_trip(h.len);
    lemma_be16_round_trip(group_code(h.group));
    assert(b[2] == be16(h.len)[0] && b[3] == be16(h.len)[1]);
    assert(b[4] == be16(group_code(h.group))[0] && b[5] == be16(group_code(h.group))[1]);
}

/// Reading the UDP form of a header gives back its fields, with flags zero.
pub proof fn lemma_udp_header_round_trip(
    op: NmpOp,
    group: NmpGroup,
    id: u8,
    len: u16,
    seq: u8,
    rest: Seq<u8>,
)
    ensures
        parse_udp_header(udp_header_bytes(op, group, id, len, seq) + rest) == Some(
            NmpHdr { op, flags: 0, len, group, seq, id },
        ),
        (udp_header_bytes(op, group, id, len, seq) + rest).subrange(
            8,
            8 + rest.len() as int,
        ) == rest,
{
    let b = udp_header_bytes(op, group, id, len, seq) + rest;
    lemma_be16_round_trip(len);
    lemma_be16_round_trip(group_code(group));
    assert(b[2] == be16(len)[0] && b[3] == be16(len)[1]);
    assert(b[4] == be16(group_code(group))[0] && b[5] == be16(group_code(group))[1]);
    assert((b[0] % 8) as u8 == op_code(op));
    assert(b.subrange(8, 8 + rest.len() as int) =~= rest);
}

} // verus!
