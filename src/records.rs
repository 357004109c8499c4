use vstd::prelude::*;

use crate::cbor::{
    def_bytes, def_i32, def_text, def_u64, encodes, field, get_def_bytes,
    get_def_i32, get_def_text, get_def_u64, get_field, get_opt_bool, get_opt_i32, get_opt_u32,
    get_req_bytes, get_req_text, get_req_u32, opt_bool, opt_i32, opt_u32, push_bool_entry,
    push_bytes_entry, push_text_entry, push_text_list_entry, push_uint_entry, read_i64, req_bytes,
    req_text, req_u32, text_views, as_i64, CborValue, Wire,
};
use crate::error::SmpError;
use crate::header::NmpHdr;

verus! {

/// A request header as a record of its own.
#[derive(Debug, Clone, Copy, PartialEq, Eq, Structural)]
pub struct NmpBase {
    pub hdr: NmpHdr,
}

/// Split-image status reported with the image list.
#[derive(Debug, Clone, Copy, PartialEq, Eq, Structural)]
pub enum SplitStatus {
    NotApplicable,
    NotMatching,
    Matching,
}

/// Default of numeric record fields.
pub fn default_0() -> (r: u32)
    ensures
        r == 0,
{
    0
}

/// Default of boolean record fields.
pub fn default_false() -> (r: bool)
    ensures
        !r,
{
    false
}

/// Default of byte record fields.
pub fn default_vec() -> (r: Vec<u8>)
    ensures
        r@.len() == 0,
{
    Vec::new()
}

/// A response record read from a CBOR body.
pub trait CborRecord: Sized {
    /// Whether `v` holds a record of this type.
    spec fn decodable(v: CborValue) -> bool;

    /// Whether `x` is the record that `v` holds.
    spec fn decodes_to(v: CborValue, x: Self) -> bool;

    /// Reads the record; unknown fields are ignored.
    fn from_cbor(v: &CborValue) -> (r: Result<Self, SmpError>)
        ensures
            r is Ok <==> Self::decodable(*v),
            r matches Ok(x) ==> Self::decodes_to(*v, x),
            r is Err ==> r == Err::<Self, SmpError>(SmpError::DecodeError),
    ;
}

// ---------------------------------------------------------------------------
// Image group
// ---------------------------------------------------------------------------

/// One image slot as listed by the device.
#[derive(Debug, Clone)]
pub struct ImageStateEntry {
    pub image: u32,
    pub slot: u32,
    pub version: String,
    pub hash: Vec<u8>,
    pub bootable: bool,
    pub pending: bool,
    pub confirmed: bool,
    pub active: bool,
    pub permanent: bool,
}

/// Marks an image for test, or confirms it.
#[derive(Debug, Clone)]
pub struct ImageStateReq {
    pub hash: Vec<u8>,
    pub confirm: Option<bool>,
}

/// The image list.
#[derive(Debug, Clone)]
pub struct ImageStateRsp {
    pub images: Vec<ImageStateEntry>,
    pub split_status: Option<SplitStatus>,
}

/// One chunk of a firmware image upload.
#[derive(Debug, Clone)]
pub struct ImageUploadReq {
    pub data: Vec<u8>,
    pub image_num: u8,
    pub len: Option<u32>,
    pub off: u32,
    pub data_sha: Option<Vec<u8>>,
    pub upgrade: Option<bool>,
}

/// Erases an image slot.
#[derive(Debug, Clone, Copy, PartialEq, Eq, Structural)]
pub struct ImageEraseReq {
    pub slot: Option<u32>,
}

impl ImageStateReq {
    pub open spec fn wire_fields(&self) -> Seq<(Seq<char>, Wire)> {
        let f = Seq::empty().push(("hash"@, Wire::Bytes(self.hash@)));
        match self.confirm {
            Some(c) => f.push(("confirm"@, Wire::Bool(c))),
            None => f,
        }
    }

    pub fn to_cbor(&self) -> (r: CborValue)
        ensures
            encodes(r, self.wire_fields()),
    {
        let mut e: Vec<(CborValue, CborValue)> = Vec::new();
        push_bytes_entry(&mut e, "hash", self.hash.as_slice(), Ghost(Seq::empty()));
        let ghost f = Seq::empty().push(("hash"@, Wire::Bytes(self.hash@)));
        if let Some(c) = self.confirm {
            push_bool_entry(&mut e, "confirm", c, Ghost(f));
        }
        CborValue::Dict(e)
    }
}

impl ImageUploadReq {
    pub open spec fn wire_fields(&self) -> Seq<(Seq<char>, Wire)> {
        let f0 = Seq::empty().push(("data"@, Wire::Bytes(self.data@))).push(
            ("image"@, Wire::Uint(self.image_num as int)),
        );
        let f1 = match self.len {
            Some(l) => f0.push(("len"@, Wire::Uint(l as int))),
            None => f0,
        };
        let f2 = f1.push(("off"@, Wire::Uint(self.off as int)));
        let f3 = match self.data_sha {
            Some(s) => f2.push(("sha"@, Wire::Bytes(s@))),
            None => f2,
        };
        match self.upgrade {
            Some(u) => f3.push(("upgrade"@, Wire::Bool(u))),
            None => f3,
        }
    }

    pub fn to_cbor(&self) -> (r: CborValue)
        ensures
            encodes(r, self.wire_fields()),
    {
        let mut e: Vec<(CborValue, CborValue)> = Vec::new();
        push_bytes_entry(&mut e, "data", self.data.as_slice(), Ghost(Seq::empty()));
        let ghost f0 = Seq::empty().push(("data"@, Wire::Bytes(self.data@)));
        push_uint_entry(&mut e, "image", self.image_num as u32, Ghost(f0));
        let ghost f0 = f0.push(("image"@, Wire::Uint(self.image_num as int)));
        let ghost f1 = match self.len {
            Some(l) => f0.push(("len"@, Wire::Uint(l as int))),
            None => f0,
        };
        if let Some(l) = self.len {
            push_uint_entry(&mut e, "len", l, Ghost(f0));
        }
        push_uint_entry(&mut e, "off", self.off, Ghost(f1));
        let ghost f2 = f1.push(("off"@, Wire::Uint(self.off as int)));
        let ghost f3 = match &self.data_sha {
            Some(s) => f2.push(("sha"@, Wire::Bytes(s@))),
            None => f2,
        };
        match &self.data_sha {
            Some(s) => push_bytes_entry(&mut e, "sha", s.as_slice(), Ghost(f2)),
            None => {},
        }
        if let Some(u) = self.upgrade {
            push_bool_entry(&mut e, "upgrade", u, Ghost(f3));
        }
        CborValue::Dict(e)
    }
}

impl ImageEraseReq {
    pub open spec fn wire_fields(&self) -> Seq<(Seq<char>, Wire)> {
        match self.slot {
            Some(s) => Seq::empty().push(("slot"@, Wire::Uint(s as int))),
            None => Seq::empty(),
        }
    }

    pub fn to_cbor(&self) -> (r: CborValue)
        ensures
            encodes(r, self.wire_fields()),
    {
        let mut e: Vec<(CborValue, CborValue)> = Vec::new();
        if let Some(s) = self.slot {
            push_uint_entry(&mut e, "slot", s, Ghost(Seq::empty()));
        }
        CborValue::Dict(e)
    }
}

// ---------------------------------------------------------------------------
// Default (OS) group
// ---------------------------------------------------------------------------

/// Echo request: the text to send back.
#[derive(Debug, Clone)]
pub struct EchoReq {
    pub d: String,
}

/// Echo response: the text sent back.
#[derive(Debug, Clone)]
pub struct EchoRsp {
    pub r: String,
}

/// Task statistics, one entry per task name.
#[derive(Debug, Clone)]
pub struct TaskStatRsp {
    pub tasks: Vec<(String, TaskInfo)>,
}

/// Statistics of one task.
#[derive(Debug, Clone, Copy, PartialEq, Eq, Structural)]
pub struct TaskInfo {
    pub prio: i32,
    pub state: u64,
    pub stkuse: u64,
    pub stksiz: u64,
    pub cswcnt: u64,
    pub runtime: u64,
    pub last_checkin: u64,
    pub next_checkin: u64,
}

/// Buffer parameters of the management transport on the device.
#[derive(Debug, Clone, Copy, PartialEq, Eq, Structural)]
pub struct McumgrParamsRsp {
    pub buf_size: u32,
    pub buf_count: u32,
}

/// OS information request: the letters of the fields wanted.
#[derive(Debug, Clone)]
pub struct OsInfoReq {
    pub format: Option<String>,
}

/// OS information response.
#[derive(Debug, Clone)]
pub struct OsInfoRsp {
    pub output: String,
}

/// Bootloader information request.
#[derive(Debug, Clone)]
pub struct BootloaderInfoReq {
    pub query: Option<String>,
}

/// Bootloader information response.
#[derive(Debug, Clone)]
pub struct BootloaderInfoRsp {
    pub bootloader: String,
    pub mode: Option<i32>,
    pub no_downgrade: Option<bool>,
}

/// Reset request.
#[derive(Debug, Clone, Copy, PartialEq, Eq, Structural)]
pub struct ResetReq {
    pub force: Option<u32>,
}

impl EchoReq {
    pub open spec fn wire_fields(&self) -> Seq<(Seq<char>, Wire)> {
        Seq::empty().push(("d"@, Wire::Text(self.d@)))
    }

    pub fn to_cbor(&self) -> (r: CborValue)
        ensures
            encodes(r, self.wire_fields()),
    {
        let mut e: Vec<(CborValue, CborValue)> = Vec::new();
        push_text_entry(&mut e, "d", self.d.as_str(), Ghost(Seq::empty()));
        CborValue::Dict(e)
    }
}

impl OsInfoReq {
    pub open spec fn wire_fields(&self) -> Seq<(Seq<char>, Wire)> {
        match self.format {
            Some(f) => Seq::empty().push(("format"@, Wire::Text(f@))),
            None => Seq::empty(),
        }
    }

    pub fn to_cbor(&self) -> (r: CborValue)
        ensures
            encodes(r, self.wire_fields()),
    {
        let mut e: Vec<(CborValue, CborValue)> = Vec::new();
        match &self.format {
            Some(f) => push_text_entry(&mut e, "format", f.as_str(), Ghost(Seq::empty())),
            None => {},
        }
        CborValue::Dict(e)
    }
}

impl BootloaderInfoReq {
    pub open spec fn wire_fields(&self) -> Seq<(Seq<char>, Wire)> {
        match self.query {
            Some(q) => Seq::empty().push(("query"@, Wire::Text(q@))),
            None => Seq::empty(),
        }
    }

    pub fn to_cbor(&self) -> (r: CborValue)
        ensures
            encodes(r, self.wire_fields()),
    {
        let mut e: Vec<(CborValue, CborValue)> = Vec::new();
        match &self.query {
            Some(q) => push_text_entry(&mut e, "query", q.as_str(), Ghost(Seq::empty())),
            None => {},
        }
        CborValue::Dict(e)
    }
}

impl ResetReq {
    pub open spec fn wire_fields(&self) -> Seq<(Seq<char>, Wire)> {
        match self.force {
            Some(f) => Seq::empty().push(("force"@, Wire::Uint(f as int))),
            None => Seq::empty(),
        }
    }

    pub fn to_cbor(&self) -> (r: CborValue)
        ensures
            encodes(r, self.wire_fields()),
    {
        let mut e: Vec<(CborValue, CborValue)> = Vec::new();
        if let Some(f) = self.force {
            push_uint_entry(&mut e, "force", f, Ghost(Seq::empty()));
        }
        CborValue::Dict(e)
    }
}

impl CborRecord for EchoRsp {
    open spec fn decodable(v: CborValue) -> bool {
        req_text(v, "r"@) is Some
    }

    open spec fn decodes_to(v: CborValue, x: EchoRsp) -> bool {
        req_text(v, "r"@) == Some(x.r@)
    }

    fn from_cbor(v: &CborValue) -> (r: Result<EchoRsp, SmpError>) {
        let r = get_req_text(v, "r")?;
        Ok(EchoRsp { r })
    }
}

impl CborRecord for McumgrParamsRsp {
    open spec fn decodable(v: CborValue) -> bool {
        req_u32(v, "buf_size"@) is Some && req_u32(v, "buf_count"@) is Some
    }

    open spec fn decodes_to(v: CborValue, x: McumgrParamsRsp) -> bool {
        req_u32(v, "buf_size"@) == Some(x.buf_size) && req_u32(v, "buf_count"@) == Some(
            x.buf_count,
        )
    }

    fn from_cbor(v: &CborValue) -> (r: Result<McumgrParamsRsp, SmpError>) {
        let buf_size = get_req_u32(v, "buf_size")?;
        let buf_count = get_req_u32(v, "buf_count")?;
        Ok(McumgrParamsRsp { buf_size, buf_count })
    }
}

impl CborRecord for OsInfoRsp {
    open spec fn decodable(v: CborValue) -> bool {
        req_text(v, "output"@) is Some
    }

    open spec fn decodes_to(v: CborValue, x: OsInfoRsp) -> bool {
        req_text(v, "output"@) == Some(x.output@)
    }

    fn from_cbor(v: &CborValue) -> (r: Result<OsInfoRsp, SmpError>) {
        let output = get_req_text(v, "output")?;
        Ok(OsInfoRsp { output })
    }
}

impl CborRecord for BootloaderInfoRsp {
    open spec fn decodable(v: CborValue) -> bool {
        &&& v is Dict
        &&& def_text(v, "bootloader"@) is Some
        &&& opt_i32(v, "mode"@) is Some
        &&& opt_bool(v, "no-downgrade"@) is Some
    }

    open spec fn decodes_to(v: CborValue, x: BootloaderInfoRsp) -> bool {
        &&& def_text(v, "bootloader"@) == Some(x.bootloader@)
        &&& opt_i32(v, "mode"@) == Some(x.mode)
        &&& opt_bool(v, "no-downgrade"@) == Some(x.no_downgrade)
    }

    fn from_cbor(v: &CborValue) -> (r: Result<BootloaderInfoRsp, SmpError>) {
        if !matches!(v, CborValue::Dict(_)) {
            return Err(SmpError::DecodeError);
        }
        let bootloader = get_def_text(v, "bootloader")?;
        let mode = get_opt_i32(v, "mode")?;
        let no_downgrade = get_opt_bool(v, "no-downgrade")?;
        Ok(BootloaderInfoRsp { bootloader, mode, no_downgrade })
    }
}

/// Whether `v` holds the statistics of one task.
pub open spec fn task_decodable(v: CborValue) -> bool {
    &&& v is Dict
    &&& def_i32(v, "prio"@) is Some
    &&& def_u64(v, "state"@) is Some
    &&& def_u64(v, "stkuse"@) is Some
    &&& def_u64(v, "stksiz"@) is Some
    &&& def_u64(v, "cswcnt"@) is Some
    &&& def_u64(v, "runtime"@) is Some
    &&& def_u64(v, "last_checkin"@) is Some
    &&& def_u64(v, "next_checkin"@) is Some
}

/// Whether `x` is the task statistics that `v` holds.
pub open spec fn task_decodes_to(v: CborValue, x: TaskInfo) -> bool {
    &&& def_i32(v, "prio"@) == Some(x.prio)
    &&& def_u64(v, "state"@) == Some(x.state)
    &&& def_u64(v, "stkuse"@) == Some(x.stkuse)
    &&& def_u64(v, "stksiz"@) == Some(x.stksiz)
    &&& def_u64(v, "cswcnt"@) == Some(x.cswcnt)
    &&& def_u64(v, "runtime"@) == Some(x.runtime)
    &&& def_u64(v, "last_checkin"@) == Some(x.last_checkin)
    &&& def_u64(v, "next_checkin"@) == Some(x.next_checkin)
}

impl CborRecord for TaskInfo {
    open spec fn decodable(v: CborValue) -> bool {
        task_decodable(v)
    }

    open spec fn decodes_to(v: CborValue, x: TaskInfo) -> bool {
        task_decodes_to(v, x)
    }

    fn from_cbor(v: &CborValue) -> (r: Result<TaskInfo, SmpError>) {
        if !matches!(v, CborValue::Dict(_)) {
            return Err(SmpError::DecodeError);
        }
        let prio = get_def_i32(v, "prio")?;
        let state = get_def_u64(v, "state")?;
        let stkuse = get_def_u64(v, "stkuse")?;
        let stksiz = get_def_u64(v, "stksiz")?;
        let cswcnt = get_def_u64(v, "cswcnt")?;
        let runtime = get_def_u64(v, "runtime")?;
        let last_checkin = get_def_u64(v, "last_checkin")?;
        let next_checkin = get_def_u64(v, "next_checkin")?;
        Ok(
            TaskInfo {
                prio,
                state,
                stkuse,
                stksiz,
                cswcnt,
                runtime,
                last_checkin,
                next_checkin,
            },
        )
    }
}

/// Whether every entry of `e` has a text key and task statistics as its value.
pub open spec fn tasks_decodable(e: Seq<(CborValue, CborValue)>) -> bool {
    forall|i: int| 0 <= i < e.len() ==> (#[trigger] e[i]).0 is Text && task_decodable(e[i].1)
}

/// Whether `t` lists, in order, the tasks of map entries `e`.
pub open spec fn tasks_decode_to(e: Seq<(CborValue, CborValue)>, t: Seq<(String, TaskInfo)>) -> bool {
    &&& t.len() == e.len()
    &&& forall|i: int|
        0 <= i < e.len() ==> ((#[trigger] e[i]).0 matches CborValue::Text(k) && k@ == t[i].0@
            && task_decodes_to(e[i].1, t[i].1))
}

impl CborRecord for TaskStatRsp {
    open spec fn decodable(v: CborValue) -> bool {
        field(v, "tasks"@) matches Some(CborValue::Dict(e)) && tasks_decodable(e@)
    }

    open spec fn decodes_to(v: CborValue, x: TaskStatRsp) -> bool {
        field(v, "tasks"@) matches Some(CborValue::Dict(e)) && tasks_decode_to(e@, x.tasks@)
    }

    fn from_cbor(v: &CborValue) -> (r: Result<TaskStatRsp, SmpError>) {
        let e = match get_field(v, "tasks") {
            Some(CborValue::Dict(e)) => e,
            _ => return Err(SmpError::DecodeError),
        };
        let mut tasks: Vec<(String, TaskInfo)> = Vec::new();
        let mut i: usize = 0;
        while i < e.len()
            invariant
                i <= e@.len(),
                field(*v, "tasks"@) == Some(CborValue::Dict(*e)),
                tasks@.len() == i,
                forall|j: int| 0 <= j < i ==> (#[trigger] e@[j]).0 is Text && task_decodable(e@[j].1),
                forall|j: int|
                    0 <= j < i ==> ((#[trigger] e@[j]).0 matches CborValue::Text(k) && k@
                        == tasks@[j].0@ && task_decodes_to(e@[j].1, tasks@[j].1)),
            decreases e@.len() - i,
        {
            let name = match &e[i].0 {
                CborValue::Text(k) => k.clone(),
                _ => {
                    assert(!((e@[i as int]).0 is Text));
                    return Err(SmpError::DecodeError);
                },
            };
            let info = match TaskInfo::from_cbor(&e[i].1) {
                Ok(info) => info,
                Err(err) => {
                    assert(!task_decodable(e@[i as int].1));
                    return Err(err);
                },
            };
            tasks.push((name, info));
            i += 1;
        }
        Ok(TaskStatRsp { tasks })
    }
}

// ---------------------------------------------------------------------------
// Shell group
// ---------------------------------------------------------------------------

/// Shell command line, one argument per entry.
#[derive(Debug, Clone)]
pub struct ShellExecReq {
    pub argv: Vec<String>,
}

/// Shell command output and exit code.
#[derive(Debug, Clone)]
pub struct ShellExecRsp {
    pub o: String,
    pub rc: i32,
}

impl ShellExecReq {
    pub open spec fn wire_fields(&self) -> Seq<(Seq<char>, Wire)> {
        Seq::empty().push(("argv"@, Wire::TextList(text_views(self.argv@))))
    }

    pub fn to_cbor(&self) -> (r: CborValue)
        ensures
            encodes(r, self.wire_fields()),
    {
        let mut e: Vec<(CborValue, CborValue)> = Vec::new();
        push_text_list_entry(&mut e, "argv", &self.argv, Ghost(Seq::empty()));
        CborValue::Dict(e)
    }
}

impl CborRecord for ShellExecRsp {
    open spec fn decodable(v: CborValue) -> bool {
        v is Dict && def_text(v, "o"@) is Some && def_i32(v, "rc"@) is Some
    }

    open spec fn decodes_to(v: CborValue, x: ShellExecRsp) -> bool {
        def_text(v, "o"@) == Some(x.o@) && def_i32(v, "rc"@) == Some(x.rc)
    }

    fn from_cbor(v: &CborValue) -> (r: Result<ShellExecRsp, SmpError>) {
        if !matches!(v, CborValue::Dict(_)) {
            return Err(SmpError::DecodeError);
        }
        let o = get_def_text(v, "o")?;
        let rc = get_def_i32(v, "rc")?;
        Ok(ShellExecRsp { o, rc })
    }
}

// ---------------------------------------------------------------------------
// File-system group
// ---------------------------------------------------------------------------

/// Asks for the chunk of a file at `off`.
#[derive(Debug, Clone)]
pub struct FsDownloadReq {
    pub name: String,
    pub off: u32,
}

/// One chunk of a file; the first one may carry the file's total length.
#[derive(Debug, Clone)]
pub struct FsDownloadRsp {
    pub off: u32,
    pub data: Vec<u8>,
    pub len: Option<u32>,
    pub rc: i32,
}

/// Sends the chunk of a file at `off`; the first one carries the total length.
#[derive(Debug, Clone)]
pub struct FsUploadReq {
    pub name: String,
    pub off: u32,
    pub data: Vec<u8>,
    pub len: Option<u32>,
}

/// The device's new high-water mark of an upload.
#[derive(Debug, Clone, Copy, PartialEq, Eq, Structural)]
pub struct FsUploadRsp {
    pub off: u32,
    pub rc: i32,
}

/// Asks for the size of a file.
#[derive(Debug, Clone)]
pub struct FsStatReq {
    pub name: String,
}

/// The size of a file.
#[derive(Debug, Clone, Copy, PartialEq, Eq, Structural)]
pub struct FsStatRsp {
    pub len: u32,
    pub rc: i32,
}

/// Asks for a hash or checksum of (part of) a file.
#[derive(Debug, Clone)]
pub struct FsHashReq {
    pub name: String,
    pub hash_type: Option<String>,
    pub off: Option<u32>,
    pub len: Option<u32>,
}

/// A hash or checksum of (part of) a file.
#[derive(Debug, Clone)]
pub struct FsHashRsp {
    pub hash_type: String,
    pub off: u32,
    pub len: u32,
    pub output: Vec<u8>,
    pub rc: i32,
}

impl FsDownloadReq {
    pub open spec fn wire_fields(&self) -> Seq<(Seq<char>, Wire)> {
        Seq::empty().push(("name"@, Wire::Text(self.name@))).push(
            ("off"@, Wire::Uint(self.off as int)),
        )
    }

    pub fn to_cbor(&self) -> (r: CborValue)
        ensures
            encodes(r, self.wire_fields()),
    {
        let mut e: Vec<(CborValue, CborValue)> = Vec::new();
        push_text_entry(&mut e, "name", self.name.as_str(), Ghost(Seq::empty()));
        push_uint_entry(
            &mut e,
            "off",
            self.off,
            Ghost(Seq::empty().push(("name"@, Wire::Text(self.name@)))),
        );
        CborValue::Dict(e)
    }
}

impl FsUploadReq {
    pub open spec fn wire_fields(&self) -> Seq<(Seq<char>, Wire)> {
        let f = Seq::empty().push(("name"@, Wire::Text(self.name@))).push(
            ("off"@, Wire::Uint(self.off as int)),
        ).push(("data"@, Wire::Bytes(self.data@)));
        match self.len {
            Some(l) => f.push(("len"@, Wire::Uint(l as int))),
            None => f,
        }
    }

    pub fn to_cbor(&self) -> (r: CborValue)
        ensures
            encodes(r, self.wire_fields()),
    {
        let mut e: Vec<(CborValue, CborValue)> = Vec::new();
        push_text_entry(&mut e, "name", self.name.as_str(), Ghost(Seq::empty()));
        let ghost f = Seq::empty().push(("name"@, Wire::Text(self.name@)));
        push_uint_entry(&mut e, "off", self.off, Ghost(f));
        let ghost f = f.push(("off"@, Wire::Uint(self.off as int)));
        push_bytes_entry(&mut e, "data", self.data.as_slice(), Ghost(f));
        let ghost f = f.push(("data"@, Wire::Bytes(self.data@)));
        if let Some(l) = self.len {
            push_uint_entry(&mut e, "len", l, Ghost(f));
        }
        CborValue::Dict(e)
    }
}

impl FsStatReq {
    pub open spec fn wire_fields(&self) -> Seq<(Seq<char>, Wire)> {
        Seq::empty().push(("name"@, Wire::Text(self.name@)))
    }

    pub fn to_cbor(&self) -> (r: CborValue)
        ensures
            encodes(r, self.wire_fields()),
    {
        let mut e: Vec<(CborValue, CborValue)> = Vec::new();
        push_text_entry(&mut e, "name", self.name.as_str(), Ghost(Seq::empty()));
        CborValue::Dict(e)
    }
}

impl FsHashReq {
    pub open spec fn wire_fields(&self) -> Seq<(Seq<char>, Wire)> {
        let f0 = Seq::empty().push(("name"@, Wire::Text(self.name@)));
        let f1 = match self.hash_type {
            Some(t) => f0.push(("type"@, Wire::Text(t@))),
            None => f0,
        };
        let f2 = match self.off {
            Some(o) => f1.push(("off"@, Wire::Uint(o as int))),
            None => f1,
        };
        match self.len {
            Some(l) => f2.push(("len"@, Wire::Uint(l as int))),
            None => f2,
        }
    }

    pub fn to_cbor(&self) -> (r: CborValue)
        ensures
            encodes(r, self.wire_fields()),
    {
        let mut e: Vec<(CborValue, CborValue)> = Vec::new();
        push_text_entry(&mut e, "name", self.name.as_str(), Ghost(Seq::empty()));
        let ghost f0 = Seq::empty().push(("name"@, Wire::Text(self.name@)));
        let ghost f1 = match &self.hash_type {
            Some(t) => f0.push(("type"@, Wire::Text(t@))),
            None => f0,
        };
        match &self.hash_type {
            Some(t) => push_text_entry(&mut e, "type", t.as_str(), Ghost(f0)),
            None => {},
        }
        let ghost f2 = match self.off {
            Some(o) => f1.push(("off"@, Wire::Uint(o as int))),
            None => f1,
        };
        if let Some(o) = self.off {
            push_uint_entry(&mut e, "off", o, Ghost(f1));
        }
        if let Some(l) = self.len {
            push_uint_entry(&mut e, "len", l, Ghost(f2));
        }
        CborValue::Dict(e)
    }
}

impl CborRecord for FsDownloadRsp {
    open spec fn decodable(v: CborValue) -> bool {
        &&& req_u32(v, "off"@) is Some
        &&& req_bytes(v, "data"@) is Some
        &&& opt_u32(v, "len"@) is Some
        &&& def_i32(v, "rc"@) is Some
    }

    open spec fn decodes_to(v: CborValue, x: FsDownloadRsp) -> bool {
        &&& req_u32(v, "off"@) == Some(x.off)
        &&& req_bytes(v, "data"@) == Some(x.data@)
        &&& opt_u32(v, "len"@) == Some(x.len)
        &&& def_i32(v, "rc"@) == Some(x.rc)
    }

    fn from_cbor(v: &CborValue) -> (r: Result<FsDownloadRsp, SmpError>) {
        let off = get_req_u32(v, "off")?;
        let data = get_req_bytes(v, "data")?;
        let len = get_opt_u32(v, "len")?;
        let rc = get_def_i32(v, "rc")?;
        Ok(FsDownloadRsp { off, data, len, rc })
    }
}

impl CborRecord for FsUploadRsp {
    open spec fn decodable(v: CborValue) -> bool {
        req_u32(v, "off"@) is Some && def_i32(v, "rc"@) is Some
    }

    open spec fn decodes_to(v: CborValue, x: FsUploadRsp) -> bool {
        req_u32(v, "off"@) == Some(x.off) && def_i32(v, "rc"@) == Some(x.rc)
    }

    fn from_cbor(v: &CborValue) -> (r: Result<FsUploadRsp, SmpError>) {
        let off = get_req_u32(v, "off")?;
        let rc = get_def_i32(v, "rc")?;
        Ok(FsUploadRsp { off, rc })
    }
}

impl CborRecord for FsStatRsp {
    open spec fn decodable(v: CborValue) -> bool {
        req_u32(v, "len"@) is Some && def_i32(v, "rc"@) is Some
    }

    open spec fn decodes_to(v: CborValue, x: FsStatRsp) -> bool {
        req_u32(v, "len"@) == Some(x.len) && def_i32(v, "rc"@) == Some(x.rc)
    }

    fn from_cbor(v: &CborValue) -> (r: Result<FsStatRsp, SmpError>) {
        let len = get_req_u32(v, "len")?;
        let rc = get_def_i32(v, "rc")?;
        Ok(FsStatRsp { len, rc })
    }
}

impl CborRecord for FsHashRsp {
    open spec fn decodable(v: CborValue) -> bool {
        &&& req_text(v, "type"@) is Some
        &&& req_u32(v, "off"@) is Some
        &&& req_u32(v, "len"@) is Some
        &&& req_bytes(v, "output"@) is Some
        &&& def_i32(v, "rc"@) is Some
    }

    open spec fn decodes_to(v: CborValue, x: FsHashRsp) -> bool {
        &&& req_text(v, "type"@) == Some(x.hash_type@)
        &&& req_u32(v, "off"@) == Some(x.off)
        &&& req_u32(v, "len"@) == Some(x.len)
        &&& req_bytes(v, "output"@) == Some(x.output@)
        &&& def_i32(v, "rc"@) == Some(x.rc)
    }

    fn from_cbor(v: &CborValue) -> (r: Result<FsHashRsp, SmpError>) {
        let hash_type = get_req_text(v, "type")?;
        let off = get_req_u32(v, "off")?;
        let len = get_req_u32(v, "len")?;
        let output = get_req_bytes(v, "output")?;
        let rc = get_def_i32(v, "rc")?;
        Ok(FsHashRsp { hash_type, off, len, output, rc })
    }
}

// ---------------------------------------------------------------------------
// Statistics group
// ---------------------------------------------------------------------------

/// Asks for the names of the statistics groups.
#[derive(Debug, Clone, Copy, PartialEq, Eq, Structural)]
pub struct StatListReq {}

/// The names of the statistics groups.
#[derive(Debug, Clone)]
pub struct StatListRsp {
    pub stat_list: Vec<String>,
    pub rc: i32,
}

/// Asks for the counters of one statistics group.
#[derive(Debug, Clone)]
pub struct StatReadReq {
    pub name: String,
}

/// The counters of one statistics group, by name.
#[derive(Debug, Clone)]
pub struct StatReadRsp {
    pub name: String,
    pub fields: Vec<(String, i64)>,
    pub rc: i32,
}

impl StatListReq {
    pub open spec fn wire_fields(&self) -> Seq<(Seq<char>, Wire)> {
        Seq::empty()
    }

    pub fn to_cbor(&self) -> (r: CborValue)
        ensures
            encodes(r, self.wire_fields()),
    {
        CborValue::Dict(Vec::new())
    }
}

impl StatReadReq {
    pub open spec fn wire_fields(&self) -> Seq<(Seq<char>, Wire)> {
        Seq::empty().push(("name"@, Wire::Text(self.name@)))
    }

    pub fn to_cbor(&self) -> (r: CborValue)
        ensures
            encodes(r, self.wire_fields()),
    {
        let mut e: Vec<(CborValue, CborValue)> = Vec::new();
        push_text_entry(&mut e, "name", self.name.as_str(), Ghost(Seq::empty()));
        CborValue::Dict(e)
    }
}

/// Whether every item of array `a` is a text.
pub open spec fn text_items(a: Seq<CborValue>) -> bool {
    forall|i: int| 0 <= i < a.len() ==> (#[trigger] a[i]) is Text
}

/// Whether `l` is, in order, the texts of array `a`.
pub open spec fn texts_decode_to(a: Seq<CborValue>, l: Seq<String>) -> bool {
    &&& l.len() == a.len()
    &&& forall|i: int|
        0 <= i < a.len() ==> ((#[trigger] a[i]) matches CborValue::Text(t) && t@ == l[i]@)
}

/// Reads an array of texts.
pub fn read_text_list(a: &Vec<CborValue>) -> (r: Result<Vec<String>, SmpError>)
    ensures
        r is Ok <==> text_items(a@),
        r matches Ok(l) ==> texts_decode_to(a@, l@),
        r is Err ==> r == Err::<Vec<String>, SmpError>(SmpError::DecodeError),
{
    let mut l: Vec<String> = Vec::new();
    let mut i: usize = 0;
    while i < a.len()
        invariant
            i <= a@.len(),
            l@.len() == i,
            forall|j: int| 0 <= j < i ==> (#[trigger] a@[j]) is Text,
            forall|j: int|
                0 <= j < i ==> ((#[trigger] a@[j]) matches CborValue::Text(t) && t@ == l@[j]@),
        decreases a@.len() - i,
    {
        match &a[i] {
            CborValue::Text(t) => l.push(t.clone()),
            _ => return Err(SmpError::DecodeError),
        }
        i += 1;
    }
    Ok(l)
}

impl CborRecord for StatListRsp {
    open spec fn decodable(v: CborValue) -> bool {
        &&& v is Dict
        &&& match field(v, "stat_list"@) {
            None => true,
            Some(CborValue::Array(a)) => text_items(a@),
            _ => false,
        }
        &&& def_i32(v, "rc"@) is Some
    }

    open spec fn decodes_to(v: CborValue, x: StatListRsp) -> bool {
        &&& match field(v, "stat_list"@) {
            None => x.stat_list@.len() == 0,
            Some(CborValue::Array(a)) => texts_decode_to(a@, x.stat_list@),
            _ => false,
        }
        &&& def_i32(v, "rc"@) == Some(x.rc)
    }

    fn from_cbor(v: &CborValue) -> (r: Result<StatListRsp, SmpError>) {
        if !matches!(v, CborValue::Dict(_)) {
            return Err(SmpError::DecodeError);
        }
        let stat_list = match get_field(v, "stat_list") {
            None => Vec::new(),
            Some(CborValue::Array(a)) => read_text_list(a)?,
            _ => return Err(SmpError::DecodeError),
        };
        let rc = get_def_i32(v, "rc")?;
        Ok(StatListRsp { stat_list, rc })
    }
}

/// Whether every entry of `e` has a text key and an `i64` value.
pub open spec fn counters_decodable(e: Seq<(CborValue, CborValue)>) -> bool {
    forall|i: int| 0 <= i < e.len() ==> (#[trigger] e[i]).0 is Text && as_i64(e[i].1) is Some
}

/// Whether `c` lists, in order, the counters of map entries `e`.
pub open spec fn counters_decode_to(e: Seq<(CborValue, CborValue)>, c: Seq<(String, i64)>) -> bool {
    &&& c.len() == e.len()
    &&& forall|i: int|
        0 <= i < e.len() ==> ((#[trigger] e[i]).0 matches CborValue::Text(k) && k@ == c[i].0@
            && as_i64(e[i].1) == Some(c[i].1))
}

/// Reads a map of named counters.
pub fn read_counters(e: &Vec<(CborValue, CborValue)>) -> (r: Result<Vec<(String, i64)>, SmpError>)
    ensures
        r is Ok <==> counters_decodable(e@),
        r matches Ok(c) ==> counters_decode_to(e@, c@),
        r is Err ==> r == Err::<Vec<(String, i64)>, SmpError>(SmpError::DecodeError),
{
    let mut c: Vec<(String, i64)> = Vec::new();
    let mut i: usize = 0;
    while i < e.len()
        invariant
            i <= e@.len(),
            c@.len() == i,
            forall|j: int| 0 <= j < i ==> (#[trigger] e@[j]).0 is Text && as_i64(e@[j].1) is Some,
            forall|j: int|
                0 <= j < i ==> ((#[trigger] e@[j]).0 matches CborValue::Text(k) && k@ == c@[j].0@
                    && as_i64(e@[j].1) == Some(c@[j].1)),
        decreases e@.len() - i,
    {
        let name = match &e[i].0 {
            CborValue::Text(k) => k.clone(),
            _ => return Err(SmpError::DecodeError),
        };
        let n = read_i64(&e[i].1)?;
        c.push((name, n));
        i += 1;
    }
    Ok(c)
}

impl CborRecord for StatReadRsp {
    open spec fn decodable(v: CborValue) -> bool {
        &&& req_text(v, "name"@) is Some
        &&& match field(v, "fields"@) {
            None => true,
            Some(CborValue::Dict(e)) => counters_decodable(e@),
            _ => false,
        }
        &&& def_i32(v, "rc"@) is Some
    }

    open spec fn decodes_to(v: CborValue, x: StatReadRsp) -> bool {
        &&& req_text(v, "name"@) == Some(x.name@)
        &&& match field(v, "fields"@) {
            None => x.fields@.len() == 0,
            Some(CborValue::Dict(e)) => counters_decode_to(e@, x.fields@),
            _ => false,
        }
        &&& def_i32(v, "rc"@) == Some(x.rc)
    }

    fn from_cbor(v: &CborValue) -> (r: Result<StatReadRsp, SmpError>) {
        let name = get_req_text(v, "name")?;
        let fields = match get_field(v, "fields") {
            None => Vec::new(),
            Some(CborValue::Dict(e)) => read_counters(e)?,
            _ => return Err(SmpError::DecodeError),
        };
        let rc = get_def_i32(v, "rc")?;
        Ok(StatReadRsp { name, fields, rc })
    }
}

// ---------------------------------------------------------------------------
// Settings (config) group
// ---------------------------------------------------------------------------

/// Asks for the value of a setting.
#[derive(Debug, Clone)]
pub struct SettingsReadReq {
    pub name: String,
    pub max_size: Option<u32>,
}

/// The value of a setting.
#[derive(Debug, Clone)]
pub struct SettingsReadRsp {
    pub val: Vec<u8>,
    pub rc: i32,
}

/// Sets a setting.
#[derive(Debug, Clone)]
pub struct SettingsWriteReq {
    pub name: String,
    pub val: Vec<u8>,
}

/// Deletes a setting.
#[derive(Debug, Clone)]
pub struct SettingsDeleteReq {
    pub name: String,
}

/// Commits settings.
#[derive(Debug, Clone, Copy, PartialEq, Eq, Structural)]
pub struct SettingsCommitReq {}

/// Loads settings from persistent storage.
#[derive(Debug, Clone, Copy, PartialEq, Eq, Structural)]
pub struct SettingsLoadReq {}

/// Saves settings to persistent storage.
#[derive(Debug, Clone, Copy, PartialEq, Eq, Structural)]
pub struct SettingsSaveReq {}

impl SettingsReadReq {
    pub open spec fn wire_fields(&self) -> Seq<(Seq<char>, Wire)> {
        let f = Seq::empty().push(("name"@, Wire::Text(self.name@)));
        match self.max_size {
            Some(m) => f.push(("max_size"@, Wire::Uint(m as int))),
            None => f,
        }
    }

    pub fn to_cbor(&self) -> (r: CborValue)
        ensures
            encodes(r, self.wire_fields()),
    {
        let mut e: Vec<(CborValue, CborValue)> = Vec::new();
        push_text_entry(&mut e, "name", self.name.as_str(), Ghost(Seq::empty()));
        if let Some(m) = self.max_size {
            push_uint_entry(
                &mut e,
                "max_size",
                m,
                Ghost(Seq::empty().push(("name"@, Wire::Text(self.name@)))),
            );
        }
        CborValue::Dict(e)
    }
}

impl SettingsWriteReq {
    pub open spec fn wire_fields(&self) -> Seq<(Seq<char>, Wire)> {
        Seq::empty().push(("name"@, Wire::Text(self.name@))).push(
            ("val"@, Wire::Bytes(self.val@)),
        )
    }

    pub fn to_cbor(&self) -> (r: CborValue)
        ensures
            encodes(r, self.wire_fields()),
    {
        let mut e: Vec<(CborValue, CborValue)> = Vec::new();
        push_text_entry(&mut e, "name", self.name.as_str(), Ghost(Seq::empty()));
        push_bytes_entry(
            &mut e,
            "val",
            self.val.as_slice(),
            Ghost(Seq::empty().push(("name"@, Wire::Text(self.name@)))),
        );
        CborValue::Dict(e)
    }
}

impl SettingsDeleteReq {
    pub open spec fn wire_fields(&self) -> Seq<(Seq<char>, Wire)> {
        Seq::empty().push(("name"@, Wire::Text(self.name@)))
    }

    pub fn to_cbor(&self) -> (r: CborValue)
        ensures
            encodes(r, self.wire_fields()),
    {
        let mut e: Vec<(CborValue, CborValue)> = Vec::new();
        push_text_entry(&mut e, "name", self.name.as_str(), Ghost(Seq::empty()));
        CborValue::Dict(e)
    }
}

impl SettingsCommitReq {
    pub fn to_cbor(&self) -> (r: CborValue)
        ensures
            encodes(r, Seq::empty()),
    {
        CborValue::Dict(Vec::new())
    }
}

impl SettingsLoadReq {
    pub fn to_cbor(&self) -> (r: CborValue)
        ensures
            encodes(r, Seq::empty()),
    {
        CborValue::Dict(Vec::new())
    }
}

impl SettingsSaveReq {
    pub fn to_cbor(&self) -> (r: CborValue)
        ensures
            encodes(r, Seq::empty()),
    {
        CborValue::Dict(Vec::new())
    }
}

impl CborRecord for SettingsReadRsp {
    open spec fn decodable(v: CborValue) -> bool {
        v is Dict && def_bytes(v, "val"@) is Some && def_i32(v, "rc"@) is Some
    }

    open spec fn decodes_to(v: CborValue, x: SettingsReadRsp) -> bool {
        def_bytes(v, "val"@) == Some(x.val@) && def_i32(v, "rc"@) == Some(x.rc)
    }

    fn from_cbor(v: &CborValue) -> (r: Result<SettingsReadRsp, SmpError>) {
        if !matches!(v, CborValue::Dict(_)) {
            return Err(SmpError::DecodeError);
        }
        let val = get_def_bytes(v, "val")?;
        let rc = get_def_i32(v, "rc")?;
        Ok(SettingsReadRsp { val, rc })
    }
}

} // verus!
