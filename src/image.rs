use vstd::prelude::*;

use crate::cbor::{
    def_bool, def_bytes, field, get_def_bool, get_def_bytes, get_field, get_req_text, get_req_u32,
    encodes, req_text, req_u32, empty_map, CborValue,
};
use crate::cbor::{def_u32_or_zero, get_def_u32};
use crate::error::SmpError;
use crate::header::{NmpGroup, NmpId, NmpIdImage, NmpOp};
use crate::frame::slice_to_vec;
use crate::fs::upload_chunk_end;
use crate::records::{
    CborRecord, ImageEraseReq, ImageStateEntry, ImageStateReq, ImageStateRsp, ImageUploadReq,
    SplitStatus,
};
use crate::transport::{carries, reply_decodes, reply_rc, reply_rc_outcome, reply_record, send, sent_carries, SmpRequest, Transport};

verus! {

/// The split status that a value names: its index or its variant name.
pub open spec fn split_status_of(v: CborValue) -> Option<SplitStatus> {
    match v {
        CborValue::Integer(i) => if i == 0 {
            Some(SplitStatus::NotApplicable)
        } else if i == 1 {
            Some(SplitStatus::NotMatching)
        } else if i == 2 {
            Some(SplitStatus::Matching)
        } else {
            None
        },
        CborValue::Text(s) => if s@ == "NotApplicable"@ {
            Some(SplitStatus::NotApplicable)
        } else if s@ == "NotMatching"@ {
            Some(SplitStatus::NotMatching)
        } else if s@ == "Matching"@ {
            Some(SplitStatus::Matching)
        } else {
            None
        },
        _ => None,
    }
}

/// The optional split status of an image list: `Some(None)` when absent or null.
pub open spec fn opt_split_status(v: CborValue) -> Option<Option<SplitStatus>> {
    match field(v, "splitStatus"@) {
        None => Some(None),
        Some(CborValue::Null) => Some(None),
        Some(x) => match split_status_of(x) {
            Some(s) => Some(Some(s)),
            None => None,
        },
    }
}

fn read_split_status(v: &CborValue) -> (r: Result<Option<SplitStatus>, SmpError>)
    ensures
        match opt_split_status(*v) {
            Some(x) => r == Ok::<Option<SplitStatus>, SmpError>(x),
            None => r == Err::<Option<SplitStatus>, SmpError>(SmpError::DecodeError),
        },
{
    match get_field(v, "splitStatus") {
        None => Ok(None),
        Some(CborValue::Null) => Ok(None),
        Some(CborValue::Integer(i)) => if *i == 0 {
            Ok(Some(SplitStatus::NotApplicable))
        } else if *i == 1 {
            Ok(Some(SplitStatus::NotMatching))
        } else if *i == 2 {
            Ok(Some(SplitStatus::Matching))
        } else {
            Err(SmpError::DecodeError)
        },
        Some(CborValue::Text(s)) => {
            if crate::cbor::text_is(s, "NotApplicable") {
                Ok(Some(SplitStatus::NotApplicable))
            } else if crate::cbor::text_is(s, "NotMatching") {
                Ok(Some(SplitStatus::NotMatching))
            } else if crate::cbor::text_is(s, "Matching") {
                Ok(Some(SplitStatus::Matching))
            } else {
                Err(SmpError::DecodeError)
            }
        },
        _ => Err(SmpError::DecodeError),
    }
}

impl CborRecord for ImageStateEntry {
    open spec fn decodable(v: CborValue) -> bool {
        &&& def_u32_or_zero(v, "image"@) is Some
        &&& req_u32(v, "slot"@) is Some
        &&& req_text(v, "version"@) is Some
        &&& def_bytes(v, "hash"@) is Some
        &&& def_bool(v, "bootable"@) is Some
        &&& def_bool(v, "pending"@) is Some
        &&& def_bool(v, "confirmed"@) is Some
        &&& def_bool(v, "active"@) is Some
        &&& def_bool(v, "permanent"@) is Some
    }

    open spec fn decodes_to(v: CborValue, x: ImageStateEntry) -> bool {
        &&& def_u32_or_zero(v, "image"@) == Some(x.image)
        &&& req_u32(v, "slot"@) == Some(x.slot)
        &&& req_text(v, "version"@) == Some(x.version@)
        &&& def_bytes(v, "hash"@) == Some(x.hash@)
        &&& def_bool(v, "bootable"@) == Some(x.bootable)
        &&& def_bool(v, "pending"@) == Some(x.pending)
        &&& def_bool(v, "confirmed"@) == Some(x.confirmed)
        &&& def_bool(v, "active"@) == Some(x.active)
        &&& def_bool(v, "permanent"@) == Some(x.permanent)
    }

    fn from_cbor(v: &CborValue) -> (r: Result<ImageStateEntry, SmpError>) {
        let image = get_def_u32(v, "image")?;
        let slot = get_req_u32(v, "slot")?;
        let version = get_req_text(v, "version")?;
        let hash = get_def_bytes(v, "hash")?;
        let bootable = get_def_bool(v, "bootable")?;
        let pending = get_def_bool(v, "pending")?;
        let confirmed = get_def_bool(v, "confirmed")?;
        let active = get_def_bool(v, "active")?;
        let permanent = get_def_bool(v, "permanent")?;
        Ok(
            ImageStateEntry {
                image,
                slot,
                version,
                hash,
                bootable,
                pending,
                confirmed,
                active,
                permanent,
            },
        )
    }
}

/// Whether every item of `a` is an image entry.
pub open spec fn entries_decodable(a: Seq<CborValue>) -> bool {
    forall|i: int| 0 <= i < a.len() ==> ImageStateEntry::decodable(#[trigger] a[i])
}

/// Whether `l` is, in order, the image entries of `a`.
pub open spec fn entries_decode_to(a: Seq<CborValue>, l: Seq<ImageStateEntry>) -> bool {
    &&& l.len() == a.len()
    &&& forall|i: int| 0 <= i < a.len() ==> ImageStateEntry::decodes_to(#[trigger] a[i], l[i])
}

impl CborRecord for ImageStateRsp {
    open spec fn decodable(v: CborValue) -> bool {
        &&& field(v, "images"@) matches Some(CborValue::Array(a)) && entries_decodable(a@)
        &&& opt_split_status(v) is Some
    }

    open spec fn decodes_to(v: CborValue, x: ImageStateRsp) -> bool {
        &&& field(v, "images"@) matches Some(CborValue::Array(a)) && entries_decode_to(a@, x.images@)
        &&& opt_split_status(v) == Some(x.split_status)
    }

    fn from_cbor(v: &CborValue) -> (r: Result<ImageStateRsp, SmpError>) {
        let a = match get_field(v, "images") {
            Some(CborValue::Array(a)) => a,
            _ => return Err(SmpError::DecodeError),
        };
        let mut images: Vec<ImageStateEntry> = Vec::new();
        let mut i: usize = 0;
        while i < a.len()
            invariant
                i <= a@.len(),
                field(*v, "images"@) == Some(CborValue::Array(*a)),
                images@.len() == i,
                forall|j: int| 0 <= j < i ==> ImageStateEntry::decodable(#[trigger] a@[j]),
                forall|j: int| 0 <= j < i ==> ImageStateEntry::decodes_to(#[trigger] a@[j], images@[j]),
            decreases a@.len() - i,
        {
            let e = match ImageStateEntry::from_cbor(&a[i]) {
                Ok(e) => e,
                Err(err) => {
                    assert(!ImageStateEntry::decodable(a@[i as int]));
                    return Err(err);
                },
            };
            images.push(e);
            i += 1;
        }
        let split_status = read_split_status(v)?;
        Ok(ImageStateRsp { images, split_status })
    }
}

/// The image list request: a read of the state command with an empty map.
pub fn list_request() -> (r: SmpRequest)
    ensures
        carries(r, NmpOp::Read, NmpGroup::Image, 0, Some(Seq::empty())),
{
    SmpRequest { op: NmpOp::Read, group: NmpGroup::Image, id: NmpIdImage::State.to_u8(), body: Some(empty_map()) }
}

/// The images on the device and their states: `reply_record` of the reply to `list_request`.
pub fn list_transport<T: Transport>(transport: &mut T) -> (r: Result<ImageStateRsp, SmpError>)
    ensures
        sent_carries(final(transport).last_request(), NmpOp::Read, NmpGroup::Image, 0, Some(Seq::empty())),
        reply_decodes::<ImageStateRsp>(final(transport).last_reply(), r), {
    let req = list_request();
    reply_record(&send(transport, &req))
}

/// The request that marks the image with `hash` for test, or confirms it.
pub fn test_request(hash: Vec<u8>, confirm: Option<bool>) -> (r: SmpRequest)
    ensures
        r.op == NmpOp::Write && r.group == NmpGroup::Image && r.id == 0,
        r.body matches Some(v) && encodes(v, (ImageStateReq { hash, confirm }).wire_fields()),
{
    let body = ImageStateReq { hash, confirm }.to_cbor();
    SmpRequest { op: NmpOp::Write, group: NmpGroup::Image, id: NmpIdImage::State.to_u8(), body: Some(body) }
}

/// Marks an image for test or confirms it: `reply_record` of the reply to `test_request`.
pub fn test_transport<T: Transport>(transport: &mut T, hash: Vec<u8>, confirm: Option<bool>) -> (r: Result<ImageStateRsp, SmpError>)
    ensures
        sent_carries(final(transport).last_request(), NmpOp::Write, NmpGroup::Image, 0, Some((ImageStateReq { hash, confirm }).wire_fields())),
        reply_decodes::<ImageStateRsp>(final(transport).last_reply(), r), {
    let req = test_request(hash, confirm);
    reply_record(&send(transport, &req))
}

/// The request that erases slot `slot` (the device's default slot when none is given).
pub fn erase_request(slot: Option<u32>) -> (r: SmpRequest)
    ensures
        carries(r, NmpOp::Write, NmpGroup::Image, 5, Some((ImageEraseReq { slot }).wire_fields())),
{
    let body = ImageEraseReq { slot }.to_cbor();
    SmpRequest { op: NmpOp::Write, group: NmpGroup::Image, id: NmpIdImage::Erase.to_u8(), body: Some(body) }
}

/// Erases an image slot: `reply_rc` of the reply to `erase_request`.
pub fn erase_transport<T: Transport>(transport: &mut T, slot: Option<u32>) -> (r: Result<(), SmpError>)
    ensures
        sent_carries(final(transport).last_request(), NmpOp::Write, NmpGroup::Image, 5, Some((ImageEraseReq { slot }).wire_fields())),
        r == reply_rc_outcome(final(transport).last_reply()), {
    let req = erase_request(slot);
    reply_rc(&send(transport, &req))
}

/// The device's answer to an image chunk: where the next one starts.
#[derive(Debug, Clone, Copy, PartialEq, Eq, Structural)]
pub struct ImageUploadRsp {
    pub off: u32,
    pub rc: i32,
}

impl CborRecord for ImageUploadRsp {
    open spec fn decodable(v: CborValue) -> bool {
        req_u32(v, "off"@) is Some && crate::cbor::def_i32(v, "rc"@) is Some
    }

    open spec fn decodes_to(v: CborValue, x: ImageUploadRsp) -> bool {
        req_u32(v, "off"@) == Some(x.off) && crate::cbor::def_i32(v, "rc"@) == Some(x.rc)
    }

    fn from_cbor(v: &CborValue) -> (r: Result<ImageUploadRsp, SmpError>) {
        let off = get_req_u32(v, "off")?;
        let rc = crate::cbor::get_def_i32(v, "rc")?;
        Ok(ImageUploadRsp { off, rc })
    }
}

/// Upload of a firmware image to a slot, one chunk per request; the first chunk
/// carries the image size and, when given, its SHA-256 and the upgrade flag.
pub struct ImageUpload {
    pub image: u8,
    pub data: Vec<u8>,
    pub sha: Option<Vec<u8>>,
    pub upgrade: Option<bool>,
    pub off: u32,
    pub mtu: usize,
}

impl ImageUpload {
    pub open spec fn wf(&self) -> bool {
        self.data@.len() <= u32::MAX && self.mtu > 0
    }

    /// An upload of `data` to image slot `image` in chunks of at most `mtu` bytes.
    /// An image too large for 32-bit offsets, or a zero `mtu`, is a configuration error.
    pub fn new(image: u8, data: Vec<u8>, sha: Option<Vec<u8>>, upgrade: Option<bool>, mtu: usize) -> (r:
        Result<ImageUpload, SmpError>)
        ensures
            data@.len() > u32::MAX || mtu == 0 ==> r == Err::<ImageUpload, SmpError>(
                SmpError::ConfigError,
            ),
            data@.len() <= u32::MAX && mtu > 0 ==> (r matches Ok(u) && u.wf() && u.image == image
                && u.data@ == data@ && u.sha == sha && u.upgrade == upgrade && u.off == 0 && u.mtu
                == mtu),
    {
        if data.len() > 0xffff_ffff || mtu == 0 {
            return Err(SmpError::ConfigError);
        }
        Ok(ImageUpload { image, data, sha, upgrade, off: 0, mtu })
    }

    /// Whether the device has acknowledged the whole image.
    pub fn is_done(&self) -> (r: bool)
        ensures
            r == (self.off >= self.data@.len()),
    {
        self.off as usize >= self.data.len()
    }

    /// The chunk that starts at the current offset.
    pub fn next_request(&self) -> (r: ImageUploadReq)
        requires
            self.off < self.data@.len(),
        ensures
            r.image_num == self.image,
            r.off == self.off,
            r.data@ == self.data@.subrange(
                self.off as int,
                upload_chunk_end(self.data@.len(), self.off as nat, self.mtu as nat) as int,
            ),
            r.len == if self.off == 0 {
                Some(self.data@.len() as u32)
            } else {
                None::<u32>
            },
            self.off == 0 ==> r.upgrade == self.upgrade && (r.data_sha is Some <==> self.sha is Some)
                && (r.data_sha matches Some(h) ==> h@ == self.sha->Some_0@),
            self.off != 0 ==> r.upgrade is None && r.data_sha is None,
    {
        let total = self.data.len();
        let off = self.off as usize;
        let end = if self.mtu > total - off {
            total
        } else {
            off + self.mtu
        };
        let first = self.off == 0;
        let len = if first {
            Some(total as u32)
        } else {
            None
        };
        let data_sha = match &self.sha {
            Some(h) => if first {
                Some(slice_to_vec(h.as_slice(), 0, h.len()))
            } else {
                None
            },
            None => None,
        };
        let upgrade = if first {
            self.upgrade
        } else {
            None
        };
        ImageUploadReq {
            data: slice_to_vec(self.data.as_slice(), off, end),
            image_num: self.image,
            len,
            off: self.off,
            data_sha,
            upgrade,
        }
    }

    /// Takes the device's acknowledgement: the next chunk starts where it says.
    pub fn on_response(&mut self, rsp: &ImageUploadRsp)
        ensures
            final(self).off == rsp.off,
            final(self).image == old(self).image,
            final(self).data == old(self).data,
            final(self).sha == old(self).sha,
            final(self).upgrade == old(self).upgrade,
            final(self).mtu == old(self).mtu,
    {
        self.off = rsp.off;
    }
}

} // verus!
