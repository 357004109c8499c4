use vstd::prelude::*;

use crate::cbor::Wire;
use crate::error::SmpError;
use crate::frame::slice_to_vec;
use crate::header::{NmpGroup, NmpId, NmpIdFs, NmpOp};
use crate::records::{FsDownloadReq, FsDownloadRsp, FsHashReq, FsHashRsp, FsStatReq, FsStatRsp, FsUploadReq, FsUploadRsp};
use crate::transport::{carries, reply_decodes, reply_record, send, sent_carries, SmpRequest, Transport};

verus! {

/// The file size request for `path`.
pub fn stat_request(path: &str) -> (r: SmpRequest)
    ensures
        carries(r, NmpOp::Read, NmpGroup::Fs, 1, Some(Seq::empty().push(("name"@, Wire::Text(path@))))),
{
    let body = FsStatReq { name: path.to_owned() }.to_cbor();
    SmpRequest { op: NmpOp::Read, group: NmpGroup::Fs, id: NmpIdFs::FileStat.to_u8(), body: Some(body) }
}

/// Size of file `path` on the device: `reply_record` of the reply to `stat_request`.
pub fn stat_transport<T: Transport>(transport: &mut T, path: &str) -> (r: Result<FsStatRsp, SmpError>)
    ensures
        sent_carries(final(transport).last_request(), NmpOp::Read, NmpGroup::Fs, 1, Some(Seq::empty().push(("name"@, Wire::Text(path@))))),
        reply_decodes::<FsStatRsp>(final(transport).last_reply(), r), {
    let req = stat_request(path);
    reply_record(&send(transport, &req))
}

/// The fields of a hash request.
pub open spec fn hash_fields(
    path: Seq<char>,
    hash_type: Option<&str>,
    off: Option<u32>,
    len: Option<u32>,
) -> Seq<(Seq<char>, Wire)> {
    let f0 = Seq::empty().push(("name"@, Wire::Text(path)));
    let f1 = match hash_type {
        Some(t) => f0.push(("type"@, Wire::Text(t@))),
        None => f0,
    };
    let f2 = match off {
        Some(o) => f1.push(("off"@, Wire::Uint(o as int))),
        None => f1,
    };
    match len {
        Some(l) => f2.push(("len"@, Wire::Uint(l as int))),
        None => f2,
    }
}

/// The hash request for `path`, of the kind and range given.
pub fn hash_request(path: &str, hash_type: Option<&str>, off: Option<u32>, len: Option<u32>) -> (r:
    SmpRequest)
    ensures
        carries(r, NmpOp::Read, NmpGroup::Fs, 2, Some(hash_fields(path@, hash_type, off, len))),
{
    let hash_type = match hash_type {
        Some(t) => Some(t.to_owned()),
        None => None,
    };
    let body = FsHashReq { name: path.to_owned(), hash_type, off, len }.to_cbor();
    SmpRequest { op: NmpOp::Read, group: NmpGroup::Fs, id: NmpIdFs::FileHash.to_u8(), body: Some(body) }
}

/// Hash or checksum of file `path`: `reply_record` of the reply to `hash_request`.
pub fn hash_transport<T: Transport>(
    transport: &mut T,
    path: &str,
    hash_type: Option<&str>,
    off: Option<u32>,
    len: Option<u32>,
) -> (r: Result<FsHashRsp, SmpError>)
    ensures
        sent_carries(final(transport).last_request(), NmpOp::Read, NmpGroup::Fs, 2, Some(hash_fields(path@, hash_type, off, len))),
        reply_decodes::<FsHashRsp>(final(transport).last_reply(), r), {
    let req = hash_request(path, hash_type, off, len);
    reply_record(&send(transport, &req))
}

// ---------------------------------------------------------------------------
// Upload
// ---------------------------------------------------------------------------

/// End of the chunk sent at `off`: at most `mtu` bytes, never past `total`.
pub open spec fn upload_chunk_end(total: nat, off: nat, mtu: nat) -> nat {
    if off + mtu > total {
        total
    } else {
        off + mtu
    }
}

/// Upload of a local file to a path on the device, one chunk per request. The
/// device's answer to each chunk is the offset at which the next one starts.
pub struct FileUpload {
    pub name: String,
    pub data: Vec<u8>,
    pub off: u32,
    pub mtu: usize,
}

impl FileUpload {
    pub open spec fn wf(&self) -> bool {
        self.data@.len() <= u32::MAX && self.mtu > 0
    }

    /// An upload of `data` to `name` in chunks of at most `mtu` bytes. A file too
    /// large for 32-bit offsets, or a zero `mtu`, is a configuration error.
    pub fn new(name: &str, data: Vec<u8>, mtu: usize) -> (r: Result<FileUpload, SmpError>)
        ensures
            data@.len() > u32::MAX || mtu == 0 ==> r == Err::<FileUpload, SmpError>(
                SmpError::ConfigError,
            ),
            data@.len() <= u32::MAX && mtu > 0 ==> (r matches Ok(u) && u.wf() && u.name@ == name@
                && u.data@ == data@ && u.off == 0 && u.mtu == mtu),
    {
        if data.len() > 0xffff_ffff || mtu == 0 {
            return Err(SmpError::ConfigError);
        }
        Ok(FileUpload { name: name.to_owned(), data, off: 0, mtu })
    }

    /// Whether the device has acknowledged the whole file.
    pub fn is_done(&self) -> (r: bool)
        ensures
            r == (self.off >= self.data@.len()),
    {
        self.off as usize >= self.data.len()
    }

    /// The chunk that starts at the current offset; the first one carries the size
    /// of the file.
    pub fn next_request(&self) -> (r: FsUploadReq)
        requires
            self.off < self.data@.len(),
        ensures
            r.name@ == self.name@,
            r.off == self.off,
            r.data@ == self.data@.subrange(
                self.off as int,
                upload_chunk_end(self.data@.len(), self.off as nat, self.mtu as nat) as int,
            ),
            r.len == if self.off == 0 {
                Some(self.data@.len() as u32)
            } else {
                None::<u32>
            },
    {
        let total = self.data.len();
        let off = self.off as usize;
        let end = if self.mtu > total - off {
            total
        } else {
            off + self.mtu
        };
        let len = if self.off == 0 {
            Some(total as u32)
        } else {
            None
        };
        FsUploadReq {
            name: self.name.clone(),
            off: self.off,
            data: slice_to_vec(self.data.as_slice(), off, end),
            len,
        }
    }

    /// Takes the device's acknowledgement: the next chunk starts where it says.
    pub fn on_response(&mut self, rsp: &FsUploadRsp)
        ensures
            final(self).off == rsp.off,
            final(self).name == old(self).name,
            final(self).data == old(self).data,
            final(self).mtu == old(self).mtu,
    {
        self.off = rsp.off;
    }
}

/// What a device that stores each chunk at its offset holds after receiving `chunk`
/// at `off`.
pub open spec fn server_store(f: Seq<u8>, off: nat, chunk: Seq<u8>) -> Seq<u8> {
    f.subrange(0, off as int) + chunk
}

/// What such a device holds at the end of an upload of `data` from offset `off`,
/// acknowledging each chunk with its end.
pub open spec fn upload_run(data: Seq<u8>, mtu: nat, off: nat, f: Seq<u8>) -> Seq<u8>
    decreases data.len() - off,
{
    if mtu == 0 || off >= data.len() {
        f
    } else {
        let end = upload_chunk_end(data.len(), off, mtu);
        upload_run(data, mtu, end, server_store(f, off, data.subrange(off as int, end as int)))
    }
}

/// The offset after `j` acknowledged chunks of an upload of `total` bytes.
pub open spec fn upload_off_after(total: nat, mtu: nat, j: nat) -> nat
    decreases j,
{
    if j == 0 {
        0
    } else {
        let o = upload_off_after(total, mtu, (j - 1) as nat);
        if o >= total {
            o
        } else {
            upload_chunk_end(total, o, mtu)
        }
    }
}

/// A file whose size is `k` times the chunk size is sent in `k` full chunks: before
/// the `k`-th acknowledgement the upload is not done, and after it the offset is
/// exactly the file size.
pub proof fn lemma_upload_exact_multiple(mtu: nat, k: nat, j: nat)
    requires
        mtu > 0,
        j <= k,
    ensures
        upload_off_after(k * mtu, mtu, j) == j * mtu,
        j < k ==> upload_off_after(k * mtu, mtu, j) < k * mtu,
        j < k ==> upload_chunk_end(k * mtu, upload_off_after(k * mtu, mtu, j), mtu)
            - upload_off_after(k * mtu, mtu, j) == mtu,
        j == k ==> upload_off_after(k * mtu, mtu, j) == k * mtu,
    decreases j,
{
    if j == 0 {
        assert(0 * mtu == 0) by (nonlinear_arith);
    } else {
        lemma_upload_exact_multiple(mtu, k, (j - 1) as nat);
        assert(j * mtu <= k * mtu) by (nonlinear_arith)
            requires
                j <= k,
                mtu > 0,
        ;
        assert((j - 1) * mtu + mtu == j * mtu) by (nonlinear_arith);
        assert((j - 1) * mtu < k * mtu) by (nonlinear_arith)
            requires
                j - 1 < k,
                mtu > 0,
        ;
    }
    if j < k {
        assert(j * mtu + mtu <= k * mtu) by (nonlinear_arith)
            requires
                j < k,
                mtu > 0,
        ;
        assert(j * mtu < k * mtu) by (nonlinear_arith)
            requires
                j < k,
                mtu > 0,
        ;
    }
}

/// Each chunk stored at the acknowledged offset extends the device's copy: if it
/// holds the first `off` bytes, an upload run from there leaves it holding all of `data`.
pub proof fn lemma_upload_run_stores(data: Seq<u8>, mtu: nat, off: nat, f: Seq<u8>)
    requires
        mtu > 0,
        off <= data.len(),
        f == data.subrange(0, off as int),
    ensures
        upload_run(data, mtu, off, f) == data,
    decreases data.len() - off,
{
    if off >= data.len() {
        assert(data.subrange(0, off as int) =~= data);
    } else {
        let end = upload_chunk_end(data.len(), off, mtu);
        let f2 = server_store(f, off, data.subrange(off as int, end as int));
        assert(f.subrange(0, off as int) =~= f);
        assert(f2 =~= data.subrange(0, end as int));
        lemma_upload_run_stores(data, mtu, end, f2);
    }
}

// ---------------------------------------------------------------------------
// Download
// ---------------------------------------------------------------------------

/// Whether a download stops after a chunk of `n` bytes that brought it to `off`:
/// the declared size is reached, or the device sent no data.
pub open spec fn download_done(total: Option<u32>, off: int, n: int) -> bool {
    (total matches Some(l) && off >= l) || n == 0
}

/// The declared size after a response: taken from the first response only.
pub open spec fn download_total_after(off: u32, total: Option<u32>, len: Option<u32>) -> Option<u32> {
    if off == 0 && len is Some {
        len
    } else {
        total
    }
}

/// Download of a file from the device, one chunk per request.
pub struct FileDownload {
    pub name: String,
    pub off: u32,
    pub total: Option<u32>,
    pub data: Vec<u8>,
}

impl FileDownload {
    /// A download of `name` from its start.
    pub fn new(name: &str) -> (r: FileDownload)
        ensures
            r.name@ == name@,
            r.off == 0,
            r.total is None,
            r.data@.len() == 0,
    {
        FileDownload { name: name.to_owned(), off: 0, total: None, data: Vec::new() }
    }

    /// The request for the chunk at the current offset.
    pub fn next_request(&self) -> (r: FsDownloadReq)
        ensures
            r.name@ == self.name@,
            r.off == self.off,
    {
        FsDownloadReq { name: self.name.clone(), off: self.off }
    }

    /// Takes a chunk: appends its data, moves the offset past it, and reports whether
    /// the download is over. A chunk that ends past the 32-bit offset range is a
    /// decode error and changes nothing.
    pub fn on_response(&mut self, rsp: &FsDownloadRsp) -> (r: Result<bool, SmpError>)
        ensures
            rsp.off + rsp.data@.len() > u32::MAX ==> r == Err::<bool, SmpError>(
                SmpError::DecodeError,
            ) && *final(self) == *old(self),
            rsp.off + rsp.data@.len() <= u32::MAX ==> {
                &&& final(self).name == old(self).name
                &&& final(self).total == download_total_after(old(self).off, old(self).total, rsp.len)
                &&& final(self).data@ == old(self).data@ + rsp.data@
                &&& final(self).off == rsp.off + rsp.data@.len()
                &&& r == Ok::<bool, SmpError>(
                    download_done(final(self).total, final(self).off as int, rsp.data@.len() as int),
                )
            },
    {
        if rsp.data.len() > 0xffff_ffff || rsp.off > 0xffff_ffff - rsp.data.len() as u32 {
            return Err(SmpError::DecodeError);
        }
        if self.off == 0 {
            if let Some(len) = rsp.len {
                self.total = Some(len);
            }
        }
        let mut i: usize = 0;
        let ghost d0 = self.data@;
        while i < rsp.data.len()
            invariant
                i <= rsp.data@.len(),
                self.data@ == d0 + rsp.data@.subrange(0, i as int),
                self.name == old(self).name,
                self.off == old(self).off,
                self.total == download_total_after(old(self).off, old(self).total, rsp.len),
            decreases rsp.data@.len() - i,
        {
            self.data.push(rsp.data[i]);
            i += 1;
            assert(rsp.data@.subrange(0, i as int) =~= rsp.data@.subrange(0, i - 1) + seq![
                rsp.data@[i - 1],
            ]);
        }
        assert(rsp.data@.subrange(0, rsp.data@.len() as int) =~= rsp.data@);
        self.off = rsp.off + rsp.data.len() as u32;
        let done = match self.total {
            Some(len) => self.off >= len,
            None => false,
        } || rsp.data.len() == 0;
        Ok(done)
    }
}

/// Without a size on the first chunk the download never learns one, and it stops
/// exactly when a chunk brings no data.
pub proof fn lemma_download_without_len(off: u32, len: Option<u32>, new_off: int, n: int)
    requires
        off != 0 || len is None,
    ensures
        download_total_after(off, None, len) is None,
        download_done(download_total_after(off, None, len), new_off, n) <==> n == 0,
{
}

/// The chunk that a device holding file `f` sends for offset `off`, when it sends at
/// most `c` bytes at a time.
pub open spec fn server_chunk(f: Seq<u8>, off: nat, c: nat) -> Seq<u8> {
    if off >= f.len() {
        Seq::empty()
    } else if off + c > f.len() {
        f.subrange(off as int, f.len() as int)
    } else {
        f.subrange(off as int, (off + c) as int)
    }
}

/// What a download collects from offset `off`, having collected `acc`, from a device
/// that holds `f`, declares its size and echoes the requested offset.
pub open spec fn download_run(f: Seq<u8>, c: nat, off: nat, acc: Seq<u8>) -> Seq<u8>
    decreases f.len() - off,
{
    let chunk = server_chunk(f, off, c);
    let next = off + chunk.len();
    if download_done(Some(f.len() as u32), next as int, chunk.len() as int) || f.len() > u32::MAX
        || next <= off {
        acc + chunk
    } else {
        download_run(f, c, next, acc + chunk)
    }
}

/// A download from the start collects the device's whole file.
pub proof fn lemma_download_run_collects(f: Seq<u8>, c: nat, off: nat, acc: Seq<u8>)
    requires
        c > 0,
        f.len() <= u32::MAX,
        off <= f.len(),
        acc == f.subrange(0, off as int),
    ensures
        download_run(f, c, off, acc) == f,
    decreases f.len() - off,
{
    let chunk = server_chunk(f, off, c);
    let next = off + chunk.len();
    if off >= f.len() {
        assert(acc + chunk =~= f);
    } else {
        assert(acc + chunk =~= f.subrange(0, next as int));
        if next >= f.len() {
            assert(f.subrange(0, next as int) =~= f);
        } else {
            lemma_download_run_collects(f, c, next, acc + chunk);
        }
    }
}

/// Uploading a file and then downloading the same path from a device that stores
/// what it is sent gives back the file's bytes, whatever the chunk sizes.
pub proof fn lemma_upload_then_download(data: Seq<u8>, mtu: nat, c: nat)
    requires
        mtu > 0,
        c > 0,
        data.len() <= u32::MAX,
    ensures
        download_run(upload_run(data, mtu, 0, Seq::empty()), c, 0, Seq::empty()) == data,
{
    assert(data.subrange(0, 0) =~= Seq::<u8>::empty());
    lemma_upload_run_stores(data, mtu, 0, Seq::empty());
    lemma_download_run_collects(data, c, 0, Seq::empty());
}

/// One `FileUpload` step is one step of the model: the chunk that `next_request`
/// hands out at offset `off` (the `j`-th acknowledged offset), stored by a device
/// that holds the first `off` bytes, leaves it holding the first `off + chunk.len()`
/// bytes; that offset is the device's acknowledgement, which `on_response` takes as
/// the next offset, and it is the model's next offset.
pub proof fn lemma_upload_step_follows_model(
    data: Seq<u8>,
    mtu: nat,
    j: nat,
    off: nat,
    chunk: Seq<u8>,
)
    requires
        mtu > 0,
        off < data.len(),
        chunk == data.subrange(off as int, upload_chunk_end(data.len(), off, mtu) as int),
    ensures
        off + chunk.len() == upload_chunk_end(data.len(), off, mtu),
        off < off + chunk.len() <= data.len(),
        server_store(data.subrange(0, off as int), off, chunk) == data.subrange(
            0,
            (off + chunk.len()) as int,
        ),
        upload_run(data, mtu, off, data.subrange(0, off as int)) == upload_run(
            data,
            mtu,
            off + chunk.len(),
            server_store(data.subrange(0, off as int), off, chunk),
        ),
        upload_off_after(data.len(), mtu, j) == off ==> upload_off_after(data.len(), mtu, j + 1)
            == off + chunk.len(),
{
    assert(data.subrange(0, off as int).subrange(0, off as int) =~= data.subrange(0, off as int));
    assert(data.subrange(0, off as int) + chunk =~= data.subrange(0, (off + chunk.len()) as int));
}

/// One `FileDownload` step is one step of the model: with the first `off` bytes of
/// the device's file `f` collected, the chunk the device sends for `off` extends them
/// to the first `off + chunk.len()` bytes (what `on_response` appends and where it
/// moves the offset); when `download_done` holds with the declared size the whole file
/// is collected, and otherwise the rest of the download is the model's rest.
pub proof fn lemma_download_step_follows_model(f: Seq<u8>, c: nat, off: nat, acc: Seq<u8>)
    requires
        c > 0,
        f.len() <= u32::MAX,
        off <= f.len(),
        acc == f.subrange(0, off as int),
    ensures
        acc + server_chunk(f, off, c) == f.subrange(0, (off + server_chunk(f, off, c).len()) as int),
        download_done(
            Some(f.len() as u32),
            (off + server_chunk(f, off, c).len()) as int,
            server_chunk(f, off, c).len() as int,
        ) ==> acc + server_chunk(f, off, c) == f,
        !download_done(
            Some(f.len() as u32),
            (off + server_chunk(f, off, c).len()) as int,
            server_chunk(f, off, c).len() as int,
        ) ==> download_run(f, c, off, acc) == download_run(
            f,
            c,
            off + server_chunk(f, off, c).len(),
            acc + server_chunk(f, off, c),
        ),
{
    let chunk = server_chunk(f, off, c);
    let next = off + chunk.len();
    assert(acc + chunk =~= f.subrange(0, next as int));
    if next >= f.len() {
        assert(f.subrange(0, next as int) =~= f);
    }
}

} // verus!
