use mcumgr_client::cbor::CborValue;
use mcumgr_client::error::SmpError;
use mcumgr_client::fs::{FileDownload, FileUpload};
use mcumgr_client::header::{NmpGroup, NmpHdr, NmpOp};
use mcumgr_client::records::{FsDownloadRsp, FsUploadRsp};
use mcumgr_client::transport::{reply_record, Transport};

fn text(s: &str) -> CborValue {
    CborValue::Text(s.to_string())
}

fn field<'a>(v: &'a CborValue, k: &str) -> Option<&'a CborValue> {
    match v {
        CborValue::Dict(e) => e.iter().find(|(key, _)| *key == text(k)).map(|(_, x)| x),
        _ => None,
    }
}

fn uint(v: Option<&CborValue>) -> Option<usize> {
    match v {
        Some(CborValue::Integer(i)) => Some(*i as usize),
        _ => None,
    }
}

/// A device that stores each uploaded chunk at its offset and serves files in
/// chunks of at most `chunk` bytes, declaring the size on the first one when
/// `declare_len` is set.
struct FileDevice {
    file: Vec<u8>,
    chunk: usize,
    declare_len: bool,
    requests: usize,
    last_request: (NmpOp, NmpGroup, u8, Option<CborValue>),
    last_reply: Result<(NmpHdr, CborValue), SmpError>,
}

impl FileDevice {
    fn new(file: Vec<u8>, chunk: usize, declare_len: bool) -> FileDevice {
        FileDevice {
            file,
            chunk,
            declare_len,
            requests: 0,
            last_request: (NmpOp::Read, NmpGroup::Fs, 0, None),
            last_reply: Err(SmpError::IoError),
        }
    }
}

fn copy(v: &CborValue) -> CborValue {
    match v {
        CborValue::Null => CborValue::Null,
        CborValue::Bool(b) => CborValue::Bool(*b),
        CborValue::Integer(i) => CborValue::Integer(*i),
        CborValue::Bytes(b) => CborValue::Bytes(b.clone()),
        CborValue::Text(s) => CborValue::Text(s.clone()),
        CborValue::Array(a) => CborValue::Array(a.iter().map(copy).collect()),
        CborValue::Dict(e) => CborValue::Dict(e.iter().map(|(k, x)| (copy(k), copy(x))).collect()),
        CborValue::Other => CborValue::Other,
    }
}

fn copy_reply(r: &Result<(NmpHdr, CborValue), SmpError>) -> Result<(NmpHdr, CborValue), SmpError> {
    match r {
        Ok((h, v)) => Ok((*h, copy(v))),
        Err(e) => Err(*e),
    }
}

impl Transport for FileDevice {
    fn transceive(
        &mut self,
        op: NmpOp,
        group: NmpGroup,
        id: u8,
        body: Option<&CborValue>,
    ) -> Result<(NmpHdr, CborValue), SmpError> {
        assert_eq!((group, id), (NmpGroup::Fs, 0));
        self.requests += 1;
        self.last_request = (op, group, id, body.map(copy));
        let body = body.unwrap();
        assert_eq!(field(body, "name"), Some(&text("/lfs/data.bin")));
        let off = uint(field(body, "off")).unwrap();
        let reply = if op == NmpOp::Write {
            let data = match field(body, "data") {
                Some(CborValue::Bytes(d)) => d.clone(),
                _ => panic!("no data"),
            };
            if off == 0 {
                assert!(field(body, "len").is_some());
            } else {
                assert!(field(body, "len").is_none());
            }
            self.file.truncate(off);
            self.file.extend_from_slice(&data);
            CborValue::Dict(vec![(text("off"), CborValue::Integer((off + data.len()) as i128))])
        } else {
            let end = (off + self.chunk).min(self.file.len());
            let data = if off < self.file.len() { self.file[off..end].to_vec() } else { vec![] };
            let mut e = vec![
                (text("off"), CborValue::Integer(off as i128)),
                (text("data"), CborValue::Bytes(data)),
            ];
            if off == 0 && self.declare_len {
                e.push((text("len"), CborValue::Integer(self.file.len() as i128)));
            }
            CborValue::Dict(e)
        };
        let rsp_op = if op == NmpOp::Read { NmpOp::ReadRsp } else { NmpOp::WriteRsp };
        let reply = Ok((NmpHdr { op: rsp_op, flags: 0, len: 0, group, seq: 0, id }, reply));
        self.last_reply = copy_reply(&reply);
        reply
    }

    fn last_request(&self) -> (NmpOp, NmpGroup, u8, Option<CborValue>) {
        let (op, group, id, body) = &self.last_request;
        (*op, *group, *id, body.as_ref().map(copy))
    }

    fn last_reply(&self) -> Result<(NmpHdr, CborValue), SmpError> {
        copy_reply(&self.last_reply)
    }

    fn set_timeout(&mut self, _timeout_ms: u32) -> Result<(), SmpError> {
        Ok(())
    }

    fn mtu(&self) -> usize {
        64
    }

    fn linelength(&self) -> usize {
        128
    }
}

fn upload(dev: &mut FileDevice, data: Vec<u8>, mtu: usize) -> FileUpload {
    let mut up = FileUpload::new("/lfs/data.bin", data, mtu).unwrap();
    while !up.is_done() {
        let req = up.next_request().to_cbor();
        let rsp: FsUploadRsp = reply_record(&dev.transceive(NmpOp::Write, NmpGroup::Fs, 0, Some(&req))).unwrap();
        up.on_response(&rsp);
    }
    up
}

fn download(dev: &mut FileDevice) -> Vec<u8> {
    let mut down = FileDownload::new("/lfs/data.bin");
    loop {
        let req = down.next_request().to_cbor();
        let rsp: FsDownloadRsp = reply_record(&dev.transceive(NmpOp::Read, NmpGroup::Fs, 0, Some(&req))).unwrap();
        if down.on_response(&rsp).unwrap() {
            break;
        }
    }
    down.data
}

#[test]
fn upload_then_download_gives_the_file_back() {
    let data: Vec<u8> = (0..1000u32).map(|i| (i % 253) as u8).collect();
    let mut dev = FileDevice::new(Vec::new(), 100, true);
    upload(&mut dev, data.clone(), 64);
    assert_eq!(dev.file, data);
    dev.requests = 0;
    assert_eq!(download(&mut dev), data);
    assert_eq!(dev.requests, 10);
}

#[test]
fn upload_of_exact_multiple_of_mtu_ends_at_the_size() {
    let data = vec![0x5a; 3 * 64];
    let mut dev = FileDevice::new(Vec::new(), 100, true);
    let up = upload(&mut dev, data.clone(), 64);
    assert_eq!(up.off as usize, data.len());
    assert_eq!(dev.requests, 3);
    assert_eq!(dev.file, data);
}

#[test]
fn empty_upload_sends_nothing() {
    let up = FileUpload::new("/lfs/data.bin", vec![], 64).unwrap();
    assert!(up.is_done());
}

#[test]
fn upload_arguments_are_checked() {
    assert!(matches!(FileUpload::new("/f", vec![1], 0), Err(SmpError::ConfigError)));
}

#[test]
fn first_upload_chunk_carries_the_size() {
    let up = FileUpload::new("/f", vec![1, 2, 3, 4, 5], 2).unwrap();
    let req = up.next_request();
    assert_eq!((req.off, req.data.clone(), req.len), (0, vec![1, 2], Some(5)));
}

#[test]
fn download_without_size_stops_on_empty_data() {
    let data: Vec<u8> = (0..250u32).map(|i| i as u8).collect();
    let mut dev = FileDevice::new(data.clone(), 100, false);
    assert_eq!(download(&mut dev), data);
    // Three chunks with data, then the empty one that ends it.
    assert_eq!(dev.requests, 4);
}

#[test]
fn download_with_size_stops_at_the_size() {
    let data: Vec<u8> = (0..200u32).map(|i| i as u8).collect();
    let mut dev = FileDevice::new(data.clone(), 100, true);
    assert_eq!(download(&mut dev), data);
    assert_eq!(dev.requests, 2);
}

#[test]
fn download_step_rules() {
    let mut down = FileDownload::new("/f");
    let first = FsDownloadRsp { off: 0, data: vec![1, 2], len: Some(4), rc: 0 };
    assert_eq!(down.on_response(&first), Ok(false));
    assert_eq!((down.off, down.total), (2, Some(4)));
    // Only the first chunk's size counts.
    let second = FsDownloadRsp { off: 2, data: vec![3, 4], len: Some(100), rc: 0 };
    assert_eq!(down.on_response(&second), Ok(true));
    assert_eq!((down.off, down.total, down.data.clone()), (4, Some(4), vec![1, 2, 3, 4]));
    let past = FsDownloadRsp { off: u32::MAX, data: vec![0], len: None, rc: 0 };
    assert_eq!(down.on_response(&past), Err(SmpError::DecodeError));
    assert_eq!(down.off, 4);
}
