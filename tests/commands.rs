use std::collections::BTreeMap;

use mcumgr_client::cbor::{check_rc, get_rc, CborValue};
use mcumgr_client::default::{reset_request, reset_transport};
use mcumgr_client::error::SmpError;
use mcumgr_client::fs::{hash_transport, stat_request, stat_transport};
use mcumgr_client::header::{NmpGroup, NmpHdr, NmpOp};
use mcumgr_client::image::{erase_transport, list_transport, test_transport, ImageUpload, ImageUploadRsp};
use mcumgr_client::os::{
    bootloader_info_transport, echo_reply, echo_request, echo_transport, mcuboot_mode_name, mcumgr_params_transport,
    os_info_transport, taskstat_transport,
};
use mcumgr_client::records::{
    default_0, default_false, default_vec, CborRecord, FsDownloadRsp, FsStatRsp, StatListRsp,
    SplitStatus, StatReadRsp, TaskInfo,
};
use mcumgr_client::settings::{
    settings_commit_request, settings_commit_transport, settings_delete_transport, settings_load_transport,
    settings_read_transport, settings_save_transport, settings_write_request,
    settings_write_transport,
};
use mcumgr_client::shell::shell_exec_transport;
use mcumgr_client::stat::{stat_list_transport, stat_read_transport};
use mcumgr_client::transport::{
    from_response, reply_rc, reply_record, ConnSpec, SerialSpecs, Transport, UdpSpecs,
};

fn text(s: &str) -> CborValue {
    CborValue::Text(s.to_string())
}

fn integer(i: i128) -> CborValue {
    CborValue::Integer(i)
}

fn dict(entries: Vec<(&str, CborValue)>) -> CborValue {
    CborValue::Dict(entries.into_iter().map(|(k, v)| (text(k), v)).collect())
}

fn field<'a>(v: &'a CborValue, k: &str) -> Option<&'a CborValue> {
    match v {
        CborValue::Dict(e) => e.iter().find(|(key, _)| *key == text(k)).map(|(_, x)| x),
        _ => None,
    }
}

/// One request as the device saw it.
#[derive(Debug)]
struct Seen {
    op: NmpOp,
    group: NmpGroup,
    id: u8,
    body: Option<CborValue>,
}

fn copy(v: &CborValue) -> CborValue {
    match v {
        CborValue::Null => CborValue::Null,
        CborValue::Bool(b) => CborValue::Bool(*b),
        CborValue::Integer(i) => CborValue::Integer(*i),
        CborValue::Bytes(b) => CborValue::Bytes(b.clone()),
        CborValue::Text(s) => CborValue::Text(s.clone()),
        CborValue::Array(a) => CborValue::Array(a.iter().map(copy).collect()),
        CborValue::Dict(e) => CborValue::Dict(e.iter().map(|(k, x)| (copy(k), copy(x))).collect()),
        CborValue::Other => CborValue::Other,
    }
}

fn copy_reply(r: &Result<(NmpHdr, CborValue), SmpError>) -> Result<(NmpHdr, CborValue), SmpError> {
    match r {
        Ok((h, v)) => Ok((*h, copy(v))),
        Err(e) => Err(*e),
    }
}

/// The last exchange a test link saw.
struct Last {
    request: (NmpOp, NmpGroup, u8, Option<CborValue>),
    reply: Result<(NmpHdr, CborValue), SmpError>,
}

impl Last {
    fn new() -> Last {
        Last { request: (NmpOp::Read, NmpGroup::Default, 0, None), reply: Err(SmpError::IoError) }
    }

    fn record(
        &mut self,
        op: NmpOp,
        group: NmpGroup,
        id: u8,
        body: Option<&CborValue>,
        reply: Result<(NmpHdr, CborValue), SmpError>,
    ) -> Result<(NmpHdr, CborValue), SmpError> {
        self.request = (op, group, id, body.map(copy));
        self.reply = copy_reply(&reply);
        reply
    }

    fn request(&self) -> (NmpOp, NmpGroup, u8, Option<CborValue>) {
        let (op, group, id, body) = &self.request;
        (*op, *group, *id, body.as_ref().map(copy))
    }
}

/// A device that answers every request with a fixed body.
struct Canned {
    reply: CborValue,
    seen: Vec<Seen>,
    last: Last,
}

impl Canned {
    fn new(reply: CborValue) -> Canned {
        Canned { reply, seen: Vec::new(), last: Last::new() }
    }
}

impl Transport for Canned {
    fn transceive(
        &mut self,
        op: NmpOp,
        group: NmpGroup,
        id: u8,
        body: Option<&CborValue>,
    ) -> Result<(NmpHdr, CborValue), SmpError> {
        self.seen.push(Seen { op, group, id, body: body.map(copy) });
        let rsp_op = if op == NmpOp::Read { NmpOp::ReadRsp } else { NmpOp::WriteRsp };
        let reply = Ok((NmpHdr { op: rsp_op, flags: 0, len: 0, group, seq: 0, id }, copy(&self.reply)));
        self.last.record(op, group, id, body, reply)
    }

    fn last_request(&self) -> (NmpOp, NmpGroup, u8, Option<CborValue>) {
        self.last.request()
    }

    fn last_reply(&self) -> Result<(NmpHdr, CborValue), SmpError> {
        copy_reply(&self.last.reply)
    }

    fn set_timeout(&mut self, _timeout_ms: u32) -> Result<(), SmpError> {
        Ok(())
    }

    fn mtu(&self) -> usize {
        512
    }

    fn linelength(&self) -> usize {
        128
    }
}

/// A device that keeps settings by name.
struct SettingsDevice {
    committed: BTreeMap<String, Vec<u8>>,
    pending: BTreeMap<String, Vec<u8>>,
    last: Last,
}

impl Transport for SettingsDevice {
    fn transceive(
        &mut self,
        op: NmpOp,
        group: NmpGroup,
        id: u8,
        body: Option<&CborValue>,
    ) -> Result<(NmpHdr, CborValue), SmpError> {
        assert_eq!((group, id), (NmpGroup::Config, 0));
        let body = body.unwrap();
        let name = match field(body, "name") {
            Some(CborValue::Text(n)) => Some(n.clone()),
            _ => None,
        };
        let reply = match (op, name) {
            (NmpOp::Write, Some(n)) => {
                match field(body, "val") {
                    Some(CborValue::Bytes(v)) => {
                        self.pending.insert(n, v.clone());
                    }
                    _ => {
                        self.pending.remove(&n);
                        self.committed.remove(&n);
                    }
                }
                dict(vec![])
            }
            (NmpOp::Write, None) => {
                let pending = std::mem::take(&mut self.pending);
                self.committed.extend(pending);
                dict(vec![])
            }
            (NmpOp::Read, Some(n)) => match self.committed.get(&n) {
                Some(v) => dict(vec![("val", CborValue::Bytes(v.clone()))]),
                None => dict(vec![("rc", integer(5))]),
            },
            _ => dict(vec![]),
        };
        let rsp_op = if op == NmpOp::Read { NmpOp::ReadRsp } else { NmpOp::WriteRsp };
        let reply = Ok((NmpHdr { op: rsp_op, flags: 0, len: 0, group, seq: 0, id }, reply));
        self.last.record(op, group, id, Some(body), reply)
    }

    fn last_request(&self) -> (NmpOp, NmpGroup, u8, Option<CborValue>) {
        self.last.request()
    }

    fn last_reply(&self) -> Result<(NmpHdr, CborValue), SmpError> {
        copy_reply(&self.last.reply)
    }

    fn set_timeout(&mut self, _timeout_ms: u32) -> Result<(), SmpError> {
        Ok(())
    }

    fn mtu(&self) -> usize {
        512
    }

    fn linelength(&self) -> usize {
        128
    }
}

#[test]
fn echo_returns_the_reply() {
    let mut dev = Canned::new(dict(vec![("r", text("hello"))]));
    assert_eq!(echo_transport(&mut dev, "hello"), Ok("hello".to_string()));
    let seen = &dev.seen[0];
    assert_eq!((seen.op, seen.group, seen.id), (NmpOp::Write, NmpGroup::Default, 0));
    assert_eq!(seen.body, Some(dict(vec![("d", text("hello"))])));
}

#[test]
fn echo_without_reply_text_is_a_decode_error() {
    let mut dev = Canned::new(dict(vec![("x", text("hello"))]));
    assert_eq!(echo_transport(&mut dev, "hello"), Err(SmpError::DecodeError));
}

#[test]
fn reset_sends_an_empty_body() {
    let mut dev = Canned::new(dict(vec![]));
    assert_eq!(reset_transport(&mut dev), Ok(()));
    let seen = &dev.seen[0];
    assert_eq!((seen.op, seen.group, seen.id), (NmpOp::Write, NmpGroup::Default, 5));
    assert_eq!(seen.body, None);

    let mut dev = Canned::new(dict(vec![("rc", integer(0))]));
    assert_eq!(reset_transport(&mut dev), Ok(()));
}

#[test]
fn reset_with_nonzero_rc_is_a_device_error() {
    let mut dev = Canned::new(dict(vec![("rc", integer(3))]));
    assert_eq!(reset_transport(&mut dev), Err(SmpError::DeviceError(3)));
}

#[test]
fn file_stat_reads_the_length() {
    let mut dev = Canned::new(dict(vec![("len", integer(1234)), ("rc", integer(0))]));
    assert_eq!(stat_transport(&mut dev, "/lfs/boot.json"), Ok(FsStatRsp { len: 1234, rc: 0 }));
    let seen = &dev.seen[0];
    assert_eq!((seen.op, seen.group, seen.id), (NmpOp::Read, NmpGroup::Fs, 1));
    assert_eq!(seen.body, Some(dict(vec![("name", text("/lfs/boot.json"))])));
}

#[test]
fn file_hash_request_and_reply() {
    let mut dev = Canned::new(dict(vec![
        ("type", text("sha256")),
        ("off", integer(0)),
        ("len", integer(16)),
        ("output", CborValue::Bytes(vec![1, 2, 3])),
    ]));
    let r = hash_transport(&mut dev, "/a", Some("sha256"), None, Some(16)).unwrap();
    assert_eq!((r.hash_type.as_str(), r.off, r.len, r.output, r.rc), ("sha256", 0, 16, vec![1, 2, 3], 0));
    assert_eq!(
        dev.seen[0].body,
        Some(dict(vec![("name", text("/a")), ("type", text("sha256")), ("len", integer(16))]))
    );
    assert_eq!(dev.seen[0].id, 2);
}

#[test]
fn settings_write_commit_read() {
    let mut dev = SettingsDevice { committed: BTreeMap::new(), pending: BTreeMap::new(), last: Last::new() };
    assert_eq!(settings_write_transport(&mut dev, "wifi/ssid", b"home".to_vec()), Ok(()));
    assert_eq!(settings_commit_transport(&mut dev), Ok(()));
    let r = settings_read_transport(&mut dev, "wifi/ssid", None).unwrap();
    assert_eq!(r.val, b"home".to_vec());
    assert_eq!(r.rc, 0);
    assert_eq!(settings_delete_transport(&mut dev, "wifi/ssid"), Ok(()));
    assert_eq!(settings_read_transport(&mut dev, "wifi/ssid", None).unwrap_err(), SmpError::DeviceError(5));
}

#[test]
fn settings_requests_on_the_wire() {
    let mut dev = Canned::new(dict(vec![]));
    settings_write_transport(&mut dev, "a", vec![7]).unwrap();
    settings_delete_transport(&mut dev, "a").unwrap();
    settings_commit_transport(&mut dev).unwrap();
    settings_load_transport(&mut dev).unwrap();
    settings_save_transport(&mut dev).unwrap();
    let _ = settings_read_transport(&mut dev, "a", Some(64));
    let ops: Vec<NmpOp> = dev.seen.iter().map(|s| s.op).collect();
    assert_eq!(
        ops,
        vec![NmpOp::Write, NmpOp::Write, NmpOp::Write, NmpOp::Read, NmpOp::Write, NmpOp::Read]
    );
    assert_eq!(dev.seen[0].body, Some(dict(vec![("name", text("a")), ("val", CborValue::Bytes(vec![7]))])));
    assert_eq!(dev.seen[1].body, Some(dict(vec![("name", text("a"))])));
    assert_eq!(dev.seen[2].body, Some(dict(vec![])));
    assert_eq!(dev.seen[5].body, Some(dict(vec![("name", text("a")), ("max_size", integer(64))])));
}

#[test]
fn nonzero_rc_is_a_device_error_for_every_command() {
    let reply = || dict(vec![("rc", integer(-2))]);
    let e = Err(SmpError::DeviceError(-2));
    assert_eq!(echo_transport(&mut Canned::new(reply()), "x").map(|_| ()), e);
    assert_eq!(taskstat_transport(&mut Canned::new(reply())).map(|_| ()), e);
    assert_eq!(mcumgr_params_transport(&mut Canned::new(reply())).map(|_| ()), e);
    assert_eq!(os_info_transport(&mut Canned::new(reply()), None).map(|_| ()), e);
    assert_eq!(bootloader_info_transport(&mut Canned::new(reply()), None).map(|_| ()), e);
    assert_eq!(stat_transport(&mut Canned::new(reply()), "/f").map(|_| ()), e);
    assert_eq!(hash_transport(&mut Canned::new(reply()), "/f", None, None, None).map(|_| ()), e);
    assert_eq!(stat_list_transport(&mut Canned::new(reply())).map(|_| ()), e);
    assert_eq!(stat_read_transport(&mut Canned::new(reply()), "g").map(|_| ()), e);
    assert_eq!(settings_read_transport(&mut Canned::new(reply()), "n", None).map(|_| ()), e);
    assert_eq!(settings_write_transport(&mut Canned::new(reply()), "n", vec![]), e);
    assert_eq!(settings_delete_transport(&mut Canned::new(reply()), "n"), e);
    assert_eq!(settings_commit_transport(&mut Canned::new(reply())), e);
    assert_eq!(settings_load_transport(&mut Canned::new(reply())), e);
    assert_eq!(settings_save_transport(&mut Canned::new(reply())), e);
    assert_eq!(reset_transport(&mut Canned::new(reply())), e);
}

#[test]
fn rc_helpers() {
    assert_eq!(get_rc(&dict(vec![("rc", integer(7))])), Some(7));
    assert_eq!(get_rc(&dict(vec![("rc", text("7"))])), None);
    assert_eq!(get_rc(&integer(7)), None);
    assert_eq!(check_rc(&dict(vec![])), Ok(()));
    assert_eq!(check_rc(&dict(vec![("rc", integer(0))])), Ok(()));
    assert_eq!(check_rc(&dict(vec![("rc", integer(1 << 40))])), Err(SmpError::DeviceError(1 << 40)));
}

#[test]
fn shell_exit_code_is_not_a_device_error() {
    let mut dev = Canned::new(dict(vec![("o", text("done\n")), ("rc", integer(1))]));
    let r = shell_exec_transport(&mut dev, vec!["ls".to_string(), "/".to_string()]).unwrap();
    assert_eq!((r.o.as_str(), r.rc), ("done\n", 1));
    assert_eq!(
        dev.seen[0].body,
        Some(dict(vec![("argv", CborValue::Array(vec![text("ls"), text("/")]))]))
    );
    assert_eq!((dev.seen[0].op, dev.seen[0].group, dev.seen[0].id), (NmpOp::Write, NmpGroup::Shell, 0));
}

#[test]
fn shell_without_command_is_a_config_error() {
    let mut dev = Canned::new(dict(vec![]));
    assert_eq!(shell_exec_transport(&mut dev, vec![]).unwrap_err(), SmpError::ConfigError);
    assert!(dev.seen.is_empty());
}

#[test]
fn os_commands() {
    let mut dev = Canned::new(dict(vec![("output", text("Zephyr"))]));
    assert_eq!(os_info_transport(&mut dev, Some("a")), Ok("Zephyr".to_string()));
    assert_eq!(dev.seen[0].body, Some(dict(vec![("format", text("a"))])));
    assert_eq!(dev.seen[0].id, 7);

    let mut dev = Canned::new(dict(vec![("buf_size", integer(2048)), ("buf_count", integer(4))]));
    let p = mcumgr_params_transport(&mut dev).unwrap();
    assert_eq!((p.buf_size, p.buf_count), (2048, 4));
    assert_eq!(dev.seen[0].body, Some(dict(vec![])));

    let mut dev = Canned::new(dict(vec![
        ("bootloader", text("MCUboot")),
        ("mode", integer(9)),
        ("no-downgrade", CborValue::Bool(true)),
    ]));
    let b = bootloader_info_transport(&mut dev, Some("mode")).unwrap();
    assert_eq!((b.bootloader.as_str(), b.mode, b.no_downgrade), ("MCUboot", Some(9), Some(true)));
    assert_eq!(dev.seen[0].body, Some(dict(vec![("query", text("mode"))])));

    let mut dev = Canned::new(dict(vec![]));
    let b = bootloader_info_transport(&mut dev, None).unwrap();
    assert_eq!((b.bootloader.as_str(), b.mode, b.no_downgrade), ("", None, None));
}

#[test]
fn task_statistics() {
    let mut dev = Canned::new(dict(vec![(
        "tasks",
        dict(vec![("idle", dict(vec![("prio", integer(15)), ("stkuse", integer(40))])), ("main", dict(vec![]))]),
    )]));
    let t = taskstat_transport(&mut dev).unwrap();
    assert_eq!(t.tasks.len(), 2);
    assert_eq!(t.tasks[0].0, "idle");
    assert_eq!(t.tasks[0].1, TaskInfo { prio: 15, state: 0, stkuse: 40, stksiz: 0, cswcnt: 0, runtime: 0, last_checkin: 0, next_checkin: 0 });
    assert_eq!(t.tasks[1].1.prio, 0);
    let mut dev = Canned::new(dict(vec![("tasks", dict(vec![("idle", integer(1))]))]));
    assert_eq!(taskstat_transport(&mut dev).unwrap_err(), SmpError::DecodeError);
}

#[test]
fn statistics_records() {
    let mut dev = Canned::new(dict(vec![("stat_list", CborValue::Array(vec![text("ble"), text("fs")]))]));
    let l = stat_list_transport(&mut dev).unwrap();
    assert_eq!(l.stat_list, vec!["ble".to_string(), "fs".to_string()]);
    assert_eq!((dev.seen[0].op, dev.seen[0].group, dev.seen[0].id), (NmpOp::Read, NmpGroup::Stat, 1));

    let l = StatListRsp::from_cbor(&dict(vec![])).unwrap();
    assert!(l.stat_list.is_empty());

    let mut dev = Canned::new(dict(vec![("name", text("ble")), ("fields", dict(vec![("rx", integer(-3))]))]));
    let r: StatReadRsp = stat_read_transport(&mut dev, "ble").unwrap();
    assert_eq!(r.name, "ble");
    assert_eq!(r.fields, vec![("rx".to_string(), -3)]);
    assert_eq!(dev.seen[0].body, Some(dict(vec![("name", text("ble"))])));
}

#[test]
fn record_decoding_rules() {
    // Unknown fields are ignored, optional ones may be absent or null.
    let v = dict(vec![("off", integer(4)), ("data", CborValue::Bytes(vec![1])), ("extra", CborValue::Other)]);
    let r = FsDownloadRsp::from_cbor(&v).unwrap();
    assert_eq!((r.off, r.data, r.len, r.rc), (4, vec![1], None, 0));
    let v = dict(vec![("off", integer(4)), ("data", CborValue::Bytes(vec![])), ("len", CborValue::Null)]);
    assert_eq!(FsDownloadRsp::from_cbor(&v).unwrap().len, None);
    // Byte fields must be byte strings; integers must fit.
    let v = dict(vec![("off", integer(4)), ("data", CborValue::Array(vec![integer(1)]))]);
    assert_eq!(FsDownloadRsp::from_cbor(&v).unwrap_err(), SmpError::DecodeError);
    let v = dict(vec![("len", integer(1 << 32))]);
    assert_eq!(FsStatRsp::from_cbor(&v), Err(SmpError::DecodeError));
    // The return code is checked before the record is read.
    let v = dict(vec![("rc", integer(8))]);
    assert_eq!(from_response::<FsStatRsp>(&v), Err(SmpError::DeviceError(8)));
}

#[test]
fn mode_names() {
    assert_eq!(mcuboot_mode_name(0), "Single application");
    assert_eq!(mcuboot_mode_name(3), "Swap without scratch");
    assert_eq!(mcuboot_mode_name(9), "Swap using move");
    assert_eq!(mcuboot_mode_name(10), "Unknown");
    assert_eq!(mcuboot_mode_name(-1), "Unknown");
}

#[test]
fn defaults_and_specs() {
    assert_eq!(default_0(), 0);
    assert!(!default_false());
    assert!(default_vec().is_empty());
    let u = UdpSpecs::default();
    assert_eq!((u.host.as_str(), u.port, u.timeout_s, u.mtu), ("", 1337, 5, 1024));
    let s = SerialSpecs {
        device: "test".to_string(),
        initial_timeout_s: 60,
        subsequent_timeout_ms: 200,
        nb_retry: 4,
        linelength: 128,
        mtu: 512,
        baudrate: 115_200,
    };
    let c = ConnSpec::Serial(s);
    assert!(c.is_serial() && !c.is_udp());
    assert!(ConnSpec::Udp(u).is_udp());
}

#[test]
fn image_list_reads_entries_and_split_status() {
    let entry = dict(vec![
        ("slot", integer(0)),
        ("version", text("1.2.3")),
        ("hash", CborValue::Bytes(vec![0xab, 0xcd])),
        ("active", CborValue::Bool(true)),
        ("confirmed", CborValue::Bool(true)),
    ]);
    let mut dev = Canned::new(dict(vec![
        ("images", CborValue::Array(vec![entry])),
        ("splitStatus", integer(0)),
    ]));
    let l = list_transport(&mut dev).unwrap();
    assert_eq!(l.images.len(), 1);
    let e = &l.images[0];
    assert_eq!((e.image, e.slot, e.version.as_str(), e.hash.clone()), (0, 0, "1.2.3", vec![0xab, 0xcd]));
    assert_eq!((e.bootable, e.pending, e.confirmed, e.active, e.permanent), (false, false, true, true, false));
    assert_eq!(l.split_status, Some(SplitStatus::NotApplicable));
    assert_eq!((dev.seen[0].op, dev.seen[0].group, dev.seen[0].id), (NmpOp::Read, NmpGroup::Image, 0));
    assert_eq!(dev.seen[0].body, Some(dict(vec![])));

    let mut dev = Canned::new(dict(vec![("images", CborValue::Array(vec![])), ("splitStatus", integer(7))]));
    assert_eq!(list_transport(&mut dev).unwrap_err(), SmpError::DecodeError);
    let mut dev = Canned::new(dict(vec![("images", CborValue::Array(vec![dict(vec![("slot", integer(1))])]))]));
    assert_eq!(list_transport(&mut dev).unwrap_err(), SmpError::DecodeError);
}

#[test]
fn image_test_and_erase_requests() {
    let mut dev = Canned::new(dict(vec![("images", CborValue::Array(vec![]))]));
    let r = test_transport(&mut dev, vec![1, 2], Some(true)).unwrap();
    assert!(r.images.is_empty() && r.split_status.is_none());
    assert_eq!(
        dev.seen[0].body,
        Some(dict(vec![("hash", CborValue::Bytes(vec![1, 2])), ("confirm", CborValue::Bool(true))]))
    );
    assert_eq!((dev.seen[0].op, dev.seen[0].id), (NmpOp::Write, 0));

    let mut dev = Canned::new(dict(vec![]));
    assert_eq!(erase_transport(&mut dev, Some(1)), Ok(()));
    assert_eq!(erase_transport(&mut dev, None), Ok(()));
    assert_eq!(dev.seen[0].body, Some(dict(vec![("slot", integer(1))])));
    assert_eq!(dev.seen[1].body, Some(dict(vec![])));
    assert_eq!((dev.seen[0].op, dev.seen[0].group, dev.seen[0].id), (NmpOp::Write, NmpGroup::Image, 5));
    let mut dev = Canned::new(dict(vec![("rc", integer(6))]));
    assert_eq!(erase_transport(&mut dev, None), Err(SmpError::DeviceError(6)));
}

#[test]
fn image_upload_chunks() {
    let mut up = ImageUpload::new(1, vec![9; 5], Some(vec![0xee; 32]), Some(true), 2).unwrap();
    let first = up.next_request();
    assert_eq!((first.image_num, first.off, first.data.clone(), first.len), (1, 0, vec![9, 9], Some(5)));
    assert_eq!((first.data_sha.clone(), first.upgrade), (Some(vec![0xee; 32]), Some(true)));
    match first.to_cbor() {
        CborValue::Dict(e) => {
            let keys: Vec<CborValue> = e.into_iter().map(|(k, _)| k).collect();
            assert_eq!(keys, vec![text("data"), text("image"), text("len"), text("off"), text("sha"), text("upgrade")]);
        }
        _ => panic!("not a map"),
    }
    up.on_response(&ImageUploadRsp { off: 2, rc: 0 });
    let second = up.next_request();
    assert_eq!((second.off, second.data.clone(), second.len, second.data_sha.clone(), second.upgrade), (2, vec![9, 9], None, None, None));
    up.on_response(&ImageUploadRsp { off: 5, rc: 0 });
    assert!(up.is_done());
    assert_eq!(ImageUploadRsp::from_cbor(&dict(vec![("off", integer(5))])), Ok(ImageUploadRsp { off: 5, rc: 0 }));
}

#[test]
fn requests_are_fixed_by_their_builders() {
    let r = reset_request();
    assert_eq!((r.op, r.group, r.id, r.body), (NmpOp::Write, NmpGroup::Default, 5, None));
    let e = echo_request("hello");
    assert_eq!((e.op, e.group, e.id), (NmpOp::Write, NmpGroup::Default, 0));
    assert_eq!(e.body, Some(dict(vec![("d", text("hello"))])));
    let s = stat_request("/lfs/boot.json");
    assert_eq!((s.op, s.group, s.id), (NmpOp::Read, NmpGroup::Fs, 1));
    assert_eq!(s.body, Some(dict(vec![("name", text("/lfs/boot.json"))])));
    let w = settings_write_request("wifi/ssid", b"home".to_vec());
    assert_eq!((w.op, w.group, w.id), (NmpOp::Write, NmpGroup::Config, 0));
    assert_eq!(
        w.body,
        Some(dict(vec![("name", text("wifi/ssid")), ("val", CborValue::Bytes(b"home".to_vec()))]))
    );
    let c = settings_commit_request();
    assert_eq!((c.op, c.group, c.id, c.body), (NmpOp::Write, NmpGroup::Config, 0, Some(dict(vec![]))));
}

#[test]
fn replies_map_to_results() {
    let h = NmpHdr { op: NmpOp::WriteRsp, flags: 0, len: 9, group: NmpGroup::Default, seq: 0x42, id: 0 };
    assert_eq!(echo_reply(&Ok((h, dict(vec![("r", text("hello"))])))), Ok("hello".to_string()));
    assert_eq!(echo_reply(&Ok((h, dict(vec![("rc", integer(2))])))), Err(SmpError::DeviceError(2)));
    assert_eq!(echo_reply(&Err(SmpError::Timeout)), Err(SmpError::Timeout));
    assert_eq!(reply_rc(&Ok((h, dict(vec![])))), Ok(()));
    assert_eq!(reply_rc(&Ok((h, dict(vec![("rc", integer(0))])))), Ok(()));
    assert_eq!(reply_rc(&Ok((h, dict(vec![("rc", integer(3))])))), Err(SmpError::DeviceError(3)));
    assert_eq!(reply_rc(&Err(SmpError::IoError)), Err(SmpError::IoError));
    let stat: Result<FsStatRsp, SmpError> = reply_record(&Ok((h, dict(vec![("rc", integer(5))]))));
    assert_eq!(stat, Err(SmpError::DeviceError(5)));
    let stat: Result<FsStatRsp, SmpError> =
        reply_record(&Ok((h, dict(vec![("len", integer(1234)), ("rc", integer(0))]))));
    assert_eq!(stat, Ok(FsStatRsp { len: 1234, rc: 0 }));
}
