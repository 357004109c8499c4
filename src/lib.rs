//! Host-side client library for the Simple Management Protocol (SMP) spoken
//! by mcumgr devices.
//!
//! - `header`: the eight-byte header in its serial (v1) and UDP (v2) forms.
//! - `seq`: the wrapping 8-bit sequence counter.
//! - `frame`: the serial frame of a request (length prefix, CRC16/XMODEM,
//!   base64, marked lines) and the checks on a decoded response frame.
//! - `receive`: the byte-at-a-time reassembly of a response frame.
//! - `transport`: correlation of a response with its request, the UDP datagram
//!   form, and the transport interface the commands run on.
//! - `cbor`, `records`: the CBOR value model and the request/response records.
//! - `default`, `os`, `settings`, `shell`, `stat`, `fs`, `image`: the commands,
//!   with the chunked file and image transfers as step-by-step state machines.

pub mod cbor;
pub mod default;
pub mod error;
pub mod frame;
pub mod fs;
pub mod header;
pub mod image;
pub mod os;
pub mod receive;
pub mod records;
pub mod seq;
pub mod settings;
pub mod shell;
pub mod stat;
pub mod transport;
