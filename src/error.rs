use vstd::prelude::*;

verus! {

/// The kinds of failure that a request can end in.
#[derive(Debug, Clone, Copy, PartialEq, Eq, Structural)]
pub enum SmpError {
    /// A blocking read ran past the port or socket timeout.
    Timeout,
    /// Wrong start or continuation marker, bad length prefix or bad checksum.
    FramingError,
    /// A base64, CBOR or header field could not be decoded.
    DecodeError,
    /// The response's sequence number, operation or group does not answer the request.
    WrongResponseType,
    /// The device answered with a non-zero return code.
    DeviceError(i128),
    /// The underlying port or socket failed.
    IoError,
    /// A configuration value or an argument is not acceptable.
    ConfigError,
}

} // verus!
