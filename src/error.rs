//! The errors that the library reports.

use vstd::prelude::*;

verus! {

/// Which of the two checksum disciplines rejected a frame.
#[derive(Clone, Copy, Debug, PartialEq, Eq, Structural)]
pub enum ChecksumKind {
    /// The `0xBEAF`-seeded sum of the outer frames.
    Envelope,
    /// The CRC-16/MODBUS of the HVAC sub-protocol.
    Hvac,
}

/// A field of a fixed-layout frame.
#[derive(Clone, Copy, Debug, PartialEq, Eq, Structural)]
pub enum Field {
    PayloadLength,
    DataLength,
    Payload,
    Year,
    Time,
    Name,
    Ssid,
    Password,
    SwingVertical,
    SwingHorizontal,
    FanSpeed,
    Preset,
    Mode,
}

/// Everything that can go wrong while talking to a device.
#[derive(Clone, Copy, Debug, PartialEq, Eq, Structural)]
pub enum Error {
    /// No datagram arrived within the read deadline.
    Timeout,
    /// A reply was shorter than its fixed layout.
    ShortReply { expected: usize, got: usize },
    /// A checksum did not match the bytes it covers.
    ChecksumMismatch { kind: ChecksumKind, stored: u16, computed: u16 },
    /// A discovery reply carried a model code of no known device class.
    UnknownModel(u16),
    /// A reply came from an address that is not IPv4.
    NotIPv4,
    /// A fixed-layout field could not be encoded or decoded.
    DecodeError(Field),
    /// The cipher refused its input.
    CryptoFailure,
    /// A variable-length value does not fit its fixed field.
    FieldTooLong { field: Field, limit: usize },
    /// Learning a code exhausted its polls.
    LearnTimeout,
    /// The RF frequency sweep found no frequency.
    FrequencyNotFound,
    /// A Remote-only or HVAC-only operation was asked of the other kind of device.
    WrongVariant,
    /// No non-loopback IPv4 address was found on the local interfaces.
    NoLocalAddress,
    /// A target temperature outside 16..=32 °C.
    InvalidTemperature,
}

/// The bytes of a result, as a sequence.
pub open spec fn bytes_result(r: Result<Vec<u8>, Error>) -> Result<Seq<u8>, Error> {
    match r {
        Ok(v) => Ok(v@),
        Err(e) => Err(e),
    }
}

} // verus!
