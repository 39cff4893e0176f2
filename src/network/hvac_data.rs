//! The inner payload of commands to HVAC units, and the air-conditioner state
//! and information records that it carries.

use vstd::prelude::*;

use crate::error::{bytes_result, ChecksumKind, Error, Field};
use crate::network::util::{
    crc16_modbus, crc16_of_range, le16, read_le16, u16_from_le, u16_le,
};
use crate::traits::CommandTrait;

verus! {

/// The command sent to an HVAC unit.
#[derive(Clone, Copy, Debug, PartialEq, Eq, Structural)]
pub enum HvacDataCommand {
    /// Set a new state.
    SetState,
    /// Get the current state.
    GetState,
    /// Get basic information about the air conditioner.
    GetAcInfo,
}

impl HvacDataCommand {
    pub open spec fn spec_code(self) -> u8 {
        match self {
            HvacDataCommand::SetState => 0x00,
            HvacDataCommand::GetState => 0x01,
            HvacDataCommand::GetAcInfo => 0x02,
        }
    }

    /// The number of this command on the wire.
    pub fn code(self) -> (r: u8)
        ensures
            r == self.spec_code(),
    {
        match self {
            HvacDataCommand::SetState => 0x00,
            HvacDataCommand::GetState => 0x01,
            HvacDataCommand::GetAcInfo => 0x02,
        }
    }
}

/// Operating mode.
#[derive(Clone, Copy, Debug, PartialEq, Eq, Structural)]
pub enum HvacMode {
    Auto,
    Cool,
    Dry,
    Heat,
    Fan,
}

impl HvacMode {
    pub open spec fn spec_code(self) -> u8 {
        match self {
            HvacMode::Auto => 0,
            HvacMode::Cool => 1,
            HvacMode::Dry => 2,
            HvacMode::Heat => 3,
            HvacMode::Fan => 4,
        }
    }

    pub open spec fn spec_from_code(c: u8) -> Option<HvacMode> {
        if c == 0 {
            Some(HvacMode::Auto)
        } else if c == 1 {
            Some(HvacMode::Cool)
        } else if c == 2 {
            Some(HvacMode::Dry)
        } else if c == 3 {
            Some(HvacMode::Heat)
        } else if c == 4 {
            Some(HvacMode::Fan)
        } else {
            None
        }
    }

    /// The number of this mode on the wire.
    pub fn code(self) -> (r: u8)
        ensures
            r == self.spec_code(),
            r < 8,
    {
        match self {
            HvacMode::Auto => 0,
            HvacMode::Cool => 1,
            HvacMode::Dry => 2,
            HvacMode::Heat => 3,
            HvacMode::Fan => 4,
        }
    }

    /// The mode with wire number `c`, if any.
    pub fn from_code(c: u8) -> (r: Option<HvacMode>)
        ensures
            r == Self::spec_from_code(c),
    {
        if c == 0 {
            Some(HvacMode::Auto)
        } else if c == 1 {
            Some(HvacMode::Cool)
        } else if c == 2 {
            Some(HvacMode::Dry)
        } else if c == 3 {
            Some(HvacMode::Heat)
        } else if c == 4 {
            Some(HvacMode::Fan)
        } else {
            None
        }
    }
}

/// Fan speed.
#[derive(Clone, Copy, Debug, PartialEq, Eq, Structural)]
pub enum HvacSpeed {
    /// No speed selected.
    Unset,
    High,
    Mid,
    Low,
    Auto,
}

impl HvacSpeed {
    pub open spec fn spec_code(self) -> u8 {
        match self {
            HvacSpeed::Unset => 0,
            HvacSpeed::High => 1,
            HvacSpeed::Mid => 2,
            HvacSpeed::Low => 3,
            HvacSpeed::Auto => 5,
        }
    }

    pub open spec fn spec_from_code(c: u8) -> Option<HvacSpeed> {
        if c == 0 {
            Some(HvacSpeed::Unset)
        } else if c == 1 {
            Some(HvacSpeed::High)
        } else if c == 2 {
            Some(HvacSpeed::Mid)
        } else if c == 3 {
            Some(HvacSpeed::Low)
        } else if c == 5 {
            Some(HvacSpeed::Auto)
        } else {
            None
        }
    }

    /// The number of this speed on the wire.
    pub fn code(self) -> (r: u8)
        ensures
            r == self.spec_code(),
            r < 8,
    {
        match self {
            HvacSpeed::Unset => 0,
            HvacSpeed::High => 1,
            HvacSpeed::Mid => 2,
            HvacSpeed::Low => 3,
            HvacSpeed::Auto => 5,
        }
    }

    /// The speed with wire number `c`, if any.
    pub fn from_code(c: u8) -> (r: Option<HvacSpeed>)
        ensures
            r == Self::spec_from_code(c),
    {
        if c == 0 {
            Some(HvacSpeed::Unset)
        } else if c == 1 {
            Some(HvacSpeed::High)
        } else if c == 2 {
            Some(HvacSpeed::Mid)
        } else if c == 3 {
            Some(HvacSpeed::Low)
        } else if c == 5 {
            Some(HvacSpeed::Auto)
        } else {
            None
        }
    }
}

/// Preset.
#[derive(Clone, Copy, Debug, PartialEq, Eq, Structural)]
pub enum HvacPreset {
    Normal,
    Turbo,
    Mute,
}

impl HvacPreset {
    pub open spec fn spec_code(self) -> u8 {
        match self {
            HvacPreset::Normal => 0,
            HvacPreset::Turbo => 1,
            HvacPreset::Mute => 2,
        }
    }

    pub open spec fn spec_from_code(c: u8) -> Option<HvacPreset> {
        if c == 0 {
            Some(HvacPreset::Normal)
        } else if c == 1 {
            Some(HvacPreset::Turbo)
        } else if c == 2 {
            Some(HvacPreset::Mute)
        } else {
            None
        }
    }

    /// The number of this preset on the wire.
    pub fn code(self) -> (r: u8)
        ensures
            r == self.spec_code(),
            r < 4,
    {
        match self {
            HvacPreset::Normal => 0,
            HvacPreset::Turbo => 1,
            HvacPreset::Mute => 2,
        }
    }

    /// The preset with wire number `c`, if any.
    pub fn from_code(c: u8) -> (r: Option<HvacPreset>)
        ensures
            r == Self::spec_from_code(c),
    {
        if c == 0 {
            Some(HvacPreset::Normal)
        } else if c == 1 {
            Some(HvacPreset::Turbo)
        } else if c == 2 {
            Some(HvacPreset::Mute)
        } else {
            None
        }
    }
}

/// Horizontal swing.
#[derive(Clone, Copy, Debug, PartialEq, Eq, Structural)]
pub enum HvacSwHoriz {
    LeftFix,
    LeftRightFix,
    RightFix,
    RightFlap,
    On,
    Off,
}

impl HvacSwHoriz {
    pub open spec fn spec_code(self) -> u8 {
        match self {
            HvacSwHoriz::LeftFix => 2,
            HvacSwHoriz::LeftRightFix => 7,
            HvacSwHoriz::RightFix => 6,
            HvacSwHoriz::RightFlap => 5,
            HvacSwHoriz::On => 0,
            HvacSwHoriz::Off => 1,
        }
    }

    pub open spec fn spec_from_code(c: u8) -> Option<HvacSwHoriz> {
        if c == 2 {
            Some(HvacSwHoriz::LeftFix)
        } else if c == 7 {
            Some(HvacSwHoriz::LeftRightFix)
        } else if c == 6 {
            Some(HvacSwHoriz::RightFix)
        } else if c == 5 {
            Some(HvacSwHoriz::RightFlap)
        } else if c == 0 {
            Some(HvacSwHoriz::On)
        } else if c == 1 {
            Some(HvacSwHoriz::Off)
        } else {
            None
        }
    }

    /// The number of this swing setting on the wire.
    pub fn code(self) -> (r: u8)
        ensures
            r == self.spec_code(),
            r < 8,
    {
        match self {
            HvacSwHoriz::LeftFix => 2,
            HvacSwHoriz::LeftRightFix => 7,
            HvacSwHoriz::RightFix => 6,
            HvacSwHoriz::RightFlap => 5,
            HvacSwHoriz::On => 0,
            HvacSwHoriz::Off => 1,
        }
    }

    /// The swing setting with wire number `c`, if any.
    pub fn from_code(c: u8) -> (r: Option<HvacSwHoriz>)
        ensures
            r == Self::spec_from_code(c),
    {
        if c == 2 {
            Some(HvacSwHoriz::LeftFix)
        } else if c == 7 {
            Some(HvacSwHoriz::LeftRightFix)
        } else if c == 6 {
            Some(HvacSwHoriz::RightFix)
        } else if c == 5 {
            Some(HvacSwHoriz::RightFlap)
        } else if c == 0 {
            Some(HvacSwHoriz::On)
        } else if c == 1 {
            Some(HvacSwHoriz::Off)
        } else {
            None
        }
    }
}

/// Vertical swing.
#[derive(Clone, Copy, Debug, PartialEq, Eq, Structural)]
pub enum HvacSwVert {
    On,
    Pos1,
    Pos2,
    Pos3,
    Pos4,
    Pos5,
    Off,
}

impl HvacSwVert {
    pub open spec fn spec_code(self) -> u8 {
        match self {
            HvacSwVert::On => 0,
            HvacSwVert::Pos1 => 1,
            HvacSwVert::Pos2 => 2,
            HvacSwVert::Pos3 => 3,
            HvacSwVert::Pos4 => 4,
            HvacSwVert::Pos5 => 5,
            HvacSwVert::Off => 7,
        }
    }

    pub open spec fn spec_from_code(c: u8) -> Option<HvacSwVert> {
        if c == 0 {
            Some(HvacSwVert::On)
        } else if c == 1 {
            Some(HvacSwVert::Pos1)
        } else if c == 2 {
            Some(HvacSwVert::Pos2)
        } else if c == 3 {
            Some(HvacSwVert::Pos3)
        } else if c == 4 {
            Some(HvacSwVert::Pos4)
        } else if c == 5 {
            Some(HvacSwVert::Pos5)
        } else if c == 7 {
            Some(HvacSwVert::Off)
        } else {
            None
        }
    }

    /// The number of this swing setting on the wire.
    pub fn code(self) -> (r: u8)
        ensures
            r == self.spec_code(),
            r < 8,
    {
        match self {
            HvacSwVert::On => 0,
            HvacSwVert::Pos1 => 1,
            HvacSwVert::Pos2 => 2,
            HvacSwVert::Pos3 => 3,
            HvacSwVert::Pos4 => 4,
            HvacSwVert::Pos5 => 5,
            HvacSwVert::Off => 7,
        }
    }

    /// The swing setting with wire number `c`, if any.
    pub fn from_code(c: u8) -> (r: Option<HvacSwVert>)
        ensures
            r == Self::spec_from_code(c),
    {
        if c == 0 {
            Some(HvacSwVert::On)
        } else if c == 1 {
            Some(HvacSwVert::Pos1)
        } else if c == 2 {
            Some(HvacSwVert::Pos2)
        } else if c == 3 {
            Some(HvacSwVert::Pos3)
        } else if c == 4 {
            Some(HvacSwVert::Pos4)
        } else if c == 5 {
            Some(HvacSwVert::Pos5)
        } else if c == 7 {
            Some(HvacSwVert::Off)
        } else {
            None
        }
    }
}

/// Every code of an enumeration is read back as the same value.
pub proof fn lemma_codes_round_trip(
    v: HvacSwVert,
    h: HvacSwHoriz,
    s: HvacSpeed,
    p: HvacPreset,
    m: HvacMode,
)
    ensures
        HvacSwVert::spec_from_code(v.spec_code()) == Some(v),
        HvacSwHoriz::spec_from_code(h.spec_code()) == Some(h),
        HvacSpeed::spec_from_code(s.spec_code()) == Some(s),
        HvacPreset::spec_from_code(p.spec_code()) == Some(p),
        HvacMode::spec_from_code(m.spec_code()) == Some(m),
{
}

} // verus!

verus! {

/// The header of an HVAC data message: 12 bytes before the body.
#[derive(Clone, Copy, Debug)]
pub struct HvacDataMessage {
    /// Length of everything after this field, the CRC included.
    payload_length: u16,
    magic1: u16,
    magic2: u16,
    magic3: u16,
    /// Length of the command flag and the body.
    data_length: u16,
    /// Command flag.
    command: u16,
}

/// The largest body whose lengths fit their 16-bit fields.
pub const MAX_HVAC_BODY: usize = 0xFFF3;

/// The command flag of `c`: `0x0100 | (code << 4) | 1`.
pub open spec fn hvac_command_flag(c: HvacDataCommand) -> u16 {
    (0x100 + c.spec_code() * 16 + 1) as u16
}

/// The header and body of an HVAC frame with command flag `flag` carrying `p`,
/// before its CRC.
pub open spec fn hvac_unsealed(flag: u16, p: Seq<u8>) -> Seq<u8> {
    le16((p.len() + 12) as u16) + le16(0x00BB) + le16(0x8006) + le16(0) + le16(
        (p.len() + 2) as u16,
    ) + le16(flag) + p
}

/// The packed HVAC frame carrying `p`: header, body, then the CRC-16/MODBUS of
/// everything after the leading length field.
pub open spec fn hvac_frame(flag: u16, p: Seq<u8>) -> Seq<u8> {
    let u = hvac_unsealed(flag, p);
    u + le16(crc16_modbus(u.subrange(2, u.len() as int)))
}

/// The body that an HVAC reply carries, without the two command-echo bytes.
pub open spec fn hvac_body(b: Seq<u8>) -> Result<Seq<u8>, Error> {
    if b.len() < 14 {
        Err(Error::ShortReply { expected: 14, got: b.len() as usize })
    } else {
        let n = read_le16(b[0], b[1]) as int;
        let d = read_le16(b[8], b[9]) as int;
        if n != b.len() - 2 {
            Err(Error::DecodeError(Field::PayloadLength))
        } else if read_le16(b[n], b[n + 1]) != crc16_modbus(b.subrange(2, n)) {
            Err(
                Error::ChecksumMismatch {
                    kind: ChecksumKind::Hvac,
                    stored: read_le16(b[n], b[n + 1]),
                    computed: crc16_modbus(b.subrange(2, n)),
                },
            )
        } else if d < 2 || 12 + d - 2 > b.len() {
            Err(Error::DecodeError(Field::DataLength))
        } else {
            Ok(b.subrange(12, 12 + d - 2))
        }
    }
}

impl HvacDataMessage {
    /// The command flag of this message.
    pub closed spec fn spec_flag(self) -> u16 {
        self.command
    }

    /// Creates a message for `command_type`, with no body yet.
    pub fn new(command_type: HvacDataCommand) -> (r: HvacDataMessage)
        ensures
            r.spec_flag() == hvac_command_flag(command_type),
    {
        HvacDataMessage {
            payload_length: 0,
            command: 0x100 + (command_type.code() as u16) * 16 + 1,
            magic1: 0x00BB,
            magic2: 0x8006,
            magic3: 0,
            data_length: 2,
        }
    }

    /// Packs the header followed by `payload`, then the CRC-16/MODBUS of all
    /// bytes after the leading length field.
    pub fn pack_with_payload(self, payload: &[u8]) -> (r: Result<Vec<u8>, Error>)
        ensures
            payload@.len() <= MAX_HVAC_BODY ==> bytes_result(r) == Ok::<Seq<u8>, Error>(
                hvac_frame(self.spec_flag(), payload@),
            ),
            payload@.len() > MAX_HVAC_BODY ==> r == Err::<Vec<u8>, Error>(
                Error::FieldTooLong { field: Field::Payload, limit: MAX_HVAC_BODY },
            ),
    {
        if payload.len() > MAX_HVAC_BODY {
            return Err(Error::FieldTooLong { field: Field::Payload, limit: MAX_HVAC_BODY });
        }
        let mut msg = self;
        msg.data_length = payload.len() as u16 + 2;
        msg.payload_length = msg.data_length + 10;
        let mut result: Vec<u8> = Vec::new();
        let fields = [
            msg.payload_length,
            0x00BB,
            0x8006,
            0,
            msg.data_length,
            msg.command,
        ];
        let mut k: usize = 0;
        while k < 6
            invariant
                k <= 6,
                fields@ == seq![msg.payload_length, 0x00BBu16, 0x8006u16, 0u16, msg.data_length, msg.command],
                result@.len() == 2 * k,
                forall|j: int| 0 <= j < k ==> #[trigger] result@.subrange(2 * j, 2 * j + 2) == le16(fields@[j]),
            decreases 6 - k,
        {
            let bytes = u16_le(fields[k]);
            let ghost before = result@;
            result.push(bytes[0]);
            result.push(bytes[1]);
            assert forall|j: int| 0 <= j < k + 1 implies #[trigger] result@.subrange(2 * j, 2 * j + 2) == le16(fields@[j]) by {
                if j < k {
                    assert(result@.subrange(2 * j, 2 * j + 2) =~= before.subrange(2 * j, 2 * j + 2));
                } else {
                    assert(result@.subrange(2 * j, 2 * j + 2) =~= bytes@);
                }
            }
            k = k + 1;
        }
        let ghost header = result@;
        result.extend_from_slice(payload);
        proof {
            let u = hvac_unsealed(self.spec_flag(), payload@);
            assert forall|j: int| 0 <= j < 6 implies #[trigger] u.subrange(2 * j, 2 * j + 2) == le16(fields@[j]) by {
                assert(u.subrange(2 * j, 2 * j + 2) =~= le16(fields@[j]));
            }
            assert forall|i: int| 0 <= i < 12 implies header[i] == u[i] by {
                let j = i / 2;
                assert(header[i] == header.subrange(2 * j, 2 * j + 2)[i - 2 * j]);
                assert(u[i] == u.subrange(2 * j, 2 * j + 2)[i - 2 * j]);
            }
            assert(result@ =~= u);
        }
        let crc = crc16_of_range(result.as_slice(), 2, result.len());
        let crc_bytes = u16_le(crc);
        result.push(crc_bytes[0]);
        result.push(crc_bytes[1]);
        assert(result@ =~= hvac_frame(self.spec_flag(), payload@));
        Ok(result)
    }
}

impl HvacDataMessage {
    /// Unpacks an HVAC reply and returns its body.
    ///
    /// The length field must count every byte after it, the CRC must match,
    /// and the two bytes that echo the command are dropped from the body.
    pub fn unpack_with_payload(bytes: &[u8]) -> (r: Result<Vec<u8>, Error>)
        ensures
            bytes_result(r) == hvac_body(bytes@),
    {
        let len = bytes.len();
        if len < 14 {
            return Err(Error::ShortReply { expected: 14, got: len });
        }
        let n = u16_from_le(bytes[0], bytes[1]) as usize;
        let d = u16_from_le(bytes[8], bytes[9]) as usize;
        if n != len - 2 {
            return Err(Error::DecodeError(Field::PayloadLength));
        }
        let stored = u16_from_le(bytes[n], bytes[n + 1]);
        let computed = crc16_of_range(bytes, 2, n);
        if stored != computed {
            return Err(Error::ChecksumMismatch { kind: ChecksumKind::Hvac, stored, computed });
        }
        if d < 2 || d - 2 > len - 12 {
            return Err(Error::DecodeError(Field::DataLength));
        }
        let end: usize = 12 + (d - 2);
        let mut body: Vec<u8> = Vec::new();
        let mut i: usize = 12;
        while i < end
            invariant
                end == 12 + d - 2 <= bytes@.len(),
                12 <= i <= end,
                body@ =~= bytes@.subrange(12, i as int),
            decreases end - i,
        {
            body.push(bytes[i]);
            i = i + 1;
        }
        Ok(body)
    }
}

/// Unpacking a packed HVAC frame gives back its body.
pub proof fn lemma_hvac_round_trip(c: HvacDataCommand, p: Seq<u8>)
    requires
        p.len() <= MAX_HVAC_BODY,
    ensures
        hvac_body(hvac_frame(hvac_command_flag(c), p)) == Ok::<Seq<u8>, Error>(p),
{
    let flag = hvac_command_flag(c);
    let u = hvac_unsealed(flag, p);
    let f = hvac_frame(flag, p);
    let n = (p.len() + 12) as u16;
    let d = (p.len() + 2) as u16;
    assert(u.len() == 12 + p.len());
    assert(f.len() == 14 + p.len());
    assert(f[0] == le16(n)[0] && f[1] == le16(n)[1]);
    assert(f[8] == le16(d)[0] && f[9] == le16(d)[1]);
    let crc = crc16_modbus(u.subrange(2, u.len() as int));
    assert(f[u.len() as int] == le16(crc)[0] && f[u.len() as int + 1] == le16(crc)[1]);
    assert(f.subrange(2, u.len() as int) =~= u.subrange(2, u.len() as int));
    assert(f.subrange(12, 12 + p.len() as int) =~= p);
}

impl CommandTrait for HvacDataMessage {
    open spec fn spec_packet_type() -> u16 {
        0x006A
    }

    fn packet_type() -> (r: u16) {
        0x006A
    }
}

} // verus!
