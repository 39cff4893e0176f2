//! The air-conditioner state and information records that HVAC messages carry.

use vstd::arithmetic::div_mod::lemma_fundamental_div_mod_converse as split;
use vstd::prelude::*;

use crate::error::{bytes_result, Error, Field};
use crate::network::hvac_data::{
    lemma_codes_round_trip, HvacMode, HvacPreset, HvacSpeed, HvacSwHoriz, HvacSwVert,
};
use crate::network::util::to_array;

verus! {

/// The packed size of an [`AirCondState`].
pub const AIR_COND_STATE_SIZE: usize = 13;

/// The state of an air conditioner, as carried in 13 bytes with most
/// significant bit first.
#[derive(Clone, Copy, Debug, PartialEq, Eq, Structural)]
pub struct AirCondState {
    /// Power on (bit 66).
    pub power: bool,
    /// Target temperature minus 8 °C (bits 0..=4).
    pub target_temp_int: u8,
    /// Vertical swing (bits 5..=7).
    pub swing_v: HvacSwVert,
    /// Horizontal swing (bits 8..=10).
    pub swing_h: HvacSwHoriz,
    /// Operating mode (bits 40..=42).
    pub mode: HvacMode,
    /// Constant 0x0F, set before sending (bits 20..=23).
    pub magic1: u8,
    /// Fan speed (bits 24..=26).
    pub fanspeed: HvacSpeed,
    /// Preset (bits 38..=39).
    pub preset: HvacPreset,
    /// Sleep mode (bit 45).
    pub sleep: bool,
    /// Temperature taken from the remote control (bit 44).
    pub ifeel: bool,
    /// Health mode: dust removal (bit 70).
    pub health: bool,
    /// Auto-clean (bit 69).
    pub clean: bool,
    /// Temperature display (bit 83).
    pub display: bool,
    /// Anti-mildew drying (bit 84).
    pub mildew: bool,
}

/// 1 for true, 0 for false.
pub open spec fn bit(b: bool) -> u8 {
    if b {
        1
    } else {
        0
    }
}

fn bit_of(b: bool) -> (r: u8)
    ensures
        r == bit(b),
{
    if b {
        1
    } else {
        0
    }
}

/// A 5-bit value above a 3-bit value.
#[verifier::opaque]
pub open spec fn pack_5_3(hi: u8, lo: u8) -> u8 {
    (hi * 8 + lo) as u8
}

/// A 3-bit value in the top bits of a byte.
#[verifier::opaque]
pub open spec fn pack_top3(v: u8) -> u8 {
    (v * 32) as u8
}

/// The byte holding mode (bits 0..=2), iFeel (bit 4) and sleep (bit 5).
#[verifier::opaque]
pub open spec fn pack_mode_byte(mode: u8, ifeel: bool, sleep: bool) -> u8 {
    (mode * 32 + bit(ifeel) * 8 + bit(sleep) * 4) as u8
}

/// The byte holding power (bit 2), clean (bit 5) and health (bit 6).
#[verifier::opaque]
pub open spec fn pack_power_byte(power: bool, clean: bool, health: bool) -> u8 {
    (bit(power) * 32 + bit(clean) * 4 + bit(health) * 2) as u8
}

/// The byte holding display (bit 3) and mildew (bit 4).
#[verifier::opaque]
pub open spec fn pack_display_byte(display: bool, mildew: bool) -> u8 {
    (bit(display) * 16 + bit(mildew) * 8) as u8
}

proof fn lemma_pack_5_3(hi: u8, lo: u8)
    requires
        hi < 32,
        lo < 8,
    ensures
        pack_5_3(hi, lo) == hi * 8 + lo,
        pack_5_3(hi, lo) / 8 == hi,
        pack_5_3(hi, lo) % 8 == lo,
{
    reveal(pack_5_3);
    split(hi * 8 + lo, 8, hi as int, lo as int);
}

proof fn lemma_pack_top3(v: u8)
    requires
        v < 8,
    ensures
        pack_top3(v) == v * 32,
        pack_top3(v) / 32 == v,
{
    reveal(pack_top3);
    split(v * 32, 32, v as int, 0);
}

proof fn lemma_pack_mode_byte(mode: u8, ifeel: bool, sleep: bool)
    requires
        mode < 8,
    ensures
        pack_mode_byte(mode, ifeel, sleep) == mode * 32 + bit(ifeel) * 8 + bit(sleep) * 4,
        pack_mode_byte(mode, ifeel, sleep) / 32 == mode,
        (pack_mode_byte(mode, ifeel, sleep) / 8) % 2 == bit(ifeel),
        (pack_mode_byte(mode, ifeel, sleep) / 4) % 2 == bit(sleep),
{
    reveal(pack_mode_byte);
    let (m, i, sl) = (mode as int, bit(ifeel) as int, bit(sleep) as int);
    split(m * 32 + i * 8 + sl * 4, 32, m, i * 8 + sl * 4);
    split(m * 32 + i * 8 + sl * 4, 8, m * 4 + i, sl * 4);
    split(m * 4 + i, 2, m * 2, i);
    split(m * 32 + i * 8 + sl * 4, 4, m * 8 + i * 2 + sl, 0);
    split(m * 8 + i * 2 + sl, 2, m * 4 + i, sl);
}

proof fn lemma_pack_power_byte(power: bool, clean: bool, health: bool)
    ensures
        pack_power_byte(power, clean, health) == bit(power) * 32 + bit(clean) * 4 + bit(health) * 2,
        (pack_power_byte(power, clean, health) / 32) % 2 == bit(power),
        (pack_power_byte(power, clean, health) / 4) % 2 == bit(clean),
        (pack_power_byte(power, clean, health) / 2) % 2 == bit(health),
{
    reveal(pack_power_byte);
    let (pw, cl, he) = (bit(power) as int, bit(clean) as int, bit(health) as int);
    split(pw * 32 + cl * 4 + he * 2, 32, pw, cl * 4 + he * 2);
    split(pw, 2, 0, pw);
    split(pw * 32 + cl * 4 + he * 2, 4, pw * 8 + cl, he * 2);
    split(pw * 8 + cl, 2, pw * 4, cl);
    split(pw * 32 + cl * 4 + he * 2, 2, pw * 16 + cl * 2 + he, 0);
    split(pw * 16 + cl * 2 + he, 2, pw * 8 + cl, he);
}

proof fn lemma_pack_display_byte(display: bool, mildew: bool)
    ensures
        pack_display_byte(display, mildew) == bit(display) * 16 + bit(mildew) * 8,
        (pack_display_byte(display, mildew) / 16) % 2 == bit(display),
        (pack_display_byte(display, mildew) / 8) % 2 == bit(mildew),
{
    reveal(pack_display_byte);
    let (di, mi) = (bit(display) as int, bit(mildew) as int);
    split(di * 16 + mi * 8, 16, di, mi * 8);
    split(di, 2, 0, di);
    split(di * 16 + mi * 8, 8, di * 2 + mi, 0);
    split(di * 2 + mi, 2, di, mi);
}

fn pack_5_3_exec(hi: u8, lo: u8) -> (r: u8)
    requires
        hi < 32,
        lo < 8,
    ensures
        r == pack_5_3(hi, lo),
{
    proof {
        lemma_pack_5_3(hi, lo);
    }
    hi * 8 + lo
}

fn pack_top3_exec(v: u8) -> (r: u8)
    requires
        v < 8,
    ensures
        r == pack_top3(v),
{
    proof {
        lemma_pack_top3(v);
    }
    v * 32
}

fn pack_mode_byte_exec(mode: u8, ifeel: bool, sleep: bool) -> (r: u8)
    requires
        mode < 8,
    ensures
        r == pack_mode_byte(mode, ifeel, sleep),
{
    proof {
        lemma_pack_mode_byte(mode, ifeel, sleep);
    }
    mode * 32 + bit_of(ifeel) * 8 + bit_of(sleep) * 4
}

fn pack_power_byte_exec(power: bool, clean: bool, health: bool) -> (r: u8)
    ensures
        r == pack_power_byte(power, clean, health),
{
    proof {
        lemma_pack_power_byte(power, clean, health);
    }
    bit_of(power) * 32 + bit_of(clean) * 4 + bit_of(health) * 2
}

fn pack_display_byte_exec(display: bool, mildew: bool) -> (r: u8)
    ensures
        r == pack_display_byte(display, mildew),
{
    proof {
        lemma_pack_display_byte(display, mildew);
    }
    bit_of(display) * 16 + bit_of(mildew) * 8
}

impl AirCondState {
    /// The private fields fit their bit widths.
    pub open spec fn wf(self) -> bool {
        self.target_temp_int < 32 && self.magic1 < 16
    }

    /// The target temperature in whole degrees Celsius.
    pub open spec fn spec_target_temp(self) -> int {
        self.target_temp_int + 8
    }

    /// The value of the constant field.
    pub open spec fn spec_magic(self) -> u8 {
        self.magic1
    }

    /// This state with the constant field set for sending.
    pub open spec fn spec_prepared(self) -> AirCondState {
        AirCondState { magic1: 0x0F, ..self }
    }

    /// This state with a target temperature of `t` degrees.
    pub open spec fn spec_with_target_temp(self, t: u8) -> AirCondState {
        AirCondState { target_temp_int: (t - 8) as u8, ..self }
    }

    /// The 13 packed bytes.
    pub open spec fn packed(self) -> Seq<u8> {
        Seq::empty()
            .push(pack_5_3(self.target_temp_int, self.swing_v.spec_code()))
            .push(pack_top3(self.swing_h.spec_code()))
            .push(self.magic1)
            .push(pack_top3(self.fanspeed.spec_code()))
            .push(self.preset.spec_code())
            .push(pack_mode_byte(self.mode.spec_code(), self.ifeel, self.sleep))
            .push(0u8)
            .push(0u8)
            .push(pack_power_byte(self.power, self.clean, self.health))
            .push(0u8)
            .push(pack_display_byte(self.display, self.mildew))
            .push(0u8)
            .push(0u8)
    }

    /// The state that the first 13 bytes of `b` hold.
    pub open spec fn unpacked(b: Seq<u8>) -> Result<AirCondState, Error> {
        if b.len() < 13 {
            Err(Error::ShortReply { expected: 13, got: b.len() as usize })
        } else if HvacSwVert::spec_from_code(b[0] % 8) is None {
            Err(Error::DecodeError(Field::SwingVertical))
        } else if HvacSwHoriz::spec_from_code(b[1] / 32) is None {
            Err(Error::DecodeError(Field::SwingHorizontal))
        } else if HvacSpeed::spec_from_code(b[3] / 32) is None {
            Err(Error::DecodeError(Field::FanSpeed))
        } else if HvacPreset::spec_from_code(b[4] % 4) is None {
            Err(Error::DecodeError(Field::Preset))
        } else if HvacMode::spec_from_code(b[5] / 32) is None {
            Err(Error::DecodeError(Field::Mode))
        } else {
            Ok(Self::fields_of(b))
        }
    }

    /// The state whose fields the first 13 bytes of `b` hold, where every
    /// enumerated field holds a known code.
    pub open spec fn fields_of(b: Seq<u8>) -> AirCondState {
        Self::fields_from(b[0], b[1], b[2], b[3], b[4], b[5], b[8], b[10])
    }

    /// The state held by the bytes that carry fields.
    pub open spec fn fields_from(
        b0: u8,
        b1: u8,
        b2: u8,
        b3: u8,
        b4: u8,
        b5: u8,
        b8: u8,
        b10: u8,
    ) -> AirCondState {
        AirCondState {
            power: (b8 / 32) % 2 == 1,
            target_temp_int: b0 / 8,
            swing_v: HvacSwVert::spec_from_code(b0 % 8)->0,
            swing_h: HvacSwHoriz::spec_from_code(b1 / 32)->0,
            mode: HvacMode::spec_from_code(b5 / 32)->0,
            magic1: b2 % 16,
            fanspeed: HvacSpeed::spec_from_code(b3 / 32)->0,
            preset: HvacPreset::spec_from_code(b4 % 4)->0,
            sleep: (b5 / 4) % 2 == 1,
            ifeel: (b5 / 8) % 2 == 1,
            health: (b8 / 2) % 2 == 1,
            clean: (b8 / 4) % 2 == 1,
            display: (b10 / 16) % 2 == 1,
            mildew: (b10 / 8) % 2 == 1,
        }
    }

    /// Packs the state into its 13 bytes.
    pub fn pack(&self) -> (r: [u8; 13])
        requires
            self.wf(),
        ensures
            r@ == self.packed(),
    {
        let b0 = pack_5_3_exec(self.target_temp_int, self.swing_v.code());
        let b1 = pack_top3_exec(self.swing_h.code());
        let b3 = pack_top3_exec(self.fanspeed.code());
        let b5 = pack_mode_byte_exec(self.mode.code(), self.ifeel, self.sleep);
        let b8 = pack_power_byte_exec(self.power, self.clean, self.health);
        let b10 = pack_display_byte_exec(self.display, self.mildew);
        let mut out: Vec<u8> = Vec::new();
        out.push(b0);
        out.push(b1);
        out.push(self.magic1);
        out.push(b3);
        out.push(self.preset.code());
        out.push(b5);
        out.push(0);
        out.push(0);
        out.push(b8);
        out.push(0);
        out.push(b10);
        out.push(0);
        out.push(0);
        to_array(&out)
    }

    /// Reads a state from the first 13 bytes of `bytes`.
    pub fn unpack_from_slice(bytes: &[u8]) -> (r: Result<AirCondState, Error>)
        ensures
            r == Self::unpacked(bytes@),
            r matches Ok(s) ==> s.wf(),
    {
        if bytes.len() < AIR_COND_STATE_SIZE {
            return Err(Error::ShortReply { expected: AIR_COND_STATE_SIZE, got: bytes.len() });
        }
        let swing_v = match HvacSwVert::from_code(bytes[0] % 8) {
            Some(v) => v,
            None => return Err(Error::DecodeError(Field::SwingVertical)),
        };
        let swing_h = match HvacSwHoriz::from_code(bytes[1] / 32) {
            Some(v) => v,
            None => return Err(Error::DecodeError(Field::SwingHorizontal)),
        };
        let fanspeed = match HvacSpeed::from_code(bytes[3] / 32) {
            Some(v) => v,
            None => return Err(Error::DecodeError(Field::FanSpeed)),
        };
        let preset = match HvacPreset::from_code(bytes[4] % 4) {
            Some(v) => v,
            None => return Err(Error::DecodeError(Field::Preset)),
        };
        let mode = match HvacMode::from_code(bytes[5] / 32) {
            Some(v) => v,
            None => return Err(Error::DecodeError(Field::Mode)),
        };
        Ok(
            AirCondState {
                power: (bytes[8] / 32) % 2 == 1,
                target_temp_int: bytes[0] / 8,
                swing_v,
                swing_h,
                mode,
                magic1: bytes[2] % 16,
                fanspeed,
                preset,
                sleep: (bytes[5] / 4) % 2 == 1,
                ifeel: (bytes[5] / 8) % 2 == 1,
                health: (bytes[8] / 2) % 2 == 1,
                clean: (bytes[8] / 4) % 2 == 1,
                display: (bytes[10] / 16) % 2 == 1,
                mildew: (bytes[10] / 8) % 2 == 1,
            },
        )
    }

    /// Sets the constant field and packs the state for sending.
    pub fn prepare_and_pack(&mut self) -> (r: Result<Vec<u8>, Error>)
        requires
            old(self).wf(),
        ensures
            final(self).wf(),
            final(self).spec_magic() == 0x0F,
            *final(self) == old(self).spec_prepared(),
            bytes_result(r) == Ok::<Seq<u8>, Error>(final(self).packed()),
    {
        self.magic1 = 0x0F;
        let packed = self.pack();
        let mut out: Vec<u8> = Vec::new();
        let mut i: usize = 0;
        while i < 13
            invariant
                i <= 13,
                packed@.len() == 13,
                out@ =~= packed@.subrange(0, i as int),
            decreases 13 - i,
        {
            out.push(packed[i]);
            i = i + 1;
        }
        assert(out@ =~= packed@);
        Ok(out)
    }

    /// The target temperature in whole degrees Celsius.
    pub fn get_target_temp(&self) -> (r: u8)
        requires
            self.wf(),
        ensures
            r as int == self.spec_target_temp(),
    {
        self.target_temp_int + 8
    }

    /// Sets the target temperature, in whole degrees Celsius from 16 to 32.
    pub fn set_target_temp(&mut self, input: u8) -> (r: Result<(), Error>)
        requires
            old(self).wf(),
        ensures
            final(self).wf(),
            16 <= input <= 32 ==> r is Ok && final(self).spec_target_temp() == input as int
                && *final(self) == old(self).spec_with_target_temp(input),
            !(16 <= input <= 32) ==> r == Err::<(), Error>(Error::InvalidTemperature) && *final(self)
                == *old(self),
    {
        if input < 16 || input > 32 {
            return Err(Error::InvalidTemperature);
        }
        self.target_temp_int = input - 8;
        Ok(())
    }
}

proof fn lemma_unpack_swings(t: u8, v: HvacSwVert, h: HvacSwHoriz)
    requires
        t < 32,
    ensures
        HvacSwVert::spec_from_code(pack_5_3(t, v.spec_code()) % 8) == Some(v),
        pack_5_3(t, v.spec_code()) / 8 == t,
        HvacSwHoriz::spec_from_code(pack_top3(h.spec_code()) / 32) == Some(h),
{
    lemma_codes_round_trip(v, h, HvacSpeed::Unset, HvacPreset::Normal, HvacMode::Auto);
    lemma_pack_5_3(t, v.spec_code());
    lemma_pack_top3(h.spec_code());
}

proof fn lemma_unpack_speed_preset_mode(
    f: HvacSpeed,
    p: HvacPreset,
    m: HvacMode,
    ifeel: bool,
    sleep: bool,
)
    ensures
        HvacSpeed::spec_from_code(pack_top3(f.spec_code()) / 32) == Some(f),
        HvacPreset::spec_from_code(p.spec_code() % 4) == Some(p),
        HvacMode::spec_from_code(pack_mode_byte(m.spec_code(), ifeel, sleep) / 32) == Some(m),
        ((pack_mode_byte(m.spec_code(), ifeel, sleep) / 8) % 2 == 1) == ifeel,
        ((pack_mode_byte(m.spec_code(), ifeel, sleep) / 4) % 2 == 1) == sleep,
{
    lemma_codes_round_trip(HvacSwVert::On, HvacSwHoriz::On, f, p, m);
    lemma_pack_top3(f.spec_code());
    lemma_pack_mode_byte(m.spec_code(), ifeel, sleep);
    split(p.spec_code() as int, 4, 0, p.spec_code() as int);
}

proof fn lemma_unpack_flags(power: bool, clean: bool, health: bool, display: bool, mildew: bool)
    ensures
        ((pack_power_byte(power, clean, health) / 32) % 2 == 1) == power,
        ((pack_power_byte(power, clean, health) / 4) % 2 == 1) == clean,
        ((pack_power_byte(power, clean, health) / 2) % 2 == 1) == health,
        ((pack_display_byte(display, mildew) / 16) % 2 == 1) == display,
        ((pack_display_byte(display, mildew) / 8) % 2 == 1) == mildew,
{
    lemma_pack_power_byte(power, clean, health);
    lemma_pack_display_byte(display, mildew);
}

proof fn lemma_fields_from_packed(s: AirCondState)
    requires
        s.wf(),
    ensures
        AirCondState::fields_from(
            pack_5_3(s.target_temp_int, s.swing_v.spec_code()),
            pack_top3(s.swing_h.spec_code()),
            s.magic1,
            pack_top3(s.fanspeed.spec_code()),
            s.preset.spec_code(),
            pack_mode_byte(s.mode.spec_code(), s.ifeel, s.sleep),
            pack_power_byte(s.power, s.clean, s.health),
            pack_display_byte(s.display, s.mildew),
        ) == s,
{
    lemma_unpack_swings(s.target_temp_int, s.swing_v, s.swing_h);
    lemma_unpack_speed_preset_mode(s.fanspeed, s.preset, s.mode, s.ifeel, s.sleep);
    lemma_unpack_flags(s.power, s.clean, s.health, s.display, s.mildew);
    split(s.magic1 as int, 16, 0, s.magic1 as int);
}

/// Unpacking a packed state gives the same state.
pub proof fn lemma_air_cond_state_round_trip(s: AirCondState)
    requires
        s.wf(),
    ensures
        AirCondState::unpacked(s.packed()) == Ok::<AirCondState, Error>(s),
{
    let b = s.packed();
    assert(b.len() == 13);
    assert(b[0] == pack_5_3(s.target_temp_int, s.swing_v.spec_code()));
    assert(b[1] == pack_top3(s.swing_h.spec_code()));
    assert(b[2] == s.magic1);
    assert(b[3] == pack_top3(s.fanspeed.spec_code()));
    assert(b[4] == s.preset.spec_code());
    assert(b[5] == pack_mode_byte(s.mode.spec_code(), s.ifeel, s.sleep));
    assert(b[8] == pack_power_byte(s.power, s.clean, s.health));
    assert(b[10] == pack_display_byte(s.display, s.mildew));
    lemma_unpack_swings(s.target_temp_int, s.swing_v, s.swing_h);
    lemma_unpack_speed_preset_mode(s.fanspeed, s.preset, s.mode, s.ifeel, s.sleep);
    lemma_fields_from_packed(s);
}

/// A state packed for sending carries 0x0F in its constant field.
pub proof fn lemma_prepared_magic(s: AirCondState)
    requires
        s.wf(),
    ensures
        s.spec_prepared().packed()[2] == 0x0F,
        s.spec_prepared().spec_magic() == 0x0F,
{
}

/// Setting a target temperature from 16 to 32 and reading it back gives it.
pub proof fn lemma_target_temp_round_trip(s: AirCondState, t: u8)
    requires
        s.wf(),
        16 <= t <= 32,
    ensures
        s.spec_with_target_temp(t).spec_target_temp() == t as int,
        s.spec_with_target_temp(t).wf(),
{
}

} // verus!

verus! {

/// Basic information reported by an air conditioner, read from 22 bytes with
/// most significant bit first.
#[derive(Clone, Copy, Debug, PartialEq, Eq, Structural)]
pub struct AirCondInfo {
    /// Power on (bit 15).
    pub power: bool,
    /// Whole degrees of the ambient temperature (bits 43..=47).
    pub ambient_temp_int: u8,
    /// Tenths of a degree of the ambient temperature (bits 171..=175).
    pub ambient_temp_fract: u8,
}

impl AirCondInfo {
    /// Whether the unit is powered.
    pub open spec fn spec_power(self) -> bool {
        self.power
    }

    /// The ambient temperature in tenths of a degree Celsius.
    pub open spec fn spec_ambient_tenths(self) -> int {
        self.ambient_temp_int * 10 + self.ambient_temp_fract
    }

    /// The information that the first 22 bytes of `b` hold.
    pub open spec fn unpacked(b: Seq<u8>) -> Result<AirCondInfo, Error> {
        if b.len() < 22 {
            Err(Error::ShortReply { expected: 22, got: b.len() as usize })
        } else {
            Ok(
                AirCondInfo {
                    power: b[1] % 2 == 1,
                    ambient_temp_int: b[5] % 32,
                    ambient_temp_fract: b[21] % 32,
                },
            )
        }
    }

    /// Whether the unit is powered, per bit 15 of `b`.
    pub open spec fn spec_power_of(b: Seq<u8>) -> bool {
        b[1] % 2 == 1
    }

    /// The ambient temperature, in tenths of a degree, that `b` reports.
    pub open spec fn spec_tenths_of(b: Seq<u8>) -> int {
        (b[5] % 32) * 10 + b[21] % 32
    }

    /// Reads the information from the first 22 bytes of `bytes`.
    pub fn unpack_from_slice(bytes: &[u8]) -> (r: Result<AirCondInfo, Error>)
        ensures
            r == Self::unpacked(bytes@),
            bytes@.len() < 22 <==> r is Err,
            r matches Ok(i) ==> i.spec_power() == Self::spec_power_of(bytes@) && i.spec_ambient_tenths()
                == Self::spec_tenths_of(bytes@),
    {
        if bytes.len() < 22 {
            return Err(Error::ShortReply { expected: 22, got: bytes.len() });
        }
        Ok(
            AirCondInfo {
                power: bytes[1] % 2 == 1,
                ambient_temp_int: bytes[5] % 32,
                ambient_temp_fract: bytes[21] % 32,
            },
        )
    }

    /// The ambient temperature in tenths of a degree Celsius: the whole part
    /// times ten plus the tenths.
    pub fn get_ambient_temp(&self) -> (r: u16)
        ensures
            r as int == self.spec_ambient_tenths(),
    {
        self.ambient_temp_int as u16 * 10 + self.ambient_temp_fract as u16
    }
}

} // verus!
