//! The discovery request, stamped with the sender's clock, and the device's
//! reply.

use chrono::{Datelike, Timelike};
use vstd::prelude::*;

use crate::error::{Error, Field};
use crate::network::util::{
    checksum, checksum_holds, checksum_of, copy_range, le16, le32, push_le16,
    push_le32, push_zeros, read_le16, to_array, u16_from_le, zero_field, zeros,
};

verus! {

/// A local wall-clock time, as the discovery request carries it.
#[derive(Clone, Copy, Debug, PartialEq, Eq, Structural)]
pub struct LocalTime {
    /// Seconds that local time is ahead of UTC.
    pub utc_offset: i32,
    /// The year.
    pub year: i32,
    /// The month, from 1.
    pub month: u8,
    /// The day of the month, from 1.
    pub day: u8,
    /// The hour, from 0 to 23.
    pub hour: u8,
    /// The minute, from 0 to 59.
    pub minute: u8,
    /// The day of the week, 1 for Monday to 7 for Sunday.
    pub weekday: u8,
}

impl LocalTime {
    /// Every field lies in its range: month 1 to 12, day 1 to 31, hour below
    /// 24, minute below 60, weekday 1 to 7, and an offset of less than a day.
    pub open spec fn wf(self) -> bool {
        &&& 1 <= self.month <= 12
        &&& 1 <= self.day <= 31
        &&& self.hour < 24
        &&& self.minute < 60
        &&& 1 <= self.weekday <= 7
        &&& -86400 < self.utc_offset < 86400
    }

    /// Whether every field lies in its range.
    pub fn is_valid(&self) -> (r: bool)
        ensures
            r == self.wf(),
    {
        1 <= self.month && self.month <= 12 && 1 <= self.day && self.day <= 31 && self.hour < 24
            && self.minute < 60 && 1 <= self.weekday && self.weekday <= 7 && -86400
            < self.utc_offset && self.utc_offset < 86400
    }
}

/// Relies on chrono's `Local::now` and its `Datelike` / `Timelike` getters:
/// the local time now, with month, day, hour, minute and weekday in the
/// ranges that chrono documents, and an offset of less than a day.
#[verifier::external_body]
fn local_now() -> (r: LocalTime)
    ensures
        1 <= r.month <= 12,
        1 <= r.day <= 31,
        r.hour < 24,
        r.minute < 60,
        1 <= r.weekday <= 7,
        -86400 < r.utc_offset < 86400,
{
    let now = chrono::Local::now();
    LocalTime {
        utc_offset: now.offset().local_minus_utc(),
        year: now.year(),
        month: now.month() as u8,
        day: now.day() as u8,
        hour: now.hour() as u8,
        minute: now.minute() as u8,
        weekday: now.weekday().number_from_monday() as u8,
    }
}

/// The size of a discovery request.
pub const DISCOVERY_SIZE: usize = 48;

/// The size of a discovery reply.
pub const DISCOVERY_RESPONSE_SIZE: usize = 128;

/// The port on which discovery replies are awaited.
pub const DISCOVERY_PORT: u16 = 42424;

/// The discovery request from `ip` (in natural order) and `port` stamped with
/// `t`, carrying `c` in its checksum field.
pub open spec fn discovery_layout(ip: Seq<u8>, port: u16, t: LocalTime, c: u16) -> Seq<u8> {
    (((zeros(8) + le32(t.utc_offset as u32) + le16(t.year as u16)).push(t.minute).push(
        t.hour,
    ).push((t.year % 100) as u8).push(t.weekday).push(t.day).push(t.month) + zeros(4)).push(
        ip[3],
    ).push(ip[2]).push(ip[1]).push(ip[0]) + le16(port) + zeros(2) + le16(c) + zeros(4)).push(
        0x06u8,
    ) + zeros(9)
}

/// The discovery request with its checksum: the envelope checksum of the
/// request taken with a zero checksum field.
pub open spec fn discovery_bytes(ip: Seq<u8>, port: u16, t: LocalTime) -> Seq<u8> {
    discovery_layout(ip, port, t, checksum_of(discovery_layout(ip, port, t, 0)))
}

/// A message that asks devices on the network to identify themselves.
#[derive(Clone, Copy, Debug)]
pub struct DiscoveryMessage {
    /// The sender's local time.
    time: LocalTime,
    /// The sender's IPv4 address, in natural order.
    ip: [u8; 4],
    /// The port on which the sender awaits replies.
    port: u16,
    /// The envelope checksum.
    checksum: u16,
}

impl DiscoveryMessage {
    pub closed spec fn spec_time(self) -> LocalTime {
        self.time
    }

    /// The time is valid and its year fits its 16-bit field.
    pub closed spec fn wf(self) -> bool {
        self.time.wf() && 0 <= self.time.year <= 0xFFFF
    }

    /// The packed bytes of this message.
    pub closed spec fn packed(self) -> Seq<u8> {
        discovery_layout(self.ip@, self.port, self.time, self.checksum)
    }

    /// Creates a request from `addr` (IPv4, natural order) listening on `port`,
    /// stamped with `time`, or with the local time now when none is given.
    /// Fails when a field of the time is out of its range, or when the year
    /// does not fit 16 bits.
    pub fn new(addr: [u8; 4], port: u16, time: Option<LocalTime>) -> (r: Result<DiscoveryMessage, Error>)
        ensures
            time matches Some(t) ==> (t.wf() && 0 <= t.year <= 0xFFFF <==> r is Ok),
            time matches Some(t) && !t.wf() ==> r matches Err(Error::DecodeError(Field::Time)),
            r matches Err(e) ==> e == Error::DecodeError(Field::Time) || e == Error::DecodeError(
                Field::Year,
            ),
            r matches Ok(m) ==> m.wf() && m.spec_time().wf() && (time matches Some(t)
                ==> m.spec_time() == t) && m.packed() == discovery_bytes(addr@, port, m.spec_time()),
    {
        let time = match time {
            Some(t) => t,
            None => local_now(),
        };
        if !time.is_valid() {
            return Err(Error::DecodeError(Field::Time));
        }
        if time.year < 0 || time.year > 0xFFFF {
            return Err(Error::DecodeError(Field::Year));
        }
        let mut msg = DiscoveryMessage { time, ip: addr, port, checksum: 0 };
        let unsealed = msg.pack_bytes();
        msg.checksum = checksum(unsealed.as_slice());
        Ok(msg)
    }

    fn pack_bytes(&self) -> (r: Vec<u8>)
        requires
            self.wf(),
        ensures
            r@ == self.packed(),
    {
        let t = self.time;
        let mut v: Vec<u8> = Vec::new();
        push_zeros(&mut v, 8);
        push_le32(&mut v, t.utc_offset as u32);
        push_le16(&mut v, t.year as u16);
        v.push(t.minute);
        v.push(t.hour);
        v.push((t.year % 100) as u8);
        v.push(t.weekday);
        v.push(t.day);
        v.push(t.month);
        push_zeros(&mut v, 4);
        v.push(self.ip[3]);
        v.push(self.ip[2]);
        v.push(self.ip[1]);
        v.push(self.ip[0]);
        push_le16(&mut v, self.port);
        push_zeros(&mut v, 2);
        push_le16(&mut v, self.checksum);
        push_zeros(&mut v, 4);
        v.push(0x06);
        push_zeros(&mut v, 9);
        v
    }

    /// Packs the message.
    pub fn pack(&self) -> (r: [u8; 48])
        requires
            self.wf(),
        ensures
            r@ == self.packed(),
    {
        let v = self.pack_bytes();
        to_array(&v)
    }
}

/// Every discovery request carries, at 32, the envelope checksum of its bytes
/// taken with that field zeroed.
pub proof fn lemma_discovery_checksum_holds(ip: Seq<u8>, port: u16, t: LocalTime)
    requires
        ip.len() == 4,
    ensures
        checksum_holds(discovery_bytes(ip, port, t), 32),
{
    let c = checksum_of(discovery_layout(ip, port, t, 0));
    let b = discovery_bytes(ip, port, t);
    assert(b[32] == le16(c)[0] && b[33] == le16(c)[1]);
    assert(zero_field(b, 32) =~= discovery_layout(ip, port, t, 0));
}

/// A device's reply to a discovery request.
#[derive(Clone, Copy, Debug)]
pub struct DiscoveryResponse {
    /// The device's model code.
    pub model_code: u16,
    /// The device's MAC address, as the wire carries it (reversed).
    pub mac: [u8; 6],
    /// The device's name, UTF-8, NUL-padded.
    pub name: [u8; 62],
    /// Whether the device is locked.
    pub is_locked: bool,
}

impl DiscoveryResponse {
    /// Reads a reply of exactly 128 bytes: the model code at 52, the MAC at
    /// 58, the name at 64 and the lock flag at 127.
    pub fn unpack_from_slice(bytes: &[u8]) -> (r: Result<DiscoveryResponse, Error>)
        ensures
            bytes@.len() != 128 ==> r == Err::<DiscoveryResponse, Error>(
                Error::ShortReply { expected: 128, got: bytes@.len() as usize },
            ),
            bytes@.len() == 128 ==> (r matches Ok(d) && d.model_code == read_le16(bytes@[52], bytes@[53])
                && d.mac@ == bytes@.subrange(58, 64) && d.name@ == bytes@.subrange(64, 126)
                && d.is_locked == (bytes@[127] != 0)),
    {
        if bytes.len() != DISCOVERY_RESPONSE_SIZE {
            return Err(Error::ShortReply { expected: DISCOVERY_RESPONSE_SIZE, got: bytes.len() });
        }
        let mac_bytes = copy_range(bytes, 58, 64);
        let name_bytes = copy_range(bytes, 64, 126);
        Ok(
            DiscoveryResponse {
                model_code: u16_from_le(bytes[52], bytes[53]),
                mac: to_array(&mac_bytes),
                name: to_array(&name_bytes),
                is_locked: bytes[127] != 0,
            },
        )
    }
}

} // verus!
