//! A discovered device of either kind, from its discovery reply to an
//! authenticated session.

use vstd::prelude::*;
use vstd::string::StrSliceExecFns;
use vstd::utf8::{decode_utf8, encode_utf8, valid_utf8};

use crate::device_info::DeviceInfo;
use crate::error::{Error, Field};
use crate::hvac::{hvac_friendly_model, HvacDevice};
use crate::models::{hvac_model, hvac_model_spec, remote_model, remote_model_spec};
use crate::network::util::{read_le16, read_le32, reversed_mac};
use crate::network::{
    authentication_bytes, frame_of, opened, AuthenticationMessage, AuthenticationResponse,
    DiscoveryResponse,
};
use crate::remote::{remote_friendly_model, RemoteDevice};
use crate::traits::DeviceTrait;

verus! {

/// Relies on std's `str::from_utf8`: it accepts exactly the well-formed UTF-8
/// byte sequences (no overlong form, no surrogate, nothing above U+10FFFF),
/// and the string then holds the characters that they encode.
#[verifier::external_body]
fn utf8_string(b: &[u8]) -> (r: Option<String>)
    ensures
        r is Some <==> valid_utf8(b@),
        r matches Some(s) ==> s@ == decode_utf8(b@),
{
    std::str::from_utf8(b).ok().map(|s| s.to_owned())
}

/// The characters of `s` before its first NUL.
pub open spec fn chars_before_nul(s: Seq<char>) -> Seq<char>
    decreases s.len(),
{
    if s.len() == 0 {
        s
    } else if s[0] == '\0' {
        Seq::empty()
    } else {
        seq![s[0]] + chars_before_nul(s.drop_first())
    }
}

/// The number of characters of `s` before its first NUL.
fn nul_position(s: &str) -> (n: usize)
    ensures
        n <= s@.len(),
        s@.subrange(0, n as int) == chars_before_nul(s@),
{
    let len = s.unicode_len();
    let mut i: usize = 0;
    assert(s@.subrange(0, s@.len() as int) =~= s@);
    assert(s@.subrange(0, 0) + chars_before_nul(s@) =~= chars_before_nul(s@));
    while i < len && s.get_char(i) != '\0'
        invariant
            len == s@.len(),
            i <= len,
            chars_before_nul(s@) == s@.subrange(0, i as int) + chars_before_nul(
                s@.subrange(i as int, len as int),
            ),
        decreases len - i,
    {
        let ghost rest = s@.subrange(i as int, len as int);
        assert(rest.drop_first() =~= s@.subrange(i + 1, len as int));
        assert(s@.subrange(0, i as int) + (seq![s@[i as int]] + chars_before_nul(rest.drop_first()))
            =~= s@.subrange(0, i + 1) + chars_before_nul(rest.drop_first()));
        i = i + 1;
    }
    assert(chars_before_nul(s@.subrange(i as int, len as int)) =~= Seq::<char>::empty());
    assert(s@.subrange(0, i as int) + Seq::<char>::empty() =~= s@.subrange(0, i as int));
    i
}

/// A device on the network, classified by its model code.
#[derive(Clone, Debug)]
pub enum Device {
    /// A device that transmits IR / RF codes.
    Remote { remote: RemoteDevice },
    /// An air conditioner.
    Hvac { hvac: HvacDevice },
}

/// Whether `code` is the model code of a known remote or HVAC unit.
pub open spec fn known_model(code: u16) -> bool {
    remote_model_spec(code) is Some || hvac_model_spec(code) is Some
}

/// The device that a discovery reply describes holds this information.
pub open spec fn discovered_info(info: DeviceInfo, addr: [u8; 4], b: Seq<u8>) -> bool {
    &&& info.address == addr
    &&& info.mac@ == reversed_mac(b.subrange(58, 64))
    &&& info.model_code == read_le16(b[52], b[53])
    &&& info.name@ == chars_before_nul(decode_utf8(b.subrange(64, 126)))
    &&& info.is_locked == (b[127] != 0)
    &&& info.unauthenticated()
}

impl Device {
    /// The information of either kind of device.
    pub open spec fn info_of(self) -> DeviceInfo {
        match self {
            Device::Remote { remote } => remote.info,
            Device::Hvac { hvac } => hvac.info,
        }
    }

    /// The core information about the device.
    pub fn info(&self) -> (r: &DeviceInfo)
        ensures
            *r == self.info_of(),
    {
        match self {
            Device::Remote { remote } => &remote.info,
            Device::Hvac { hvac } => &hvac.info,
        }
    }

    /// Creates a device from a discovery reply `bytes` received from `addr`.
    /// The device is not yet authenticated.
    ///
    /// The reply must hold exactly 128 bytes; its model code must be one of a
    /// known remote or HVAC unit; its 62-byte name field must be UTF-8. The
    /// name is the part of that field before its first NUL.
    pub fn from_discovery(addr: [u8; 4], bytes: &[u8]) -> (r: Result<Device, Error>)
        ensures
            bytes@.len() != 128 ==> r == Err::<Device, Error>(
                Error::ShortReply { expected: 128, got: bytes@.len() as usize },
            ),
            bytes@.len() == 128 && !known_model(read_le16(bytes@[52], bytes@[53])) ==> r == Err::<
                Device,
                Error,
            >(Error::UnknownModel(read_le16(bytes@[52], bytes@[53]))),
            bytes@.len() == 128 && known_model(read_le16(bytes@[52], bytes@[53])) ==> (r is Ok
                <==> valid_utf8(bytes@.subrange(64, 126))),
            bytes@.len() == 128 && known_model(read_le16(bytes@[52], bytes@[53])) && !valid_utf8(
                bytes@.subrange(64, 126),
            ) ==> r == Err::<Device, Error>(Error::DecodeError(Field::Name)),
            r matches Ok(d) ==> discovered_info(d.info_of(), addr, bytes@) && (d is Remote
                <==> remote_model_spec(d.info_of().model_code) is Some),
            r matches Ok(Device::Remote { remote }) ==> remote.info.friendly_type@ == "Remote"@
                && remote.info.friendly_model@ == remote_friendly_model(remote.info.model_code),
            r matches Ok(Device::Hvac { hvac }) ==> hvac.info.friendly_type@ == "HVAC"@
                && hvac.info.friendly_model@ == hvac_friendly_model(hvac.info.model_code),
    {
        let response = DiscoveryResponse::unpack_from_slice(bytes)?;
        let code = response.model_code;
        let is_remote = remote_model(code).is_some();
        if !is_remote && hvac_model(code).is_none() {
            return Err(Error::UnknownModel(code));
        }
        let field = match utf8_string(response.name.as_slice()) {
            Some(s) => s,
            None => return Err(Error::DecodeError(Field::Name)),
        };
        let n = nul_position(field.as_str());
        let name = field.as_str().substring_char(0, n);
        if is_remote {
            Ok(Device::Remote { remote: RemoteDevice::new(name, addr, response) })
        } else {
            Ok(Device::Hvac { hvac: HvacDevice::new(name, addr, response) })
        }
    }

    /// The payload of the authentication request for this device's name.
    pub fn authentication_payload(&self) -> (r: [u8; 0x50])
        ensures
            r@ == authentication_bytes(encode_utf8(self.info_of().name@)),
    {
        let info = self.info();
        AuthenticationMessage::new(info.name.as_str()).pack()
    }

    /// The frame of the authentication request, with a random message count.
    pub fn authentication_frame(&self) -> (r: Result<Vec<u8>, Error>)
        ensures
            r matches Ok(f) && exists|count: u16|
                0x8000 <= count <= 0xFFFF && #[trigger] f@ == frame_of(
                    self.info_of().model_code,
                    0x0065,
                    count,
                    reversed_mac(self.info_of().mac@),
                    self.info_of().auth_id,
                    authentication_bytes(encode_utf8(self.info_of().name@)),
                    self.info_of().key@,
                ),
    {
        let payload = self.authentication_payload();
        self.info().command_frame::<AuthenticationMessage>(payload.as_slice())
    }

    /// Takes the device's reply to the authentication request and saves the
    /// session id and key that it carries.
    pub fn complete_authentication(&mut self, reply: Vec<u8>) -> (r: Result<(), Error>)
        ensures
            opened(reply@, old(self).info_of().key@) matches Err(e) ==> r == Err::<(), Error>(e)
                && *final(self) == *old(self),
            opened(reply@, old(self).info_of().key@) matches Ok(p) ==> (p.len() < 0x14 ==> r
                == Err::<(), Error>(Error::ShortReply { expected: 0x14, got: p.len() as usize })
                && *final(self) == *old(self)),
            opened(reply@, old(self).info_of().key@) matches Ok(p) ==> (p.len() >= 0x14 ==> r
                is Ok && final(self).info_of() == (DeviceInfo {
                auth_id: read_le32(p.subrange(0, 4)),
                key: final(self).info_of().key,
                ..old(self).info_of()
            }) && final(self).info_of().key@ == p.subrange(4, 0x14) && ((*final(self)) is Remote
                <==> (*old(self)) is Remote)),
    {
        let payload = self.info().open_reply(reply)?;
        let auth = AuthenticationResponse::unpack_from_slice(payload.as_slice())?;
        self.set_auth_pair(auth.id, auth.key);
        Ok(())
    }

    fn set_auth_pair(&mut self, id: u32, key: [u8; 16])
        ensures
            final(self).info_of() == (DeviceInfo { auth_id: id, key: key, ..old(self).info_of() }),
            (*final(self)) is Remote <==> (*old(self)) is Remote,
    {
        match self {
            Device::Remote { remote } => {
                remote.info.auth_id = id;
                remote.info.key = key;
            },
            Device::Hvac { hvac } => {
                hvac.info.auth_id = id;
                hvac.info.key = key;
            },
        }
    }

    /// The remote, if this device is one.
    pub fn remote(&self) -> (r: Result<&RemoteDevice, Error>)
        ensures
            self matches Device::Remote { remote } ==> r == Ok::<&RemoteDevice, Error>(&remote),
            self is Hvac ==> r == Err::<&RemoteDevice, Error>(Error::WrongVariant),
    {
        match self {
            Device::Remote { remote } => Ok(remote),
            Device::Hvac { .. } => Err(Error::WrongVariant),
        }
    }

    /// The HVAC unit, if this device is one.
    pub fn hvac(&self) -> (r: Result<&HvacDevice, Error>)
        ensures
            self matches Device::Hvac { hvac } ==> r == Ok::<&HvacDevice, Error>(&hvac),
            self is Remote ==> r == Err::<&HvacDevice, Error>(Error::WrongVariant),
    {
        match self {
            Device::Hvac { hvac } => Ok(hvac),
            Device::Remote { .. } => Err(Error::WrongVariant),
        }
    }
}

impl DeviceTrait for Device {
    open spec fn spec_info(&self) -> DeviceInfo {
        self.info_of()
    }

    fn get_info(&self) -> (r: DeviceInfo) {
        self.info().duplicate()
    }

    fn save_auth_pair(&mut self, id: u32, key: [u8; 16]) {
        self.set_auth_pair(id, key);
    }
}

/// The MAC address of a device.
pub open spec fn mac_of(d: Device) -> Seq<u8> {
    d.info_of().mac@
}

/// No device before position `i` of `s` has the MAC of the one at `i`.
pub open spec fn first_of_mac(s: Seq<Device>, i: int) -> bool {
    forall|j: int| 0 <= j < i ==> mac_of(#[trigger] s[j]) != mac_of(s[i])
}

/// The devices of `s`, in order, each kept only when it is the first with its MAC.
pub open spec fn first_per_mac(s: Seq<Device>) -> Seq<Device>
    decreases s.len(),
{
    if s.len() == 0 {
        s
    } else if first_of_mac(s, s.len() - 1) {
        first_per_mac(s.drop_last()).push(s.last())
    } else {
        first_per_mac(s.drop_last())
    }
}

/// A MAC occurs in `s` exactly when it occurs among the devices kept.
proof fn lemma_first_per_mac_keeps_macs(s: Seq<Device>, m: Seq<u8>)
    ensures
        (exists|j: int| 0 <= j < s.len() && mac_of(#[trigger] s[j]) == m) <==> (exists|t: int|
            0 <= t < first_per_mac(s).len() && mac_of(#[trigger] first_per_mac(s)[t]) == m),
    decreases s.len(),
{
    if s.len() > 0 {
        let p = s.drop_last();
        let k = first_per_mac(p);
        lemma_first_per_mac_keeps_macs(p, m);
        if exists|j: int| 0 <= j < s.len() && mac_of(#[trigger] s[j]) == m {
            let j = choose|j: int| 0 <= j < s.len() && mac_of(#[trigger] s[j]) == m;
            if j < p.len() {
                assert(p[j] == s[j]);
                let t = choose|t: int| 0 <= t < k.len() && mac_of(#[trigger] k[t]) == m;
                assert(first_per_mac(s)[t] == k[t]);
            } else if first_of_mac(s, s.len() - 1) {
                assert(first_per_mac(s)[k.len() as int] == s.last());
            } else {
                let j2 = choose|j2: int| 0 <= j2 < s.len() - 1 && mac_of(#[trigger] s[j2]) == mac_of(s[s.len() - 1]);
                assert(p[j2] == s[j2]);
                let t = choose|t: int| 0 <= t < k.len() && mac_of(#[trigger] k[t]) == m;
                assert(first_per_mac(s)[t] == k[t]);
            }
        }
        if exists|t: int| 0 <= t < first_per_mac(s).len() && mac_of(#[trigger] first_per_mac(s)[t]) == m {
            let t = choose|t: int| 0 <= t < first_per_mac(s).len() && mac_of(#[trigger] first_per_mac(s)[t]) == m;
            if t < k.len() {
                assert(first_per_mac(s)[t] == k[t]);
                let j = choose|j: int| 0 <= j < p.len() && mac_of(#[trigger] p[j]) == m;
                assert(s[j] == p[j]);
            } else {
                assert(mac_of(s[s.len() - 1]) == m);
            }
        }
    }
}

fn same_mac(a: &[u8; 6], b: &[u8; 6]) -> (r: bool)
    ensures
        r == (a@ == b@),
{
    let mut i: usize = 0;
    while i < 6
        invariant
            i <= 6,
            a@.len() == 6 && b@.len() == 6,
            forall|j: int| 0 <= j < i ==> a@[j] == b@[j],
        decreases 6 - i,
    {
        if a[i] != b[i] {
            return false;
        }
        i = i + 1;
    }
    assert(a@ =~= b@);
    true
}

/// Keeps, of the devices that share a MAC address, the first one (and so the
/// first address seen), in the order given.
pub fn dedup_by_mac(devices: Vec<Device>) -> (r: Vec<Device>)
    ensures
        r@ == first_per_mac(devices@),
{
    let ghost all = devices@;
    let mut rest = devices;
    let mut result: Vec<Device> = Vec::new();
    let ghost mut i: int = 0;
    while rest.len() > 0
        invariant
            0 <= i <= all.len(),
            rest@ == all.subrange(i, all.len() as int),
            result@ == first_per_mac(all.subrange(0, i)),
        decreases rest@.len(),
    {
        let d = rest.remove(0);
        let ghost prefix = all.subrange(0, i + 1);
        assert(d == all[i]);
        assert(prefix.drop_last() =~= all.subrange(0, i));
        assert(rest@ =~= all.subrange(i + 1, all.len() as int));
        let mut seen = false;
        let mut t: usize = 0;
        while t < result.len()
            invariant
                t <= result@.len(),
                seen == (exists|u: int| 0 <= u < t && mac_of(#[trigger] result@[u]) == mac_of(d)),
            decreases result@.len() - t,
        {
            if same_mac(&result[t].info().mac, &d.info().mac) {
                seen = true;
            }
            t = t + 1;
        }
        proof {
            lemma_first_per_mac_keeps_macs(all.subrange(0, i), mac_of(d));
            if first_of_mac(prefix, i) {
                assert forall|j: int| 0 <= j < i implies mac_of(#[trigger] all.subrange(0, i)[j]) != mac_of(d) by {
                    assert(all.subrange(0, i)[j] == prefix[j]);
                }
            } else {
                let j = choose|j: int| 0 <= j < i && mac_of(#[trigger] prefix[j]) == mac_of(prefix[i]);
                assert(all.subrange(0, i)[j] == prefix[j]);
            }
        }
        if !seen {
            result.push(d);
        }
        proof {
            i = i + 1;
        }
    }
    assert(all.subrange(0, i) =~= all);
    result
}

} // verus!
