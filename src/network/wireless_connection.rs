//! The message that asks a device in setup mode to join a Wi-Fi network.

use vstd::prelude::*;
use vstd::string::StringSliceAdditionalSpecFns;

use crate::error::{Error, Field};
use crate::network::util::{
    checksum, checksum_holds, checksum_of, le16, push_bytes, push_le16, push_zeros, to_array,
    zero_field, zeros,
};

verus! {

/// The credentials of a wireless network.
#[derive(Clone, Copy, Debug)]
pub enum WirelessConnection<'a> {
    /// A network without security: its SSID.
    Open(&'a str),
    /// A WEP network: SSID and key.
    WEP(&'a str, &'a str),
    /// A WPA v1 network: SSID and key.
    WPA1(&'a str, &'a str),
    /// A WPA v2 network: SSID and key.
    WPA2(&'a str, &'a str),
    /// A network with both WPA v1 and v2: SSID and key.
    WPA(&'a str, &'a str),
}

/// The longest SSID or password.
pub const MAX_CREDENTIAL: usize = 32;

/// `s` padded with NULs to 32 bytes.
pub open spec fn padded32(s: Seq<u8>) -> Seq<u8> {
    s + zeros((32 - s.len()) as nat)
}

/// The join request for `ssid` and `pass` with security mode `mode`,
/// carrying `c` in its checksum field.
pub open spec fn wireless_layout(ssid: Seq<u8>, pass: Seq<u8>, mode: u8, c: u16) -> Seq<u8> {
    (((zeros(32) + le16(c) + zeros(4)).push(0x14u8) + zeros(29) + padded32(ssid) + padded32(
        pass,
    )).push(ssid.len() as u8).push(pass.len() as u8).push(mode)).push(0u8)
}

/// The join request with its checksum: the envelope checksum of the request
/// taken with a zero checksum field.
pub open spec fn wireless_bytes(ssid: Seq<u8>, pass: Seq<u8>, mode: u8) -> Seq<u8> {
    wireless_layout(ssid, pass, mode, checksum_of(wireless_layout(ssid, pass, mode, 0)))
}

/// The message that carries wireless credentials to a device.
#[derive(Clone, Debug)]
pub struct WirelessConnectionMessage {
    /// The envelope checksum.
    checksum: u16,
    /// The SSID, at most 32 bytes.
    ssid: Vec<u8>,
    /// The password, at most 32 bytes.
    password: Vec<u8>,
    /// 0 none, 1 WEP, 2 WPA1, 3 WPA2, 4 WPA1 and WPA2.
    security_mode: u8,
}

impl<'a> WirelessConnection<'a> {
    /// The SSID, password and security mode of these credentials.
    pub open spec fn parts(self) -> (Seq<u8>, Seq<u8>, u8) {
        match self {
            WirelessConnection::Open(ssid) => (ssid.spec_bytes(), Seq::empty(), 0),
            WirelessConnection::WEP(ssid, pass) => (ssid.spec_bytes(), pass.spec_bytes(), 1),
            WirelessConnection::WPA1(ssid, pass) => (ssid.spec_bytes(), pass.spec_bytes(), 2),
            WirelessConnection::WPA2(ssid, pass) => (ssid.spec_bytes(), pass.spec_bytes(), 3),
            WirelessConnection::WPA(ssid, pass) => (ssid.spec_bytes(), pass.spec_bytes(), 4),
        }
    }

    /// Builds the join request. An SSID or a password longer than 32 bytes is
    /// refused.
    pub fn to_message(&self) -> (r: Result<WirelessConnectionMessage, Error>)
        ensures
            self.parts().0.len() > 32 ==> r == Err::<WirelessConnectionMessage, Error>(
                Error::FieldTooLong { field: Field::Ssid, limit: 32 },
            ),
            self.parts().0.len() <= 32 && self.parts().1.len() > 32 ==> r == Err::<
                WirelessConnectionMessage,
                Error,
            >(Error::FieldTooLong { field: Field::Password, limit: 32 }),
            self.parts().0.len() <= 32 && self.parts().1.len() <= 32 ==> (r matches Ok(m)
                && m.wf() && m.packed() == wireless_bytes(
                self.parts().0,
                self.parts().1,
                self.parts().2,
            )),
    {
        let (ssid, pass, security_mode): (&str, &str, u8) = match *self {
            WirelessConnection::Open(ssid) => (ssid, "", 0),
            WirelessConnection::WEP(ssid, pass) => (ssid, pass, 1),
            WirelessConnection::WPA1(ssid, pass) => (ssid, pass, 2),
            WirelessConnection::WPA2(ssid, pass) => (ssid, pass, 3),
            WirelessConnection::WPA(ssid, pass) => (ssid, pass, 4),
        };
        proof {
            reveal_strlit("");
        }
        let ssid_bytes = ssid.as_bytes();
        let pass_bytes = pass.as_bytes();
        if ssid_bytes.len() > MAX_CREDENTIAL {
            return Err(Error::FieldTooLong { field: Field::Ssid, limit: MAX_CREDENTIAL });
        }
        if pass_bytes.len() > MAX_CREDENTIAL {
            return Err(Error::FieldTooLong { field: Field::Password, limit: MAX_CREDENTIAL });
        }
        let mut s: Vec<u8> = Vec::new();
        push_bytes(&mut s, ssid_bytes);
        let mut p: Vec<u8> = Vec::new();
        push_bytes(&mut p, pass_bytes);
        let mut msg = WirelessConnectionMessage { checksum: 0, ssid: s, password: p, security_mode };
        let unsealed = msg.pack_bytes();
        msg.checksum = checksum(unsealed.as_slice());
        Ok(msg)
    }
}

impl WirelessConnectionMessage {
    /// SSID and password fit their fields.
    pub closed spec fn wf(self) -> bool {
        self.ssid@.len() <= 32 && self.password@.len() <= 32
    }

    /// The packed bytes of this message.
    pub closed spec fn packed(self) -> Seq<u8> {
        wireless_layout(self.ssid@, self.password@, self.security_mode, self.checksum)
    }

    fn pack_bytes(&self) -> (r: Vec<u8>)
        requires
            self.wf(),
        ensures
            r@ == self.packed(),
    {
        let mut v: Vec<u8> = Vec::new();
        push_zeros(&mut v, 32);
        push_le16(&mut v, self.checksum);
        push_zeros(&mut v, 4);
        v.push(0x14);
        push_zeros(&mut v, 29);
        push_bytes(&mut v, self.ssid.as_slice());
        push_zeros(&mut v, 32 - self.ssid.len());
        push_bytes(&mut v, self.password.as_slice());
        push_zeros(&mut v, 32 - self.password.len());
        v.push(self.ssid.len() as u8);
        v.push(self.password.len() as u8);
        v.push(self.security_mode);
        v.push(0);
        proof {
            let (s, p) = (self.ssid@, self.password@);
            let pre = (zeros(32) + le16(self.checksum) + zeros(4)).push(0x14u8) + zeros(29);
            assert(pre + s + zeros((32 - s.len()) as nat) + p + zeros((32 - p.len()) as nat) =~= pre
                + padded32(s) + padded32(p));
        }
        v
    }

    /// Packs the message: 136 bytes.
    pub fn pack(&self) -> (r: [u8; 136])
        requires
            self.wf(),
        ensures
            r@ == self.packed(),
    {
        let v = self.pack_bytes();
        to_array(&v)
    }
}

/// Every join request carries, at 32, the envelope checksum of its bytes taken
/// with that field zeroed.
pub proof fn lemma_wireless_checksum_holds(ssid: Seq<u8>, pass: Seq<u8>, mode: u8)
    requires
        ssid.len() <= 32,
        pass.len() <= 32,
    ensures
        checksum_holds(wireless_bytes(ssid, pass, mode), 32),
{
    let c = checksum_of(wireless_layout(ssid, pass, mode, 0));
    let b = wireless_bytes(ssid, pass, mode);
    assert(b[32] == le16(c)[0] && b[33] == le16(c)[1]);
    assert(zero_field(b, 32) =~= wireless_layout(ssid, pass, mode, 0));
}

} // verus!
