//! The authentication request and its response.

use vstd::prelude::*;
use vstd::string::StringSliceAdditionalSpecFns;

use crate::error::Error;
use crate::network::util::{push_bytes, push_zeros, read_le32, to_array, zeros};
use crate::traits::CommandTrait;

verus! {

/// The size of an authentication request.
pub const AUTHENTICATION_SIZE: usize = 0x50;

/// The size of an authentication response.
pub const AUTHENTICATION_RESPONSE_SIZE: usize = 0x14;

/// The 32-byte name field: the first 32 bytes of `name`, padded with NULs.
pub open spec fn name_field(name: Seq<u8>) -> Seq<u8> {
    Seq::new(32, |i: int| if i < name.len() { name[i] } else { 0u8 })
}

/// The packed authentication request of a device named `name` (as bytes):
/// the client id of sixteen 0x31 bytes at 0x04, the magic 0x01 bytes at 0x1E
/// and 0x2D, and the name at 0x30.
pub open spec fn authentication_bytes(name: Seq<u8>) -> Seq<u8> {
    zeros(4) + Seq::new(16, |i: int| 0x31u8) + zeros(10) + seq![1u8] + zeros(14) + seq![1u8]
        + zeros(2) + name_field(name)
}

/// A message used to authenticate with a device.
#[derive(Clone, Copy, Debug)]
pub struct AuthenticationMessage {
    /// Client id; any stable token is accepted.
    id: [u8; 16],
    /// Magic value, always 1.
    magic0: u8,
    /// Magic value, always 1.
    magic1: u8,
    /// The device's name, NUL-padded.
    name: [u8; 0x20],
}

/// The response to an authentication request.
#[derive(Clone, Copy, Debug, PartialEq, Eq)]
pub struct AuthenticationResponse {
    /// The session's authentication id.
    pub id: u32,
    /// The session's encryption key.
    pub key: [u8; 16],
}

impl AuthenticationMessage {
    /// The packed bytes of this message.
    pub closed spec fn packed(self) -> Seq<u8> {
        zeros(4) + self.id@ + zeros(10) + seq![self.magic0] + zeros(14) + seq![self.magic1]
            + zeros(2) + self.name@
    }

    /// Creates the request for a device named `name`; a name longer than 32
    /// bytes is cut to 32.
    pub fn new(name: &str) -> (r: AuthenticationMessage)
        ensures
            r.packed() == authentication_bytes(name.spec_bytes()),
    {
        let bytes = name.as_bytes();
        let mut fixed_name = [0u8; 0x20];
        let max: usize = if bytes.len() > 0x20 {
            0x20
        } else {
            bytes.len()
        };
        let mut i: usize = 0;
        while i < max
            invariant
                i <= max <= 0x20,
                max <= bytes@.len(),
                max == 0x20 || max == bytes@.len(),
                fixed_name@.len() == 0x20,
                forall|j: int| 0 <= j < i ==> fixed_name@[j] == bytes@[j],
                forall|j: int| i <= j < 0x20 ==> fixed_name@[j] == 0,
            decreases max - i,
        {
            fixed_name[i] = bytes[i];
            i = i + 1;
        }
        let r = AuthenticationMessage { id: [0x31u8; 16], magic0: 1, magic1: 1, name: fixed_name };
        assert(fixed_name@ =~= name_field(bytes@));
        assert(r.id@ =~= Seq::new(16, |i: int| 0x31u8));
        r
    }

    /// Packs the message.
    pub fn pack(&self) -> (r: [u8; 0x50])
        ensures
            r@ == self.packed(),
    {
        let mut v: Vec<u8> = Vec::new();
        push_zeros(&mut v, 4);
        push_bytes(&mut v, self.id.as_slice());
        push_zeros(&mut v, 10);
        v.push(self.magic0);
        push_zeros(&mut v, 14);
        v.push(self.magic1);
        push_zeros(&mut v, 2);
        push_bytes(&mut v, self.name.as_slice());
        assert(v@ =~= self.packed());
        to_array(&v)
    }
}

impl AuthenticationResponse {
    /// Reads a response from the first 0x14 bytes of `bytes`: the id at 0x00
    /// and the key at 0x04.
    pub fn unpack_from_slice(bytes: &[u8]) -> (r: Result<AuthenticationResponse, Error>)
        ensures
            bytes@.len() < 0x14 ==> r == Err::<AuthenticationResponse, Error>(
                Error::ShortReply { expected: 0x14, got: bytes@.len() as usize },
            ),
            bytes@.len() >= 0x14 ==> (r matches Ok(a) && a.id == read_le32(bytes@.subrange(0, 4))
                && a.key@ == bytes@.subrange(4, 0x14)),
    {
        if bytes.len() < AUTHENTICATION_RESPONSE_SIZE {
            return Err(Error::ShortReply { expected: AUTHENTICATION_RESPONSE_SIZE, got: bytes.len() });
        }
        let id = bytes[0] as u32 + 0x100 * (bytes[1] as u32) + 0x10000 * (bytes[2] as u32)
            + 0x1000000 * (bytes[3] as u32);
        let mut key = [0u8; 16];
        let mut i: usize = 0;
        while i < 16
            invariant
                i <= 16,
                bytes@.len() >= 0x14,
                key@.len() == 16,
                forall|j: int| 0 <= j < i ==> key@[j] == bytes@[4 + j],
            decreases 16 - i,
        {
            key[i] = bytes[4 + i];
            i = i + 1;
        }
        assert(key@ =~= bytes@.subrange(4, 0x14));
        Ok(AuthenticationResponse { id, key })
    }
}

impl CommandTrait for AuthenticationMessage {
    open spec fn spec_packet_type() -> u16 {
        0x0065
    }

    fn packet_type() -> (r: u16) {
        0x0065
    }
}

} // verus!
