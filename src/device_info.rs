use vstd::prelude::*;

use crate::constants::INITIAL_KEY;
use crate::error::{bytes_result, Error};
use crate::network::util::reversed_mac;
use crate::network::{frame_of, opened, CommandMessage};
use crate::traits::CommandTrait;

verus! {

/// The core information about a device.
#[derive(Clone, Debug)]
pub struct DeviceInfo {
    /// The IPv4 address of the device, in natural order.
    pub address: [u8; 4],
    /// The MAC address of the device, in natural order.
    pub mac: [u8; 6],
    /// The model code of the device.
    pub model_code: u16,
    /// The friendly model.
    pub friendly_model: String,
    /// The friendly device type.
    pub friendly_type: String,
    /// The name of the device.
    pub name: String,
    /// Whether the device is locked.
    pub is_locked: bool,
    /// The authentication id of the session; 0 before authentication.
    pub auth_id: u32,
    /// The session key; the initial key before authentication.
    pub key: [u8; 16],
}

impl DeviceInfo {
    /// A copy of this information.
    pub fn duplicate(&self) -> (r: DeviceInfo)
        ensures
            r == *self,
    {
        DeviceInfo {
            address: self.address,
            mac: self.mac,
            model_code: self.model_code,
            friendly_model: self.friendly_model.clone(),
            friendly_type: self.friendly_type.clone(),
            name: self.name.clone(),
            is_locked: self.is_locked,
            auth_id: self.auth_id,
            key: self.key,
        }
    }

    /// Not yet authenticated: no session id and the initial key.
    pub open spec fn unauthenticated(&self) -> bool {
        self.auth_id == 0 && self.key@ == INITIAL_KEY@
    }
}

} // verus!

verus! {

impl DeviceInfo {
    /// The frame of a command of kind `T` carrying `payload`, sent with
    /// message count `count` (its high bit is set) under the session's id and key.
    pub fn command_frame_with_count<T: CommandTrait>(&self, count: u16, payload: &[u8]) -> (r: Result<Vec<u8>, Error>)
        ensures
            bytes_result(r) == Ok::<Seq<u8>, Error>(
                frame_of(
                    self.model_code,
                    T::spec_packet_type(),
                    count | 0x8000,
                    reversed_mac(self.mac@),
                    self.auth_id,
                    payload@,
                    self.key@,
                ),
            ),
    {
        let cmd = CommandMessage::with_count::<T>(count, self.model_code, self.mac, self.auth_id);
        cmd.pack_with_payload(payload, &self.key)
    }

    /// The frame of a command of kind `T` carrying `payload`, with a random
    /// message count in `[0x8000, 0xFFFF]`.
    pub fn command_frame<T: CommandTrait>(&self, payload: &[u8]) -> (r: Result<Vec<u8>, Error>)
        ensures
            r matches Ok(f) && exists|count: u16|
                0x8000 <= count <= 0xFFFF && #[trigger] f@ == frame_of(
                    self.model_code,
                    T::spec_packet_type(),
                    count,
                    reversed_mac(self.mac@),
                    self.auth_id,
                    payload@,
                    self.key@,
                ),
    {
        let cmd = CommandMessage::new::<T>(self.model_code, self.mac, self.auth_id);
        let r = cmd.pack_with_payload(payload, &self.key);
        proof {
            let count = cmd.spec_count();
            assert(0x8000 <= count <= 0xFFFF);
        }
        r
    }

    /// The payload of a device's reply, decrypted with the session key.
    pub fn open_reply(&self, bytes: Vec<u8>) -> (r: Result<Vec<u8>, Error>)
        ensures
            bytes_result(r) == opened(bytes@, self.key@),
    {
        CommandMessage::unpack_with_payload(bytes, &self.key)
    }
}

} // verus!
