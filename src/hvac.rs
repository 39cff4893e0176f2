//! HVAC units (air conditioners).

use vstd::prelude::*;

use crate::constants::INITIAL_KEY;
use crate::device_info::DeviceInfo;
use crate::error::{bytes_result, Error};
use crate::models::{hvac_model, hvac_model_spec};
use crate::network::util::{reverse_mac, reversed_mac};
use crate::network::{
    frame_of, hvac_body, hvac_command_flag, hvac_frame, opened, DiscoveryResponse,
    HvacDataCommand, HvacDataMessage, MAX_HVAC_BODY,
};

verus! {

/// An air conditioner.
#[derive(Clone, Debug)]
pub struct HvacDevice {
    /// Base information about the device.
    pub info: DeviceInfo,
}

/// The friendly model of an HVAC unit with model code `code`.
pub open spec fn hvac_friendly_model(code: u16) -> Seq<char> {
    match hvac_model_spec(code) {
        Some(m) => m@,
        None => "Unknown"@,
    }
}

impl HvacDevice {
    /// Creates an HVAC unit named `name` at `addr` from its discovery reply;
    /// it is not yet authenticated.
    pub fn new(name: &str, addr: [u8; 4], response: DiscoveryResponse) -> (r: HvacDevice)
        ensures
            r.info.address == addr,
            r.info.mac@ == reversed_mac(response.mac@),
            r.info.model_code == response.model_code,
            r.info.friendly_type@ == "HVAC"@,
            r.info.friendly_model@ == hvac_friendly_model(response.model_code),
            r.info.name@ == name@,
            r.info.is_locked == response.is_locked,
            r.info.unauthenticated(),
    {
        let friendly_model = match hvac_model(response.model_code) {
            Some(m) => m,
            None => "Unknown",
        };
        HvacDevice {
            info: DeviceInfo {
                address: addr,
                mac: reverse_mac(response.mac),
                model_code: response.model_code,
                friendly_model: friendly_model.to_owned(),
                friendly_type: "HVAC".to_owned(),
                name: name.to_owned(),
                is_locked: response.is_locked,
                auth_id: 0,
                key: INITIAL_KEY,
            },
        }
    }

    /// The frame that sends `command` with `payload`, with message count `count`.
    pub fn command_frame_with_count(&self, count: u16, payload: &[u8], command: HvacDataCommand) -> (r: Result<Vec<u8>, Error>)
        ensures
            payload@.len() <= MAX_HVAC_BODY ==> bytes_result(r) == Ok::<Seq<u8>, Error>(
                frame_of(
                    self.info.model_code,
                    0x006A,
                    count | 0x8000,
                    reversed_mac(self.info.mac@),
                    self.info.auth_id,
                    hvac_frame(hvac_command_flag(command), payload@),
                    self.info.key@,
                ),
            ),
            payload@.len() > MAX_HVAC_BODY ==> r is Err,
    {
        let packed = HvacDataMessage::new(command).pack_with_payload(payload)?;
        self.info.command_frame_with_count::<HvacDataMessage>(count, packed.as_slice())
    }

    /// The frame that sends `command` with `payload`, with a random message count.
    pub fn command_frame(&self, payload: &[u8], command: HvacDataCommand) -> (r: Result<Vec<u8>, Error>)
        ensures
            payload@.len() <= MAX_HVAC_BODY ==> (r matches Ok(f) && exists|count: u16|
                0x8000 <= count <= 0xFFFF && #[trigger] f@ == frame_of(
                    self.info.model_code,
                    0x006A,
                    count,
                    reversed_mac(self.info.mac@),
                    self.info.auth_id,
                    hvac_frame(hvac_command_flag(command), payload@),
                    self.info.key@,
                )),
            payload@.len() > MAX_HVAC_BODY ==> r is Err,
    {
        let packed = HvacDataMessage::new(command).pack_with_payload(payload)?;
        self.info.command_frame::<HvacDataMessage>(packed.as_slice())
    }

    /// The body of the unit's reply `frame`.
    pub fn read_reply(&self, frame: Vec<u8>) -> (r: Result<Vec<u8>, Error>)
        ensures
            bytes_result(r) == (match opened(frame@, self.info.key@) {
                Ok(p) => hvac_body(p),
                Err(e) => Err(e),
            }),
    {
        let payload = self.info.open_reply(frame)?;
        HvacDataMessage::unpack_with_payload(payload.as_slice())
    }
}

} // verus!
