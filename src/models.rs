//! Known device models and their model codes.

use vstd::prelude::*;

verus! {

/// The models of Broadlink devices that have a name of their own.
#[derive(Clone, Copy, Debug, PartialEq, Eq, Structural)]
pub enum BroadlinkDevice {
    Rm4Pro,
    Unknown,
}

impl BroadlinkDevice {
    /// The model with code `code`.
    pub fn from_code(code: u16) -> (r: BroadlinkDevice)
        ensures
            r == (if code == 0x649B {
                BroadlinkDevice::Rm4Pro
            } else {
                BroadlinkDevice::Unknown
            }),
    {
        if code == 0x649B {
            BroadlinkDevice::Rm4Pro
        } else {
            BroadlinkDevice::Unknown
        }
    }
}

/// The friendly model of a remote with model code `code`, if it is one.
pub open spec fn remote_model_spec(code: u16) -> Option<&'static str> {
    if code == 0x5218 {
        Some("RM4C Pro")
    } else if code == 0x6184 {
        Some("RMC4 Pro")
    } else if code == 0x520B || code == 0x5213 || code == 0x6026 || code == 0x61A2 || code
        == 0x649B || code == 0x653C {
        Some("RM4 Pro")
    } else {
        None
    }
}

/// The friendly model of an HVAC unit with model code `code`, if it is one.
pub open spec fn hvac_model_spec(code: u16) -> Option<&'static str> {
    if code == 0x4E2A {
        Some("Licensed manufacturer")
    } else {
        None
    }
}

/// Looks up the friendly model of a remote's model code.
pub fn remote_model(code: u16) -> (r: Option<&'static str>)
    ensures
        r == remote_model_spec(code),
{
    if code == 0x5218 {
        Some("RM4C Pro")
    } else if code == 0x6184 {
        Some("RMC4 Pro")
    } else if code == 0x520B || code == 0x5213 || code == 0x6026 || code == 0x61A2 || code
        == 0x649B || code == 0x653C {
        Some("RM4 Pro")
    } else {
        None
    }
}

/// Looks up the friendly model of an HVAC unit's model code.
pub fn hvac_model(code: u16) -> (r: Option<&'static str>)
    ensures
        r == hvac_model_spec(code),
{
    if code == 0x4E2A {
        Some("Licensed manufacturer")
    } else {
        None
    }
}

} // verus!
