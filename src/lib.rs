//! Client library for the Broadlink family of IR/RF blasters and HVAC
//! controllers: the binary frames of the local UDP protocol, their checksums,
//! the encrypted command envelope and the per-device sub-protocols.

pub mod constants;
mod device;
mod device_info;
mod error;
mod hvac;
mod models;
pub mod network;
mod remote;
pub mod traits;

pub use error::{bytes_result, ChecksumKind, Error, Field};
pub use device_info::DeviceInfo;
pub use models::{hvac_model, hvac_model_spec, remote_model, remote_model_spec, BroadlinkDevice};
pub use remote::{
    frequency_locked, learn_next, remote_friendly_model, steps_left, LearnSession, LearnStage,
    LearnStep, RemoteDevice, LEARN_ATTEMPTS, LEARN_INTERVAL_SECS,
};
pub use hvac::{hvac_friendly_model, HvacDevice};
pub use device::{
    chars_before_nul, dedup_by_mac, discovered_info, first_per_mac, known_model, Device,
};
