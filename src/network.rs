//! Messages sent over the wire to a Broadlink device.

mod air_cond;
mod authentication;
mod command;
mod data;
mod discovery;
mod hvac_data;
mod remote_data;
pub mod util;
mod wireless_connection;

pub use air_cond::{
    lemma_air_cond_state_round_trip, lemma_prepared_magic, lemma_target_temp_round_trip,
    AirCondInfo, AirCondState, AIR_COND_STATE_SIZE,
};
pub use authentication::{
    authentication_bytes, name_field, AuthenticationMessage, AuthenticationResponse,
};
pub use command::{
    cbc_decrypt, cbc_encrypt, command_magic, decrypted, frame_of, header_of,
    lemma_command_checksum_holds, lemma_command_round_trip, opened, padded_len, CommandMessage,
};
pub use data::DataMessage;
pub use discovery::{
    discovery_bytes, discovery_layout, lemma_discovery_checksum_holds, DiscoveryMessage,
    DiscoveryResponse, LocalTime, DISCOVERY_PORT,
};
pub use hvac_data::{
    hvac_body, hvac_command_flag, hvac_frame, hvac_unsealed, lemma_codes_round_trip,
    lemma_hvac_round_trip, HvacDataCommand, HvacDataMessage, HvacMode, HvacPreset, HvacSpeed,
    HvacSwHoriz, HvacSwVert, MAX_HVAC_BODY,
};
pub use remote_data::{
    lemma_remote_round_trip, remote_body, remote_frame, RemoteDataCommand, RemoteDataMessage,
    MAX_REMOTE_BODY,
};
pub use wireless_connection::{
    lemma_wireless_checksum_holds, padded32, wireless_bytes, wireless_layout, WirelessConnection,
    WirelessConnectionMessage,
};
