use rbroadlink::constants;
use rbroadlink::network::util::{checksum, compute_generic_checksum, pick_local_ip, reverse_mac};
use rbroadlink::network::{
    AirCondInfo, AirCondState, AuthenticationResponse, CommandMessage, DiscoveryMessage,
    HvacDataCommand, HvacDataMessage, HvacMode, HvacPreset, HvacSpeed, HvacSwHoriz, HvacSwVert,
    LocalTime, RemoteDataCommand, RemoteDataMessage, WirelessConnection,
};
use rbroadlink::{ChecksumKind, Error, Field};

fn sample_state_bytes() -> [u8; 13] {
    [98, 32, 0x0F, 64, 1, 104, 0, 0, 34, 0, 16, 0, 0]
}

#[test]
fn envelope_checksum_seed_values() {
    assert_eq!(checksum(&[]), 0xBEAF);
    assert_eq!(checksum(&[0x01]), 0xBEB0);
    assert_eq!(checksum(&[0xFF, 0xFF, 0xFF]), ((0xBEAFu32 + 3 * 0xFF) % 0x10000) as u16);
}

#[test]
fn envelope_checksum_wraps_at_sixteen_bits() {
    let data = vec![0xFFu8; 300];
    assert_eq!(checksum(&data), ((0xBEAFu32 + 300 * 0xFF) % 0x10000) as u16);
}

#[test]
fn modbus_crc_check_value() {
    assert_eq!(compute_generic_checksum(b"123456789"), 0x4B37);
    assert_eq!(compute_generic_checksum(&[]), 0xFFFF);
}

#[test]
fn hvac_crc_of_state_request_header() {
    let bytes = [0xBB, 0x00, 0x06, 0x80, 0x00, 0x00, 0x02, 0x00, 0x01, 0x01];
    assert_eq!(compute_generic_checksum(&bytes), 0xFFC6);
}

#[test]
fn reverse_mac_reverses_and_is_involutive() {
    let mac = [1, 2, 3, 4, 5, 6];
    assert_eq!(reverse_mac(mac), [6, 5, 4, 3, 2, 1]);
    assert_eq!(reverse_mac(reverse_mac(mac)), mac);
}

#[test]
fn remote_round_trip_returns_payload() {
    let payload = [0xAB, 0xCD, 0xEF, 0x01, 0x23];
    let packed = RemoteDataMessage::new(RemoteDataCommand::SendCode)
        .pack_with_payload(&payload)
        .unwrap();
    assert_eq!(RemoteDataMessage::unpack_with_payload(&packed).unwrap(), payload.to_vec());
    let empty = RemoteDataMessage::new(RemoteDataCommand::GetCode).pack_with_payload(&[]).unwrap();
    assert_eq!(empty, vec![4, 0, 4, 0, 0, 0]);
    assert_eq!(RemoteDataMessage::unpack_with_payload(&empty).unwrap(), Vec::<u8>::new());
}

#[test]
fn remote_short_reply_is_empty() {
    assert_eq!(RemoteDataMessage::unpack_with_payload(&[1, 2, 3]).unwrap(), Vec::<u8>::new());
}

#[test]
fn remote_reply_with_overlong_length_is_refused() {
    let bytes = [0x20, 0, 4, 0, 0, 0, 1, 2];
    assert_eq!(
        RemoteDataMessage::unpack_with_payload(&bytes),
        Err(Error::DecodeError(Field::PayloadLength))
    );
}

#[test]
fn remote_payload_too_long_is_refused() {
    let payload = vec![1u8; 0xFFFC];
    assert_eq!(
        RemoteDataMessage::new(RemoteDataCommand::SendCode).pack_with_payload(&payload),
        Err(Error::FieldTooLong { field: Field::Payload, limit: 0xFFFB })
    );
}

#[test]
fn hvac_packs_header_body_and_crc() {
    let packed = HvacDataMessage::new(HvacDataCommand::GetState).pack_with_payload(&[]).unwrap();
    assert_eq!(packed, vec![12, 0, 187, 0, 6, 128, 0, 0, 2, 0, 17, 1, 203, 63]);
    let set = HvacDataMessage::new(HvacDataCommand::SetState).pack_with_payload(&[]).unwrap();
    assert_eq!(&set[2..12], &[0xBB, 0x00, 0x06, 0x80, 0x00, 0x00, 0x02, 0x00, 0x01, 0x01]);
    assert_eq!(&set[12..], &[0xC6, 0xFF]);
}

#[test]
fn hvac_round_trip_returns_payload() {
    let payload = sample_state_bytes();
    let packed = HvacDataMessage::new(HvacDataCommand::SetState).pack_with_payload(&payload).unwrap();
    assert_eq!(packed.len(), 12 + 13 + 2);
    assert_eq!(HvacDataMessage::unpack_with_payload(&packed).unwrap(), payload.to_vec());
}

#[test]
fn hvac_reply_errors() {
    assert_eq!(
        HvacDataMessage::unpack_with_payload(&[1, 2, 3]),
        Err(Error::ShortReply { expected: 14, got: 3 })
    );
    let mut packed = HvacDataMessage::new(HvacDataCommand::GetState).pack_with_payload(&[7, 8]).unwrap();
    let mut longer = packed.clone();
    longer.push(0);
    assert_eq!(
        HvacDataMessage::unpack_with_payload(&longer),
        Err(Error::DecodeError(Field::PayloadLength))
    );
    packed[12] ^= 0xFF;
    match HvacDataMessage::unpack_with_payload(&packed) {
        Err(Error::ChecksumMismatch { kind: ChecksumKind::Hvac, .. }) => {}
        other => panic!("unexpected {:?}", other),
    }
}

#[test]
fn air_cond_state_round_trip() {
    let bytes = sample_state_bytes();
    let state = AirCondState::unpack_from_slice(&bytes).unwrap();
    assert!(state.power);
    assert_eq!(state.swing_v, HvacSwVert::Pos2);
    assert_eq!(state.swing_h, HvacSwHoriz::Off);
    assert_eq!(state.fanspeed, HvacSpeed::Mid);
    assert_eq!(state.preset, HvacPreset::Turbo);
    assert_eq!(state.mode, HvacMode::Heat);
    assert!(state.ifeel && !state.sleep && state.health && !state.clean && state.display && !state.mildew);
    assert_eq!(state.get_target_temp(), 20);
    assert_eq!(state.pack(), bytes);
    assert_eq!(AirCondState::unpack_from_slice(&state.pack()).unwrap(), state);
}

#[test]
fn prepare_and_pack_sets_magic() {
    let mut bytes = sample_state_bytes();
    bytes[2] = 0;
    let mut state = AirCondState::unpack_from_slice(&bytes).unwrap();
    let packed = state.prepare_and_pack().unwrap();
    assert_eq!(packed[2] & 0x0F, 0x0F);
    assert_eq!(packed, sample_state_bytes().to_vec());
}

#[test]
fn target_temperature_set_and_get() {
    let mut state = AirCondState::unpack_from_slice(&sample_state_bytes()).unwrap();
    assert_eq!(state.set_target_temp(16), Ok(()));
    assert_eq!(state.get_target_temp(), 16);
    assert_eq!(state.set_target_temp(32), Ok(()));
    assert_eq!(state.get_target_temp(), 32);
    assert_eq!(state.pack()[0] >> 3, 24);
    assert_eq!(state.set_target_temp(15), Err(Error::InvalidTemperature));
    assert_eq!(state.set_target_temp(33), Err(Error::InvalidTemperature));
    assert_eq!(state.get_target_temp(), 32);
}

#[test]
fn air_cond_state_decode_errors() {
    let mut bytes = sample_state_bytes();
    bytes[5] = 7 << 5;
    assert_eq!(AirCondState::unpack_from_slice(&bytes), Err(Error::DecodeError(Field::Mode)));
    assert_eq!(
        AirCondState::unpack_from_slice(&bytes[..5]),
        Err(Error::ShortReply { expected: 13, got: 5 })
    );
}

#[test]
fn air_cond_info_reads_power_and_temperature() {
    let mut bytes = [0u8; 22];
    bytes[1] = 1;
    bytes[5] = 23;
    bytes[21] = 5;
    let info = AirCondInfo::unpack_from_slice(&bytes).unwrap();
    assert!(info.power);
    assert_eq!(info.get_ambient_temp(), 235);
    assert_eq!(
        AirCondInfo::unpack_from_slice(&bytes[..21]),
        Err(Error::ShortReply { expected: 22, got: 21 })
    );
}

#[test]
fn command_round_trip_decrypts_payload() {
    let payload: Vec<u8> = (1..=20).collect();
    let cmd = CommandMessage::with_count::<RemoteDataMessage>(7, 0x649B, [1, 2, 3, 4, 5, 6], 42);
    let frame = cmd.pack_with_payload(&payload, &constants::INITIAL_KEY).unwrap();
    assert_eq!(frame.len(), 0x38 + 32);
    assert_eq!(&frame[0x28..0x2A], &[7, 0x80]);
    assert_eq!(&frame[0x34..0x36], &checksum(&payload).to_le_bytes());
    let opened = CommandMessage::unpack_with_payload(frame, &constants::INITIAL_KEY).unwrap();
    assert_eq!(opened, payload);
}

#[test]
fn command_frame_checksum_is_stable() {
    let cmd = CommandMessage::with_count::<RemoteDataMessage>(9, 0x520B, [9, 8, 7, 6, 5, 4], 3);
    let frame = cmd.pack_with_payload(&[5, 6, 7], &constants::INITIAL_KEY).unwrap();
    let mut zeroed = frame.clone();
    zeroed[0x20] = 0;
    zeroed[0x21] = 0;
    assert_eq!(checksum(&zeroed).to_le_bytes(), [frame[0x20], frame[0x21]]);
}

#[test]
fn command_reply_errors() {
    let cmd = CommandMessage::with_count::<RemoteDataMessage>(9, 0x520B, [9, 8, 7, 6, 5, 4], 3);
    let frame = cmd.pack_with_payload(&[5, 6, 7], &constants::INITIAL_KEY).unwrap();
    let mut corrupted = frame.clone();
    corrupted[0x40] ^= 1;
    match CommandMessage::unpack_with_payload(corrupted, &constants::INITIAL_KEY) {
        Err(Error::ChecksumMismatch { kind: ChecksumKind::Envelope, .. }) => {}
        other => panic!("unexpected {:?}", other),
    }
    assert_eq!(
        CommandMessage::unpack_with_payload(vec![0u8; 10], &constants::INITIAL_KEY),
        Err(Error::ShortReply { expected: 0x38, got: 10 })
    );
    let mut partial = frame[..0x38 + 5].to_vec();
    partial[0x20] = 0;
    partial[0x21] = 0;
    let sum = checksum(&partial).to_le_bytes();
    partial[0x20] = sum[0];
    partial[0x21] = sum[1];
    assert_eq!(
        CommandMessage::unpack_with_payload(partial, &constants::INITIAL_KEY),
        Err(Error::CryptoFailure)
    );
}

#[test]
fn empty_payload_round_trips() {
    let cmd = CommandMessage::with_count::<RemoteDataMessage>(9, 0x520B, [9, 8, 7, 6, 5, 4], 3);
    let header_only = cmd.pack_with_payload(&[], &constants::INITIAL_KEY).unwrap();
    assert_eq!(header_only.len(), 0x38);
    assert_eq!(
        CommandMessage::unpack_with_payload(header_only, &constants::INITIAL_KEY),
        Ok(Vec::new())
    );
}

#[test]
fn random_count_has_high_bit() {
    for _ in 0..20 {
        let header = CommandMessage::new::<RemoteDataMessage>(0x649B, [1, 2, 3, 4, 5, 6], 0).pack();
        let count = u16::from_le_bytes([header[0x28], header[0x29]]);
        assert!(count >= 0x8000);
        assert_eq!(&header[0x26..0x28], &[0x6A, 0x00]);
    }
}

#[test]
fn discovery_checksum_is_stable_and_clock_is_read() {
    let msg = DiscoveryMessage::new([10, 0, 0, 1], 42424, None).unwrap();
    let packed = msg.pack();
    assert!((1..=12).contains(&packed[19]));
    assert!((1..=7).contains(&packed[17]));
    assert_eq!(packed[38], 0x06);
    let mut zeroed = packed;
    zeroed[32] = 0;
    zeroed[33] = 0;
    assert_eq!(checksum(&zeroed).to_le_bytes(), [packed[32], packed[33]]);
}

#[test]
fn discovery_year_out_of_range_is_refused() {
    let time = LocalTime { utc_offset: 0, year: 70000, month: 1, day: 1, hour: 0, minute: 0, weekday: 1 };
    assert!(matches!(
        DiscoveryMessage::new([1, 2, 3, 4], 80, Some(time)),
        Err(Error::DecodeError(Field::Year))
    ));
}

#[test]
fn discovery_time_out_of_range_is_refused() {
    let time = LocalTime { utc_offset: 0, year: 2020, month: 13, day: 1, hour: 0, minute: 0, weekday: 1 };
    assert!(matches!(
        DiscoveryMessage::new([1, 2, 3, 4], 80, Some(time)),
        Err(Error::DecodeError(Field::Time))
    ));
    let time = LocalTime { utc_offset: 0, year: 2020, month: 1, day: 1, hour: 0, minute: 200, weekday: 1 };
    assert!(matches!(
        DiscoveryMessage::new([1, 2, 3, 4], 80, Some(time)),
        Err(Error::DecodeError(Field::Time))
    ));
}

#[test]
fn wireless_credentials_too_long_are_refused() {
    let long = "0123456789012345678901234567890123";
    assert!(matches!(
        WirelessConnection::WPA2(long, "pw").to_message(),
        Err(Error::FieldTooLong { field: Field::Ssid, limit: 32 })
    ));
    assert!(matches!(
        WirelessConnection::WEP("ssid", long).to_message(),
        Err(Error::FieldTooLong { field: Field::Password, limit: 32 })
    ));
    let open = WirelessConnection::Open("Cafe").to_message().unwrap().pack();
    assert_eq!(&open[132..136], &[4, 0, 0, 0]);
    let mut zeroed = open;
    zeroed[32] = 0;
    zeroed[33] = 0;
    assert_eq!(checksum(&zeroed).to_le_bytes(), [open[32], open[33]]);
}

#[test]
fn authentication_response_reads_id_and_key() {
    let mut bytes = vec![0x78, 0x56, 0x34, 0x12];
    bytes.extend(1..=16u8);
    let response = AuthenticationResponse::unpack_from_slice(&bytes).unwrap();
    assert_eq!(response.id, 0x12345678);
    assert_eq!(response.key.to_vec(), (1..=16u8).collect::<Vec<u8>>());
    assert_eq!(
        AuthenticationResponse::unpack_from_slice(&bytes[..10]),
        Err(Error::ShortReply { expected: 0x14, got: 10 })
    );
}

#[test]
fn local_ip_choice() {
    assert_eq!(pick_local_ip(Some([1, 2, 3, 4]), &vec![]), Ok([1, 2, 3, 4]));
    let interfaces = vec![None, Some([127, 0, 0, 1]), Some([192, 168, 0, 2]), Some([10, 0, 0, 1])];
    assert_eq!(pick_local_ip(None, &interfaces), Ok([192, 168, 0, 2]));
    assert_eq!(pick_local_ip(None, &vec![Some([127, 0, 0, 1]), None]), Err(Error::NoLocalAddress));
}
