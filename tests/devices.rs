use rbroadlink::constants;
use rbroadlink::network::{
    AirCondState, AuthenticationMessage, CommandMessage, HvacDataCommand, HvacDataMessage,
    RemoteDataCommand, RemoteDataMessage,
};
use rbroadlink::traits::DeviceTrait;
use rbroadlink::{dedup_by_mac, Device, Error, LearnSession, LearnStep};

fn discovery_reply(code: u16, name: &str) -> Vec<u8> {
    let mut reply = vec![0u8; 128];
    reply[52..54].copy_from_slice(&code.to_le_bytes());
    reply[58..64].copy_from_slice(&[6, 5, 4, 3, 2, 1]);
    reply[64..64 + name.len()].copy_from_slice(name.as_bytes());
    reply[127] = 1;
    reply
}

fn device_reply(model: u16, payload: &[u8], key: &[u8; 16]) -> Vec<u8> {
    CommandMessage::with_count::<RemoteDataMessage>(0, model, [1, 2, 3, 4, 5, 6], 0)
        .pack_with_payload(payload, key)
        .unwrap()
}

fn authenticated_remote() -> (Device, [u8; 16]) {
    let mut device = Device::from_discovery([192, 168, 1, 10], &discovery_reply(0x649B, "Living room")).unwrap();
    let key: [u8; 16] = [3, 1, 4, 1, 5, 9, 2, 6, 5, 3, 5, 8, 9, 7, 9, 3];
    let mut payload = vec![0x78, 0x56, 0x34, 0x12];
    payload.extend_from_slice(&key);
    let reply = device_reply(0x649B, &payload, &constants::INITIAL_KEY);
    device.complete_authentication(reply).unwrap();
    (device, key)
}

#[test]
fn discovery_reply_makes_a_remote() {
    let device = Device::from_discovery([192, 168, 1, 10], &discovery_reply(0x649B, "Living room")).unwrap();
    let info = device.get_info();
    assert_eq!(info.address, [192, 168, 1, 10]);
    assert_eq!(info.mac, [1, 2, 3, 4, 5, 6]);
    assert_eq!(info.model_code, 0x649B);
    assert_eq!(info.name, "Living room");
    assert_eq!(info.friendly_type, "Remote");
    assert_eq!(info.friendly_model, "RM4 Pro");
    assert!(info.is_locked);
    assert_eq!(info.auth_id, 0);
    assert_eq!(info.key, constants::INITIAL_KEY);
    assert!(device.remote().is_ok());
    assert!(matches!(device.hvac(), Err(Error::WrongVariant)));
}

#[test]
fn discovery_reply_makes_an_hvac_unit() {
    let device = Device::from_discovery([10, 0, 0, 7], &discovery_reply(0x4E2A, "Bedroom")).unwrap();
    let info = device.get_info();
    assert_eq!(info.friendly_type, "HVAC");
    assert_eq!(info.friendly_model, "Licensed manufacturer");
    assert_eq!(info.name, "Bedroom");
    assert!(matches!(device.remote(), Err(Error::WrongVariant)));
}

#[test]
fn discovery_reply_errors() {
    assert!(matches!(
        Device::from_discovery([1, 1, 1, 1], &[0u8; 10]),
        Err(Error::ShortReply { expected: 128, got: 10 })
    ));
    assert!(matches!(
        Device::from_discovery([1, 1, 1, 1], &discovery_reply(0x1234, "x")),
        Err(Error::UnknownModel(0x1234))
    ));
    let mut longer = discovery_reply(0x649B, "x");
    longer.push(0);
    assert!(matches!(
        Device::from_discovery([1, 1, 1, 1], &longer),
        Err(Error::ShortReply { expected: 128, got: 129 })
    ));
    let mut bad_name = discovery_reply(0x649B, "ok");
    bad_name[100] = 0xFF;
    assert!(matches!(
        Device::from_discovery([1, 1, 1, 1], &bad_name),
        Err(Error::DecodeError(rbroadlink::Field::Name))
    ));
}

#[test]
fn authentication_saves_session() {
    let device = Device::from_discovery([192, 168, 1, 10], &discovery_reply(0x649B, "Test 1")).unwrap();
    let frame = device.authentication_frame().unwrap();
    assert_eq!(frame.len(), 0x38 + 0x50);
    assert_eq!(&frame[0x24..0x28], &[0x9B, 0x64, 0x65, 0x00]);
    assert_eq!(&frame[0x2A..0x30], &[6, 5, 4, 3, 2, 1]);
    let opened = CommandMessage::unpack_with_payload(frame, &constants::INITIAL_KEY).unwrap();
    let expected = AuthenticationMessage::new("Test 1").pack();
    assert_eq!(opened[..], expected[..54]);

    let (device, key) = authenticated_remote();
    let info = device.get_info();
    assert_eq!(info.auth_id, 0x12345678);
    assert_eq!(info.key, key);
}

#[test]
fn remote_command_and_reply() {
    let (device, key) = authenticated_remote();
    let remote = device.remote().unwrap();
    let frame = remote.command_frame(&[0xAB, 0xCD], RemoteDataCommand::SendCode).unwrap();
    let opened = CommandMessage::unpack_with_payload(frame.clone(), &key).unwrap();
    assert_eq!(opened, vec![6, 0, 2, 0, 0, 0, 0xAB, 0xCD]);
    assert_eq!(&frame[0x30..0x34], &[0x78, 0x56, 0x34, 0x12]);

    let inner = RemoteDataMessage::new(RemoteDataCommand::GetCode).pack_with_payload(&[9, 8, 7]).unwrap();
    let reply = device_reply(0x649B, &inner, &key);
    assert_eq!(remote.read_reply(reply).unwrap(), vec![9, 8, 7]);
}

#[test]
fn hvac_state_request_and_reply() {
    let device = Device::from_discovery([10, 0, 0, 7], &discovery_reply(0x4E2A, "Bedroom")).unwrap();
    let hvac = device.hvac().unwrap();
    let frame = hvac.command_frame(&[], HvacDataCommand::GetState).unwrap();
    let opened = CommandMessage::unpack_with_payload(frame, &constants::INITIAL_KEY).unwrap();
    assert_eq!(opened, vec![12, 0, 187, 0, 6, 128, 0, 0, 2, 0, 17, 1, 203, 63]);

    let state = [98u8, 32, 0x0F, 64, 1, 104, 0, 0, 34, 0, 16, 0, 7];
    let inner = HvacDataMessage::new(HvacDataCommand::GetState).pack_with_payload(&state).unwrap();
    let reply = device_reply(0x4E2A, &inner, &constants::INITIAL_KEY);
    let body = hvac.read_reply(reply).unwrap();
    assert_eq!(body, state.to_vec());
    let parsed = AirCondState::unpack_from_slice(&body).unwrap();
    assert_eq!(parsed.get_target_temp(), 20);
}

#[test]
fn learn_ir_times_out_after_ten_polls() {
    let (mut session, first) = LearnSession::learn_ir();
    assert_eq!(first, RemoteDataCommand::StartLearningIR);
    let mut polls = 0;
    let mut step = session.advance(&[]);
    while let LearnStep::Poll(RemoteDataCommand::GetCode) = step {
        polls += 1;
        step = session.advance(&[]);
    }
    assert_eq!(polls, 10);
    assert_eq!(step, LearnStep::Failed(Error::LearnTimeout));
    assert!(session.is_finished());
}

#[test]
fn learn_ir_returns_first_code() {
    let (mut session, _) = LearnSession::learn_ir();
    assert_eq!(session.advance(&[0x26]), LearnStep::Poll(RemoteDataCommand::GetCode));
    assert_eq!(session.advance(&[]), LearnStep::Poll(RemoteDataCommand::GetCode));
    assert_eq!(session.advance(&[1, 2, 3]), LearnStep::Learned);
    assert!(session.is_finished());
}

#[test]
fn learn_rf_without_frequency_stops_sweep() {
    let (mut session, first) = LearnSession::learn_rf();
    assert_eq!(first, RemoteDataCommand::SweepRfFrequencies);
    let mut polls = 0;
    let mut step = session.advance(&[]);
    while let LearnStep::Poll(RemoteDataCommand::CheckFrequency) = step {
        polls += 1;
        step = session.advance(&[0]);
    }
    assert_eq!(polls, 10);
    assert_eq!(step, LearnStep::Send(RemoteDataCommand::StopRfSweep));
    assert_eq!(session.advance(&[]), LearnStep::Failed(Error::FrequencyNotFound));
}

#[test]
fn learn_rf_locks_then_learns_or_times_out() {
    let (mut session, _) = LearnSession::learn_rf();
    assert_eq!(session.advance(&[]), LearnStep::Poll(RemoteDataCommand::CheckFrequency));
    assert_eq!(session.advance(&[1, 0x55]), LearnStep::Send(RemoteDataCommand::StartLearningRF));
    assert_eq!(session.advance(&[]), LearnStep::Poll(RemoteDataCommand::GetCode));
    let mut timed_out = session;
    assert_eq!(session.advance(&[4, 5]), LearnStep::Learned);
    let mut step = timed_out.advance(&[]);
    while let LearnStep::Poll(RemoteDataCommand::GetCode) = step {
        step = timed_out.advance(&[]);
    }
    assert_eq!(step, LearnStep::Send(RemoteDataCommand::StopRfSweep));
    assert_eq!(timed_out.advance(&[]), LearnStep::Failed(Error::LearnTimeout));
}

#[test]
fn duplicates_by_mac_keep_first_address() {
    let first = Device::from_discovery([10, 0, 0, 1], &discovery_reply(0x649B, "A")).unwrap();
    let mut other = discovery_reply(0x4E2A, "B");
    other[58] = 9;
    let second = Device::from_discovery([10, 0, 0, 2], &other).unwrap();
    let again = Device::from_discovery([10, 0, 0, 3], &discovery_reply(0x649B, "A")).unwrap();
    let kept = dedup_by_mac(vec![first, second, again]);
    assert_eq!(kept.len(), 2);
    assert_eq!(kept[0].info().address, [10, 0, 0, 1]);
    assert_eq!(kept[1].info().address, [10, 0, 0, 2]);
    assert!(dedup_by_mac(Vec::new()).is_empty());
}
