use lifx_core::{BuildOptions, Message, RawMessage, Service, HSBK};
use lifx_discovery::{
    broadcast_endpoint, discovery_request, frame_is_well_formed, BulbColor, CodecError, Delivery,
    DeviceRegistry, Endpoint, Header, Hsbk, IpAddress, LoopStep, Notice, Payload, ReadEvent, PORT,
};

const SESSION: u32 = 0x1337C0D3;

fn device_at(port: u16) -> Endpoint {
    Endpoint { ip: IpAddress::V4(0xC0A8_0105), port }
}

fn reply(session: u32, target: u64, message: Message) -> Vec<u8> {
    let options = BuildOptions { target: Some(target), source: session, ..Default::default() };
    RawMessage::build(&options, message).unwrap().pack().unwrap()
}

fn service_reply(session: u32, target: u64, port: u32) -> Vec<u8> {
    reply(session, target, Message::StateService { service: Service::UDP, port })
}

fn light_state() -> Message {
    Message::LightState {
        color: HSBK { hue: 120, saturation: 65535, brightness: 32768, kelvin: 3500 },
        reserved: 0,
        power: 65535,
        label: lifx_core::LifxString::new(c"Kitchen"),
        reserved2: 0,
    }
}

#[test]
fn discovery_request_is_tagged_broadcast() {
    let bytes = discovery_request(SESSION);
    assert_eq!(bytes.len(), 36);
    let raw = RawMessage::unpack(&bytes).unwrap();
    assert_eq!(raw.frame.source, SESSION);
    assert!(raw.frame.tagged);
    assert_eq!(raw.frame_addr.target, 0);
    assert_eq!(Message::from_raw(&raw).unwrap(), Message::GetService);
    let to = broadcast_endpoint();
    assert_eq!(to, Endpoint { ip: IpAddress::V4(0xFFFF_FFFF), port: 56700 });
    assert_eq!(PORT, 56700);
}

#[test]
fn discovery_request_exact_bytes() {
    let bytes = discovery_request(0x0403_0201);
    let mut expected = vec![36u8, 0, 0, 0x34, 1, 2, 3, 4];
    expected.extend(std::iter::repeat(0u8).take(24));
    expected.extend([2u8, 0, 0, 0]);
    assert_eq!(bytes, expected);
    assert!(frame_is_well_formed(&bytes));
}

#[test]
fn service_reply_registers_device() {
    let mut reg = DeviceRegistry::new();
    let from = device_at(56700);
    let d = reg.receive(SESSION, &service_reply(SESSION, 0xABCD, 56700), from);
    assert_eq!(d, Delivery::Handled { target: 0xABCD, notice: Notice::Quiet });
    assert_eq!(reg.len(), 1);
    assert_eq!(reg.get(0xABCD).unwrap().address, from);
}

#[test]
fn service_on_other_port_is_noticed() {
    let mut reg = DeviceRegistry::new();
    let from = device_at(56700);
    let d = reg.receive(SESSION, &service_reply(SESSION, 0xABCD, 56701), from);
    assert_eq!(
        d,
        Delivery::Handled {
            target: 0xABCD,
            notice: Notice::UnknownService { ip: IpAddress::V4(0xC0A8_0105), port: 56701 }
        }
    );
    assert_eq!(reg.len(), 1);
    assert_eq!(reg.get(0xABCD).unwrap().address, from);
}

#[test]
fn state_report_updates_record() {
    let mut reg = DeviceRegistry::new();
    let from = device_at(56700);
    reg.receive(SESSION, &service_reply(SESSION, 0xABCD, 56700), from);
    let d = reg.receive(SESSION, &reply(SESSION, 0xABCD, light_state()), from);
    assert_eq!(d, Delivery::Handled { target: 0xABCD, notice: Notice::StateRecorded });
    let bulb = reg.get(0xABCD).unwrap();
    assert_eq!(
        bulb.color,
        BulbColor::Known(Hsbk { hue: 120, saturation: 65535, brightness: 32768, kelvin: 3500 })
    );
    assert_eq!(bulb.power, Some(65535));
    assert_eq!(bulb.label.as_deref(), Some("Kitchen"));
    assert_eq!(reg.len(), 1);
}

#[test]
fn foreign_session_is_ignored() {
    let mut reg = DeviceRegistry::new();
    reg.receive(SESSION, &service_reply(SESSION, 0x1, 56700), device_at(56700));
    let d = reg.receive(SESSION, &service_reply(0xDEAD_BEEF, 0x2, 56700), device_at(56700));
    assert_eq!(d, Delivery::ForeignSession);
    assert_eq!(reg.len(), 1);
    assert!(reg.get(0x2).is_none());
}

#[test]
fn broadcast_target_is_ignored() {
    let mut reg = DeviceRegistry::new();
    let d = reg.receive(SESSION, &discovery_request(SESSION), device_at(56700));
    assert_eq!(d, Delivery::Broadcast);
    assert_eq!(reg.len(), 0);
}

#[test]
fn known_device_moves_address() {
    let mut reg = DeviceRegistry::new();
    reg.receive(SESSION, &service_reply(SESSION, 0xABCD, 56700), device_at(56700));
    let moved = Endpoint { ip: IpAddress::V4(0x0A00_0002), port: 56700 };
    reg.receive(SESSION, &service_reply(SESSION, 0xABCD, 56700), moved);
    assert_eq!(reg.len(), 1);
    assert_eq!(reg.get(0xABCD).unwrap().address, moved);
}

#[test]
fn interleaved_deliveries_keep_every_device() {
    let mut reg = DeviceRegistry::new();
    let a = device_at(1000);
    let b = device_at(2000);
    let c = Endpoint { ip: IpAddress::V6(1), port: 3000 };
    let order = [(1u64, a), (2, b), (1, c), (3, a), (2, a), (3, b)];
    for (target, from) in order {
        reg.accept(SESSION, Header { session: SESSION, target }, from, Ok(Payload::Other));
    }
    assert_eq!(reg.len(), 3);
    assert_eq!(reg.get(1).unwrap().address, c);
    assert_eq!(reg.get(2).unwrap().address, a);
    assert_eq!(reg.get(3).unwrap().address, b);
}

#[test]
fn malformed_datagram_does_not_stop_loop() {
    let mut reg = DeviceRegistry::new();
    let junk = ReadEvent::Datagram { bytes: vec![1, 2, 3], from: device_at(56700) };
    assert_eq!(reg.step(SESSION, junk), LoopStep::Delivered(Delivery::Malformed));
    let good = ReadEvent::Datagram {
        bytes: service_reply(SESSION, 0xABCD, 56700),
        from: device_at(56700),
    };
    assert_eq!(
        reg.step(SESSION, good),
        LoopStep::Delivered(Delivery::Handled { target: 0xABCD, notice: Notice::Quiet })
    );
    assert_eq!(reg.step(SESSION, ReadEvent::Transient), LoopStep::Retry);
    assert_eq!(reg.step(SESSION, ReadEvent::Closed), LoopStep::Stop);
    assert_eq!(reg.len(), 1);
}

#[test]
fn framing_checks() {
    let good = service_reply(SESSION, 0xABCD, 56700);
    assert!(frame_is_well_formed(&good));
    assert!(!frame_is_well_formed(&good[..35]));
    assert!(!frame_is_well_formed(&[]));
    let mut wrong_protocol = good.clone();
    wrong_protocol[2] = 0x01;
    assert!(!frame_is_well_formed(&wrong_protocol));
    let mut not_addressable = good.clone();
    not_addressable[3] &= !0x10;
    assert!(!frame_is_well_formed(&not_addressable));
    let mut too_long = good.clone();
    too_long[0] = 0xFF;
    assert!(!frame_is_well_formed(&too_long));
    let mut too_short = good.clone();
    too_short[0] = 20;
    too_short[1] = 0;
    assert!(!frame_is_well_formed(&too_short));
    let mut reg = DeviceRegistry::new();
    assert_eq!(reg.receive(SESSION, &not_addressable, device_at(1)), Delivery::Malformed);
    assert_eq!(reg.receive(SESSION, &too_long, device_at(1)), Delivery::Malformed);
    assert_eq!(reg.len(), 0);
}

#[test]
fn unknown_message_type_fails_but_registers() {
    let mut bytes = service_reply(SESSION, 0x77, 56700);
    bytes[32] = 0xFF;
    bytes[33] = 0xFF;
    let mut reg = DeviceRegistry::new();
    let d = reg.receive(SESSION, &bytes, device_at(56700));
    assert_eq!(d, Delivery::Failed { target: 0x77, error: CodecError::UnknownMessageType(0xFFFF) });
    assert_eq!(reg.len(), 1);
}

#[test]
fn bad_service_code_is_protocol_error() {
    let mut bytes = service_reply(SESSION, 0x77, 56700);
    bytes[36] = 9;
    let mut reg = DeviceRegistry::new();
    let d = reg.receive(SESSION, &bytes, device_at(56700));
    assert!(matches!(d, Delivery::Failed { target: 0x77, error: CodecError::Protocol(_) }));
}

#[test]
fn truncated_payload_is_io_error() {
    let mut bytes = service_reply(SESSION, 0x77, 56700);
    bytes.truncate(38);
    bytes[0] = 38;
    let mut reg = DeviceRegistry::new();
    let d = reg.receive(SESSION, &bytes, device_at(56700));
    assert_eq!(d, Delivery::Failed { target: 0x77, error: CodecError::Io });
}

#[test]
fn other_messages_are_unhandled() {
    let mut reg = DeviceRegistry::new();
    let d = reg.receive(SESSION, &reply(SESSION, 0x5, Message::StatePower { level: 0 }), device_at(56700));
    assert_eq!(d, Delivery::Handled { target: 0x5, notice: Notice::Unhandled });
    let info = reg.get(0x5).unwrap();
    assert_eq!(info.color, BulbColor::Unknown);
    assert_eq!(info.power, None);
}

#[test]
fn non_udp_service_is_noticed() {
    let mut reg = DeviceRegistry::new();
    let bytes = reply(SESSION, 0x9, Message::StateService { service: Service::Reserved1, port: 56700 });
    let d = reg.receive(SESSION, &bytes, device_at(56700));
    assert_eq!(
        d,
        Delivery::Handled {
            target: 0x9,
            notice: Notice::UnknownService { ip: IpAddress::V4(0xC0A8_0105), port: 56700 }
        }
    );
}
