//! Framing, checksum and sequence-number behaviour of the packet codec.

use tello::{CommandIds, DecodeError, Drone, Message, Package, PackageData, PackageTypes,
    ResponseMsg, UdpCommand};

fn parse_package(bytes: Vec<u8>) -> Package {
    match Message::parse(bytes) {
        Ok(Message::Data(pkg)) => pkg,
        other => panic!("expected a data package, got {:?}", other),
    }
}

#[test]
fn round_trip_framing_keeps_size_cmd_and_payload() {
    let mut command = UdpCommand::new(CommandIds::CalibrateCmd, PackageTypes::X68);
    command.write(&[0xde, 0xad, 0xbe, 0xef, 0x42]);
    let frame = command.serialize(0x1234);
    let pkg = parse_package(frame);
    assert_eq!(pkg.size, 5);
    assert_eq!(pkg.cmd, CommandIds::CalibrateCmd);
    assert_eq!(pkg.sq_nr, 0x1234);
    match pkg.data {
        PackageData::Unknown(raw) => assert_eq!(raw, vec![0xde, 0xad, 0xbe, 0xef, 0x42]),
        other => panic!("expected an opaque payload, got {:?}", other),
    }
}

#[test]
fn round_trip_framing_empty_payload() {
    let command = UdpCommand::new(CommandIds::TakeoffCmd, PackageTypes::X68);
    let frame = command.serialize(7);
    assert_eq!(frame.len(), 11);
    let pkg = parse_package(frame);
    assert_eq!(pkg.size, 0);
    assert_eq!(pkg.cmd, CommandIds::TakeoffCmd);
    assert_eq!(pkg.sq_nr, 7);
    assert!(matches!(pkg.data, PackageData::NoData));
}

#[test]
fn frame_layout_is_exact() {
    let mut command = UdpCommand::new(CommandIds::LandCmd, PackageTypes::X68);
    command.write_u8(0x00);
    let frame = command.serialize(0x0201);
    // header: start marker, length field LE, header crc8, packet type,
    // command id LE, sequence LE; then the payload and the crc16 trailer
    assert_eq!(frame.len(), 12);
    assert_eq!(frame[0], 0xcc);
    assert_eq!(frame[1], (1 + 11) << 3);
    assert_eq!(frame[2], 0x00);
    assert_eq!(frame[4], 0x68);
    assert_eq!(frame[5], 0x55);
    assert_eq!(frame[6], 0x00);
    assert_eq!(frame[7], 0x01);
    assert_eq!(frame[8], 0x02);
    assert_eq!(frame[9], 0x00);
}

#[test]
fn header_crc8_and_trailer_crc16_match_the_checksum_provider() {
    let mut command = UdpCommand::new(CommandIds::BounceCmd, PackageTypes::X68);
    command.write_u8(0x30);
    let frame = command.serialize(99);
    let crc8 = crc::Crc::<u8>::new(&crc::CRC_8_MAXIM_DOW);
    assert_eq!(frame[3], crc8.checksum(&frame[0..3]));
    let crc16 = crc::Crc::<u16>::new(&crc::CRC_16_XMODEM);
    let body_len = frame.len() - 2;
    let trailer = (frame[body_len] as u16) | ((frame[body_len + 1] as u16) << 8);
    assert_eq!(trailer, crc16.checksum(&frame[0..body_len]));
}

#[test]
fn header_crc8_invariant_under_type_cmd_sequence_and_payload() {
    let mut a = UdpCommand::new(CommandIds::LandCmd, PackageTypes::X68);
    a.write_u8(0x00);
    let mut b = UdpCommand::new(CommandIds::ExposureCmd, PackageTypes::X48);
    b.write_u8(0xff);
    let fa = a.serialize(1);
    let fb = b.serialize(40000);
    assert_eq!(fa[3], fb[3]);
}

#[test]
fn sequence_numbers_strictly_increase_and_zero_sequence_stays_zero() {
    let mut drone = Drone::new(0);
    let first = drone.take_off();
    let second = drone.land();
    let flip = drone.flip(tello::Flip::Forward);
    let third = drone.take_picture();
    assert_eq!(parse_package(first).sq_nr, 1);
    assert_eq!(parse_package(second).sq_nr, 2);
    assert_eq!(parse_package(flip).sq_nr, 0);
    assert_eq!(parse_package(third).sq_nr, 3);
}

#[test]
fn typed_writers_append_little_endian() {
    let mut command = UdpCommand::new(CommandIds::CalibrateCmd, PackageTypes::X68);
    command.write_u16(0x1234);
    command.write_u64(0x0807060504030201);
    let pkg = parse_package(command.serialize(1));
    match pkg.data {
        PackageData::Unknown(raw) => {
            assert_eq!(raw, vec![0x34, 0x12, 1, 2, 3, 4, 5, 6, 7, 8]);
        },
        other => panic!("expected an opaque payload, got {:?}", other),
    }
}

#[test]
fn empty_datagram_is_invalid_package() {
    assert_eq!(Message::parse(Vec::new()).unwrap_err(), DecodeError::InvalidPackage);
}

#[test]
fn truncated_header_is_truncated() {
    assert_eq!(Message::parse(vec![0xcc, 0x58]).unwrap_err(), DecodeError::Truncated);
}

#[test]
fn undersized_length_field_is_invalid_package() {
    // length field 0 announces less than the fixed 11-byte overhead
    let data = vec![0xcc, 0x00, 0x00, 0x00, 0x68, 0x55, 0x00, 0x01, 0x00];
    assert_eq!(Message::parse(data).unwrap_err(), DecodeError::InvalidPackage);
}

#[test]
fn garbage_text_is_invalid_package() {
    let data = b"anything else".to_vec();
    assert_eq!(Message::parse(data).unwrap_err(), DecodeError::InvalidPackage);
}

#[test]
fn conn_ack_yields_connected_with_full_text() {
    let data = b"conn_ack:ok".to_vec();
    match Message::parse(data) {
        Ok(Message::Response(ResponseMsg::Connected(text))) => {
            assert_eq!(text, "conn_ack:ok");
        },
        other => panic!("expected a connected response, got {:?}", other),
    }
}

#[test]
fn conn_ack_with_invalid_text_is_invalid_text() {
    let mut data = b"conn_ack:".to_vec();
    data.push(0xff);
    assert_eq!(Message::parse(data).unwrap_err(), DecodeError::InvalidText);
}

#[test]
fn unknown_command_reply_parses_the_id() {
    // the byte after the prefix is skipped; the id follows little-endian
    let mut data = b"unknown command: ".to_vec();
    data.push(0x54);
    data.push(0x00);
    match Message::parse(data) {
        Ok(Message::Response(ResponseMsg::UnknownCommand(cmd))) => {
            assert_eq!(cmd, CommandIds::TakeoffCmd);
        },
        other => panic!("expected an unknown-command response, got {:?}", other),
    }
}

#[test]
fn unknown_command_reply_too_short_is_truncated() {
    let data = b"unknown command:".to_vec();
    assert_eq!(Message::parse(data).unwrap_err(), DecodeError::Truncated);
}

#[test]
fn unknown_command_code_decodes_to_undefined() {
    assert_eq!(CommandIds::from_code(0x9999), CommandIds::Undefined);
    assert_eq!(CommandIds::from_code(0x0054), CommandIds::TakeoffCmd);
    assert_eq!(CommandIds::TakeoffCmd.code(), 0x0054);
}
