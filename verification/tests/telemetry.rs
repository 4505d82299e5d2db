//! Telemetry sub-payload decoding and the last-value store.

use tello::{CommandIds, DecodeError, DroneMeta, FlightData, Message, PackageData, PackageTypes,
    UdpCommand};
use tello::telemetry::int16;

fn frame_with(cmd: CommandIds, payload: &[u8]) -> Vec<u8> {
    let mut command = UdpCommand::new(cmd, PackageTypes::X68);
    command.write(payload);
    command.serialize(5)
}

fn decode(cmd: CommandIds, payload: &[u8]) -> PackageData {
    match Message::parse(frame_with(cmd, payload)) {
        Ok(Message::Data(pkg)) => pkg.data,
        other => panic!("expected a data package, got {:?}", other),
    }
}

#[test]
fn int16_combines_little_endian_without_sign_extension() {
    assert_eq!(int16(0x34, 0x12), 0x1234);
    assert_eq!(int16(0xff, 0x7f), 32767);
    assert_eq!(int16(0x00, 0x80), -32768);
    assert_eq!(int16(0xff, 0xff), -1);
    assert_eq!(int16(0x2a, 0x00), 42);
}

#[test]
fn flight_data_decodes_every_field_of_a_crafted_payload() {
    let payload: [u8; 24] = [
        0x34, 0x12, // height
        0xff, 0xff, // north speed: -1
        0x05, 0x00, // east speed
        0x00, 0x80, // ground speed: -32768
        0x10, 0x27, // fly time: 10000
        0b1010_1101, // status byte: imu, visual, power, gravity, wind
        0x03, // imu calibration
        0x55, // battery percentage
        0x2c, 0x01, // battery left: 300
        0xe8, 0x03, // fly time left: 1000
        0b0101_0010, // second status byte
        0x07, // fly mode
        0x09, // throw fly timer
        0x02, // camera state
        0x01, // electrical machinery state
        0b0000_0101, // front status: in + lsc
        0x01, // temperature height
    ];
    let fd = match decode(CommandIds::FlightMsg, &payload) {
        PackageData::FlightData(fd) => fd,
        other => panic!("expected flight data, got {:?}", other),
    };
    assert_eq!(fd.height, 0x1234);
    assert_eq!(fd.north_speed, -1);
    assert_eq!(fd.east_speed, 5);
    assert_eq!(fd.ground_speed, -32768);
    assert_eq!(fd.fly_time, 10000);
    assert!(fd.imu_state);
    assert!(!fd.pressure_state);
    assert!(fd.down_visual_state);
    assert!(fd.power_state);
    assert!(!fd.battery_state);
    assert!(fd.gravity_state);
    assert!(fd.wind_state);
    assert_eq!(fd.imu_calibration_state, 3);
    assert_eq!(fd.battery_percentage, 0x55);
    assert_eq!(fd.drone_battery_left, 300);
    assert_eq!(fd.drone_fly_time_left, 1000);
    assert!(!fd.em_sky);
    assert!(fd.em_ground);
    assert!(!fd.em_open);
    assert!(!fd.drone_hover);
    assert!(fd.outage_recording);
    assert!(!fd.battery_low);
    assert!(fd.battery_lower);
    assert!(!fd.factory_mode);
    assert_eq!(fd.fly_mode, 7);
    assert_eq!(fd.throw_fly_timer, 9);
    assert_eq!(fd.camera_state, 2);
    assert_eq!(fd.electrical_machinery_state, 1);
    assert!(fd.front_in);
    assert!(!fd.front_out);
    assert!(fd.front_lsc);
    assert!(fd.temperature_height);
}

#[test]
fn short_flight_payload_is_a_recoverable_decode_failure() {
    let err = Message::parse(frame_with(CommandIds::FlightMsg, &[0u8; 10])).unwrap_err();
    assert_eq!(err, DecodeError::Truncated);
    assert_eq!(FlightData::from_bytes(&vec![0u8; 23]), None);
}

#[test]
fn wifi_and_light_payloads_decode_their_raw_bytes() {
    match decode(CommandIds::WifiMsg, &[90, 5]) {
        PackageData::WifiInfo(w) => {
            assert_eq!(w.strength, 90);
            assert_eq!(w.disturb, 5);
        },
        other => panic!("expected wifi info, got {:?}", other),
    }
    match decode(CommandIds::LightMsg, &[1]) {
        PackageData::LightInfo(l) => assert_eq!(l.good, 1),
        other => panic!("expected light info, got {:?}", other),
    }
    assert_eq!(
        Message::parse(frame_with(CommandIds::WifiMsg, &[90])).unwrap_err(),
        DecodeError::Truncated
    );
}

#[test]
fn version_payload_skips_one_byte_and_trims_nul_padding() {
    match decode(CommandIds::VersionMsg, b"\x0001.02.33\x00\x00") {
        PackageData::Version(v) => assert_eq!(v, "01.02.33"),
        other => panic!("expected a version, got {:?}", other),
    }
}

#[test]
fn version_payload_with_invalid_text_is_invalid_text() {
    assert_eq!(
        Message::parse(frame_with(CommandIds::VersionMsg, &[0x00, 0xff, 0xfe])).unwrap_err(),
        DecodeError::InvalidText
    );
}

#[test]
fn alt_limit_payload_reads_the_height_after_one_byte() {
    match decode(CommandIds::AltLimitMsg, &[0x00, 0x1e, 0x00]) {
        PackageData::AtlInfo(h) => assert_eq!(h, 30),
        other => panic!("expected an altitude limit, got {:?}", other),
    }
}

#[test]
fn log_header_payload_reads_id_and_message_up_to_nul() {
    let mut payload = vec![9u8; 9];
    payload.push(0x2a);
    payload.push(0x00);
    payload.extend_from_slice(b"hello\x00world");
    match decode(CommandIds::LogHeaderMsg, &payload) {
        PackageData::LogMessage(lm) => {
            assert_eq!(lm.id, 42);
            assert_eq!(lm.message, "hello");
        },
        other => panic!("expected a log message, got {:?}", other),
    }
}

#[test]
fn unknown_command_id_with_payload_decodes_to_unknown() {
    match decode(CommandIds::SmartVideoStatusMsg, &[1, 2, 3]) {
        PackageData::Unknown(raw) => assert_eq!(raw, vec![1, 2, 3]),
        other => panic!("expected an opaque payload, got {:?}", other),
    }
}

#[test]
fn meta_store_keeps_the_last_value_per_category() {
    let mut meta = DroneMeta::default();
    assert!(meta.get_flight_data().is_none());
    assert!(meta.get_wifi_info().is_none());
    assert!(meta.get_light_info().is_none());

    let wifi = match decode(CommandIds::WifiMsg, &[70, 2]) {
        PackageData::WifiInfo(w) => PackageData::WifiInfo(w),
        other => panic!("expected wifi info, got {:?}", other),
    };
    meta.update(&wifi);
    assert_eq!(meta.get_wifi_info().unwrap().strength, 70);
    assert!(meta.get_flight_data().is_none());

    let wifi2 = match decode(CommandIds::WifiMsg, &[33, 9]) {
        PackageData::WifiInfo(w) => PackageData::WifiInfo(w),
        other => panic!("expected wifi info, got {:?}", other),
    };
    meta.update(&wifi2);
    assert_eq!(meta.get_wifi_info().unwrap().strength, 33);

    meta.update(&PackageData::NoData);
    assert_eq!(meta.get_wifi_info().unwrap().strength, 33);
}
