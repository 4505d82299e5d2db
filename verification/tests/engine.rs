//! The polling engine: connect, cadence duties, maintenance replies and the
//! status cascade.

use tello::{CommandIds, Drone, Message, Package, PackageTypes, UdpCommand};
use tello::clock::TimeOfDay;

fn parse_package(bytes: Vec<u8>) -> Package {
    match Message::parse(bytes) {
        Ok(Message::Data(pkg)) => pkg,
        other => panic!("expected a data package, got {:?}", other),
    }
}

fn flight_message() -> Message {
    let mut command = UdpCommand::new(CommandIds::FlightMsg, PackageTypes::X68);
    command.write(&[0u8; 24]);
    Message::parse(command.serialize(1)).expect("flight frame should parse")
}

fn connected_message() -> Message {
    Message::parse(b"conn_ack:ok".to_vec()).expect("conn_ack should parse")
}

#[test]
fn connect_returns_video_start_then_the_connection_request() {
    let mut drone = Drone::new(0);
    let (video_start, conn_req) = drone.connect(11111, 0);
    let pkg = parse_package(video_start);
    assert_eq!(pkg.cmd, CommandIds::VideoStartCmd);
    assert_eq!(pkg.sq_nr, 0);
    let mut expected = b"conn_req:".to_vec();
    expected.push((11111u16 & 0xff) as u8);
    expected.push((11111u16 >> 8) as u8);
    assert_eq!(conn_req, expected);
    assert!(drone.video.enabled);
    assert_eq!(drone.video.port, 11111);
}

#[test]
fn stick_heartbeat_goes_out_every_33ms() {
    let mut drone = Drone::new(0);
    let quiet = drone.poll_cadence(32);
    assert!(quiet.stick.is_none());
    assert!(quiet.keyframe.is_none());
    assert!(!quiet.read_video);

    let due = drone.poll_cadence(33);
    let stick = due.stick.expect("stick should be due");
    let pkg = parse_package(stick);
    assert_eq!(pkg.cmd, CommandIds::StickCmd);
    assert_eq!(pkg.sq_nr, 0);
    assert_eq!(pkg.size, 11);

    // just sent: not due again for another 33 ms
    let again = drone.poll_cadence(50);
    assert!(again.stick.is_none());
}

#[test]
fn keyframe_poll_goes_out_every_second_while_video_is_enabled() {
    let mut drone = Drone::new(0);
    drone.connect(11111, 0);
    let early = drone.poll_cadence(999);
    assert!(early.keyframe.is_none());
    assert!(early.read_video);

    let due = drone.poll_cadence(1000);
    let keyframe = due.keyframe.expect("keyframe should be due");
    let pkg = parse_package(keyframe);
    assert_eq!(pkg.cmd, CommandIds::VideoStartCmd);
    assert_eq!(pkg.sq_nr, 0);

    let again = drone.poll_cadence(1500);
    assert!(again.keyframe.is_none());
}

#[test]
fn stick_frame_packs_centre_axes_and_the_time_stamp() {
    let drone = Drone::new(0);
    let t = TimeOfDay { hour: 12, minute: 34, second: 56, millis: 789 };
    let frame = drone.stick_frame(0, 0, 0, 0, false, t);
    let pkg = parse_package(frame);
    assert_eq!(pkg.cmd, CommandIds::StickCmd);
    match pkg.data {
        tello::PackageData::Unknown(raw) => {
            assert_eq!(raw[0..6], [0x00, 0x04, 0x20, 0x00, 0x01, 0x08]);
            assert_eq!(raw[6..9], [12, 34, 56]);
            assert_eq!(raw[9] as u16 | ((raw[10] as u16) << 8), 789);
        },
        other => panic!("expected the raw stick payload, got {:?}", other),
    }
}

#[test]
fn date_time_reply_carries_the_fifteen_byte_payload() {
    let mut drone = Drone::new(0);
    let frame = drone.send_date_time();
    let pkg = parse_package(frame);
    assert_eq!(pkg.cmd, CommandIds::TimeCmd);
    assert_eq!(pkg.size, 15);
    match pkg.data {
        tello::PackageData::Unknown(raw) => {
            assert_eq!(raw[0], 0);
            let month = raw[3] as u16 | ((raw[4] as u16) << 8);
            assert!((1..=12).contains(&month));
        },
        other => panic!("expected the raw date-time payload, got {:?}", other),
    }
}

#[test]
fn time_sync_request_is_answered_at_once() {
    let mut drone = Drone::new(0);
    let command = UdpCommand::new(CommandIds::TimeCmd, PackageTypes::X50);
    let msg = Message::parse(command.serialize(9)).expect("time frame should parse");
    let frames = drone.process_message(&msg);
    assert_eq!(frames.len(), 1);
    let reply = parse_package(frames.into_iter().next().unwrap());
    assert_eq!(reply.cmd, CommandIds::TimeCmd);
    assert_eq!(reply.size, 15);
}

#[test]
fn log_header_is_acknowledged_at_once() {
    let mut drone = Drone::new(0);
    let mut payload = vec![0u8; 9];
    payload.push(0x2a);
    payload.push(0x00);
    payload.extend_from_slice(b"cfg\x00");
    let mut command = UdpCommand::new(CommandIds::LogHeaderMsg, PackageTypes::X50);
    command.write(&payload);
    let msg = Message::parse(command.serialize(2)).expect("log frame should parse");
    let frames = drone.process_message(&msg);
    assert_eq!(frames.len(), 1);
    let ack = frames.into_iter().next().unwrap();
    // header: the log-header command id, sequence 0, then the echoed id
    assert_eq!(ack[0], 0xcc);
    assert_eq!(&ack[5..9], &[0x50, 0x10, 0x00, 0x00]);
    assert_eq!(&ack[9..11], &[0x2a, 0x00]);
}

#[test]
fn exactly_the_third_flight_message_after_connect_triggers_the_cascade() {
    let mut drone = Drone::new(0);
    drone.process_message(&connected_message());
    assert_eq!(drone.status_counter, 0);

    let first = drone.process_message(&flight_message());
    assert_eq!(first.len(), 0);
    let second = drone.process_message(&flight_message());
    assert_eq!(second.len(), 0);

    let third = drone.process_message(&flight_message());
    assert_eq!(third.len(), 7);
    let expected = [
        CommandIds::VersionMsg,
        CommandIds::VideoEncoderRateCmd,
        CommandIds::AltLimitMsg,
        CommandIds::LowBatThresholdMsg,
        CommandIds::AttLimitMsg,
        CommandIds::WifiRegionCmd,
        CommandIds::ExposureCmd,
    ];
    let mut last_sq = 0;
    for (frame, want) in third.into_iter().zip(expected.iter()) {
        let pkg = parse_package(frame);
        assert_eq!(pkg.cmd, *want);
        assert!(pkg.sq_nr > last_sq);
        last_sq = pkg.sq_nr;
    }
    assert_eq!(drone.video.encoding_rate, 4);

    let fourth = drone.process_message(&flight_message());
    assert_eq!(fourth.len(), 0);

    // a fresh connect acknowledgement re-arms the cascade
    drone.process_message(&connected_message());
    assert_eq!(drone.status_counter, 0);
}

#[test]
fn flight_messages_update_the_telemetry_store() {
    let mut drone = Drone::new(0);
    assert!(drone.drone_meta.get_flight_data().is_none());
    drone.process_message(&flight_message());
    assert!(drone.drone_meta.get_flight_data().is_some());
}

#[test]
fn handle_datagram_returns_nothing_on_a_decode_failure() {
    let mut drone = Drone::new(0);
    let (msg, frames) = drone.handle_datagram(b"not a packet".to_vec());
    assert!(msg.is_none());
    assert!(frames.is_empty());
}

#[test]
fn handle_datagram_parses_and_performs_maintenance() {
    let mut drone = Drone::new(0);
    drone.handle_datagram(b"conn_ack:ok".to_vec());
    let mut command = UdpCommand::new(CommandIds::FlightMsg, PackageTypes::X68);
    command.write(&[0u8; 24]);
    let (msg, frames) = drone.handle_datagram(command.serialize(1));
    assert!(matches!(msg, Some(Message::Data(_))));
    assert!(frames.is_empty());
    assert_eq!(drone.status_counter, 1);
}

#[test]
fn command_builders_produce_their_documented_payloads() {
    let mut drone = Drone::new(0);
    let cases: Vec<(Vec<u8>, CommandIds, Vec<u8>)> = vec![
        (drone.take_off(), CommandIds::TakeoffCmd, vec![]),
        (drone.throw_and_go(), CommandIds::ThrowAndGoCmd, vec![0]),
        (drone.land(), CommandIds::LandCmd, vec![0]),
        (drone.stop_land(), CommandIds::LandCmd, vec![0]),
        (drone.palm_land(), CommandIds::PalmLandCmd, vec![0]),
        (drone.bounce(), CommandIds::BounceCmd, vec![0x30]),
        (drone.bounce_stop(), CommandIds::BounceCmd, vec![0x31]),
        (drone.set_alt_limit(30), CommandIds::AltLimitCmd, vec![30, 0]),
        (drone.set_att_angle(), CommandIds::AttLimitCmd, vec![0, 0, 10, 0x41]),
        (drone.set_battery_threshold(15), CommandIds::LowBatThresholdCmd, vec![15]),
        (drone.set_exposure(2), CommandIds::ExposureCmd, vec![2]),
        (drone.set_video_bitrate(3), CommandIds::VideoEncoderRateCmd, vec![3]),
        (drone.take_picture(), CommandIds::TakePictureCommand, vec![]),
        (drone.get_version(), CommandIds::VersionMsg, vec![]),
        (drone.get_alt_limit(), CommandIds::AltLimitMsg, vec![]),
        (drone.get_att_angle(), CommandIds::AttLimitMsg, vec![]),
        (drone.get_battery_threshold(), CommandIds::LowBatThresholdMsg, vec![]),
        (drone.get_region(), CommandIds::WifiRegionCmd, vec![]),
    ];
    for (frame, cmd, payload) in cases {
        let pkg = parse_package(frame);
        assert_eq!(pkg.cmd, cmd);
        assert_eq!(pkg.size as usize, payload.len());
    }
    assert_eq!(drone.video.encoding_rate, 3);
}

#[test]
fn video_mode_command_is_zero_sequence_with_the_mode_byte() {
    let mut drone = Drone::new(0);
    let frame = drone.set_video_mode(tello::VideoMode::M1280x720);
    let pkg = parse_package(frame);
    assert_eq!(pkg.cmd, CommandIds::VideoStartCmd);
    assert_eq!(pkg.sq_nr, 0);
    match pkg.data {
        tello::PackageData::Unknown(raw) => assert_eq!(raw, vec![1]),
        other => panic!("expected the mode byte, got {:?}", other),
    }
    assert_eq!(drone.video.mode, tello::VideoMode::M1280x720);
}

#[test]
fn flip_is_zero_sequence_with_the_direction_byte() {
    let mut drone = Drone::new(0);
    let frame = drone.flip(tello::Flip::BackRight);
    let pkg = parse_package(frame);
    assert_eq!(pkg.cmd, CommandIds::FlipCmd);
    assert_eq!(pkg.sq_nr, 0);
    match pkg.data {
        tello::PackageData::Unknown(raw) => assert_eq!(raw, vec![6]),
        other => panic!("expected the direction byte, got {:?}", other),
    }
}
