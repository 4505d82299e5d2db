//! The protocol engine.
//!
//! `Drone` owns the protocol state: the sequence counter, the video
//! settings, the remote-control state, the telemetry store and the
//! status-cascade counter.  Every operation builds the exact wire bytes to
//! send; the embedding application owns the sockets, hands received
//! datagrams in and sends the returned frames out.

use vstd::prelude::*;

use crate::clock::{now_date_time, now_time_of_day, DateTimeFields, TimeOfDay};
use crate::codec::{
    spec_frame, spec_parse_ok, spec_parse_result_matches, spec_u16_le, Message, PackageData,
    ResponseMsg, UdpCommand, MAX_PAYLOAD,
};
use crate::protocol::{CommandIds, Flip, PackageTypes, VideoMode};
use crate::rc_state::{
    axis_in_range, pack_axes, axis_to_stick, spec_packed_axes, spec_stick_of_axis,
    spec_rc_after_read, spec_stick_params, RCState,
};
use crate::telemetry::{spec_meta_update, DroneMeta};
use crate::video::VideoSettings;

verus! {

/// The sequence counter after one engine-sequenced command: it advances by
/// one and wraps naturally at 16 bits.
pub open spec fn spec_next_seq(s: u16) -> u16 {
    if s == 0xffff {
        0u16
    } else {
        (s + 1) as u16
    }
}

/// The sequence counter after `k` engine-sequenced commands.
pub open spec fn spec_seq_plus(s: u16, k: nat) -> u16
    decreases k,
{
    if k == 0 {
        s
    } else {
        spec_next_seq(spec_seq_plus(s, (k - 1) as nat))
    }
}

/// Sequence numbering is strictly increasing modulo 65536: each
/// engine-sequenced command advances the counter by exactly one mod 2^16,
/// so no two successive commands share a sequence number.
pub proof fn lemma_sequence_strictly_increasing(s: u16)
    ensures
        spec_next_seq(s) == ((s + 1) % 0x10000) as u16,
        spec_next_seq(s) != s,
{
}

/// Main engine state for one vehicle.
#[derive(Debug, Clone)]
pub struct Drone {
    /// video stream settings and reassembly state
    pub video: VideoSettings,
    /// when the last stick heartbeat went out, in milliseconds
    pub last_stick_command_ms: u64,
    /// remote control values to control the vehicle
    pub rc_state: RCState,
    /// current meta data from the vehicle
    pub drone_meta: DroneMeta,
    /// counts flight-status messages since the last connect acknowledgement,
    /// to query some metadata a little after connecting
    pub status_counter: u32,
    /// the engine-owned sequence counter
    pub seq: u16,
}

/// What two engine states share when only the sequence counter moved.
pub open spec fn spec_same_but_seq(a: Drone, b: Drone) -> bool {
    a.video == b.video && a.last_stick_command_ms == b.last_stick_command_ms && a.rc_state
        == b.rc_state && a.drone_meta == b.drone_meta && a.status_counter == b.status_counter
}

impl Drone {
    /// The well-formedness the engine keeps: the remote-control axes stay
    /// within full deflection.
    pub open spec fn wf(self) -> bool {
        self.rc_state.wf()
    }

    /// A fresh engine: video disabled with its defaults, counters reset,
    /// the sequence counter starting at 1, and both cadence clocks set to
    /// the construction time.
    pub fn new(now_ms: u64) -> (r: Drone)
        ensures
            r.video.port == 0,
            !r.video.enabled,
            r.video.mode == VideoMode::M960x720,
            r.video.level == 1,
            r.video.encoding_rate == 4,
            r.video.last_video_poll_ms == now_ms,
            r.video.last_frame_id == 0,
            r.video.frame_counter_overflow == 0,
            r.last_stick_command_ms == now_ms,
            r.rc_state.left_right == 0,
            r.rc_state.forward_back == 0,
            r.rc_state.turn == 0,
            r.rc_state.up_down == 0,
            !r.rc_state.start_engines,
            r.drone_meta.flight is None,
            r.drone_meta.wifi is None,
            r.drone_meta.light is None,
            r.status_counter == 0,
            r.seq == 1,
            r.wf(),
    {
        let video = VideoSettings {
            port: 0,
            enabled: false,
            mode: VideoMode::M960x720,
            level: 1,
            encoding_rate: 4,
            last_video_poll_ms: now_ms,
            last_frame_id: 0,
            frame_counter_overflow: 0,
        };
        Drone {
            video,
            last_stick_command_ms: now_ms,
            rc_state: RCState::default(),
            drone_meta: DroneMeta::default(),
            status_counter: 0,
            seq: 1,
        }
    }

    /// Serializes a command, choosing its sequence number: a fixed 0 for a
    /// zero-sequence command, otherwise the engine counter, which then
    /// advances by one (wrapping at 16 bits).
    pub fn encode_command(&mut self, command: &UdpCommand) -> (r: Vec<u8>)
        requires
            command.inner@.len() <= MAX_PAYLOAD as nat,
        ensures
            command.zero_sqn ==> r@ == spec_frame(command.cmd, command.pkt_type, 0, command.inner@)
                && final(self).seq == old(self).seq,
            !command.zero_sqn ==> r@ == spec_frame(
                command.cmd,
                command.pkt_type,
                old(self).seq,
                command.inner@,
            ) && final(self).seq == spec_next_seq(old(self).seq),
            spec_same_but_seq(*final(self), *old(self)),
    {
        if command.zero_sqn {
            command.serialize(0)
        } else {
            let nr = self.seq;
            self.seq = if self.seq == 0xffff {
                0
            } else {
                self.seq + 1
            };
            command.serialize(nr)
        }
    }

    /// The take-off command frame.
    pub fn take_off(&mut self) -> (r: Vec<u8>)
        ensures
            r@ == spec_frame(
                CommandIds::TakeoffCmd,
                PackageTypes::X68,
                old(self).seq,
                Seq::<u8>::empty(),
            ),
            final(self).seq == spec_next_seq(old(self).seq),
            spec_same_but_seq(*final(self), *old(self)),
    {
        let command = UdpCommand::new(CommandIds::TakeoffCmd, PackageTypes::X68);
        self.encode_command(&command)
    }

    /// The throw-and-go command frame.
    pub fn throw_and_go(&mut self) -> (r: Vec<u8>)
        ensures
            r@ == spec_frame(
                CommandIds::ThrowAndGoCmd,
                PackageTypes::X48,
                old(self).seq,
                seq![0u8],
            ),
            final(self).seq == spec_next_seq(old(self).seq),
            spec_same_but_seq(*final(self), *old(self)),
    {
        let mut command = UdpCommand::new(CommandIds::ThrowAndGoCmd, PackageTypes::X48);
        command.write_u8(0);
        proof {
            assert(command.inner@ =~= seq![0u8]);
        }
        self.encode_command(&command)
    }

    /// The land command frame.
    pub fn land(&mut self) -> (r: Vec<u8>)
        ensures
            r@ == spec_frame(CommandIds::LandCmd, PackageTypes::X68, old(self).seq, seq![0u8]),
            final(self).seq == spec_next_seq(old(self).seq),
            spec_same_but_seq(*final(self), *old(self)),
    {
        let mut command = UdpCommand::new(CommandIds::LandCmd, PackageTypes::X68);
        command.write_u8(0x00);
        proof {
            assert(command.inner@ =~= seq![0u8]);
        }
        self.encode_command(&command)
    }

    /// The land-cancel command frame: the same wire bytes as `land`, sent to
    /// interrupt a landing in progress.
    pub fn stop_land(&mut self) -> (r: Vec<u8>)
        ensures
            r@ == spec_frame(CommandIds::LandCmd, PackageTypes::X68, old(self).seq, seq![0u8]),
            final(self).seq == spec_next_seq(old(self).seq),
            spec_same_but_seq(*final(self), *old(self)),
    {
        let mut command = UdpCommand::new(CommandIds::LandCmd, PackageTypes::X68);
        command.write_u8(0x00);
        proof {
            assert(command.inner@ =~= seq![0u8]);
        }
        self.encode_command(&command)
    }

    /// The palm-land command frame.
    pub fn palm_land(&mut self) -> (r: Vec<u8>)
        ensures
            r@ == spec_frame(CommandIds::PalmLandCmd, PackageTypes::X68, old(self).seq, seq![0u8]),
            final(self).seq == spec_next_seq(old(self).seq),
            spec_same_but_seq(*final(self), *old(self)),
    {
        let mut command = UdpCommand::new(CommandIds::PalmLandCmd, PackageTypes::X68);
        command.write_u8(0);
        proof {
            assert(command.inner@ =~= seq![0u8]);
        }
        self.encode_command(&command)
    }

    /// The flip command frame, a zero-sequence command carrying the flip
    /// direction.
    pub fn flip(&mut self, direction: Flip) -> (r: Vec<u8>)
        ensures
            r@ == spec_frame(
                CommandIds::FlipCmd,
                PackageTypes::X70,
                0,
                seq![crate::protocol::spec_flip_code(direction)],
            ),
            *final(self) == *old(self),
    {
        let mut command = UdpCommand::new_with_zero_sqn(CommandIds::FlipCmd, PackageTypes::X70);
        command.write_u8(direction.code());
        proof {
            assert(command.inner@ =~= seq![crate::protocol::spec_flip_code(direction)]);
        }
        self.encode_command(&command)
    }

    /// The bounce-start command frame.
    pub fn bounce(&mut self) -> (r: Vec<u8>)
        ensures
            r@ == spec_frame(CommandIds::BounceCmd, PackageTypes::X68, old(self).seq, seq![0x30u8]),
            final(self).seq == spec_next_seq(old(self).seq),
            spec_same_but_seq(*final(self), *old(self)),
    {
        let mut command = UdpCommand::new(CommandIds::BounceCmd, PackageTypes::X68);
        command.write_u8(0x30);
        proof {
            assert(command.inner@ =~= seq![0x30u8]);
        }
        self.encode_command(&command)
    }

    /// The bounce-stop command frame.
    pub fn bounce_stop(&mut self) -> (r: Vec<u8>)
        ensures
            r@ == spec_frame(CommandIds::BounceCmd, PackageTypes::X68, old(self).seq, seq![0x31u8]),
            final(self).seq == spec_next_seq(old(self).seq),
            spec_same_but_seq(*final(self), *old(self)),
    {
        let mut command = UdpCommand::new(CommandIds::BounceCmd, PackageTypes::X68);
        command.write_u8(0x31);
        proof {
            assert(command.inner@ =~= seq![0x31u8]);
        }
        self.encode_command(&command)
    }

    /// The firmware-version query frame.
    pub fn get_version(&mut self) -> (r: Vec<u8>)
        ensures
            r@ == spec_frame(
                CommandIds::VersionMsg,
                PackageTypes::X48,
                old(self).seq,
                Seq::<u8>::empty(),
            ),
            final(self).seq == spec_next_seq(old(self).seq),
            spec_same_but_seq(*final(self), *old(self)),
    {
        let command = UdpCommand::new(CommandIds::VersionMsg, PackageTypes::X48);
        self.encode_command(&command)
    }

    /// The altitude-limit query frame.
    pub fn get_alt_limit(&mut self) -> (r: Vec<u8>)
        ensures
            r@ == spec_frame(
                CommandIds::AltLimitMsg,
                PackageTypes::X68,
                old(self).seq,
                Seq::<u8>::empty(),
            ),
            final(self).seq == spec_next_seq(old(self).seq),
            spec_same_but_seq(*final(self), *old(self)),
    {
        let command = UdpCommand::new(CommandIds::AltLimitMsg, PackageTypes::X68);
        self.encode_command(&command)
    }

    /// The set-altitude-limit command frame: the limit in metres, then a
    /// padding byte.
    pub fn set_alt_limit(&mut self, limit: u8) -> (r: Vec<u8>)
        ensures
            r@ == spec_frame(
                CommandIds::AltLimitCmd,
                PackageTypes::X68,
                old(self).seq,
                seq![limit, 0u8],
            ),
            final(self).seq == spec_next_seq(old(self).seq),
            spec_same_but_seq(*final(self), *old(self)),
    {
        let mut command = UdpCommand::new(CommandIds::AltLimitCmd, PackageTypes::X68);
        command.write_u8(limit);
        command.write_u8(0);
        proof {
            assert(command.inner@ =~= seq![limit, 0u8]);
        }
        self.encode_command(&command)
    }

    /// The attitude-angle query frame.
    pub fn get_att_angle(&mut self) -> (r: Vec<u8>)
        ensures
            r@ == spec_frame(
                CommandIds::AttLimitMsg,
                PackageTypes::X68,
                old(self).seq,
                Seq::<u8>::empty(),
            ),
            final(self).seq == spec_next_seq(old(self).seq),
            spec_same_but_seq(*final(self), *old(self)),
    {
        let command = UdpCommand::new(CommandIds::AttLimitMsg, PackageTypes::X68);
        self.encode_command(&command)
    }

    /// The set-attitude-angle command frame, with the fixed four-byte
    /// payload the vehicle expects for a 10-degree limit.
    pub fn set_att_angle(&mut self) -> (r: Vec<u8>)
        ensures
            r@ == spec_frame(
                CommandIds::AttLimitCmd,
                PackageTypes::X68,
                old(self).seq,
                seq![0u8, 0u8, 10u8, 0x41u8],
            ),
            final(self).seq == spec_next_seq(old(self).seq),
            spec_same_but_seq(*final(self), *old(self)),
    {
        let mut command = UdpCommand::new(CommandIds::AttLimitCmd, PackageTypes::X68);
        command.write_u8(0);
        command.write_u8(0);
        command.write_u8(10);
        command.write_u8(0x41);
        proof {
            assert(command.inner@ =~= seq![0u8, 0u8, 10u8, 0x41u8]);
        }
        self.encode_command(&command)
    }

    /// The low-battery-threshold query frame.
    pub fn get_battery_threshold(&mut self) -> (r: Vec<u8>)
        ensures
            r@ == spec_frame(
                CommandIds::LowBatThresholdMsg,
                PackageTypes::X68,
                old(self).seq,
                Seq::<u8>::empty(),
            ),
            final(self).seq == spec_next_seq(old(self).seq),
            spec_same_but_seq(*final(self), *old(self)),
    {
        let command = UdpCommand::new(CommandIds::LowBatThresholdMsg, PackageTypes::X68);
        self.encode_command(&command)
    }

    /// The set-low-battery-threshold command frame.
    pub fn set_battery_threshold(&mut self, threshold: u8) -> (r: Vec<u8>)
        ensures
            r@ == spec_frame(
                CommandIds::LowBatThresholdCmd,
                PackageTypes::X68,
                old(self).seq,
                seq![threshold],
            ),
            final(self).seq == spec_next_seq(old(self).seq),
            spec_same_but_seq(*final(self), *old(self)),
    {
        let mut command = UdpCommand::new(CommandIds::LowBatThresholdCmd, PackageTypes::X68);
        command.write_u8(threshold);
        proof {
            assert(command.inner@ =~= seq![threshold]);
        }
        self.encode_command(&command)
    }

    /// The wifi-region query frame.
    pub fn get_region(&mut self) -> (r: Vec<u8>)
        ensures
            r@ == spec_frame(
                CommandIds::WifiRegionCmd,
                PackageTypes::X48,
                old(self).seq,
                Seq::<u8>::empty(),
            ),
            final(self).seq == spec_next_seq(old(self).seq),
            spec_same_but_seq(*final(self), *old(self)),
    {
        let command = UdpCommand::new(CommandIds::WifiRegionCmd, PackageTypes::X48);
        self.encode_command(&command)
    }

    /// The take-picture command frame.
    pub fn take_picture(&mut self) -> (r: Vec<u8>)
        ensures
            r@ == spec_frame(
                CommandIds::TakePictureCommand,
                PackageTypes::X68,
                old(self).seq,
                Seq::<u8>::empty(),
            ),
            final(self).seq == spec_next_seq(old(self).seq),
            spec_same_but_seq(*final(self), *old(self)),
    {
        let command = UdpCommand::new(CommandIds::TakePictureCommand, PackageTypes::X68);
        self.encode_command(&command)
    }
}

/// The five bytes a time-of-day reading appends to a payload: hour, minute,
/// second, and the milliseconds as a little-endian 16-bit value.
pub open spec fn spec_time_payload(t: TimeOfDay) -> Seq<u8> {
    seq![t.hour, t.minute, t.second] + spec_u16_le(t.millis)
}

/// The fifteen bytes of a date-time reply payload: a zero byte, then year,
/// month, day, hour, minute, second and milliseconds, each as a
/// little-endian 16-bit value.
pub open spec fn spec_date_time_payload(d: DateTimeFields) -> Seq<u8> {
    seq![0u8] + spec_u16_le(d.year) + spec_u16_le(d.month) + spec_u16_le(d.day) + spec_u16_le(
        d.hour,
    ) + spec_u16_le(d.minute) + spec_u16_le(d.second) + spec_u16_le(d.millis)
}

/// The low six bytes of the 45-bit stick integer, in little-endian order.
pub open spec fn spec_u48_le(v: u64) -> Seq<u8> {
    seq![
        (v & 0xff) as u8,
        ((v >> 8) & 0xff) as u8,
        ((v >> 16) & 0xff) as u8,
        ((v >> 24) & 0xff) as u8,
        ((v >> 32) & 0xff) as u8,
        ((v >> 40) & 0xff) as u8,
    ]
}

/// The stick command payload: the packed axes as six little-endian bytes,
/// followed by the local time of day.
pub open spec fn spec_stick_payload(
    pitch: i16,
    nick: i16,
    roll: i16,
    yaw: i16,
    fast: bool,
    t: TimeOfDay,
) -> Seq<u8> {
    let packed = spec_packed_axes(
        spec_stick_of_axis(roll as int) as u64,
        spec_stick_of_axis(nick as int) as u64,
        spec_stick_of_axis(pitch as int) as u64,
        spec_stick_of_axis(yaw as int) as u64,
        fast,
    );
    spec_u48_le(packed) + spec_time_payload(t)
}

/// Whether `b` is a stick frame for the given axes and some local
/// time-of-day reading.
pub open spec fn spec_is_stick_frame(
    b: Seq<u8>,
    pitch: i16,
    nick: i16,
    roll: i16,
    yaw: i16,
    fast: bool,
) -> bool {
    exists|t: TimeOfDay|
        b == spec_frame(
            CommandIds::StickCmd,
            PackageTypes::X60,
            0,
            spec_stick_payload(pitch, nick, roll, yaw, fast, t),
        )
}

/// Whether `b` is a date-time reply frame with the given sequence number,
/// for some local clock reading.
pub open spec fn spec_is_date_time_frame(b: Seq<u8>, seq: u16) -> bool {
    exists|d: DateTimeFields|
        b == spec_frame(CommandIds::TimeCmd, PackageTypes::X50, seq, spec_date_time_payload(d))
}

impl Drone {
    /// Appends a time-of-day stamp to a command payload: hour, minute,
    /// second as single bytes, then the milliseconds as a little-endian
    /// 16-bit value.
    pub fn add_time(command: UdpCommand, t: TimeOfDay) -> (r: UdpCommand)
        ensures
            r.inner@ == command.inner@ + spec_time_payload(t),
            r.cmd == command.cmd,
            r.pkt_type == command.pkt_type,
            r.zero_sqn == command.zero_sqn,
    {
        let ghost before = command.inner@;
        let mut command = command;
        command.write_u8(t.hour);
        command.write_u8(t.minute);
        command.write_u8(t.second);
        command.write_u16(t.millis);
        proof {
            assert(command.inner@ =~= before + spec_time_payload(t));
        }
        command
    }

    /// Appends a date-time stamp to a command payload: a zero byte, then
    /// year, month, day, hour, minute, second and milliseconds, each as a
    /// little-endian 16-bit value.
    pub fn add_date_time(command: UdpCommand, d: DateTimeFields) -> (r: UdpCommand)
        ensures
            r.inner@ == command.inner@ + spec_date_time_payload(d),
            r.cmd == command.cmd,
            r.pkt_type == command.pkt_type,
            r.zero_sqn == command.zero_sqn,
    {
        let ghost before = command.inner@;
        let mut command = command;
        command.write_u8(0);
        command.write_u16(d.year);
        command.write_u16(d.month);
        command.write_u16(d.day);
        command.write_u16(d.hour);
        command.write_u16(d.minute);
        command.write_u16(d.second);
        command.write_u16(d.millis);
        proof {
            assert(command.inner@ =~= before + spec_date_time_payload(d));
        }
        command
    }

    /// The stick command frame for the given axes and time-of-day reading:
    /// a zero-sequence command whose payload packs the four axes into the
    /// 45-bit stick integer, followed by the time stamp.
    pub fn stick_frame(
        &self,
        pitch: i16,
        nick: i16,
        roll: i16,
        yaw: i16,
        fast: bool,
        t: TimeOfDay,
    ) -> (r: Vec<u8>)
        requires
            axis_in_range(pitch),
            axis_in_range(nick),
            axis_in_range(roll),
            axis_in_range(yaw),
        ensures
            r@ == spec_frame(
                CommandIds::StickCmd,
                PackageTypes::X60,
                0,
                spec_stick_payload(pitch, nick, roll, yaw, fast, t),
            ),
    {
        let mut command = UdpCommand::new_with_zero_sqn(CommandIds::StickCmd, PackageTypes::X60);

        let pitch_u = axis_to_stick(pitch);
        let nick_u = axis_to_stick(nick);
        let roll_u = axis_to_stick(roll);
        let yaw_u = axis_to_stick(yaw);
        let packed_axis: u64 = pack_axes(roll_u, nick_u, pitch_u, yaw_u, fast);

        command.write_u8((packed_axis & 0xff) as u8);
        command.write_u8(((packed_axis >> 8) & 0xff) as u8);
        command.write_u8(((packed_axis >> 16) & 0xff) as u8);
        command.write_u8(((packed_axis >> 24) & 0xff) as u8);
        command.write_u8(((packed_axis >> 32) & 0xff) as u8);
        command.write_u8(((packed_axis >> 40) & 0xff) as u8);
        let command = Drone::add_time(command, t);
        proof {
            assert(command.inner@ =~= spec_stick_payload(pitch, nick, roll, yaw, fast, t));
        }
        command.serialize(0)
    }

    /// The stick command frame for the given axes, stamped with the local
    /// time of day.  A zero-sequence command: the counter does not move.
    pub fn send_stick(&self, pitch: i16, nick: i16, roll: i16, yaw: i16, fast: bool) -> (r: Vec<
        u8,
    >)
        requires
            axis_in_range(pitch),
            axis_in_range(nick),
            axis_in_range(roll),
            axis_in_range(yaw),
        ensures
            spec_is_stick_frame(r@, pitch, nick, roll, yaw, fast),
    {
        let t = now_time_of_day();
        let r = self.stick_frame(pitch, nick, roll, yaw, fast, t);
        proof {
            assert(spec_is_stick_frame(r@, pitch, nick, roll, yaw, fast)) by {
                assert(r@ == spec_frame(
                    CommandIds::StickCmd,
                    PackageTypes::X60,
                    0,
                    spec_stick_payload(pitch, nick, roll, yaw, fast, t),
                ));
            }
        }
        r
    }

    /// The date-time reply frame for a given clock reading, sequenced from
    /// the engine counter.
    pub fn date_time_frame(&mut self, d: DateTimeFields) -> (r: Vec<u8>)
        ensures
            r@ == spec_frame(
                CommandIds::TimeCmd,
                PackageTypes::X50,
                old(self).seq,
                spec_date_time_payload(d),
            ),
            final(self).seq == spec_next_seq(old(self).seq),
            spec_same_but_seq(*final(self), *old(self)),
    {
        let command = UdpCommand::new(CommandIds::TimeCmd, PackageTypes::X50);
        let command = Drone::add_date_time(command, d);
        proof {
            assert(command.inner@ =~= spec_date_time_payload(d));
        }
        self.encode_command(&command)
    }

    /// The date-time reply frame for the local clock, sequenced from the
    /// engine counter.  Sent in answer to the vehicle's time-sync request.
    pub fn send_date_time(&mut self) -> (r: Vec<u8>)
        ensures
            spec_is_date_time_frame(r@, old(self).seq),
            final(self).seq == spec_next_seq(old(self).seq),
            spec_same_but_seq(*final(self), *old(self)),
    {
        let d = now_date_time();
        let r = self.date_time_frame(d);
        proof {
            assert(spec_is_date_time_frame(r@, old(self).seq)) by {
                assert(r@ == spec_frame(
                    CommandIds::TimeCmd,
                    PackageTypes::X50,
                    old(self).seq,
                    spec_date_time_payload(d),
                ));
            }
        }
        r
    }

    /// The video-start frame, a zero-sequence command that both starts the
    /// stream and requests a fresh key frame.  Enables video and restarts
    /// the keyframe-poll clock.
    pub fn start_video(&mut self, now_ms: u64) -> (r: Vec<u8>)
        ensures
            r@ == spec_frame(
                CommandIds::VideoStartCmd,
                PackageTypes::X60,
                0,
                Seq::<u8>::empty(),
            ),
            final(self).video.enabled,
            final(self).video.last_video_poll_ms == now_ms,
            final(self).video.port == old(self).video.port,
            final(self).video.mode == old(self).video.mode,
            final(self).video.level == old(self).video.level,
            final(self).video.encoding_rate == old(self).video.encoding_rate,
            final(self).video.last_frame_id == old(self).video.last_frame_id,
            final(self).video.frame_counter_overflow == old(self).video.frame_counter_overflow,
            final(self).seq == old(self).seq,
            final(self).last_stick_command_ms == old(self).last_stick_command_ms,
            final(self).rc_state == old(self).rc_state,
            final(self).drone_meta == old(self).drone_meta,
            final(self).status_counter == old(self).status_counter,
    {
        self.video.enabled = true;
        self.video.last_video_poll_ms = now_ms;
        let command = UdpCommand::new_with_zero_sqn(CommandIds::VideoStartCmd, PackageTypes::X60);
        self.encode_command(&command)
    }

    /// Same wire bytes as `start_video`: polls the stream info (SPS/PPS)
    /// for a fresh key frame.  The engine sends this every second while
    /// video is enabled.
    pub fn poll_key_frame(&mut self, now_ms: u64) -> (r: Vec<u8>)
        ensures
            r@ == spec_frame(
                CommandIds::VideoStartCmd,
                PackageTypes::X60,
                0,
                Seq::<u8>::empty(),
            ),
            final(self).video == (VideoSettings {
                enabled: true,
                last_video_poll_ms: now_ms,
                ..old(self).video
            }),
            final(self).seq == old(self).seq,
            final(self).last_stick_command_ms == old(self).last_stick_command_ms,
            final(self).rc_state == old(self).rc_state,
            final(self).drone_meta == old(self).drone_meta,
            final(self).status_counter == old(self).status_counter,
    {
        self.start_video(now_ms)
    }

    /// The video-mode frame, a zero-sequence command selecting 960x720 4:3
    /// or 1280x720 16:9 zoomed video; the chosen mode is remembered.
    pub fn set_video_mode(&mut self, mode: VideoMode) -> (r: Vec<u8>)
        ensures
            r@ == spec_frame(
                CommandIds::VideoStartCmd,
                PackageTypes::X68,
                0,
                seq![crate::protocol::spec_video_mode_code(mode)],
            ),
            final(self).video.mode == mode,
            final(self).video.enabled == old(self).video.enabled,
            final(self).seq == old(self).seq,
    {
        self.video.mode = mode;
        let mut command = UdpCommand::new_with_zero_sqn(
            CommandIds::VideoStartCmd,
            PackageTypes::X68,
        );
        command.write_u8(mode.code());
        proof {
            assert(command.inner@ =~= seq![crate::protocol::spec_video_mode_code(mode)]);
        }
        self.encode_command(&command)
    }

    /// The camera-exposure frame; the level can be 0, 1 or 2.
    pub fn set_exposure(&mut self, level: u8) -> (r: Vec<u8>)
        ensures
            r@ == spec_frame(
                CommandIds::ExposureCmd,
                PackageTypes::X48,
                old(self).seq,
                seq![level],
            ),
            final(self).seq == spec_next_seq(old(self).seq),
            spec_same_but_seq(*final(self), *old(self)),
    {
        let mut command = UdpCommand::new(CommandIds::ExposureCmd, PackageTypes::X48);
        command.write_u8(level);
        proof {
            assert(command.inner@ =~= seq![level]);
        }
        self.encode_command(&command)
    }

    /// The video-encoder-rate frame; the chosen rate is remembered.
    pub fn set_video_bitrate(&mut self, rate: u8) -> (r: Vec<u8>)
        ensures
            r@ == spec_frame(
                CommandIds::VideoEncoderRateCmd,
                PackageTypes::X68,
                old(self).seq,
                seq![rate],
            ),
            final(self).video.encoding_rate == rate,
            final(self).video.enabled == old(self).video.enabled,
            final(self).video.port == old(self).video.port,
            final(self).video.mode == old(self).video.mode,
            final(self).video.level == old(self).video.level,
            final(self).video.last_video_poll_ms == old(self).video.last_video_poll_ms,
            final(self).video.last_frame_id == old(self).video.last_frame_id,
            final(self).video.frame_counter_overflow == old(self).video.frame_counter_overflow,
            final(self).seq == spec_next_seq(old(self).seq),
            final(self).last_stick_command_ms == old(self).last_stick_command_ms,
            final(self).rc_state == old(self).rc_state,
            final(self).drone_meta == old(self).drone_meta,
            final(self).status_counter == old(self).status_counter,
    {
        self.video.encoding_rate = rate;
        let mut command = UdpCommand::new(CommandIds::VideoEncoderRateCmd, PackageTypes::X68);
        command.write_u8(rate);
        proof {
            assert(command.inner@ =~= seq![rate]);
        }
        self.encode_command(&command)
    }
}

/// The bytes of the `conn_req:` connection request: the prefix, then the
/// video port as a little-endian 16-bit value.
pub open spec fn spec_conn_req(video_port: u16) -> Seq<u8> {
    seq![0x63u8, 0x6fu8, 0x6eu8, 0x6eu8, 0x5fu8, 0x72u8, 0x65u8, 0x71u8, 0x3au8] + spec_u16_le(
        video_port,
    )
}

impl Drone {
    /// Opens the connection: remembers the video port, enables video, and
    /// returns the video-start frame and the connection-request datagram,
    /// in the order they go out on the wire.
    pub fn connect(&mut self, video_port: u16, now_ms: u64) -> (r: (Vec<u8>, Vec<u8>))
        ensures
            r.0@ == spec_frame(
                CommandIds::VideoStartCmd,
                PackageTypes::X60,
                0,
                Seq::<u8>::empty(),
            ),
            r.1@ == spec_conn_req(video_port),
            final(self).video.port == video_port,
            final(self).video.enabled,
            final(self).video.last_video_poll_ms == now_ms,
            final(self).seq == old(self).seq,
            final(self).last_stick_command_ms == old(self).last_stick_command_ms,
            final(self).rc_state == old(self).rc_state,
            final(self).drone_meta == old(self).drone_meta,
            final(self).status_counter == old(self).status_counter,
    {
        let mut data: Vec<u8> = Vec::new();
        data.push(0x63);
        data.push(0x6f);
        data.push(0x6e);
        data.push(0x6e);
        data.push(0x5f);
        data.push(0x72);
        data.push(0x65);
        data.push(0x71);
        data.push(0x3a);
        data.push((video_port & 0xff) as u8);
        data.push(((video_port >> 8) & 0xff) as u8);
        proof {
            assert(data@ =~= spec_conn_req(video_port));
        }
        self.video.port = video_port;
        let video_start = self.start_video(now_ms);
        (video_start, data)
    }
}

/// Whether the stick heartbeat is due: at least 33 ms have passed since the
/// last transmission (and the clock has not gone backwards).
pub open spec fn spec_stick_due(last_ms: u64, now_ms: u64) -> bool {
    now_ms >= last_ms && now_ms - last_ms >= 33
}

/// Whether a keyframe poll is due: video is enabled and at least a second
/// has passed since the last poll (and the clock has not gone backwards).
pub open spec fn spec_keyframe_due(v: VideoSettings, now_ms: u64) -> bool {
    v.enabled && now_ms >= v.last_video_poll_ms && now_ms - v.last_video_poll_ms >= 1000
}

/// What one poll cycle owes the transport: the stick heartbeat if due, the
/// keyframe poll if due, and whether the video socket should be drained
/// this cycle.
#[derive(Debug)]
pub struct CadencePlan {
    pub stick: Option<Vec<u8>>,
    pub keyframe: Option<Vec<u8>>,
    pub read_video: bool,
}

impl Drone {
    /// The periodic duties of one poll cycle.  The stick heartbeat is
    /// re-sent every 33 ms whether or not any axis changed (the vehicle
    /// needs a steady stick feed); the video-start command is re-sent every
    /// second as a keyframe request while video is enabled.
    pub fn poll_cadence(&mut self, now_ms: u64) -> (r: CadencePlan)
        requires
            old(self).wf(),
        ensures
            final(self).wf(),
            r.stick is Some <==> spec_stick_due(old(self).last_stick_command_ms, now_ms),
            r.stick is Some ==> ({
                let ps = spec_stick_params(old(self).rc_state, now_ms);
                spec_is_stick_frame(r.stick->0@, ps.0, ps.1, ps.2, ps.3, ps.4)
            }) && final(self).last_stick_command_ms == now_ms && final(self).rc_state
                == spec_rc_after_read(old(self).rc_state, now_ms),
            r.stick is None ==> final(self).last_stick_command_ms == old(
                self,
            ).last_stick_command_ms && final(self).rc_state == old(self).rc_state,
            r.keyframe is Some <==> spec_keyframe_due(old(self).video, now_ms),
            r.keyframe is Some ==> r.keyframe->0@ == spec_frame(
                CommandIds::VideoStartCmd,
                PackageTypes::X60,
                0,
                Seq::<u8>::empty(),
            ) && final(self).video == (VideoSettings {
                last_video_poll_ms: now_ms,
                ..old(self).video
            }),
            r.keyframe is None ==> final(self).video == old(self).video,
            r.read_video == old(self).video.enabled,
            final(self).seq == old(self).seq,
            final(self).drone_meta == old(self).drone_meta,
            final(self).status_counter == old(self).status_counter,
    {
        let mut stick: Option<Vec<u8>> = None;
        if now_ms >= self.last_stick_command_ms && now_ms - self.last_stick_command_ms >= 33 {
            let (pitch, nick, roll, yaw, fast) = self.rc_state.get_stick_parameter(now_ms);
            let frame = self.send_stick(pitch, nick, roll, yaw, fast);
            stick = Some(frame);
            self.last_stick_command_ms = now_ms;
        }
        let mut keyframe: Option<Vec<u8>> = None;
        if self.video.enabled && now_ms >= self.video.last_video_poll_ms && now_ms
            - self.video.last_video_poll_ms >= 1000 {
            keyframe = Some(self.poll_key_frame(now_ms));
        }
        CadencePlan { stick, keyframe, read_video: self.video.enabled }
    }
}

/// Whether a message is a connect acknowledgement, which resets the
/// status counter.
pub open spec fn spec_is_connected_msg(m: Message) -> bool {
    m matches Message::Response(ResponseMsg::Connected(_))
}

/// Whether a message carries a log-header record, which the engine must
/// acknowledge at once.
pub open spec fn spec_is_log_msg(m: Message) -> bool {
    m matches Message::Data(pkg) && pkg.data matches PackageData::LogMessage(_)
}

/// The id of the log-header record a message carries (0 when it carries
/// none).
pub open spec fn spec_log_msg_id(m: Message) -> u16 {
    match m {
        Message::Data(pkg) => match pkg.data {
            PackageData::LogMessage(lm) => lm.id,
            _ => 0u16,
        },
        _ => 0u16,
    }
}

/// Whether a message is a time-sync request, which the engine answers with
/// the local date and time.
pub open spec fn spec_is_time_msg(m: Message) -> bool {
    m matches Message::Data(pkg) && !(pkg.data matches PackageData::LogMessage(_)) && pkg.cmd
        == CommandIds::TimeCmd
}

/// Whether a message counts towards the status cascade: a flight-status
/// data package (whatever its payload), once the log and time duties have
/// had their turn.
pub open spec fn spec_is_flight_count_msg(m: Message) -> bool {
    m matches Message::Data(pkg) && !(pkg.data matches PackageData::LogMessage(_)) && pkg.cmd
        != CommandIds::TimeCmd && pkg.cmd == CommandIds::FlightMsg
}

/// The status counter after one message: a connect acknowledgement resets
/// it, a counted flight-status message advances it by one (wrapping at 32
/// bits), anything else leaves it.
pub open spec fn spec_counter_after(c: u32, m: Message) -> u32 {
    if spec_is_connected_msg(m) {
        0u32
    } else if spec_is_flight_count_msg(m) {
        ((c + 1) % 0x1_0000_0000) as u32
    } else {
        c
    }
}

/// Whether a message triggers the metadata-query cascade: it is the counted
/// flight-status message that brings the counter to exactly three.
pub open spec fn spec_cascade_due(c: u32, m: Message) -> bool {
    spec_is_flight_count_msg(m) && c == 2
}

/// The telemetry store after one message: data packages not spoken for by
/// the log or time duties update it; everything else leaves it.
pub open spec fn spec_meta_after(meta: DroneMeta, m: Message) -> DroneMeta {
    match m {
        Message::Data(pkg) => if pkg.data matches PackageData::LogMessage(_) {
            meta
        } else if pkg.cmd == CommandIds::TimeCmd {
            meta
        } else {
            spec_meta_update(meta, pkg.data)
        },
        _ => meta,
    }
}

/// The fixed cascade of metadata queries, frame by frame: version, encoder
/// rate 4, altitude limit, battery threshold, attitude angle, wifi region
/// and exposure 2, sequenced consecutively from `s`.
pub open spec fn spec_cascade_frames(frames: Seq<Vec<u8>>, s: u16) -> bool {
    &&& frames.len() == 7
    &&& frames[0]@ == spec_frame(
        CommandIds::VersionMsg,
        PackageTypes::X48,
        spec_seq_plus(s, 0),
        Seq::<u8>::empty(),
    )
    &&& frames[1]@ == spec_frame(
        CommandIds::VideoEncoderRateCmd,
        PackageTypes::X68,
        spec_seq_plus(s, 1),
        seq![4u8],
    )
    &&& frames[2]@ == spec_frame(
        CommandIds::AltLimitMsg,
        PackageTypes::X68,
        spec_seq_plus(s, 2),
        Seq::<u8>::empty(),
    )
    &&& frames[3]@ == spec_frame(
        CommandIds::LowBatThresholdMsg,
        PackageTypes::X68,
        spec_seq_plus(s, 3),
        Seq::<u8>::empty(),
    )
    &&& frames[4]@ == spec_frame(
        CommandIds::AttLimitMsg,
        PackageTypes::X68,
        spec_seq_plus(s, 4),
        Seq::<u8>::empty(),
    )
    &&& frames[5]@ == spec_frame(
        CommandIds::WifiRegionCmd,
        PackageTypes::X48,
        spec_seq_plus(s, 5),
        Seq::<u8>::empty(),
    )
    &&& frames[6]@ == spec_frame(
        CommandIds::ExposureCmd,
        PackageTypes::X48,
        spec_seq_plus(s, 6),
        seq![2u8],
    )
}

/// Everything message processing does to the engine: the counter and the
/// telemetry store step by their message functions, the remote-control and
/// cadence state stay put, and the maintenance frames owed for the message
/// are exactly these: the log acknowledgement, the date-time reply, or the
/// metadata cascade on the third counted flight message.
pub open spec fn spec_process_relation(
    pre: Drone,
    post: Drone,
    m: Message,
    frames: Seq<Vec<u8>>,
) -> bool {
    &&& post.status_counter == spec_counter_after(pre.status_counter, m)
    &&& post.drone_meta == spec_meta_after(pre.drone_meta, m)
    &&& post.rc_state == pre.rc_state
    &&& post.last_stick_command_ms == pre.last_stick_command_ms
    &&& post.video.port == pre.video.port
    &&& post.video.enabled == pre.video.enabled
    &&& post.video.mode == pre.video.mode
    &&& post.video.level == pre.video.level
    &&& post.video.last_video_poll_ms == pre.video.last_video_poll_ms
    &&& post.video.last_frame_id == pre.video.last_frame_id
    &&& post.video.frame_counter_overflow == pre.video.frame_counter_overflow
    &&& post.video.encoding_rate == (if spec_cascade_due(pre.status_counter, m) {
        4u8
    } else {
        pre.video.encoding_rate
    })
    &&& (spec_is_log_msg(m) ==> frames.len() == 1 && frames[0]@ == spec_frame(
        CommandIds::LogHeaderMsg,
        PackageTypes::X50,
        0,
        spec_u16_le(spec_log_msg_id(m)),
    ) && post.seq == pre.seq)
    &&& (spec_is_time_msg(m) ==> frames.len() == 1 && spec_is_date_time_frame(frames[0]@, pre.seq)
        && post.seq == spec_next_seq(pre.seq))
    &&& (spec_cascade_due(pre.status_counter, m) ==> spec_cascade_frames(frames, pre.seq)
        && post.seq == spec_seq_plus(pre.seq, 7))
    &&& (spec_is_flight_count_msg(m) && !spec_cascade_due(pre.status_counter, m) ==> frames.len()
        == 0 && post.seq == pre.seq)
    &&& (!spec_is_log_msg(m) && !spec_is_time_msg(m) && !spec_is_flight_count_msg(m)
        ==> frames.len() == 0 && post.seq == pre.seq)
}

impl Drone {
    /// The acknowledgement frame for a log-header record: a zero-sequence
    /// command echoing the record id.
    fn send_ack_log(&mut self, id: u16) -> (r: Vec<u8>)
        ensures
            r@ == spec_frame(CommandIds::LogHeaderMsg, PackageTypes::X50, 0, spec_u16_le(id)),
            *final(self) == *old(self),
    {
        let mut command = UdpCommand::new_with_zero_sqn(CommandIds::LogHeaderMsg, PackageTypes::X50);
        command.write_u16(id);
        proof {
            assert(command.inner@ =~= spec_u16_le(id));
        }
        self.encode_command(&command)
    }

    /// Performs the mandatory protocol maintenance for one received message
    /// and returns the frames it owes the transport: a log-header record is
    /// acknowledged at once, a time-sync request is answered with the local
    /// date and time, a flight-status message updates the telemetry store
    /// and advances the status counter (the third after a connect
    /// acknowledgement triggers the fixed metadata-query cascade), any other
    /// data package just updates the store, and a connect acknowledgement
    /// resets the counter.
    pub fn process_message(&mut self, msg: &Message) -> (frames: Vec<Vec<u8>>)
        ensures
            spec_process_relation(*old(self), *final(self), *msg, frames@),
    {
        let ghost s0 = self.seq;
        let mut frames: Vec<Vec<u8>> = Vec::new();
        match msg {
            Message::Response(resp) => {
                match resp {
                    ResponseMsg::Connected(_) => {
                        self.status_counter = 0;
                    },
                    _ => {},
                }
            },
            Message::Data(pkg) => {
                let is_log = match &pkg.data {
                    PackageData::LogMessage(_) => true,
                    _ => false,
                };
                if is_log {
                    let id = match &pkg.data {
                        PackageData::LogMessage(log) => log.id,
                        _ => 0,
                    };
                    frames.push(self.send_ack_log(id));
                } else if pkg.cmd == CommandIds::TimeCmd {
                    frames.push(self.send_date_time());
                } else if pkg.cmd == CommandIds::FlightMsg {
                    self.drone_meta.update(&pkg.data);
                    self.status_counter = if self.status_counter == 0xffff_ffff {
                        0
                    } else {
                        self.status_counter + 1
                    };
                    if self.status_counter == 3 {
                        frames.push(self.get_version());
                        frames.push(self.set_video_bitrate(4));
                        frames.push(self.get_alt_limit());
                        frames.push(self.get_battery_threshold());
                        frames.push(self.get_att_angle());
                        frames.push(self.get_region());
                        frames.push(self.set_exposure(2));
                        proof {
                            assert(spec_seq_plus(s0, 0) == s0);
                            assert(spec_seq_plus(s0, 1) == spec_next_seq(spec_seq_plus(s0, 0)));
                            assert(spec_seq_plus(s0, 2) == spec_next_seq(spec_seq_plus(s0, 1)));
                            assert(spec_seq_plus(s0, 3) == spec_next_seq(spec_seq_plus(s0, 2)));
                            assert(spec_seq_plus(s0, 4) == spec_next_seq(spec_seq_plus(s0, 3)));
                            assert(spec_seq_plus(s0, 5) == spec_next_seq(spec_seq_plus(s0, 4)));
                            assert(spec_seq_plus(s0, 6) == spec_next_seq(spec_seq_plus(s0, 5)));
                            assert(spec_seq_plus(s0, 7) == spec_next_seq(spec_seq_plus(s0, 6)));
                        }
                    }
                } else {
                    self.drone_meta.update(&pkg.data);
                }
            },
            Message::Frame(_, _) => {},
        }
        frames
    }

    /// Parses one datagram from the command socket and performs the
    /// maintenance it demands.  A decode failure yields no message and
    /// changes nothing; a parsed message is processed as `process_message`
    /// says and returned, together with the reply frames owed for it.
    pub fn handle_datagram(&mut self, data: Vec<u8>) -> (r: (Option<Message>, Vec<Vec<u8>>))
        ensures
            r.0 is Some <==> spec_parse_ok(data@),
            r.0 matches Some(m) ==> spec_parse_result_matches(data@, Result::Ok(m)),
            r.0 matches Some(m) ==> spec_process_relation(*old(self), *final(self), m, r.1@),
            r.0 is None ==> *final(self) == *old(self) && r.1@.len() == 0,
    {
        match Message::parse(data) {
            Ok(msg) => {
                let frames = self.process_message(&msg);
                (Some(msg), frames)
            },
            Err(_) => (None, Vec::new()),
        }
    }
}

/// The status counter folded over a run of messages.
pub open spec fn spec_counter_fold(c: u32, msgs: Seq<Message>) -> u32
    decreases msgs.len(),
{
    if msgs.len() == 0 {
        c
    } else {
        spec_counter_fold(spec_counter_after(c, msgs[0]), msgs.drop_first())
    }
}

proof fn lemma_counter_fold_flight_run(c: u32, msgs: Seq<Message>)
    requires
        forall|k: int| 0 <= k < msgs.len() ==> spec_is_flight_count_msg(#[trigger] msgs[k]),
        c + msgs.len() < 0x1_0000_0000,
    ensures
        spec_counter_fold(c, msgs) == c + msgs.len(),
    decreases msgs.len(),
{
    if msgs.len() > 0 {
        assert(spec_is_flight_count_msg(msgs[0]));
        assert(!spec_is_connected_msg(msgs[0]));
        assert(spec_counter_after(c, msgs[0]) == c + 1);
        lemma_counter_fold_flight_run((c + 1) as u32, msgs.drop_first());
    }
}

/// The status cascade triggers on exactly the third flight-status message
/// after a connect acknowledgement: processing the acknowledgement and then
/// `i` counted flight messages leaves the counter at `i`, and the next
/// flight message falls due for the cascade precisely when it is the third
/// (`i == 2`), not the second and not the fourth.
pub proof fn lemma_status_cascade_third(c0: u32, conn: Message, flights: Seq<Message>, i: int)
    requires
        spec_is_connected_msg(conn),
        forall|k: int| 0 <= k < flights.len() ==> spec_is_flight_count_msg(#[trigger] flights[k]),
        flights.len() < 0x1_0000_0000,
        0 <= i < flights.len(),
    ensures
        spec_counter_fold(c0, seq![conn] + flights.take(i)) == i,
        spec_cascade_due(spec_counter_fold(c0, seq![conn] + flights.take(i)), flights[i]) <==> i
            == 2,
{
    let run = seq![conn] + flights.take(i);
    assert(run.len() == 1 + i);
    assert(run[0] == conn);
    assert(spec_counter_after(c0, conn) == 0);
    assert(run.drop_first() =~= flights.take(i));
    assert(forall|k: int|
        0 <= k < i ==> spec_is_flight_count_msg(#[trigger] flights.take(i)[k]));
    lemma_counter_fold_flight_run(0, flights.take(i));
    assert(spec_counter_fold(c0, run) == i);
    assert(spec_is_flight_count_msg(flights[i]));
}

} // verus!
