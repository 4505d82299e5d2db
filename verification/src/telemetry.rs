//! Telemetry sub-payload decoders and the last-value telemetry store.
//!
//! Each decoder interprets the payload of one command id after the generic
//! header has been stripped.  A payload with too few bytes for its command id
//! decodes to `None` (a recoverable decode failure), never to a crash.

use vstd::prelude::*;

use crate::codec::PackageData;

verus! {

/// The 16-bit little-endian combine used by the flight-data decoder: the two
/// bytes are reinterpreted as a signed 16-bit pattern without any extra
/// sign-extension, so values above 0x7fff wrap to negative naturally.
pub open spec fn spec_int16(lo: u8, hi: u8) -> i16 {
    ((lo as u16) + (hi as u16) * 256) as i16
}

/// Reads a little-endian signed 16-bit value from two bytes, without
/// sign-extension logic beyond the native signed 16-bit type.
pub fn int16(val0: u8, val1: u8) -> (r: i16)
    ensures
        r == spec_int16(val0, val1),
{
    ((val0 as u16) + (val1 as u16) * 256) as i16
}

/// Whether bit `i` of byte `b` is set.
pub open spec fn spec_bit(b: u8, i: u8) -> bool {
    ((b >> i) & 0x1) != 0
}

/// Packed status flags and kinematic fields of a flight-status message.
#[derive(Debug, Clone, Copy, PartialEq, Eq, Structural)]
pub struct FlightData {
    pub height: i16,
    pub north_speed: i16,
    pub east_speed: i16,
    pub ground_speed: i16,
    pub fly_time: i16,
    pub imu_state: bool,
    pub pressure_state: bool,
    pub down_visual_state: bool,
    pub power_state: bool,
    pub battery_state: bool,
    pub gravity_state: bool,
    pub wind_state: bool,
    pub imu_calibration_state: u8,
    pub battery_percentage: u8,
    pub drone_battery_left: i16,
    pub drone_fly_time_left: i16,

    pub em_sky: bool,
    pub em_ground: bool,
    pub em_open: bool,
    pub drone_hover: bool,
    pub outage_recording: bool,
    pub battery_low: bool,
    pub battery_lower: bool,
    pub factory_mode: bool,

    pub fly_mode: u8,
    pub throw_fly_timer: u8,
    pub camera_state: u8,
    pub electrical_machinery_state: u8,
    pub front_in: bool,
    pub front_out: bool,
    pub front_lsc: bool,
    pub temperature_height: bool,
}

/// The flight data encoded in a payload of at least 24 bytes, field by field.
pub open spec fn spec_flight_data(d: Seq<u8>) -> FlightData {
    FlightData {
        height: spec_int16(d[0], d[1]),
        north_speed: spec_int16(d[2], d[3]),
        east_speed: spec_int16(d[4], d[5]),
        ground_speed: spec_int16(d[6], d[7]),
        fly_time: spec_int16(d[8], d[9]),

        imu_state: spec_bit(d[10], 0),
        pressure_state: spec_bit(d[10], 1),
        down_visual_state: spec_bit(d[10], 2),
        power_state: spec_bit(d[10], 3),
        battery_state: spec_bit(d[10], 4),
        gravity_state: spec_bit(d[10], 5),
        wind_state: spec_bit(d[10], 7),

        imu_calibration_state: d[11],
        battery_percentage: d[12],
        drone_battery_left: spec_int16(d[13], d[14]),
        drone_fly_time_left: spec_int16(d[15], d[16]),

        em_sky: spec_bit(d[17], 0),
        em_ground: spec_bit(d[17], 1),
        em_open: spec_bit(d[17], 2),
        drone_hover: spec_bit(d[17], 3),
        outage_recording: spec_bit(d[17], 4),
        battery_low: spec_bit(d[17], 5),
        battery_lower: spec_bit(d[17], 6),
        factory_mode: spec_bit(d[17], 7),

        fly_mode: d[18],
        throw_fly_timer: d[19],
        camera_state: d[20],
        electrical_machinery_state: d[21],

        front_in: spec_bit(d[22], 0),
        front_out: spec_bit(d[22], 1),
        front_lsc: spec_bit(d[22], 2),

        temperature_height: spec_bit(d[23], 0),
    }
}

impl FlightData {
    /// Decodes a flight-status payload.  The documented layout needs 24
    /// bytes; anything shorter is a recoverable decode failure.
    pub fn from_bytes(data: &Vec<u8>) -> (r: Option<FlightData>)
        ensures
            r is Some <==> data@.len() >= 24,
            r is Some ==> r->0 == spec_flight_data(data@),
    {
        if data.len() < 24 {
            return None;
        }
        Some(
            FlightData {
                height: int16(data[0], data[1]),
                north_speed: int16(data[2], data[3]),
                east_speed: int16(data[4], data[5]),
                ground_speed: int16(data[6], data[7]),
                fly_time: int16(data[8], data[9]),

                imu_state: ((data[10] >> 0) & 0x1) != 0,
                pressure_state: ((data[10] >> 1) & 0x1) != 0,
                down_visual_state: ((data[10] >> 2) & 0x1) != 0,
                power_state: ((data[10] >> 3) & 0x1) != 0,
                battery_state: ((data[10] >> 4) & 0x1) != 0,
                gravity_state: ((data[10] >> 5) & 0x1) != 0,
                wind_state: ((data[10] >> 7) & 0x1) != 0,

                imu_calibration_state: data[11],
                battery_percentage: data[12],
                drone_battery_left: int16(data[13], data[14]),
                drone_fly_time_left: int16(data[15], data[16]),

                em_sky: ((data[17] >> 0) & 0x1) != 0,
                em_ground: ((data[17] >> 1) & 0x1) != 0,
                em_open: ((data[17] >> 2) & 0x1) != 0,
                drone_hover: ((data[17] >> 3) & 0x1) != 0,
                outage_recording: ((data[17] >> 4) & 0x1) != 0,
                battery_low: ((data[17] >> 5) & 0x1) != 0,
                battery_lower: ((data[17] >> 6) & 0x1) != 0,
                factory_mode: ((data[17] >> 7) & 0x1) != 0,

                fly_mode: data[18],
                throw_fly_timer: data[19],
                camera_state: data[20],
                electrical_machinery_state: data[21],

                front_in: ((data[22] >> 0) & 0x1) != 0,
                front_out: ((data[22] >> 1) & 0x1) != 0,
                front_lsc: ((data[22] >> 2) & 0x1) != 0,

                temperature_height: ((data[23] >> 0) & 0x1) != 0,
            },
        )
    }
}

/// Wifi link quality report: signal strength and disturbance level.
#[derive(Debug, Clone, Copy, PartialEq, Eq, Structural)]
pub struct WifiInfo {
    pub strength: u8,
    pub disturb: u8,
}

impl WifiInfo {
    /// Decodes a wifi report from its two raw bytes.
    pub fn from_bytes(data: &Vec<u8>) -> (r: Option<WifiInfo>)
        ensures
            r is Some <==> data@.len() >= 2,
            r is Some ==> r->0 == (WifiInfo { strength: data@[0], disturb: data@[1] }),
    {
        if data.len() < 2 {
            return None;
        }
        Some(WifiInfo { strength: data[0], disturb: data[1] })
    }
}

/// Light condition report: one raw byte.
#[derive(Debug, Clone, Copy, PartialEq, Eq, Structural)]
pub struct LightInfo {
    pub good: u8,
}

impl LightInfo {
    /// Decodes a light report from its single raw byte.
    pub fn from_bytes(data: &Vec<u8>) -> (r: Option<LightInfo>)
        ensures
            r is Some <==> data@.len() >= 1,
            r is Some ==> r->0 == (LightInfo { good: data@[0] }),
    {
        if data.len() < 1 {
            return None;
        }
        Some(LightInfo { good: data[0] })
    }
}

/// The bytes of a sequence up to, and excluding, its first NUL byte; the
/// whole sequence when no NUL occurs.
pub open spec fn spec_until_nul(s: Seq<u8>) -> Seq<u8>
    decreases s.len(),
{
    if s.len() == 0 {
        s
    } else if s[0] == 0 {
        Seq::empty()
    } else {
        seq![s[0]] + spec_until_nul(s.drop_first())
    }
}

/// A sequence with its leading NUL bytes removed.
pub open spec fn spec_trim_leading_nul(s: Seq<u8>) -> Seq<u8>
    decreases s.len(),
{
    if s.len() == 0 {
        s
    } else if s[0] == 0 {
        spec_trim_leading_nul(s.drop_first())
    } else {
        s
    }
}

/// A sequence with its trailing NUL bytes removed.
pub open spec fn spec_trim_trailing_nul(s: Seq<u8>) -> Seq<u8>
    decreases s.len(),
{
    if s.len() == 0 {
        s
    } else if s[s.len() - 1] == 0 {
        spec_trim_trailing_nul(s.drop_last())
    } else {
        s
    }
}

/// A sequence with NUL padding removed from both ends.
pub open spec fn spec_trim_nul(s: Seq<u8>) -> Seq<u8> {
    spec_trim_trailing_nul(spec_trim_leading_nul(s))
}

proof fn lemma_trim_leading_nul_subrange(s: Seq<u8>, lo: int)
    requires
        0 <= lo <= s.len(),
        forall|k: int| 0 <= k < lo ==> s[k] == 0,
        lo < s.len() ==> s[lo] != 0,
    ensures
        spec_trim_leading_nul(s) == s.subrange(lo, s.len() as int),
    decreases lo,
{
    if lo == 0 {
        assert(spec_trim_leading_nul(s) == s.subrange(0, s.len() as int)) by {
            assert(s.subrange(0, s.len() as int) =~= s);
            if s.len() != 0 && s[0] == 0 {
                lemma_trim_leading_nul_subrange(s.drop_first(), 0);
                assert(s.drop_first() =~= s.subrange(0, s.len() as int).drop_first());
                assert(s[0] != 0);
            }
        }
    } else {
        assert(s[0] == 0);
        lemma_trim_leading_nul_subrange(s.drop_first(), lo - 1);
        assert(s.drop_first().subrange(lo - 1, s.drop_first().len() as int) =~= s.subrange(
            lo,
            s.len() as int,
        ));
    }
}

proof fn lemma_trim_trailing_nul_subrange(s: Seq<u8>, hi: int)
    requires
        0 <= hi <= s.len(),
        forall|k: int| hi <= k < s.len() ==> s[k] == 0,
        hi > 0 ==> s[hi - 1] != 0,
    ensures
        spec_trim_trailing_nul(s) == s.subrange(0, hi),
    decreases s.len() - hi,
{
    if hi == s.len() {
        assert(spec_trim_trailing_nul(s) == s.subrange(0, hi)) by {
            assert(s.subrange(0, hi) =~= s);
            if s.len() != 0 && s[s.len() - 1] == 0 {
                assert(s[hi - 1] != 0);
            }
        }
    } else {
        assert(s[s.len() - 1] == 0);
        lemma_trim_trailing_nul_subrange(s.drop_last(), hi);
        assert(s.drop_last().subrange(0, hi) =~= s.subrange(0, hi));
    }
}

/// Copies the bytes of `data` from `from` on, up to and excluding the first
/// NUL byte.
pub fn until_nul(data: &Vec<u8>, from: usize) -> (r: Vec<u8>)
    requires
        from <= data@.len(),
    ensures
        r@ == spec_until_nul(data@.skip(from as int)),
{
    let ghost s = data@.skip(from as int);
    let mut acc: Vec<u8> = Vec::new();
    let mut i: usize = from;
    while i < data.len()
        invariant
            from <= i <= data@.len(),
            s == data@.skip(from as int),
            spec_until_nul(s) == acc@ + spec_until_nul(data@.skip(i as int)),
        decreases data@.len() - i,
    {
        let b = data[i];
        proof {
            let rest = data@.skip(i as int);
            assert(rest.len() > 0);
            assert(rest[0] == data@[i as int]);
            assert(rest.drop_first() =~= data@.skip(i as int + 1));
        }
        if b == 0 {
            proof {
                assert(spec_until_nul(data@.skip(i as int)) =~= Seq::<u8>::empty());
                assert(acc@ + Seq::<u8>::empty() =~= acc@);
            }
            return acc;
        }
        acc.push(b);
        proof {
            let rest = data@.skip(i as int);
            assert(spec_until_nul(rest) == seq![rest[0]] + spec_until_nul(rest.drop_first()));
            assert(acc@ + spec_until_nul(data@.skip(i as int + 1)) =~= spec_until_nul(s));
        }
        i = i + 1;
    }
    proof {
        assert(data@.skip(i as int) =~= Seq::<u8>::empty());
        assert(spec_until_nul(Seq::<u8>::empty()) =~= Seq::<u8>::empty());
        assert(acc@ + Seq::<u8>::empty() =~= acc@);
    }
    acc
}

/// Copies `data` with NUL padding removed from both ends.
pub fn trim_nul(data: &Vec<u8>) -> (r: Vec<u8>)
    ensures
        r@ == spec_trim_nul(data@),
{
    let mut lo: usize = 0;
    while lo < data.len() && data[lo] == 0
        invariant
            0 <= lo <= data@.len(),
            forall|k: int| 0 <= k < lo ==> data@[k] == 0,
        decreases data@.len() - lo,
    {
        lo = lo + 1;
    }
    proof {
        lemma_trim_leading_nul_subrange(data@, lo as int);
    }
    let ghost led = data@.subrange(lo as int, data@.len() as int);
    let mut hi: usize = data.len();
    while hi > lo && data[hi - 1] == 0
        invariant
            lo <= hi <= data@.len(),
            forall|k: int| hi <= k < data@.len() ==> data@[k] == 0,
        decreases hi,
    {
        hi = hi - 1;
    }
    proof {
        assert(forall|k: int| hi - lo <= k < led.len() ==> led[k] == 0);
        lemma_trim_trailing_nul_subrange(led, hi - lo);
    }
    let mut out: Vec<u8> = Vec::new();
    let mut i: usize = lo;
    while i < hi
        invariant
            lo <= i <= hi <= data@.len(),
            out@ =~= data@.subrange(lo as int, i as int),
        decreases hi - i,
    {
        out.push(data[i]);
        i = i + 1;
    }
    proof {
        assert(led.subrange(0, hi - lo) =~= data@.subrange(lo as int, hi as int));
        assert(out@ =~= data@.subrange(lo as int, hi as int));
    }
    out
}

/// Relies on `String::from_utf8`: it succeeds exactly on valid UTF-8 input
/// and then decodes the bytes.
#[verifier::external_body]
pub(crate) fn bytes_to_string(data: Vec<u8>) -> (r: Option<String>)
    ensures
        r is Some <==> vstd::utf8::valid_utf8(data@),
        r is Some ==> r->0@ == vstd::utf8::decode_utf8(data@),
{
    String::from_utf8(data).ok()
}

/// A log-header record: a numeric id followed by a NUL-terminated message.
#[derive(Debug, Clone)]
pub struct LogMessage {
    pub id: u16,
    pub message: String,
}

/// The id field of a log-header payload: a little-endian 16-bit value after
/// the 9 skipped bytes.
pub open spec fn spec_log_id(d: Seq<u8>) -> u16 {
    ((d[9] as u16) + (d[10] as u16) * 256) as u16
}

/// The message bytes of a log-header payload: everything after the id, up to
/// and excluding the next NUL byte.
pub open spec fn spec_log_message_bytes(d: Seq<u8>) -> Seq<u8> {
    spec_until_nul(d.skip(11))
}

impl LogMessage {
    /// Decodes a log-header payload: 9 bytes are skipped, then a
    /// little-endian 16-bit id, then the UTF-8 message up to the next NUL.
    /// Too few bytes or invalid UTF-8 give a recoverable decode failure.
    pub fn from_bytes(data: &Vec<u8>) -> (r: Option<LogMessage>)
        ensures
            r is Some <==> data@.len() >= 11 && vstd::utf8::valid_utf8(
                spec_log_message_bytes(data@),
            ),
            r is Some ==> r->0.id == spec_log_id(data@),
            r is Some ==> r->0.message@ == vstd::utf8::decode_utf8(
                spec_log_message_bytes(data@),
            ),
    {
        if data.len() < 11 {
            return None;
        }
        let id: u16 = (data[9] as u16) + (data[10] as u16) * 256;
        let msg_bytes = until_nul(data, 11);
        match bytes_to_string(msg_bytes) {
            Some(message) => Some(LogMessage { id, message }),
            None => None,
        }
    }
}

/// Last-value cache of the decoded telemetry, by category.
#[derive(Debug, Clone)]
pub struct DroneMeta {
    pub flight: Option<FlightData>,
    pub wifi: Option<WifiInfo>,
    pub light: Option<LightInfo>,
}

/// The telemetry store after one package has been applied: a telemetry
/// payload overwrites its own category and leaves the others alone; any
/// other payload changes nothing.
pub open spec fn spec_meta_update(m: DroneMeta, p: PackageData) -> DroneMeta {
    match p {
        PackageData::FlightData(fd) => DroneMeta {
            flight: Some(fd),
            wifi: m.wifi,
            light: m.light,
        },
        PackageData::WifiInfo(w) => DroneMeta { flight: m.flight, wifi: Some(w), light: m.light },
        PackageData::LightInfo(l) => DroneMeta { flight: m.flight, wifi: m.wifi, light: Some(l) },
        _ => m,
    }
}

impl Default for DroneMeta {
    /// An empty store: no telemetry received yet in any category.
    fn default() -> (r: DroneMeta)
        ensures
            r.flight is None,
            r.wifi is None,
            r.light is None,
    {
        DroneMeta { flight: None, wifi: None, light: None }
    }
}

impl DroneMeta {
    /// The last flight-status sample, if any was received.
    pub fn get_flight_data(&self) -> (r: Option<FlightData>)
        ensures
            r == self.flight,
    {
        self.flight
    }

    /// The last wifi report, if any was received.
    pub fn get_wifi_info(&self) -> (r: Option<WifiInfo>)
        ensures
            r == self.wifi,
    {
        self.wifi
    }

    /// The last light report, if any was received.
    pub fn get_light_info(&self) -> (r: Option<LightInfo>)
        ensures
            r == self.light,
    {
        self.light
    }

    /// Applies a package to the store.  Non-telemetry package data is
    /// ignored; telemetry data overwrites its category.
    pub fn update(&mut self, package: &PackageData)
        ensures
            *final(self) == spec_meta_update(*old(self), *package),
    {
        match package {
            PackageData::FlightData(fd) => {
                self.flight = Some(*fd);
            },
            PackageData::WifiInfo(w) => {
                self.wifi = Some(*w);
            },
            PackageData::LightInfo(l) => {
                self.light = Some(*l);
            },
            _ => {},
        }
    }
}

} // verus!
