//! Protocol constants: command ids, packet-type tags, flip directions and
//! video modes, together with their wire codes.
//!
//! The wire codes are sparse 16-bit (command ids) or 8-bit values; unknown
//! command codes map to the distinguished `Undefined` variant so that a
//! decoder never fails on an unrecognised id.

use vstd::prelude::*;

verus! {

/// Start marker of every framed packet.
pub const START_OF_PACKET: u8 = 0xcc;

/// Known command ids.  Not all of them are implemented by the engine.
#[derive(Debug, Clone, Copy, PartialEq, Eq, Structural)]
pub enum CommandIds {
    Undefined,
    SsidMsg,
    SsidCmd,
    SsidPasswordMsg,
    SsidPasswordCmd,
    WifiRegionMsg,
    WifiRegionCmd,
    WifiMsg,
    VideoEncoderRateCmd,
    VideoDynAdjRateCmd,
    EisCmd,
    VideoStartCmd,
    VideoRateQuery,
    TakePictureCommand,
    VideoModeCmd,
    VideoRecordCmd,
    ExposureCmd,
    LightMsg,
    JpegQualityMsg,
    Error1Msg,
    Error2Msg,
    VersionMsg,
    TimeCmd,
    ActivationTimeMsg,
    LoaderVersionMsg,
    StickCmd,
    TakeoffCmd,
    LandCmd,
    FlightMsg,
    AltLimitCmd,
    FlipCmd,
    ThrowAndGoCmd,
    PalmLandCmd,
    TelloCmdFileSize,
    TelloCmdFileData,
    TelloCmdFileComplete,
    SmartVideoCmd,
    SmartVideoStatusMsg,
    LogHeaderMsg,
    LogDataMsg,
    LogConfigMsg,
    BounceCmd,
    CalibrateCmd,
    LowBatThresholdCmd,
    AltLimitMsg,
    LowBatThresholdMsg,
    AttLimitCmd,
    AttLimitMsg,
}

/// The 16-bit wire code of a command id.
pub open spec fn spec_command_code(c: CommandIds) -> u16 {
    match c {
        CommandIds::Undefined => 0x0000,
        CommandIds::SsidMsg => 0x0011,
        CommandIds::SsidCmd => 0x0012,
        CommandIds::SsidPasswordMsg => 0x0013,
        CommandIds::SsidPasswordCmd => 0x0014,
        CommandIds::WifiRegionMsg => 0x0015,
        CommandIds::WifiRegionCmd => 0x0016,
        CommandIds::WifiMsg => 0x001a,
        CommandIds::VideoEncoderRateCmd => 0x0020,
        CommandIds::VideoDynAdjRateCmd => 0x0021,
        CommandIds::EisCmd => 0x0024,
        CommandIds::VideoStartCmd => 0x0025,
        CommandIds::VideoRateQuery => 0x0028,
        CommandIds::TakePictureCommand => 0x0030,
        CommandIds::VideoModeCmd => 0x0031,
        CommandIds::VideoRecordCmd => 0x0032,
        CommandIds::ExposureCmd => 0x0034,
        CommandIds::LightMsg => 0x0035,
        CommandIds::JpegQualityMsg => 0x0037,
        CommandIds::Error1Msg => 0x0043,
        CommandIds::Error2Msg => 0x0044,
        CommandIds::VersionMsg => 0x0045,
        CommandIds::TimeCmd => 0x0046,
        CommandIds::ActivationTimeMsg => 0x0047,
        CommandIds::LoaderVersionMsg => 0x0049,
        CommandIds::StickCmd => 0x0050,
        CommandIds::TakeoffCmd => 0x0054,
        CommandIds::LandCmd => 0x0055,
        CommandIds::FlightMsg => 0x0056,
        CommandIds::AltLimitCmd => 0x0058,
        CommandIds::FlipCmd => 0x005c,
        CommandIds::ThrowAndGoCmd => 0x005d,
        CommandIds::PalmLandCmd => 0x005e,
        CommandIds::TelloCmdFileSize => 0x0062,
        CommandIds::TelloCmdFileData => 0x0063,
        CommandIds::TelloCmdFileComplete => 0x0064,
        CommandIds::SmartVideoCmd => 0x0080,
        CommandIds::SmartVideoStatusMsg => 0x0081,
        CommandIds::LogHeaderMsg => 0x1050,
        CommandIds::LogDataMsg => 0x1051,
        CommandIds::LogConfigMsg => 0x1052,
        CommandIds::BounceCmd => 0x1053,
        CommandIds::CalibrateCmd => 0x1054,
        CommandIds::LowBatThresholdCmd => 0x1055,
        CommandIds::AltLimitMsg => 0x1056,
        CommandIds::LowBatThresholdMsg => 0x1057,
        CommandIds::AttLimitCmd => 0x1058,
        CommandIds::AttLimitMsg => 0x1059,
    }
}

/// The command id a 16-bit wire code stands for; unknown codes give
/// `Undefined`.
pub open spec fn spec_command_from_code(value: u16) -> CommandIds {
    match value {
        0x0011u16 => CommandIds::SsidMsg,
        0x0012u16 => CommandIds::SsidCmd,
        0x0013u16 => CommandIds::SsidPasswordMsg,
        0x0014u16 => CommandIds::SsidPasswordCmd,
        0x0015u16 => CommandIds::WifiRegionMsg,
        0x0016u16 => CommandIds::WifiRegionCmd,
        0x001au16 => CommandIds::WifiMsg,
        0x0020u16 => CommandIds::VideoEncoderRateCmd,
        0x0021u16 => CommandIds::VideoDynAdjRateCmd,
        0x0024u16 => CommandIds::EisCmd,
        0x0025u16 => CommandIds::VideoStartCmd,
        0x0028u16 => CommandIds::VideoRateQuery,
        0x0030u16 => CommandIds::TakePictureCommand,
        0x0031u16 => CommandIds::VideoModeCmd,
        0x0032u16 => CommandIds::VideoRecordCmd,
        0x0034u16 => CommandIds::ExposureCmd,
        0x0035u16 => CommandIds::LightMsg,
        0x0037u16 => CommandIds::JpegQualityMsg,
        0x0043u16 => CommandIds::Error1Msg,
        0x0044u16 => CommandIds::Error2Msg,
        0x0045u16 => CommandIds::VersionMsg,
        0x0046u16 => CommandIds::TimeCmd,
        0x0047u16 => CommandIds::ActivationTimeMsg,
        0x0049u16 => CommandIds::LoaderVersionMsg,
        0x0050u16 => CommandIds::StickCmd,
        0x0054u16 => CommandIds::TakeoffCmd,
        0x0055u16 => CommandIds::LandCmd,
        0x0056u16 => CommandIds::FlightMsg,
        0x0058u16 => CommandIds::AltLimitCmd,
        0x005cu16 => CommandIds::FlipCmd,
        0x005du16 => CommandIds::ThrowAndGoCmd,
        0x005eu16 => CommandIds::PalmLandCmd,
        0x0062u16 => CommandIds::TelloCmdFileSize,
        0x0063u16 => CommandIds::TelloCmdFileData,
        0x0064u16 => CommandIds::TelloCmdFileComplete,
        0x0080u16 => CommandIds::SmartVideoCmd,
        0x0081u16 => CommandIds::SmartVideoStatusMsg,
        0x1050u16 => CommandIds::LogHeaderMsg,
        0x1051u16 => CommandIds::LogDataMsg,
        0x1052u16 => CommandIds::LogConfigMsg,
        0x1053u16 => CommandIds::BounceCmd,
        0x1054u16 => CommandIds::CalibrateCmd,
        0x1055u16 => CommandIds::LowBatThresholdCmd,
        0x1056u16 => CommandIds::AltLimitMsg,
        0x1057u16 => CommandIds::LowBatThresholdMsg,
        0x1058u16 => CommandIds::AttLimitCmd,
        0x1059u16 => CommandIds::AttLimitMsg,
        _ => CommandIds::Undefined,
    }
}

impl CommandIds {
    /// The 16-bit code this command id is written as on the wire.
    pub fn code(self) -> (r: u16)
        ensures
            r == spec_command_code(self),
    {
        match self {
            CommandIds::Undefined => 0x0000,
            CommandIds::SsidMsg => 0x0011,
            CommandIds::SsidCmd => 0x0012,
            CommandIds::SsidPasswordMsg => 0x0013,
            CommandIds::SsidPasswordCmd => 0x0014,
            CommandIds::WifiRegionMsg => 0x0015,
            CommandIds::WifiRegionCmd => 0x0016,
            CommandIds::WifiMsg => 0x001a,
            CommandIds::VideoEncoderRateCmd => 0x0020,
            CommandIds::VideoDynAdjRateCmd => 0x0021,
            CommandIds::EisCmd => 0x0024,
            CommandIds::VideoStartCmd => 0x0025,
            CommandIds::VideoRateQuery => 0x0028,
            CommandIds::TakePictureCommand => 0x0030,
            CommandIds::VideoModeCmd => 0x0031,
            CommandIds::VideoRecordCmd => 0x0032,
            CommandIds::ExposureCmd => 0x0034,
            CommandIds::LightMsg => 0x0035,
            CommandIds::JpegQualityMsg => 0x0037,
            CommandIds::Error1Msg => 0x0043,
            CommandIds::Error2Msg => 0x0044,
            CommandIds::VersionMsg => 0x0045,
            CommandIds::TimeCmd => 0x0046,
            CommandIds::ActivationTimeMsg => 0x0047,
            CommandIds::LoaderVersionMsg => 0x0049,
            CommandIds::StickCmd => 0x0050,
            CommandIds::TakeoffCmd => 0x0054,
            CommandIds::LandCmd => 0x0055,
            CommandIds::FlightMsg => 0x0056,
            CommandIds::AltLimitCmd => 0x0058,
            CommandIds::FlipCmd => 0x005c,
            CommandIds::ThrowAndGoCmd => 0x005d,
            CommandIds::PalmLandCmd => 0x005e,
            CommandIds::TelloCmdFileSize => 0x0062,
            CommandIds::TelloCmdFileData => 0x0063,
            CommandIds::TelloCmdFileComplete => 0x0064,
            CommandIds::SmartVideoCmd => 0x0080,
            CommandIds::SmartVideoStatusMsg => 0x0081,
            CommandIds::LogHeaderMsg => 0x1050,
            CommandIds::LogDataMsg => 0x1051,
            CommandIds::LogConfigMsg => 0x1052,
            CommandIds::BounceCmd => 0x1053,
            CommandIds::CalibrateCmd => 0x1054,
            CommandIds::LowBatThresholdCmd => 0x1055,
            CommandIds::AltLimitMsg => 0x1056,
            CommandIds::LowBatThresholdMsg => 0x1057,
            CommandIds::AttLimitCmd => 0x1058,
            CommandIds::AttLimitMsg => 0x1059,
        }
    }

    /// The command id a 16-bit wire code stands for; unknown codes decode to
    /// `Undefined` rather than failing.
    pub fn from_code(value: u16) -> (r: CommandIds)
        ensures
            r == spec_command_from_code(value),
    {
        match value {
            0x0011 => CommandIds::SsidMsg,
            0x0012 => CommandIds::SsidCmd,
            0x0013 => CommandIds::SsidPasswordMsg,
            0x0014 => CommandIds::SsidPasswordCmd,
            0x0015 => CommandIds::WifiRegionMsg,
            0x0016 => CommandIds::WifiRegionCmd,
            0x001a => CommandIds::WifiMsg,
            0x0020 => CommandIds::VideoEncoderRateCmd,
            0x0021 => CommandIds::VideoDynAdjRateCmd,
            0x0024 => CommandIds::EisCmd,
            0x0025 => CommandIds::VideoStartCmd,
            0x0028 => CommandIds::VideoRateQuery,
            0x0030 => CommandIds::TakePictureCommand,
            0x0031 => CommandIds::VideoModeCmd,
            0x0032 => CommandIds::VideoRecordCmd,
            0x0034 => CommandIds::ExposureCmd,
            0x0035 => CommandIds::LightMsg,
            0x0037 => CommandIds::JpegQualityMsg,
            0x0043 => CommandIds::Error1Msg,
            0x0044 => CommandIds::Error2Msg,
            0x0045 => CommandIds::VersionMsg,
            0x0046 => CommandIds::TimeCmd,
            0x0047 => CommandIds::ActivationTimeMsg,
            0x0049 => CommandIds::LoaderVersionMsg,
            0x0050 => CommandIds::StickCmd,
            0x0054 => CommandIds::TakeoffCmd,
            0x0055 => CommandIds::LandCmd,
            0x0056 => CommandIds::FlightMsg,
            0x0058 => CommandIds::AltLimitCmd,
            0x005c => CommandIds::FlipCmd,
            0x005d => CommandIds::ThrowAndGoCmd,
            0x005e => CommandIds::PalmLandCmd,
            0x0062 => CommandIds::TelloCmdFileSize,
            0x0063 => CommandIds::TelloCmdFileData,
            0x0064 => CommandIds::TelloCmdFileComplete,
            0x0080 => CommandIds::SmartVideoCmd,
            0x0081 => CommandIds::SmartVideoStatusMsg,
            0x1050 => CommandIds::LogHeaderMsg,
            0x1051 => CommandIds::LogDataMsg,
            0x1052 => CommandIds::LogConfigMsg,
            0x1053 => CommandIds::BounceCmd,
            0x1054 => CommandIds::CalibrateCmd,
            0x1055 => CommandIds::LowBatThresholdCmd,
            0x1056 => CommandIds::AltLimitMsg,
            0x1057 => CommandIds::LowBatThresholdMsg,
            0x1058 => CommandIds::AttLimitCmd,
            0x1059 => CommandIds::AttLimitMsg,
            _ => CommandIds::Undefined,
        }
    }
}

/// Decoding the wire code of a command id gives the id back, for every
/// variant: the code table and the decode table are mutual inverses on the
/// codes the protocol knows.
pub proof fn lemma_command_code_roundtrip(c: CommandIds)
    ensures
        spec_command_from_code(spec_command_code(c)) == c,
{
}

/// The package-type tag carried verbatim in the packet header.  Its exact
/// behavioural meaning is firmware-internal; it is an opaque per-command
/// constant.
#[derive(Debug, Clone, Copy, PartialEq, Eq, Structural)]
pub enum PackageTypes {
    X48,
    X50,
    X60,
    X70,
    X68,
}

/// The one-byte wire value of a package-type tag.
pub open spec fn spec_packet_type_code(t: PackageTypes) -> u8 {
    match t {
        PackageTypes::X48 => 0x48,
        PackageTypes::X50 => 0x50,
        PackageTypes::X60 => 0x60,
        PackageTypes::X70 => 0x70,
        PackageTypes::X68 => 0x68,
    }
}

impl PackageTypes {
    /// The one-byte value this tag is written as on the wire.
    pub fn code(self) -> (r: u8)
        ensures
            r == spec_packet_type_code(self),
    {
        match self {
            PackageTypes::X48 => 0x48,
            PackageTypes::X50 => 0x50,
            PackageTypes::X60 => 0x60,
            PackageTypes::X70 => 0x70,
            PackageTypes::X68 => 0x68,
        }
    }
}

/// Flip directions of the acrobatic flip command.
#[derive(Debug, Clone, Copy, PartialEq, Eq, Structural)]
pub enum Flip {
    /// flips forward.
    Forward,
    /// flips left.
    Left,
    /// flips backwards.
    Back,
    /// flips to the right.
    Right,
    /// flips forwards and to the left.
    ForwardLeft,
    /// flips backwards and to the left.
    BackLeft,
    /// flips backwards and to the right.
    BackRight,
    /// flips forwards and to the right.
    ForwardRight,
}

/// The one-byte payload value of a flip direction.
pub open spec fn spec_flip_code(f: Flip) -> u8 {
    match f {
        Flip::Forward => 0,
        Flip::Left => 1,
        Flip::Back => 2,
        Flip::Right => 3,
        Flip::ForwardLeft => 4,
        Flip::BackLeft => 5,
        Flip::BackRight => 6,
        Flip::ForwardRight => 7,
    }
}

impl Flip {
    /// The one-byte value this direction is written as in the flip payload.
    pub fn code(self) -> (r: u8)
        ensures
            r == spec_flip_code(self),
    {
        match self {
            Flip::Forward => 0,
            Flip::Left => 1,
            Flip::Back => 2,
            Flip::Right => 3,
            Flip::ForwardLeft => 4,
            Flip::BackLeft => 5,
            Flip::BackRight => 6,
            Flip::ForwardRight => 7,
        }
    }
}

/// Available video modes: 960x720 4:3 video, or 1280x720 16:9 zoomed video.
#[derive(Debug, Clone, Copy, PartialEq, Eq, Structural)]
pub enum VideoMode {
    M960x720,
    M1280x720,
}

/// The one-byte payload value of a video mode.
pub open spec fn spec_video_mode_code(m: VideoMode) -> u8 {
    match m {
        VideoMode::M960x720 => 0,
        VideoMode::M1280x720 => 1,
    }
}

impl VideoMode {
    /// The one-byte value this mode is written as in the video-mode payload.
    pub fn code(self) -> (r: u8)
        ensures
            r == spec_video_mode_code(self),
    {
        match self {
            VideoMode::M960x720 => 0,
            VideoMode::M1280x720 => 1,
        }
    }
}

} // verus!
