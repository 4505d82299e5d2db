//! Client-side engine for the binary UDP control protocol of a small
//! quadcopter.
//!
//! The crate is organised around a verified protocol core: the packet codec
//! (framing, checksums, sequence numbers), the telemetry decoders, the video
//! frame reassembler, the remote-control axis encoder and the polling engine
//! that keeps the vehicle fed with heartbeats and maintenance replies.  All
//! socket work is left to the embedding application, which hands byte
//! buffers in and sends the returned frames out.

pub mod checksum;
pub mod clock;
pub mod codec;
pub mod controller;
pub mod drone;
pub mod odometry;
pub mod protocol;
pub mod rc_state;
pub mod telemetry;
pub mod video;

pub use codec::{DecodeError, Message, Package, PackageData, RawPackage, ResponseMsg, UdpCommand};
pub use controller::{ControllerState, Key};
pub use drone::{CadencePlan, Drone};
pub use protocol::{CommandIds, Flip, PackageTypes, VideoMode};
pub use rc_state::RCState;
pub use telemetry::{DroneMeta, FlightData, LightInfo, LogMessage, WifiInfo};
pub use video::{FrameAccumulator, VideoSettings};
