//! Video frame reassembly.
//!
//! The vehicle splits each H.264 access unit over small datagrams: byte 0 is
//! an 8-bit frame id, byte 1 an intra-frame sequence number, the rest
//! payload.  An accumulation cycle must open with sequence 0 (a mid-stream
//! join is dropped to avoid building a corrupt frame), keeps appending
//! payload slices while the frame id stays the same, and completes when the
//! sequence number reaches the practical cap of 120.  The 8-bit wire id is
//! widened to a monotonically increasing counter by counting wraparounds.

use vstd::prelude::*;

use crate::protocol::VideoMode;

verus! {

/// A sequence number at or above this cap completes the frame.
pub const FRAME_SQN_CAP: u8 = 120;

/// A new leading id below this bound that is numerically less than the
/// previous one signals an 8-bit wraparound.
pub const FRAME_ID_WRAP_BOUND: u8 = 100;

/// Video stream settings and reassembly state.  Created once at engine
/// construction; mutated only by connect, video start, video mode and
/// bitrate changes, and by the arrival of video datagrams.
#[derive(Debug, Clone)]
pub struct VideoSettings {
    pub port: u16,
    pub enabled: bool,
    pub mode: VideoMode,
    pub level: u8,
    pub encoding_rate: u8,
    pub last_video_poll_ms: u64,
    pub last_frame_id: u8,
    pub frame_counter_overflow: u32,
}

/// The overflow counter after a new leading frame id has been seen: it
/// advances exactly when the id is below the wrap bound and numerically less
/// than the previous one, wrapping modulo 32 bits.
pub open spec fn spec_overflow_step(overflow: u32, last_id: u8, new_id: u8) -> u32 {
    if new_id < FRAME_ID_WRAP_BOUND && new_id < last_id {
        ((overflow + 1) % 0x1_0000_0000) as u32
    } else {
        overflow
    }
}

/// The externally visible frame counter: the 8-bit wire id widened by 255
/// per counted wraparound, modulo 32 bits.
pub open spec fn spec_wide_frame_id(frame_id: u8, overflow: u32) -> u32 {
    ((frame_id + 255 * overflow) % 0x1_0000_0000) as u32
}

/// A partially reassembled frame: the id of the cycle, the sequence number
/// of the last accepted datagram, and the payload accumulated so far.
#[derive(Debug, Clone)]
pub struct FrameAccumulator {
    pub frame_id: u8,
    pub sqn: u8,
    pub buffer: Vec<u8>,
}

impl VideoSettings {
    /// Opens an accumulation cycle with the first datagram seen.  The
    /// frame-id tracking (wraparound counter and last seen id) is updated
    /// for every well-formed datagram; the cycle itself only opens when the
    /// intra-frame sequence number is 0, so a mid-stream join yields
    /// nothing.  Datagrams of fewer than two bytes are dropped unread.
    pub fn begin_frame(&mut self, datagram: &Vec<u8>) -> (r: Option<FrameAccumulator>)
        ensures
            r is Some <==> datagram@.len() >= 2 && datagram@[1] == 0,
            datagram@.len() >= 2 ==> final(self).last_frame_id == datagram@[0]
                && final(self).frame_counter_overflow == spec_overflow_step(
                old(self).frame_counter_overflow,
                old(self).last_frame_id,
                datagram@[0],
            ),
            datagram@.len() < 2 ==> *final(self) == *old(self),
            r is Some ==> r->0.frame_id == datagram@[0] && r->0.sqn == 0 && r->0.buffer@
                == datagram@.skip(2),
            final(self).port == old(self).port,
            final(self).enabled == old(self).enabled,
            final(self).mode == old(self).mode,
            final(self).level == old(self).level,
            final(self).encoding_rate == old(self).encoding_rate,
            final(self).last_video_poll_ms == old(self).last_video_poll_ms,
    {
        if datagram.len() < 2 {
            return None;
        }
        let active_frame_id = datagram[0];
        if active_frame_id < FRAME_ID_WRAP_BOUND && active_frame_id < self.last_frame_id {
            if self.frame_counter_overflow == 0xffff_ffff {
                self.frame_counter_overflow = 0;
            } else {
                self.frame_counter_overflow = self.frame_counter_overflow + 1;
            }
        }
        self.last_frame_id = active_frame_id;
        let sqn = datagram[1];
        if sqn != 0 {
            return None;
        }
        let buffer = crate::codec::copy_from(datagram, 2);
        Some(FrameAccumulator { frame_id: active_frame_id, sqn: 0, buffer })
    }
}

impl FrameAccumulator {
    /// Whether the accumulated frame is complete: the last accepted
    /// sequence number reached the cap.
    pub open spec fn spec_complete(self) -> bool {
        self.sqn >= FRAME_SQN_CAP
    }

    /// Whether the accumulated frame is complete.
    pub fn is_complete(&self) -> (r: bool)
        ensures
            r == self.spec_complete(),
    {
        self.sqn >= FRAME_SQN_CAP
    }

    /// Appends one follow-up datagram to the cycle.  A datagram whose frame
    /// id differs from the cycle's (stream desync), or one too short to
    /// carry a header, refuses the datagram: the partial frame is to be
    /// dropped.
    pub fn push(&mut self, datagram: &Vec<u8>) -> (r: bool)
        ensures
            r <==> datagram@.len() >= 2 && datagram@[0] == old(self).frame_id,
            r ==> final(self).frame_id == old(self).frame_id && final(self).sqn == datagram@[1]
                && final(self).buffer@ == old(self).buffer@ + datagram@.skip(2),
            !r ==> *final(self) == *old(self),
    {
        if datagram.len() < 2 {
            return false;
        }
        if datagram[0] != self.frame_id {
            return false;
        }
        self.sqn = datagram[1];
        let mut tail = crate::codec::copy_from(datagram, 2);
        self.buffer.append(&mut tail);
        true
    }

    /// Closes the cycle and hands the frame out, widening the 8-bit wire id
    /// with the wraparound counter into the externally visible frame
    /// counter.
    pub fn into_frame(self, overflow: u32) -> (r: (u32, Vec<u8>))
        ensures
            r.0 == spec_wide_frame_id(self.frame_id, overflow),
            r.1@ == self.buffer@,
    {
        let wide: u64 = (self.frame_id as u64) + 255u64 * (overflow as u64);
        ((wide % 0x1_0000_0000) as u32, self.buffer)
    }
}

} // verus!
