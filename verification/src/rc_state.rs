//! Remote-control axis state and the stick encoder.
//!
//! Four continuous axes are held as fixed-point thousandths of full
//! deflection, in `[-1000, 1000]` (the embedding application converts its
//! own normalized values at this boundary).  A one-shot "start engines"
//! pulse overrides the axes with a fixed combination for 350 ms of wall
//! clock after arming, then expires on the first read that notices it.

use vstd::prelude::*;

verus! {

/// Full deflection of an axis, in fixed-point thousandths.
pub const AXIS_UNIT: i16 = 1000;

/// How long the start-engines pulse overrides the axes, in milliseconds.
pub const ENGINE_PULSE_MS: u64 = 350;

/// Whether a fixed-point axis value lies within full deflection.
pub open spec fn axis_in_range(v: i16) -> bool {
    -AXIS_UNIT <= v <= AXIS_UNIT
}

/// The current remote-control input: four axes and the one-shot
/// start-engines pulse with its arming time.
#[derive(Debug, Clone)]
pub struct RCState {
    pub left_right: i16,
    pub forward_back: i16,
    pub turn: i16,
    pub up_down: i16,
    pub start_engines: bool,
    pub start_engines_set_ms: Option<u64>,
}

impl RCState {
    /// All four axes lie within full deflection.
    pub open spec fn wf(self) -> bool {
        axis_in_range(self.left_right) && axis_in_range(self.forward_back) && axis_in_range(
            self.turn,
        ) && axis_in_range(self.up_down)
    }
}

impl Default for RCState {
    /// All axes centred, pulse disarmed.
    fn default() -> (r: RCState)
        ensures
            r.left_right == 0,
            r.forward_back == 0,
            r.turn == 0,
            r.up_down == 0,
            !r.start_engines,
            r.start_engines_set_ms is None,
            r.wf(),
    {
        RCState {
            left_right: 0,
            forward_back: 0,
            turn: 0,
            up_down: 0,
            start_engines: false,
            start_engines_set_ms: None,
        }
    }
}

/// Whether the pulse armed at `set_ms` still runs at `now_ms`: the clock has
/// not gone backwards and at most 350 ms have passed.
pub open spec fn spec_pulse_keeps(set_ms: Option<u64>, now_ms: u64) -> bool {
    set_ms matches Some(s) && s <= now_ms && now_ms - s <= ENGINE_PULSE_MS
}

/// The stick parameters a read reports, as `(pitch, nick, roll, yaw, fast)`:
/// the fixed engine-start combination while the pulse is armed, the stored
/// axes otherwise.
pub open spec fn spec_stick_params(rc: RCState, now_ms: u64) -> (i16, i16, i16, i16, bool) {
    if rc.start_engines {
        (-1000i16, -1000i16, -1000i16, 1000i16, true)
    } else {
        (rc.up_down, rc.forward_back, rc.left_right, rc.turn, true)
    }
}

/// The state after a stick-parameter read: a read that finds the pulse
/// expired (or the clock inconsistent) disarms it; nothing else changes.
pub open spec fn spec_rc_after_read(rc: RCState, now_ms: u64) -> RCState {
    if rc.start_engines {
        RCState { start_engines: spec_pulse_keeps(rc.start_engines_set_ms, now_ms), ..rc }
    } else {
        rc
    }
}

impl RCState {
    /// Arms the one-shot start-engines pulse: for the next 350 ms of wall
    /// clock the stick parameters report the fixed engine-start combination.
    pub fn start_engines(&mut self, now_ms: u64)
        ensures
            final(self).start_engines,
            final(self).start_engines_set_ms == Some(now_ms),
            final(self).left_right == old(self).left_right,
            final(self).forward_back == old(self).forward_back,
            final(self).turn == old(self).turn,
            final(self).up_down == old(self).up_down,
    {
        self.start_engines = true;
        self.start_engines_set_ms = Some(now_ms);
    }

    /// The stick parameters to send, as `(pitch, nick, roll, yaw, fast)` in
    /// fixed-point thousandths.  While the start-engines pulse is armed the
    /// fixed combination is reported, and the read that finds the pulse
    /// expired (or the clock inconsistent) disarms it for the next read.
    pub fn get_stick_parameter(&mut self, now_ms: u64) -> (r: (i16, i16, i16, i16, bool))
        ensures
            r == spec_stick_params(*old(self), now_ms),
            *final(self) == spec_rc_after_read(*old(self), now_ms),
            old(self).wf() ==> axis_in_range(r.0) && axis_in_range(r.1) && axis_in_range(r.2)
                && axis_in_range(r.3),
    {
        if self.start_engines {
            match self.start_engines_set_ms {
                Some(start) => {
                    if now_ms < start || now_ms - start > ENGINE_PULSE_MS {
                        self.start_engines = false;
                    }
                },
                None => {
                    self.start_engines = false;
                },
            }
            (-1000, -1000, -1000, 1000, true)
        } else {
            (self.up_down, self.forward_back, self.left_right, self.turn, true)
        }
    }

    /// Stops moving left or right by centring the axis.
    pub fn stop_left_right(&mut self)
        ensures
            *final(self) == (RCState { left_right: 0, ..*old(self) }),
    {
        self.left_right = 0;
    }

    /// Full deflection to the left; an opposing deflection first snaps the
    /// axis back to centre.
    pub fn go_left(&mut self)
        ensures
            *final(self) == (RCState {
                left_right: if old(self).left_right > 0 {
                    0
                } else {
                    -1000i16
                },
                ..*old(self)
            }),
    {
        if self.left_right > 0 {
            self.stop_left_right()
        } else {
            self.left_right = -1000;
        }
    }

    /// Full deflection to the right; an opposing deflection first snaps the
    /// axis back to centre.
    pub fn go_right(&mut self)
        ensures
            *final(self) == (RCState {
                left_right: if old(self).left_right < 0 {
                    0
                } else {
                    1000
                },
                ..*old(self)
            }),
    {
        if self.left_right < 0 {
            self.stop_left_right()
        } else {
            self.left_right = 1000;
        }
    }

    /// Sets the left-right axis to an analog value in `[-1000, 1000]`,
    /// where -1000 is left and 1000 is right.
    pub fn go_left_right(&mut self, value: i16)
        requires
            axis_in_range(value),
        ensures
            *final(self) == (RCState { left_right: value, ..*old(self) }),
    {
        self.left_right = value;
    }

    /// Stops moving forward or back by centring the axis.
    pub fn stop_forward_back(&mut self)
        ensures
            *final(self) == (RCState { forward_back: 0, ..*old(self) }),
    {
        self.forward_back = 0;
    }

    /// Full deflection backwards; an opposing deflection first snaps the
    /// axis back to centre.
    pub fn go_back(&mut self)
        ensures
            *final(self) == (RCState {
                forward_back: if old(self).forward_back > 0 {
                    0
                } else {
                    -1000i16
                },
                ..*old(self)
            }),
    {
        if self.forward_back > 0 {
            self.stop_forward_back()
        } else {
            self.forward_back = -1000;
        }
    }

    /// Full deflection forwards; an opposing deflection first snaps the
    /// axis back to centre.
    pub fn go_forward(&mut self)
        ensures
            *final(self) == (RCState {
                forward_back: if old(self).forward_back < 0 {
                    0
                } else {
                    1000
                },
                ..*old(self)
            }),
    {
        if self.forward_back < 0 {
            self.stop_forward_back()
        } else {
            self.forward_back = 1000;
        }
    }

    /// Sets the forward-back axis to an analog value in `[-1000, 1000]`,
    /// where -1000 is back and 1000 is forward.
    pub fn go_forward_back(&mut self, value: i16)
        requires
            axis_in_range(value),
        ensures
            *final(self) == (RCState { forward_back: value, ..*old(self) }),
    {
        self.forward_back = value;
    }

    /// Stops moving up or down by centring the axis.
    pub fn stop_up_down(&mut self)
        ensures
            *final(self) == (RCState { up_down: 0, ..*old(self) }),
    {
        self.up_down = 0;
    }

    /// Full deflection downwards; an opposing deflection first snaps the
    /// axis back to centre.
    pub fn go_down(&mut self)
        ensures
            *final(self) == (RCState {
                up_down: if old(self).up_down > 0 {
                    0
                } else {
                    -1000i16
                },
                ..*old(self)
            }),
    {
        if self.up_down > 0 {
            self.stop_up_down()
        } else {
            self.up_down = -1000;
        }
    }

    /// Full deflection upwards; an opposing deflection first snaps the axis
    /// back to centre.
    pub fn go_up(&mut self)
        ensures
            *final(self) == (RCState {
                up_down: if old(self).up_down < 0 {
                    0
                } else {
                    1000
                },
                ..*old(self)
            }),
    {
        if self.up_down < 0 {
            self.stop_up_down()
        } else {
            self.up_down = 1000;
        }
    }

    /// Sets the up-down axis to an analog value in `[-1000, 1000]`, where
    /// -1000 is down and 1000 is up.
    pub fn go_up_down(&mut self, value: i16)
        requires
            axis_in_range(value),
        ensures
            *final(self) == (RCState { up_down: value, ..*old(self) }),
    {
        self.up_down = value;
    }

    /// Stops turning by centring the axis.
    pub fn stop_turn(&mut self)
        ensures
            *final(self) == (RCState { turn: 0, ..*old(self) }),
    {
        self.turn = 0;
    }

    /// Full counter-clockwise turn; an opposing deflection first snaps the
    /// axis back to centre.
    pub fn go_ccw(&mut self)
        ensures
            *final(self) == (RCState {
                turn: if old(self).turn > 0 {
                    0
                } else {
                    -1000i16
                },
                ..*old(self)
            }),
    {
        if self.turn > 0 {
            self.stop_turn()
        } else {
            self.turn = -1000;
        }
    }

    /// Full clockwise turn; an opposing deflection first snaps the axis
    /// back to centre.
    pub fn go_cw(&mut self)
        ensures
            *final(self) == (RCState {
                turn: if old(self).turn < 0 {
                    0
                } else {
                    1000
                },
                ..*old(self)
            }),
    {
        if self.turn < 0 {
            self.stop_turn()
        } else {
            self.turn = 1000;
        }
    }

    /// Sets the turn axis to an analog value in `[-1000, 1000]`, where
    /// -1000 turns counter-clockwise and 1000 turns clockwise.
    pub fn turn(&mut self, value: i16)
        requires
            axis_in_range(value),
        ensures
            *final(self) == (RCState { turn: value, ..*old(self) }),
    {
        self.turn = value;
    }
}

/// The unsigned 11-bit stick field of a fixed-point axis value: the axis is
/// normalized around a centre of 1024 with a span of 660 per unit of
/// deflection.
pub open spec fn spec_stick_of_axis(a: int) -> u16 {
    ((1024000 + 660 * a) / 1000) as u16
}

/// Converts a fixed-point axis value to its unsigned 11-bit stick field:
/// full left deflection gives 364, centre gives 1024, full right gives 1684.
pub fn axis_to_stick(a: i16) -> (r: u16)
    requires
        axis_in_range(a),
    ensures
        r == spec_stick_of_axis(a as int),
        364 <= r <= 1684,
{
    let base_i: i64 = 1024000 + 660 * (a as i64);
    let base: u32 = base_i as u32;
    assert(base == 1024000 + 660 * (a as int));
    (base / 1000) as u16
}

/// The 45-bit stick integer: roll in bits 0-10, nick in 11-21, pitch in
/// 22-32, yaw in 33-43 (each masked to 11 bits), and the fast flag in bit
/// 44.
pub open spec fn spec_packed_axes(roll: u64, nick: u64, pitch: u64, yaw: u64, fast: bool) -> u64 {
    (roll & 0x7ff) | ((nick & 0x7ff) << 11) | ((pitch & 0x7ff) << 22) | ((yaw & 0x7ff) << 33) | (
    (if fast {
        1u64
    } else {
        0u64
    }) << 44)
}

/// Packs four 11-bit stick fields and the fast flag into the 45-bit stick
/// integer.
pub fn pack_axes(roll: u16, nick: u16, pitch: u16, yaw: u16, fast: bool) -> (r: u64)
    ensures
        r == spec_packed_axes(roll as u64, nick as u64, pitch as u64, yaw as u64, fast),
{
    let roll_u: u64 = roll as u64;
    let nick_u: u64 = nick as u64;
    let pitch_u: u64 = pitch as u64;
    let yaw_u: u64 = yaw as u64;
    let throttle_u: u64 = if fast {
        1u64
    } else {
        0u64
    };
    (roll_u & 0x7ff) | ((nick_u & 0x7ff) << 11) | ((pitch_u & 0x7ff) << 22) | ((yaw_u & 0x7ff)
        << 33) | (throttle_u << 44)
}

} // verus!
