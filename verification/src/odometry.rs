//! Input rules of the dead-reckoning odometry.
//!
//! The integrator itself accumulates a floating-point position and heading
//! in the embedding application; the rules it must obey on its inputs are
//! fixed here: every distance is clamped to the vehicle's accepted command
//! range of [20, 500] units before it is applied, and every rotation to
//! [1, 3600] hundredths of a turn-degree range — up to ten full turns per
//! call — independent of whether the underlying command send succeeded.

use vstd::prelude::*;

verus! {

/// The smallest distance a relative-motion command accepts.
pub const MIN_DISTANCE: u32 = 20;

/// The largest distance a relative-motion command accepts.
pub const MAX_DISTANCE: u32 = 500;

/// The smallest rotation a turn command accepts, in degrees.
pub const MIN_ROTATION: u32 = 1;

/// The largest rotation a turn command accepts, in degrees: ten full turns.
pub const MAX_ROTATION: u32 = 3600;

/// A distance clamped into the accepted command range.
pub open spec fn spec_clamp_distance(d: u32) -> u32 {
    if d < MIN_DISTANCE {
        MIN_DISTANCE
    } else if d > MAX_DISTANCE {
        MAX_DISTANCE
    } else {
        d
    }
}

/// A rotation clamped into the accepted command range.
pub open spec fn spec_clamp_rotation(r: u32) -> u32 {
    if r < MIN_ROTATION {
        MIN_ROTATION
    } else if r > MAX_ROTATION {
        MAX_ROTATION
    } else {
        r
    }
}

/// Clamps a distance into the accepted command range: values inside the
/// range pass unchanged, values outside snap to the nearer bound.
pub fn clamp_distance(d: u32) -> (r: u32)
    ensures
        r == spec_clamp_distance(d),
        MIN_DISTANCE <= r <= MAX_DISTANCE,
        MIN_DISTANCE <= d <= MAX_DISTANCE ==> r == d,
{
    if d < MIN_DISTANCE {
        MIN_DISTANCE
    } else if d > MAX_DISTANCE {
        MAX_DISTANCE
    } else {
        d
    }
}

/// Clamps a rotation into the accepted command range: values inside the
/// range pass unchanged, values outside snap to the nearer bound.
pub fn clamp_rotation(r: u32) -> (c: u32)
    ensures
        c == spec_clamp_rotation(r),
        MIN_ROTATION <= c <= MAX_ROTATION,
        MIN_ROTATION <= r <= MAX_ROTATION ==> c == r,
{
    if r < MIN_ROTATION {
        MIN_ROTATION
    } else if r > MAX_ROTATION {
        MAX_ROTATION
    } else {
        r
    }
}

} // verus!
