//! Playback position and the seek commands that move it.

use vstd::prelude::*;
use crate::geometry::{FRACTION_SCALE, floor_div};

verus! {

/// `f` held within `[0, FRACTION_SCALE]`.
pub open spec fn clamp_fraction(f: int) -> int {
    if f < 0 {
        0
    } else if f > FRACTION_SCALE {
        FRACTION_SCALE as int
    } else {
        f
    }
}

/// The media time, in milliseconds and rounded down, at fraction `f` of a
/// clip that lasts `duration` milliseconds.
pub open spec fn time_at(f: int, duration: int) -> int {
    floor_div(f * duration, FRACTION_SCALE as int)
}

/// The fraction, rounded down and clamped, that time `t` is of `duration`.
pub open spec fn fraction_of_time(t: int, duration: int) -> int {
    clamp_fraction(floor_div(t * FRACTION_SCALE, duration))
}

/// `t` held within `[0, duration]`, or within `[0, u64::MAX]` while the
/// duration is unknown.
pub open spec fn clamp_time(t: int, duration: Option<u64>) -> int {
    let hi: int = match duration {
        Some(d) => d as int,
        None => u64::MAX as int,
    };
    if t < 0 {
        0
    } else if t > hi {
        hi
    } else {
        t
    }
}

/// What the player believes about playback: whether it plays, how far it is
/// (a fraction of the duration), and the duration once the media has
/// reported it.
#[derive(Clone, Copy, Debug, PartialEq, Eq)]
pub struct PlaybackState {
    pub playing: bool,
    pub fraction: i64,
    pub duration_ms: Option<u64>,
}

impl PlaybackState {
    /// The position lies on the timeline.
    pub open spec fn wf(self) -> bool {
        0 <= self.fraction <= FRACTION_SCALE
    }

    /// Paused at the start, duration not yet known.
    pub open spec fn initial() -> PlaybackState {
        PlaybackState { playing: false, fraction: 0, duration_ms: None }
    }

    /// Paused at the start, duration not yet known.
    pub fn new() -> (r: PlaybackState)
        ensures
            r.wf(),
            r == Self::initial(),
    {
        PlaybackState { playing: false, fraction: 0, duration_ms: None }
    }

    /// The state after seeking to fraction `f` with the media's duration
    /// being `duration`: the position is recorded, clamped to the timeline,
    /// whether or not the duration is known.
    pub open spec fn after_seek(self, f: int, duration: Option<u64>) -> PlaybackState {
        PlaybackState {
            playing: self.playing,
            fraction: clamp_fraction(f) as i64,
            duration_ms: duration,
        }
    }

    /// The media time at the recorded position, once the duration is known.
    pub open spec fn current_time(self) -> Option<int> {
        match self.duration_ms {
            Some(d) => Some(time_at(self.fraction as int, d as int)),
            None => None,
        }
    }

    /// Seeks to fraction `f` (clamped to `[0, FRACTION_SCALE]`). Returns the
    /// media time to seek to, or `None` when the duration is not known yet; the
    /// position is recorded either way so that the timeline fill moves at once.
    pub fn seek_to(&mut self, f: i64, duration_ms: Option<u64>) -> (r: Option<u64>)
        ensures
            *final(self) == old(self).after_seek(f as int, duration_ms),
            final(self).wf(),
            r matches Some(t) ==> final(self).current_time() == Some(t as int),
            r is None <==> duration_ms is None,
    {
        let c: i64 = if f < 0 {
            0
        } else if f > FRACTION_SCALE {
            FRACTION_SCALE
        } else {
            f
        };
        self.fraction = c;
        self.duration_ms = duration_ms;
        match duration_ms {
            Some(d) => Some(media_time_at(c, d)),
            None => None,
        }
    }

    /// The media time at the recorded position, once the duration is known.
    pub fn current_time_ms(&self) -> (r: Option<u64>)
        requires
            self.wf(),
        ensures
            r matches Some(t) ==> self.current_time() == Some(t as int),
            r is None <==> self.current_time() is None,
    {
        match self.duration_ms {
            Some(d) => Some(media_time_at(self.fraction, d)),
            None => None,
        }
    }

    /// Follows the media's own report of its time: the position becomes the
    /// fraction that `current_ms` is of `duration_ms`. A zero duration says
    /// nothing, and the position is kept.
    pub fn sync_time(&mut self, current_ms: u64, duration_ms: u64)
        requires
            old(self).wf(),
        ensures
            final(self).wf(),
            final(self).playing == old(self).playing,
            duration_ms == 0 ==> *final(self) == *old(self),
            duration_ms > 0 ==> final(self).duration_ms == Some(duration_ms)
                && final(self).fraction == fraction_of_time(current_ms as int, duration_ms as int),
    {
        if duration_ms > 0 {
            assert(current_ms * FRACTION_SCALE <= 0x1_0000_0000_0000_0000 * FRACTION_SCALE)
                by (nonlinear_arith)
                requires
                    current_ms <= 0x1_0000_0000_0000_0000,
            ;
            let q: u128 = (current_ms as u128 * FRACTION_SCALE as u128) / duration_ms as u128;
            self.fraction = if q > FRACTION_SCALE as u128 {
                FRACTION_SCALE
            } else {
                q as i64
            };
            self.duration_ms = Some(duration_ms);
        }
    }

    /// The part of the timeline still ahead of the position.
    pub fn remaining_fraction(&self) -> (r: i64)
        requires
            self.wf(),
        ensures
            r == FRACTION_SCALE - self.fraction,
            0 <= r <= FRACTION_SCALE,
    {
        FRACTION_SCALE - self.fraction
    }
}

/// The media time at fraction `f` of a clip lasting `d` milliseconds.
pub fn media_time_at(f: i64, d: u64) -> (r: u64)
    requires
        0 <= f <= FRACTION_SCALE,
    ensures
        r == time_at(f as int, d as int),
        r <= d,
{
    assert(f * d <= FRACTION_SCALE * 0x1_0000_0000_0000_0000) by (nonlinear_arith)
        requires
            0 <= f <= FRACTION_SCALE,
            0 <= d <= 0x1_0000_0000_0000_0000,
    ;
    let p: u128 = f as u128 * d as u128;
    proof {
        assert(p <= FRACTION_SCALE * d) by (nonlinear_arith)
            requires
                p == f * d,
                0 <= f <= FRACTION_SCALE,
                d >= 0,
        ;
        vstd::arithmetic::div_mod::lemma_div_is_ordered(p as int, FRACTION_SCALE * d, FRACTION_SCALE as int);
        vstd::arithmetic::div_mod::lemma_div_multiples_vanish(d as int, FRACTION_SCALE as int);
    }
    (p / FRACTION_SCALE as u128) as u64
}

/// Where a nudge of `delta_ms` from `current_ms` lands: the sum, held within
/// `[0, duration]` (within `[0, u64::MAX]` while the duration is unknown).
pub fn nudge_target(current_ms: u64, delta_ms: i64, duration_ms: Option<u64>) -> (r: u64)
    ensures
        r == clamp_time(current_ms + delta_ms, duration_ms),
{
    let t: i128 = current_ms as i128 + delta_ms as i128;
    let hi: u64 = match duration_ms {
        Some(d) => d,
        None => u64::MAX,
    };
    if t < 0 {
        0
    } else if t > hi as i128 {
        hi
    } else {
        t as u64
    }
}

} // verus!

verus! {

/// Seeking to a fraction `f` of a clip whose duration `d` is known and
/// positive, then reading the time back, gives `f` of `d`: the whole
/// milliseconds of `f * d / FRACTION_SCALE`, less than one millisecond off.
pub proof fn lemma_seek_then_read_back(s: PlaybackState, f: int, d: u64)
    requires
        0 <= f <= FRACTION_SCALE,
        d > 0,
    ensures
        s.after_seek(f, Some(d)).current_time() == Some(time_at(f, d as int)),
        time_at(f, d as int) * FRACTION_SCALE <= f * d < (time_at(f, d as int) + 1)
            * FRACTION_SCALE,
{
    let t = time_at(f, d as int);
    let n: int = f * d;
    let m: int = FRACTION_SCALE as int;
    vstd::arithmetic::div_mod::lemma_fundamental_div_mod(n, m);
    assert(t * m <= n < (t + 1) * m) by (nonlinear_arith)
        requires
            n == m * t + n % m,
            0 <= n % m < m,
    ;
}

} // verus!
