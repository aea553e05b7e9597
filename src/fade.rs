//! Timed fades for banners and scene changes. A fade belongs to the scene
//! that shows it and ends with it: the scene asks for the opacity each
//! tick, and dropping the fade cancels it.
use vstd::prelude::*;

verus! {

/// Full opacity, in thousandths.
pub const OPAQUE: u32 = 1000;

/// The opacity of a banner `elapsed` milliseconds into a fade with ramps of
/// `t` milliseconds: up over `t`, held for `2 * t`, down over `t`; `None`
/// once all `4 * t` have passed.
pub open spec fn banner_alpha(elapsed: int, t: int) -> Option<u32> {
    if elapsed <= t {
        Some((elapsed * OPAQUE / t) as u32)
    } else if elapsed <= 3 * t {
        Some(OPAQUE)
    } else if elapsed <= 4 * t {
        Some(((4 * t - elapsed) * OPAQUE / t) as u32)
    } else {
        None
    }
}

/// The opacity of a black cover `elapsed` milliseconds into a fade-in of
/// `t` milliseconds: from opaque down to clear; `None` once it is over.
pub open spec fn cover_alpha(elapsed: int, t: int) -> Option<u32> {
    if elapsed <= t {
        Some(((t - elapsed) * OPAQUE / t) as u32)
    } else {
        None
    }
}

/// A fade that started at `start` with ramps of `duration` milliseconds.
#[derive(Clone, Copy, Debug, PartialEq, Eq, Structural)]
pub struct Fade {
    pub start: u64,
    pub duration: u32,
}

impl Fade {
    pub open spec fn elapsed(self, now: u64) -> u64 {
        if now >= self.start {
            (now - self.start) as u64
        } else {
            0
        }
    }

    /// A fade starting at `now`.
    pub fn new(now: u64, duration: u32) -> (r: Fade)
        requires
            duration > 0,
        ensures
            r == (Fade { start: now, duration }),
    {
        Fade { start: now, duration }
    }

    /// The banner's opacity at `now`, in thousandths; `None` once over.
    pub fn banner(&self, now: u64) -> (r: Option<u32>)
        requires
            self.duration > 0,
        ensures
            r == banner_alpha(self.elapsed(now) as int, self.duration as int),
            r matches Some(a) ==> a <= OPAQUE,
    {
        let t = self.duration as u64;
        let e = if now >= self.start { now - self.start } else { 0 };
        if e <= t {
            proof {
                assert((e as int) * 1000 / (t as int) <= 1000) by (nonlinear_arith)
                    requires e <= t, t > 0;
            }
            Some((e * 1000 / t) as u32)
        } else if e <= 3 * t {
            Some(OPAQUE)
        } else if e <= 4 * t {
            proof {
                assert((4 * t - e) as int * 1000 / (t as int) <= 1000) by (nonlinear_arith)
                    requires 4 * t - e <= t, t > 0;
            }
            Some(((4 * t - e) * 1000 / t) as u32)
        } else {
            None
        }
    }

    /// The black cover's opacity at `now`, in thousandths; `None` once over.
    pub fn cover(&self, now: u64) -> (r: Option<u32>)
        requires
            self.duration > 0,
        ensures
            r == cover_alpha(self.elapsed(now) as int, self.duration as int),
            r matches Some(a) ==> a <= OPAQUE,
    {
        let t = self.duration as u64;
        let e = if now >= self.start { now - self.start } else { 0 };
        if e <= t {
            proof {
                assert((t - e) as int * 1000 / (t as int) <= 1000) by (nonlinear_arith)
                    requires t - e <= t, t > 0;
            }
            Some(((t - e) * 1000 / t) as u32)
        } else {
            None
        }
    }
}

} // verus!
