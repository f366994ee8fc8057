//! Background animation: a bounded triangle wave over a linear intensity.
//!
//! The intensity is kept in exact thousandths of full brightness, so the
//! per-tick step of five thousandths (0.005) and the bounds 0 and 1 are
//! represented without rounding. The presenter maps the returned value to a
//! real brightness in `[0.0, 1.0]` (dividing by `INTENSITY_MAX`) and applies
//! gamma correction; that mapping is floating point and stays outside this
//! crate.

use vstd::prelude::*;
use vstd::arithmetic::div_mod::{
    lemma_fundamental_div_mod,
    lemma_fundamental_div_mod_converse,
    lemma_mod_pos_bound,
};

verus! {

/// Full brightness, in thousandths.
pub const INTENSITY_MAX: u32 = 1000;

/// Per-tick change of the intensity, in thousandths.
pub const INTENSITY_STEP: u32 = 5;

/// Number of ticks after which the wave returns to its starting state.
pub const WAVE_PERIOD: u32 = 400;

/// Whether the intensity is currently increasing or decreasing.
#[derive(Clone, Copy, PartialEq, Eq, Structural, Debug)]
pub enum Direction {
    Rising,
    Falling,
}

/// The animation state: an intensity in `[0, INTENSITY_MAX]` thousandths and
/// the direction it is moving in. Mutated exactly once per tick.
#[derive(Clone, Copy, PartialEq, Eq, Structural, Debug)]
pub struct AnimationState {
    /// Linear intensity, in thousandths of full brightness.
    pub intensity: u32,
    /// Which way the intensity moves on the next tick.
    pub direction: Direction,
}

impl AnimationState {
    /// The intensity never leaves `[0, INTENSITY_MAX]`.
    pub open spec fn wf(self) -> bool {
        self.intensity <= INTENSITY_MAX
    }

    /// The initial state: fully dark and brightening.
    pub open spec fn spec_init() -> AnimationState {
        AnimationState { intensity: 0, direction: Direction::Rising }
    }

    /// One transition of the state machine: move the intensity one step in
    /// the current direction; on reaching (or overshooting) a bound, clamp to
    /// the bound and reverse direction in that same transition.
    pub open spec fn stepped(self) -> AnimationState {
        let tentative: int = if self.direction is Rising {
            self.intensity + INTENSITY_STEP
        } else {
            self.intensity - INTENSITY_STEP
        };
        if tentative >= INTENSITY_MAX {
            AnimationState { intensity: INTENSITY_MAX, direction: Direction::Falling }
        } else if tentative <= 0 {
            AnimationState { intensity: 0, direction: Direction::Rising }
        } else {
            AnimationState { intensity: tentative as u32, direction: self.direction }
        }
    }

    /// The state after `n` ticks from the initial state.
    pub open spec fn state_at(n: nat) -> AnimationState
        decreases n,
    {
        if n == 0 {
            AnimationState::spec_init()
        } else {
            AnimationState::state_at((n - 1) as nat).stepped()
        }
    }

    pub fn init() -> (s: AnimationState)
        ensures
            s == AnimationState::spec_init(),
    {
        AnimationState { intensity: 0, direction: Direction::Rising }
    }

    /// Advance the state by one tick and return the new intensity, in
    /// thousandths of full brightness.
    pub fn tick(&mut self) -> (intensity: u32)
        requires
            old(self).wf(),
        ensures
            *final(self) == old(self).stepped(),
            final(self).wf(),
            intensity == final(self).intensity,
    {
        match self.direction {
            Direction::Rising => {
                let tentative: u32 = self.intensity + INTENSITY_STEP;
                if tentative >= INTENSITY_MAX {
                    self.intensity = INTENSITY_MAX;
                    self.direction = Direction::Falling;
                } else {
                    self.intensity = tentative;
                }
            }
            Direction::Falling => {
                if self.intensity <= INTENSITY_STEP {
                    self.intensity = 0;
                    self.direction = Direction::Rising;
                } else {
                    self.intensity = self.intensity - INTENSITY_STEP;
                }
            }
        }
        self.intensity
    }
}

/// One transition always lands inside the bounds, whatever state it starts
/// from: the intensity of a stepped state is in `[0, INTENSITY_MAX]`.
pub proof fn lemma_stepped_wf(s: AnimationState)
    ensures
        s.stepped().wf(),
{
}

/// Triangle-wave bound: after any number of ticks from the initial state,
/// the intensity lies in `[0, INTENSITY_MAX]`.
pub proof fn lemma_intensity_bounded(n: nat)
    ensures
        0 <= AnimationState::state_at(n).intensity <= INTENSITY_MAX,
{
    if n > 0 {
        lemma_stepped_wf(AnimationState::state_at((n - 1) as nat));
    }
}

/// The closed form of the triangle wave at tick `n`: within each period the
/// intensity ramps up by one step per tick to full brightness at the half
/// period, then ramps back down to darkness at the full period.
pub open spec fn wave(n: nat) -> AnimationState {
    let k: int = n as int % (WAVE_PERIOD as int);
    let half: int = WAVE_PERIOD as int / 2;
    if k == 0 {
        AnimationState::spec_init()
    } else if k < half {
        AnimationState { intensity: (INTENSITY_STEP * k) as u32, direction: Direction::Rising }
    } else {
        AnimationState {
            intensity: (INTENSITY_MAX - INTENSITY_STEP * (k - half)) as u32,
            direction: Direction::Falling,
        }
    }
}

/// The triangle wave is exact: the state after `n` ticks from the initial
/// state is the closed form `wave(n)`. In particular the oscillation is
/// periodic with period `WAVE_PERIOD`, reaches full brightness exactly at
/// the half period of each cycle, and returns to exact darkness at each
/// full period.
pub proof fn lemma_triangle_wave(n: nat)
    ensures
        AnimationState::state_at(n) == wave(n),
    decreases n,
{
    let p: int = WAVE_PERIOD as int;
    let k: int = n as int % p;
    lemma_mod_pos_bound(n as int, p);
    if n == 0 {
        lemma_fundamental_div_mod_converse(0, p, 0, 0);
    } else {
        let m: nat = (n - 1) as nat;
        lemma_triangle_wave(m);
        let km1: int = m as int % p;
        lemma_mod_pos_bound(m as int, p);
        lemma_fundamental_div_mod(n as int, p);
        let q: int = n as int / p;
        if k == 0 {
            // the previous tick closed a period
            lemma_fundamental_div_mod_converse(m as int, p, q - 1, p - 1);
            assert(km1 == p - 1);
        } else {
            lemma_fundamental_div_mod_converse(m as int, p, q, k - 1);
            assert(km1 == k - 1);
        }
        assert(AnimationState::state_at(n) == wave(m).stepped());
    }
}

/// Peak and period of the wave from the initial state: full brightness is
/// reached exactly at tick `WAVE_PERIOD / 2`, and at tick `WAVE_PERIOD` the
/// intensity is exactly zero again, the whole state having returned to the
/// initial one.
pub proof fn lemma_peak_and_period()
    ensures
        AnimationState::state_at((WAVE_PERIOD / 2) as nat).intensity == INTENSITY_MAX,
        AnimationState::state_at(WAVE_PERIOD as nat) == AnimationState::spec_init(),
{
    lemma_triangle_wave((WAVE_PERIOD / 2) as nat);
    lemma_triangle_wave(WAVE_PERIOD as nat);
    lemma_fundamental_div_mod_converse(200, 400, 0, 200);
    lemma_fundamental_div_mod_converse(400, 400, 1, 0);
}

} // verus!
