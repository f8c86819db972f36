//! A small deterministic pseudo-random number generator (xorshift) for the
//! probabilistic scattering and the per-pixel sample jitter.
//!
//! Rendering seeds one generator per pixel, so every pixel's color is a
//! function of the scene and the pixel coordinates alone and renders are
//! reproducible.

use vstd::prelude::*;
use crate::fixed::SCALE;
use crate::vec3::{len_sq_spec, unit_spec, Vec3};

verus! {

/// One xorshift step of the generator state.
pub open spec fn rng_next_spec(s: u64) -> u64 {
    let a = s ^ (s << 13);
    let b = a ^ (a >> 7);
    b ^ (b << 17)
}

/// The scalar drawn from state `s` over `[-bound, bound]`: the next raw
/// word reduced modulo `2 * bound + 1`, shifted to be symmetric about zero.
pub open spec fn rng_draw_spec(s: u64, bound: i64) -> i64 {
    ((rng_next_spec(s) as int % (2 * bound + 1)) - bound) as i64
}

/// The scalar drawn from state `s` over `[0, SCALE)`: the next raw word
/// reduced modulo `SCALE`.
pub open spec fn rng_draw01_spec(s: u64) -> i64 {
    (rng_next_spec(s) as int % (SCALE as int)) as i64
}

/// The unit direction drawn from state `s`: three scalars over
/// `[-SCALE, SCALE]` normalized, or a fixed axis direction when the draw
/// is too close to zero to normalize.
pub open spec fn rng_unit_vec_spec(s: u64) -> Vec3 {
    let s1 = rng_next_spec(s);
    let s2 = rng_next_spec(s1);
    let v = Vec3 {
        x: rng_draw_spec(s, SCALE),
        y: rng_draw_spec(s1, SCALE),
        z: rng_draw_spec(s2, SCALE),
    };
    if len_sq_spec(v) == 0 {
        Vec3 { x: SCALE, y: 0i64, z: 0i64 }
    } else {
        unit_spec(v)
    }
}

/// The generator state after drawing one unit direction.
pub open spec fn rng_unit_vec_state_spec(s: u64) -> u64 {
    rng_next_spec(rng_next_spec(rng_next_spec(s)))
}

/// Deterministic pseudo-random generator: a single xorshift word of state.
#[derive(Clone, Copy, PartialEq, Eq, Structural, Debug)]
pub struct Rng {
    pub state: u64,
}

impl Rng {
    /// Seed a generator.  The state is forced odd so that it is never the
    /// all-zero fixed point of xorshift.
    pub fn seed(n: u64) -> (r: Rng)
        ensures
            r.state == n | 1,
    {
        Rng { state: n | 1 }
    }

    /// Advance the state one xorshift step and return the new raw word.
    pub fn next_word(&mut self) -> (r: u64)
        ensures
            r == rng_next_spec(old(self).state),
            final(self).state == rng_next_spec(old(self).state),
    {
        let mut s = self.state;
        s = s ^ (s << 13);
        s = s ^ (s >> 7);
        s = s ^ (s << 17);
        self.state = s;
        s
    }

    /// Draw a fixed-point scalar over `[-bound, bound]`.
    pub fn draw(&mut self, bound: i64) -> (r: i64)
        requires
            0 < bound <= 0x10000000000000,
        ensures
            r == rng_draw_spec(old(self).state, bound),
            final(self).state == rng_next_spec(old(self).state),
            -bound <= r <= bound,
    {
        let s0 = self.state;
        let w = self.next_word();
        let m: u64 = w % (2 * (bound as u64) + 1);
        (m as i64) - bound
    }

    /// Draw a fixed-point scalar over `[0, SCALE)`, the unit interval.
    pub fn draw01(&mut self) -> (r: i64)
        ensures
            r == rng_draw01_spec(old(self).state),
            final(self).state == rng_next_spec(old(self).state),
            0 <= r < SCALE,
    {
        let w = self.next_word();
        (w % (SCALE as u64)) as i64
    }

    /// Draw a direction of (fixed-point) unit length: three scalars over
    /// `[-SCALE, SCALE]`, normalized; a draw too close to zero to normalize
    /// falls back to a fixed axis direction.
    pub fn unit_vec(&mut self) -> (r: Vec3)
        ensures
            r == rng_unit_vec_spec(old(self).state),
            final(self).state == rng_unit_vec_state_spec(old(self).state),
    {
        let x = self.draw(SCALE);
        let y = self.draw(SCALE);
        let z = self.draw(SCALE);
        let v = Vec3 { x, y, z };
        let lsq = v.length_squared();
        if lsq == 0 {
            Vec3 { x: SCALE, y: 0, z: 0 }
        } else {
            v.unit()
        }
    }
}

} // verus!
