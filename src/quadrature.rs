//! Quadrature decoding of a two-phase rotary encoder.

use vstd::prelude::*;

verus! {

/// The last phase pair seen. `true` is the active level of a phase.
#[derive(Clone, Copy, Debug)]
pub struct QuadratureDecoder {
    pub last_a: bool,
    pub last_b: bool,
}

/// Direction of one detent, read when phase A has just become active:
/// `-1` when phase B is active at that instant, `1` when it is not.
pub open spec fn detent(last_a: bool, a: bool, b: bool) -> Option<i8> {
    if a && !last_a {
        Some(if b { -1i8 } else { 1i8 })
    } else {
        None
    }
}

impl QuadratureDecoder {
    /// One sample: the next record and the rotation it reports.
    pub open spec fn step(self, a: bool, b: bool) -> (QuadratureDecoder, Option<i8>) {
        (QuadratureDecoder { last_a: a, last_b: b }, detent(self.last_a, a, b))
    }

    /// A decoder that has seen both phases inactive.
    pub fn new() -> (r: Self)
        ensures
            !r.last_a,
            !r.last_b,
    {
        QuadratureDecoder { last_a: false, last_b: false }
    }

    /// Feeds one phase pair. A rotation is reported only on the edge where
    /// phase A becomes active; the stored pair is updated in every case.
    pub fn poll(&mut self, phase_a: bool, phase_b: bool) -> (r: Option<i8>)
        ensures
            (*final(self), r) == old(self).step(phase_a, phase_b),
    {
        let rising = phase_a && !self.last_a;
        self.last_a = phase_a;
        self.last_b = phase_b;
        if rising {
            if phase_b {
                Some(-1)
            } else {
                Some(1)
            }
        } else {
            None
        }
    }
}

} // verus!
