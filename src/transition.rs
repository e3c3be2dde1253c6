//! The stochastic accept/reject rule of the Metropolis algorithm.
//!
//! A uniform draw `u` in `[0, 1)` is represented by the integer `k < ONE`
//! with `u == k / ONE`; this is exactly the set of values that `rand`'s
//! standard `f64` draw produces (the top 53 bits of a 64-bit word, scaled).
//! An acceptance probability `p` in `[0, 1]` is represented by the threshold
//! `ceil(p * ONE)`, so that `p > k / ONE` holds exactly when the threshold
//! exceeds `k`.
use rand::rngs::StdRng;
use vstd::prelude::*;

verus! {

/// The number of equally likely values of a uniform draw: `2^53`.
pub const ONE: u64 = 0x20_0000_0000_0000;

/// `rand::rngs::StdRng`, the seedable generator that every draw comes from,
/// carried through as an opaque value.
#[verifier::external_type_specification]
#[verifier::external_body]
pub struct ExStdRng(StdRng);

/// Relies on `rand_core::RngCore::next_u64` for `StdRng`: one fresh 64-bit
/// word from the generator. Nothing is known of its value.
#[verifier::external_body]
fn next_word(rng: &mut StdRng) -> (r: u64) {
    rand::RngCore::next_u64(rng)
}

/// A fresh uniform draw on the grid `0 .. ONE`, taken from the top 53 bits
/// of one generator word, as `rand` does for a uniform `f64`.
pub fn draw_uniform(rng: &mut StdRng) -> (u: u64)
    ensures
        u < ONE,
{
    let w = next_word(rng);
    let u = w >> 11u64;
    assert(w >> 11u64 < 0x20_0000_0000_0000u64) by (bit_vector);
    u
}

/// An acceptance probability: `p@` out of `ONE`.
#[derive(Clone, Copy, Debug)]
pub struct Prob {
    threshold: u64,
}

impl View for Prob {
    type V = nat;

    closed spec fn view(&self) -> nat {
        self.threshold as nat
    }
}

/// The decision rule: a draw `u` accepts under probability `p` when `p > u`.
pub open spec fn accepts_spec(p: nat, u: nat) -> bool {
    p > u
}

impl Prob {
    #[verifier::type_invariant]
    spec fn at_most_one(self) -> bool {
        self.threshold <= ONE
    }

    /// The probability one: every draw accepts.
    pub fn certain() -> (r: Prob)
        ensures
            r@ == ONE as nat,
    {
        Prob { threshold: ONE }
    }

    /// The probability zero: no draw accepts.
    pub fn never() -> (r: Prob)
        ensures
            r@ == 0,
    {
        Prob { threshold: 0 }
    }

    /// The Metropolis cap `min(ratio, 1)`, for a density ratio already
    /// scaled by `ONE` and rounded up.
    pub fn capped(scaled_ratio: u64) -> (r: Prob)
        ensures
            r@ == if scaled_ratio <= ONE { scaled_ratio as nat } else { ONE as nat },
            r@ <= ONE,
    {
        if scaled_ratio <= ONE {
            Prob { threshold: scaled_ratio }
        } else {
            Prob { threshold: ONE }
        }
    }

    /// The threshold out of `ONE`.
    pub fn threshold(&self) -> (r: u64)
        ensures
            r as nat == self@,
            r <= ONE,
    {
        proof {
            use_type_invariant(self);
        }
        self.threshold
    }

    /// Whether the draw `u` accepts under this probability.
    pub fn accepts(&self, u: u64) -> (r: bool)
        ensures
            r == accepts_spec(self@, u as nat),
    {
        self.threshold > u
    }
}

} // verus!
