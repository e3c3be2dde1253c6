//! Candidates and the state transition of one walker, in one and two
//! dimensions.
use crate::transition::{accepts_spec, draw_uniform, Prob, ONE};
use rand::rngs::StdRng;
use vstd::prelude::*;

verus! {

/// A position in the plane, with coordinates of the caller's type.
#[derive(Clone, Copy, Debug)]
pub struct Point<T> {
    pub x: T,
    pub y: T,
}

/// A proposed position together with its acceptance probability on each
/// axis.
#[derive(Debug)]
pub struct Candidate<T> {
    pub prob_accept: (Prob, Prob),
    pub position: Point<T>,
}

/// The coordinate kept by one accept/reject test: the candidate's when the
/// draw `u` accepts under `p`, the current one otherwise.
pub open spec fn pick<T>(current: T, candidate: T, p: nat, u: nat) -> T {
    if accepts_spec(p, u) {
        candidate
    } else {
        current
    }
}

/// The two-dimensional transition with one draw `u` shared by both axes.
pub open spec fn state_2d<T>(position: Point<T>, candidate: Candidate<T>, u: nat) -> Point<T> {
    Point {
        x: pick(position.x, candidate.position.x, candidate.prob_accept.0@, u),
        y: pick(position.y, candidate.position.y, candidate.prob_accept.1@, u),
    }
}

/// The two-dimensional transition with a draw of its own for each axis.
pub open spec fn state_2d_independent<T>(
    position: Point<T>,
    candidate: Candidate<T>,
    ux: nat,
    uy: nat,
) -> Point<T> {
    Point {
        x: pick(position.x, candidate.position.x, candidate.prob_accept.0@, ux),
        y: pick(position.y, candidate.position.y, candidate.prob_accept.1@, uy),
    }
}

impl<T> Candidate<T> {
    pub fn new(prob_accept: (Prob, Prob), position: Point<T>) -> (r: Candidate<T>)
        ensures
            r.prob_accept.0@ == prob_accept.0@,
            r.prob_accept.1@ == prob_accept.1@,
            r.position == position,
    {
        Candidate { prob_accept, position }
    }

    /// A candidate whose coordinates may not all be finite numbers: such a
    /// candidate is never accepted, on either axis, so the walker keeps its
    /// current position.
    pub fn checked(prob_accept: (Prob, Prob), position: Point<T>, finite: bool) -> (r: Candidate<
        T,
    >)
        ensures
            r.position == position,
            finite ==> r.prob_accept.0@ == prob_accept.0@ && r.prob_accept.1@ == prob_accept.1@,
            !finite ==> r.prob_accept.0@ == 0 && r.prob_accept.1@ == 0,
    {
        if finite {
            Candidate { prob_accept, position }
        } else {
            Candidate { prob_accept: (Prob::never(), Prob::never()), position }
        }
    }
}

/// One-dimensional transition for a given draw `u`.
pub fn metropolis_state_with<T>(position: T, candidate: T, prob_accept: &Prob, u: u64) -> (r: T)
    ensures
        r == pick(position, candidate, prob_accept@, u as nat),
{
    if prob_accept.accepts(u) {
        candidate
    } else {
        position
    }
}

/// One-dimensional transition: moves to `candidate` when a fresh uniform
/// draw falls below `prob_accept`, and stays at `position` otherwise.
pub fn metropolis_state<T>(position: T, candidate: T, prob_accept: &Prob, rng: &mut StdRng) -> (r:
    T)
    ensures
        exists|u: nat| u < ONE && r == #[trigger] pick(position, candidate, prob_accept@, u),
        prob_accept@ == ONE ==> r == candidate,
        prob_accept@ == 0 ==> r == position,
{
    let u = draw_uniform(rng);
    let r = metropolis_state_with(position, candidate, prob_accept, u);
    assert(u < ONE && r == pick(position, candidate, prob_accept@, u as nat));
    r
}

/// Two-dimensional transition for a given draw `u`, shared by both axes.
pub fn metropolis_state_2d_with<T: Copy>(position: Point<T>, candidate: &Candidate<T>, u: u64) -> (r:
    Point<T>)
    ensures
        r == state_2d(position, *candidate, u as nat),
{
    let mut pos = position;
    if candidate.prob_accept.0.accepts(u) {
        pos.x = candidate.position.x;
    }
    if candidate.prob_accept.1.accepts(u) {
        pos.y = candidate.position.y;
    }
    pos
}

/// Two-dimensional transition for given draws, one for each axis.
pub fn metropolis_state_2d_independent_with<T: Copy>(
    position: Point<T>,
    candidate: &Candidate<T>,
    ux: u64,
    uy: u64,
) -> (r: Point<T>)
    ensures
        r == state_2d_independent(position, *candidate, ux as nat, uy as nat),
{
    let mut pos = position;
    if candidate.prob_accept.0.accepts(ux) {
        pos.x = candidate.position.x;
    }
    if candidate.prob_accept.1.accepts(uy) {
        pos.y = candidate.position.y;
    }
    pos
}

/// Two-dimensional transition: one fresh uniform draw decides both axes,
/// each against its own acceptance probability.
pub fn metropolis_state_2d<T: Copy>(position: Point<T>, candidate: &Candidate<T>, rng: &mut StdRng) -> (r:
    Point<T>)
    ensures
        exists|u: nat| u < ONE && r == #[trigger] state_2d(position, *candidate, u),
{
    let u = draw_uniform(rng);
    metropolis_state_2d_with(position, candidate, u)
}

/// A transition under probability one always moves to the candidate, and
/// one under probability zero always stays put, whatever the draw.
pub proof fn lemma_certain_and_never<T>(position: T, candidate: T, u: nat)
    requires
        u < ONE,
    ensures
        pick(position, candidate, ONE as nat, u) == candidate,
        pick(position, candidate, 0, u) == position,
{
}

} // verus!
