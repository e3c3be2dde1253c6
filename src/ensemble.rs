//! An ensemble of independent walkers, advanced together one step per tick.
//!
//! Drawing initial positions and proposals from the target distribution is
//! the caller's work; the ensemble owns the walkers, decides every
//! accept/reject step, and keeps the walker count fixed between
//! reconfigurations.
use crate::error::ConfigError;
use crate::metropolis::{
    metropolis_state_2d_independent_with, metropolis_state_2d_with, state_2d,
    state_2d_independent, Candidate, Point,
};
use crate::transition::{draw_uniform, ONE};
use rand::rngs::StdRng;
use vstd::prelude::*;

verus! {

/// How the two axes of a step draw their uniform values.
#[derive(Debug, Clone, Copy, PartialEq, Eq, Structural)]
pub enum Coupling {
    /// One draw per step, compared against both axes' probabilities.
    Shared,
    /// A draw of its own for each axis.
    PerAxis,
}

/// One walker: its current position and the most recent candidate, if it
/// has taken a step yet.
#[derive(Debug)]
pub struct Player<T> {
    pub candidate: Option<Candidate<T>>,
    pub current: Point<T>,
}

/// A walker that has not moved yet, standing at `current`.
pub open spec fn fresh_player<T>(current: Point<T>) -> Player<T> {
    Player { candidate: None, current }
}

/// One step of a walker at `position` towards `candidate`, under the draws
/// `d` (the second one is used only when each axis draws its own).
pub open spec fn advance<T>(
    coupling: Coupling,
    position: Point<T>,
    candidate: Candidate<T>,
    d: (nat, nat),
) -> Point<T> {
    match coupling {
        Coupling::Shared => state_2d(position, candidate, d.0),
        Coupling::PerAxis => state_2d_independent(position, candidate, d.0, d.1),
    }
}

impl<T> Player<T> {
    /// A walker that has not moved yet, standing at `current`.
    pub fn new(current: Point<T>) -> (r: Player<T>)
        ensures
            r == fresh_player(current),
    {
        Player { candidate: None, current }
    }
}

/// A walker that has not moved yet at each of `positions`.
fn fresh_players<T: Copy>(positions: &Vec<Point<T>>) -> (r: Vec<Player<T>>)
    ensures
        r@.len() == positions@.len(),
        forall|i: int| 0 <= i < positions@.len() ==> r@[i] == fresh_player(positions@[i]),
{
    let mut players: Vec<Player<T>> = Vec::new();
    let mut i: usize = 0;
    while i < positions.len()
        invariant
            i <= positions@.len(),
            players@.len() == i,
            forall|j: int| 0 <= j < i ==> players@[j] == fresh_player(positions@[j]),
        decreases positions@.len() - i,
    {
        players.push(Player::new(positions[i]));
        i = i + 1;
    }
    players
}

/// The walkers of a simulation; there is always at least one.
pub struct Ensemble<T> {
    players: Vec<Player<T>>,
    coupling: Coupling,
}

impl<T> Ensemble<T> {
    /// Well-formed: there is at least one walker.
    pub open spec fn wf(&self) -> bool {
        self.players().len() > 0
    }

    /// The walkers, in order.
    pub closed spec fn players(&self) -> Seq<Player<T>> {
        self.players@
    }

    /// How a step draws its uniform values.
    pub closed spec fn coupling_spec(&self) -> Coupling {
        self.coupling
    }
}

impl<T: Copy> Ensemble<T> {
    /// An ensemble of walkers that have not moved yet, one at each of
    /// `positions`; refused when there are none.
    pub fn new(positions: Vec<Point<T>>, coupling: Coupling) -> (r: Result<Ensemble<T>, ConfigError>)
        ensures
            positions@.len() == 0 <==> r is Err,
            r is Err ==> r == Err::<Ensemble<T>, ConfigError>(ConfigError::EmptyEnsemble),
            r matches Ok(e) ==> {
                &&& e.wf()
                &&& e.players().len() == positions@.len()
                &&& forall|i: int| 0 <= i < positions@.len() ==> e.players()[i] == fresh_player(positions@[i])
                &&& e.coupling_spec() == coupling
            },
    {
        if positions.len() == 0 {
            return Err(ConfigError::EmptyEnsemble);
        }
        let players = fresh_players(&positions);
        Ok(Ensemble { players, coupling })
    }

    /// The number of walkers.
    pub fn len(&self) -> (r: usize)
        ensures
            r == self.players().len(),
    {
        self.players.len()
    }

    /// How a step draws its uniform values.
    pub fn coupling(&self) -> (r: Coupling)
        ensures
            r == self.coupling_spec(),
    {
        self.coupling
    }

    /// The current position of every walker, in order.
    pub fn snapshot(&self) -> (r: Vec<Point<T>>)
        ensures
            r@.len() == self.players().len(),
            forall|i: int| 0 <= i < r@.len() ==> r@[i] == self.players()[i].current,
    {
        let mut out: Vec<Point<T>> = Vec::new();
        let mut i: usize = 0;
        while i < self.players.len()
            invariant
                i <= self.players@.len(),
                out@.len() == i,
                forall|j: int| 0 <= j < i ==> out@[j] == self.players@[j].current,
            decreases self.players@.len() - i,
        {
            out.push(self.players[i].current);
            i = i + 1;
        }
        out
    }
    /// Advances every walker one step: walker `i` takes `candidates[i]` as
    /// its candidate and decides with the draws `draws[i]`.
    pub fn tick_with(&mut self, candidates: Vec<Candidate<T>>, draws: Vec<(u64, u64)>)
        requires
            old(self).wf(),
            candidates@.len() == old(self).players().len(),
            draws@.len() == old(self).players().len(),
        ensures
            final(self).wf(),
            final(self).players().len() == old(self).players().len(),
            final(self).coupling_spec() == old(self).coupling_spec(),
            forall|i: int|
                0 <= i < old(self).players().len() ==> {
                    &&& #[trigger] final(self).players()[i].current == advance(
                        old(self).coupling_spec(),
                        old(self).players()[i].current,
                        candidates@[i],
                        (draws@[i].0 as nat, draws@[i].1 as nat),
                    )
                    &&& final(self).players()[i].candidate == Some(candidates@[i])
                },
    {
        let ghost given = candidates@;
        let mut candidates = candidates;
        let n = self.players.len();
        let mut i: usize = n;
        while i > 0
            invariant
                i <= n,
                n == old(self).players@.len(),
                self.players@.len() == n,
                draws@.len() == n,
                given.len() == n,
                candidates@ == given.take(i as int),
                self.coupling == old(self).coupling,
                forall|j: int| 0 <= j < i ==> self.players@[j] == old(self).players@[j],
                forall|j: int|
                    i <= j < n ==> {
                        &&& #[trigger] self.players@[j].current == advance(
                            self.coupling,
                            old(self).players@[j].current,
                            given[j],
                            (draws@[j].0 as nat, draws@[j].1 as nat),
                        )
                        &&& self.players@[j].candidate == Some(given[j])
                    },
            decreases i,
        {
            i = i - 1;
            let c = candidates.pop().unwrap();
            assert(c == given[i as int]);
            assert(candidates@ =~= given.take(i as int));
            let d = draws[i];
            let cur = self.players[i].current;
            let next = match self.coupling {
                Coupling::Shared => metropolis_state_2d_with(cur, &c, d.0),
                Coupling::PerAxis => metropolis_state_2d_independent_with(cur, &c, d.0, d.1),
            };
            self.players.set(i, Player { candidate: Some(c), current: next });
        }
    }

    /// Advances every walker one step towards its candidate, with fresh
    /// uniform draws from `rng`: one per walker, or one per walker and axis
    /// when each axis draws its own.
    pub fn tick(&mut self, candidates: Vec<Candidate<T>>, rng: &mut StdRng)
        requires
            old(self).wf(),
            candidates@.len() == old(self).players().len(),
        ensures
            final(self).wf(),
            final(self).players().len() == old(self).players().len(),
            final(self).coupling_spec() == old(self).coupling_spec(),
            forall|i: int|
                0 <= i < old(self).players().len() ==> {
                    &&& exists|ux: nat, uy: nat|
                        ux < ONE && uy < ONE && final(self).players()[i].current
                            == #[trigger] advance(
                            old(self).coupling_spec(),
                            old(self).players()[i].current,
                            candidates@[i],
                            (ux, uy),
                        )
                    &&& #[trigger] final(self).players()[i].candidate == Some(candidates@[i])
                },
    {
        let ghost given = candidates@;
        let n = self.players.len();
        let mut draws: Vec<(u64, u64)> = Vec::new();
        let mut i: usize = 0;
        while i < n
            invariant
                i <= n,
                draws@.len() == i,
                forall|j: int| 0 <= j < i ==> draws@[j].0 < ONE && draws@[j].1 < ONE,
            decreases n - i,
        {
            let ux = draw_uniform(rng);
            let uy = match self.coupling {
                Coupling::Shared => 0,
                Coupling::PerAxis => draw_uniform(rng),
            };
            draws.push((ux, uy));
            i = i + 1;
        }
        let ghost ds = draws@;
        self.tick_with(candidates, draws);
        assert forall|i: int| 0 <= i < n implies {
            &&& exists|ux: nat, uy: nat|
                ux < ONE && uy < ONE && self.players()[i].current == #[trigger] advance(
                    old(self).coupling_spec(),
                    old(self).players()[i].current,
                    given[i],
                    (ux, uy),
                )
            &&& #[trigger] self.players()[i].candidate == Some(given[i])
        } by {
            assert(ds[i].0 < ONE && ds[i].1 < ONE);
            assert(self.players()[i].current == advance(
                old(self).coupling_spec(),
                old(self).players()[i].current,
                given[i],
                (ds[i].0 as nat, ds[i].1 as nat),
            ));
        }
    }

    /// Replaces every walker by one that has not moved yet, standing at the
    /// matching entry of `positions`.
    pub fn reset(&mut self, positions: Vec<Point<T>>)
        requires
            old(self).wf(),
            positions@.len() == old(self).players().len(),
        ensures
            final(self).wf(),
            final(self).players().len() == old(self).players().len(),
            final(self).coupling_spec() == old(self).coupling_spec(),
            forall|i: int|
                0 <= i < positions@.len() ==> #[trigger] final(self).players()[i] == fresh_player(
                    positions@[i],
                ),
    {
        self.players = fresh_players(&positions);
    }

    /// Grows or shrinks the ensemble to `n` walkers: the first ones are kept,
    /// and each new slot gets a walker that has not moved yet, standing at
    /// the next entry of `positions`. Refused, with the ensemble unchanged,
    /// when `n` is zero.
    pub fn resize(&mut self, n: usize, positions: Vec<Point<T>>) -> (r: Result<(), ConfigError>)
        requires
            old(self).wf(),
            n > old(self).players().len() ==> positions@.len() >= n - old(self).players().len(),
        ensures
            n == 0 <==> r is Err,
            r is Err ==> r == Err::<(), ConfigError>(ConfigError::EmptyEnsemble),
            r is Err ==> *final(self) == *old(self),
            r is Ok ==> {
                &&& final(self).wf()
                &&& final(self).players().len() == n
                &&& final(self).coupling_spec() == old(self).coupling_spec()
                &&& forall|i: int|
                    0 <= i < n && i < old(self).players().len() ==> #[trigger] final(self).players()[i]
                        == old(self).players()[i]
                &&& forall|i: int|
                    old(self).players().len() <= i < n ==> #[trigger] final(self).players()[i]
                        == fresh_player(positions@[i - old(self).players().len()])
            },
    {
        if n == 0 {
            return Err(ConfigError::EmptyEnsemble);
        }
        let len = self.players.len();
        if n <= len {
            self.players.truncate(n);
        } else {
            let mut i: usize = len;
            while i < n
                invariant
                    len == old(self).players@.len(),
                    len <= i <= n,
                    positions@.len() >= n - len,
                    self.players@.len() == i,
                    self.coupling == old(self).coupling,
                    forall|j: int| 0 <= j < len ==> self.players@[j] == old(self).players@[j],
                    forall|j: int|
                        len <= j < i ==> self.players@[j] == fresh_player(positions@[j - len]),
                decreases n - i,
            {
                self.players.push(Player::new(positions[i - len]));
                i = i + 1;
            }
        }
        Ok(())
    }
}

/// A step invents no coordinate: on each axis the walker either keeps its
/// coordinate, or takes the candidate's, and the latter only when the
/// candidate's acceptance probability on that axis is positive. So a
/// candidate made by `Candidate::checked` with non-finite coordinates never
/// moves a walker, and walkers that start at finite positions stay at
/// finite positions.
pub proof fn lemma_step_keeps_or_takes<T>(
    coupling: Coupling,
    position: Point<T>,
    candidate: Candidate<T>,
    d: (nat, nat),
)
    ensures
        advance(coupling, position, candidate, d).x == position.x || (advance(
            coupling,
            position,
            candidate,
            d,
        ).x == candidate.position.x && candidate.prob_accept.0@ > 0),
        advance(coupling, position, candidate, d).y == position.y || (advance(
            coupling,
            position,
            candidate,
            d,
        ).y == candidate.position.y && candidate.prob_accept.1@ > 0),
{
}

} // verus!
