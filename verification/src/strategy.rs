//! Decision policies: given a player's own history and a stream of draws,
//! choose the next action.

use vstd::prelude::*;

use crate::action::{Action, History};
use crate::probability::{Probability, DRAW_RANGE};
use crate::random::{all_draws, lemma_draws_compose, lemma_one_more_draw, RandomSource};

verus! {

/// A decision policy.
///
/// A policy is a function of the history it is shown and of the draws it
/// consumes. `draws_needed` says how many draws a decision takes, and
/// `decision` says which action comes out for given values of them.
pub trait Strategy {
    /// How many draws a decision on `history` consumes.
    spec fn draws_needed(&self, history: Seq<(Action, Action)>) -> nat;

    /// The action chosen on `history` when the draws consumed, in order, are
    /// `draws`.
    spec fn decision(&self, history: Seq<(Action, Action)>, draws: Seq<u64>) -> Action;

    /// Chooses the next action from the player's own history, taking from
    /// `rng` exactly the draws the decision needs.
    fn select_action(&self, history: &History, rng: &mut RandomSource) -> (action: Action)
        ensures
            final(rng).extends(old(rng)),
            final(rng).drawn_since(old(rng)).len() == self.draws_needed(history@),
            all_draws(final(rng).drawn_since(old(rng))),
            action == self.decision(history@, final(rng).drawn_since(old(rng))),
    ;
}

/// Cooperates first, then repeats the opponent's last action.
pub struct TitForTat;

/// Cooperates always.
pub struct AlwaysCooperate;

/// Cooperates with a fixed probability, whatever the history.
pub struct RandomStrategy {
    pub p_cooperate: Probability,
}

impl Strategy for TitForTat {
    open spec fn draws_needed(&self, history: Seq<(Action, Action)>) -> nat {
        0
    }

    open spec fn decision(&self, history: Seq<(Action, Action)>, draws: Seq<u64>) -> Action {
        if history.len() == 0 {
            Action::Cooperate
        } else {
            history.last().1
        }
    }

    fn select_action(&self, history: &History, rng: &mut RandomSource) -> (action: Action)
        ensures
            *final(rng) == *old(rng),
            history@.len() == 0 ==> action == Action::Cooperate,
            history@.len() > 0 ==> action == history@.last().1,
    {
        if history.len() == 0 {
            Action::Cooperate
        } else {
            history[history.len() - 1].1
        }
    }
}

impl Strategy for AlwaysCooperate {
    open spec fn draws_needed(&self, history: Seq<(Action, Action)>) -> nat {
        0
    }

    open spec fn decision(&self, history: Seq<(Action, Action)>, draws: Seq<u64>) -> Action {
        Action::Cooperate
    }

    fn select_action(&self, history: &History, rng: &mut RandomSource) -> (action: Action)
        ensures
            *final(rng) == *old(rng),
            action == Action::Cooperate,
    {
        Action::Cooperate
    }
}

impl RandomStrategy {
    /// The action that `draw` selects: `Cooperate` if the draw is at most the
    /// cooperation probability, `Defect` if it is above.
    pub open spec fn choice(&self, draw: u64) -> Action {
        if draw <= self.p_cooperate.value() {
            Action::Cooperate
        } else {
            Action::Defect
        }
    }

    /// Decides on a given draw.
    pub fn decide(&self, draw: u64) -> (action: Action)
        ensures
            action == self.choice(draw),
            draw <= self.p_cooperate.value() ==> action == Action::Cooperate,
            draw > self.p_cooperate.value() ==> action == Action::Defect,
    {
        if draw <= self.p_cooperate.units() {
            Action::Cooperate
        } else {
            Action::Defect
        }
    }
}

impl Strategy for RandomStrategy {
    open spec fn draws_needed(&self, history: Seq<(Action, Action)>) -> nat {
        1
    }

    open spec fn decision(&self, history: Seq<(Action, Action)>, draws: Seq<u64>) -> Action {
        self.choice(draws[0])
    }

    fn select_action(&self, history: &History, rng: &mut RandomSource) -> (action: Action) {
        let draw: u64 = rng.draw();
        proof {
            lemma_one_more_draw(*old(rng), *rng, draw);
        }
        self.decide(draw)
    }
}

/// Flips the action that another policy chose, with probability `epsilon`.
///
/// The inner policy decides first and takes its draws first; one more draw
/// then settles whether its action is flipped.
pub struct EpsilonMistake<S> {
    pub epsilon: Probability,
    pub inner: S,
}

impl<S: Strategy> EpsilonMistake<S> {
    /// The action that leaves the wrapper when the inner policy chose `base`
    /// and the flip draw is `draw`: flipped if the draw is strictly below
    /// `epsilon`, unchanged otherwise.
    pub open spec fn outcome(epsilon: Probability, base: Action, draw: u64) -> Action {
        if draw < epsilon.value() {
            base.opposite()
        } else {
            base
        }
    }

    /// Swaps `Cooperate` and `Defect`.
    pub fn flip_action(action: Action) -> (flipped: Action)
        ensures
            flipped == action.opposite(),
    {
        action.flipped()
    }

    /// Settles the fate of the inner policy's action `base` on a given flip
    /// draw.
    pub fn resolve(&self, base: Action, draw: u64) -> (action: Action)
        ensures
            action == Self::outcome(self.epsilon, base, draw),
    {
        if draw < self.epsilon.units() {
            Self::flip_action(base)
        } else {
            base
        }
    }
}

impl<S: Strategy> Strategy for EpsilonMistake<S> {
    open spec fn draws_needed(&self, history: Seq<(Action, Action)>) -> nat {
        self.inner.draws_needed(history) + 1
    }

    open spec fn decision(&self, history: Seq<(Action, Action)>, draws: Seq<u64>) -> Action {
        let n = self.inner.draws_needed(history) as int;
        Self::outcome(self.epsilon, self.inner.decision(history, draws.subrange(0, n)), draws[n])
    }

    fn select_action(&self, history: &History, rng: &mut RandomSource) -> (action: Action) {
        let base = self.inner.select_action(history, rng);
        let ghost mid = *rng;
        let draw: u64 = rng.draw();
        proof {
            // The draws taken are the inner policy's followed by the flip draw.
            lemma_one_more_draw(mid, *rng, draw);
            lemma_draws_compose(*old(rng), mid, *rng);
            let n = self.inner.draws_needed(history@) as int;
            let fresh = rng.drawn_since(old(rng));
            assert(fresh.subrange(0, n) =~= mid.drawn_since(old(rng)));
            assert(fresh[n] == draw);
        }
        self.resolve(base, draw)
    }
}

/// A wrapper with mistake probability zero chooses what its inner policy
/// chooses on the draws that the inner policy consumed, whatever the flip
/// draw is.
pub proof fn lemma_mistake_never<S: Strategy>(
    wrapper: EpsilonMistake<S>,
    history: Seq<(Action, Action)>,
    draws: Seq<u64>,
)
    requires
        wrapper.epsilon.value() == 0,
    ensures
        wrapper.decision(history, draws) == wrapper.inner.decision(
            history,
            draws.subrange(0, wrapper.inner.draws_needed(history) as int),
        ),
{
}

/// A wrapper with mistake probability one chooses the opposite of what its
/// inner policy chooses on the draws that the inner policy consumed.
pub proof fn lemma_mistake_always<S: Strategy>(
    wrapper: EpsilonMistake<S>,
    history: Seq<(Action, Action)>,
    draws: Seq<u64>,
)
    requires
        wrapper.epsilon.value() == DRAW_RANGE,
        draws.len() == wrapper.draws_needed(history),
        all_draws(draws),
    ensures
        wrapper.decision(history, draws) == wrapper.inner.decision(
            history,
            draws.subrange(0, wrapper.inner.draws_needed(history) as int),
        ).opposite(),
{
}

} // verus!
