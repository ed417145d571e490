//! The configuration of one trial of the noisy memory-one game.

use vstd::prelude::*;

use crate::action::Action;
use crate::lookup::{LookupStrategy, LookupTable};
use crate::player::{Game, PayoffMatrix, Player};
use crate::probability::Probability;
use crate::random::RandomSource;
use crate::strategy::EpsilonMistake;

verus! {

/// A memory-one policy whose action is flipped by mistake now and then.
pub type NoisyLookup = EpsilonMistake<LookupStrategy>;

/// What one trial is played with. Every player follows the table `rules`
/// and errs with probability `epsilon`.
#[derive(Clone, Copy, Debug)]
pub struct Config {
    /// The number of players. A game takes exactly two.
    pub n: usize,
    /// The number of rounds to play.
    pub rounds: usize,
    pub rules: LookupTable,
    pub epsilon: Probability,
    pub payoff_matrix: PayoffMatrix,
    /// The number of the trial.
    pub trial: usize,
}

impl Config {
    /// The policy that every player of the trial follows.
    pub open spec fn policy(&self) -> NoisyLookup {
        EpsilonMistake { epsilon: self.epsilon, inner: LookupStrategy { rules: self.rules } }
    }

    /// `game` is the trial before its first round, with `rng` as its source
    /// of draws: the players are named `Player 1` and `Player 2`, follow
    /// `policy` and have not played.
    pub open spec fn opens(&self, game: &Game<NoisyLookup, NoisyLookup>, rng: RandomSource) -> bool {
        &&& game.trial == self.trial
        &&& game.players.0.name@ == "Player 1"@
        &&& game.players.0.strategy == self.policy()
        &&& game.players.0.history@ == Seq::<(Action, Action)>::empty()
        &&& game.players.0.action == Action::Cooperate
        &&& game.players.1.name@ == "Player 2"@
        &&& game.players.1.strategy == self.policy()
        &&& game.players.1.history@ == Seq::<(Action, Action)>::empty()
        &&& game.players.1.action == Action::Cooperate
        &&& game.payoff_matrix == self.payoff_matrix
        &&& game.rng == rng
        &&& game.epsilon == self.epsilon
    }

    /// The trial before its first round, or `None` if the configuration does
    /// not ask for exactly two players.
    pub fn new_game(&self, rng: RandomSource) -> (game: Option<Game<NoisyLookup, NoisyLookup>>)
        ensures
            game is Some <==> self.n == 2,
            game matches Some(g) ==> self.opens(&g, rng),
    {
        if self.n != 2 {
            return None;
        }
        let first = Player::new(
            "Player 1".to_owned(),
            EpsilonMistake { epsilon: self.epsilon, inner: LookupStrategy { rules: self.rules } },
        );
        let second = Player::new(
            "Player 2".to_owned(),
            EpsilonMistake { epsilon: self.epsilon, inner: LookupStrategy { rules: self.rules } },
        );
        Some(
            Game {
                trial: self.trial,
                players: (first, second),
                payoff_matrix: self.payoff_matrix,
                rng,
                epsilon: self.epsilon,
            },
        )
    }
}

} // verus!
