//! The log of a simulation.

use vstd::prelude::*;

use crate::action::Action;
use crate::probability::Probability;

verus! {

/// What one player did and received in one round.
#[derive(Clone, Debug, PartialEq, Eq)]
pub struct RoundRecord {
    /// The trial the round belongs to.
    pub trial: usize,
    /// The number of the round within the trial, starting at 1.
    pub round: usize,
    /// The player's name.
    pub player: String,
    /// The action the player took.
    pub action: Action,
    /// The payoff the player received.
    pub payoff: i32,
    /// The mistake probability of the trial.
    pub epsilon: Probability,
}

} // verus!
