//! A two-player repeated-game engine: decision policies that read a player's
//! joint history and a stream of random draws, a one-round interaction
//! protocol with a payoff matrix, and a driver that records every round.
//!
//! Probabilities and random draws are integers in units of 2^-53, so every
//! decision is an exact comparison and every contract is stated over plain
//! sequences of draws.

pub mod action;
pub mod config;
pub mod lookup;
pub mod player;
pub mod probability;
pub mod random;
pub mod record;
pub mod strategy;

pub use action::{state_key, Action, History};
pub use config::{Config, NoisyLookup};
pub use lookup::{build_joint_memory1_rules, LookupStrategy, LookupTable};
pub use player::{Game, PayoffMatrix, Player};
pub use probability::{Probability, ProbabilityDistribution, DRAW_RANGE};
pub use random::RandomSource;
pub use record::RoundRecord;
pub use strategy::{AlwaysCooperate, EpsilonMistake, RandomStrategy, Strategy, TitForTat};
