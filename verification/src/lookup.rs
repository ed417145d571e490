//! The memory-one policy: a table from the last round's state to a
//! distribution over the next action.

use vstd::prelude::*;

use crate::action::{Action, History};
use crate::probability::{Probability, ProbabilityDistribution};
use crate::random::{lemma_one_more_draw, RandomSource};
use crate::strategy::Strategy;

verus! {

/// A partial table from the state of the last round, `(own action,
/// opponent's action)`, to a distribution over the next action. Each field
/// is named by the state key of its entry.
#[derive(Clone, Copy, Debug, PartialEq, Eq)]
pub struct LookupTable {
    pub cc: Option<ProbabilityDistribution>,
    pub cd: Option<ProbabilityDistribution>,
    pub dc: Option<ProbabilityDistribution>,
    pub dd: Option<ProbabilityDistribution>,
}

impl LookupTable {
    /// The entry for a state, if the table has one.
    pub open spec fn entry(self, own: Action, opponent: Action) -> Option<ProbabilityDistribution> {
        match (own, opponent) {
            (Action::Cooperate, Action::Cooperate) => self.cc,
            (Action::Cooperate, Action::Defect) => self.cd,
            (Action::Defect, Action::Cooperate) => self.dc,
            (Action::Defect, Action::Defect) => self.dd,
        }
    }

    /// Every entry of the table adds up to one.
    pub open spec fn is_normalized(self) -> bool {
        &&& self.cc matches Some(d) ==> d.is_normalized()
        &&& self.cd matches Some(d) ==> d.is_normalized()
        &&& self.dc matches Some(d) ==> d.is_normalized()
        &&& self.dd matches Some(d) ==> d.is_normalized()
    }

    /// The table without entries.
    pub fn new() -> (table: LookupTable)
        ensures
            forall|own: Action, opponent: Action| table.entry(own, opponent) is None,
    {
        LookupTable { cc: None, cd: None, dc: None, dd: None }
    }

    /// Sets the entry for a state and returns the entry it replaces.
    pub fn insert(
        &mut self,
        own: Action,
        opponent: Action,
        distribution: ProbabilityDistribution,
    ) -> (previous: Option<ProbabilityDistribution>)
        ensures
            previous == old(self).entry(own, opponent),
            final(self).entry(own, opponent) == Some(distribution),
            forall|a: Action, b: Action|
                (a, b) != (own, opponent) ==> final(self).entry(a, b) == old(self).entry(a, b),
    {
        let previous = self.get(own, opponent);
        match (own, opponent) {
            (Action::Cooperate, Action::Cooperate) => {
                self.cc = Some(distribution);
            },
            (Action::Cooperate, Action::Defect) => {
                self.cd = Some(distribution);
            },
            (Action::Defect, Action::Cooperate) => {
                self.dc = Some(distribution);
            },
            (Action::Defect, Action::Defect) => {
                self.dd = Some(distribution);
            },
        }
        previous
    }

    /// The entry for a state, if the table has one.
    pub fn get(&self, own: Action, opponent: Action) -> (found: Option<ProbabilityDistribution>)
        ensures
            found == self.entry(own, opponent),
    {
        match (own, opponent) {
            (Action::Cooperate, Action::Cooperate) => self.cc,
            (Action::Cooperate, Action::Defect) => self.cd,
            (Action::Defect, Action::Cooperate) => self.dc,
            (Action::Defect, Action::Defect) => self.dd,
        }
    }

    /// Whether every entry of the table adds up to one.
    pub fn normalized(&self) -> (b: bool)
        ensures
            b == self.is_normalized(),
    {
        Self::entry_normalized(&self.cc) && Self::entry_normalized(&self.cd)
            && Self::entry_normalized(&self.dc) && Self::entry_normalized(&self.dd)
    }

    fn entry_normalized(entry: &Option<ProbabilityDistribution>) -> (b: bool)
        ensures
            b == (*entry matches Some(d) ==> d.is_normalized()),
    {
        match entry {
            Some(d) => d.normalized(),
            None => true,
        }
    }
}

/// The table of a memory-one policy from the probabilities of cooperating
/// after each of the four states: every state gets the distribution that
/// cooperates with the probability given for it and defects otherwise.
pub fn build_joint_memory1_rules(
    p_cc: Probability,
    p_cd: Probability,
    p_dc: Probability,
    p_dd: Probability,
) -> (rules: LookupTable)
    ensures
        rules.cc == Some(ProbabilityDistribution::of_cooperation(p_cc)),
        rules.cd == Some(ProbabilityDistribution::of_cooperation(p_cd)),
        rules.dc == Some(ProbabilityDistribution::of_cooperation(p_dc)),
        rules.dd == Some(ProbabilityDistribution::of_cooperation(p_dd)),
        rules.is_normalized(),
{
    let mut rules = LookupTable::new();
    rules.insert(
        Action::Cooperate,
        Action::Cooperate,
        ProbabilityDistribution::from_cooperation(p_cc),
    );
    rules.insert(Action::Cooperate, Action::Defect, ProbabilityDistribution::from_cooperation(p_cd));
    rules.insert(Action::Defect, Action::Cooperate, ProbabilityDistribution::from_cooperation(p_dc));
    rules.insert(Action::Defect, Action::Defect, ProbabilityDistribution::from_cooperation(p_dd));
    rules
}

/// Chooses by the table entry for the state of the last round.
///
/// Without a last round, or without an entry for its state, the policy
/// cooperates and takes no draw. With an entry it takes one draw and samples
/// the entry's distribution.
pub struct LookupStrategy {
    pub rules: LookupTable,
}

impl LookupStrategy {
    /// The policy for a table whose every entry adds up to one; `None` for a
    /// table with an entry that does not.
    pub fn new(rules: LookupTable) -> (strategy: Option<LookupStrategy>)
        ensures
            strategy is Some <==> rules.is_normalized(),
            strategy matches Some(s) ==> s.rules == rules,
    {
        if rules.normalized() {
            Some(LookupStrategy { rules })
        } else {
            None
        }
    }

    /// The distribution that decides on `history`: the entry for the state of
    /// its last round, if there is a last round and the table has the entry.
    pub open spec fn consulted(&self, history: Seq<(Action, Action)>) -> Option<
        ProbabilityDistribution,
    > {
        if history.len() == 0 {
            None
        } else {
            self.rules.entry(history.last().0, history.last().1)
        }
    }

    /// The distribution that decides on `history`, if any.
    pub fn distribution_for(&self, history: &History) -> (found: Option<ProbabilityDistribution>)
        ensures
            found == self.consulted(history@),
    {
        if history.len() == 0 {
            None
        } else {
            let last = history[history.len() - 1];
            self.rules.get(last.0, last.1)
        }
    }
}

impl Strategy for LookupStrategy {
    open spec fn draws_needed(&self, history: Seq<(Action, Action)>) -> nat {
        if self.consulted(history) is Some {
            1
        } else {
            0
        }
    }

    open spec fn decision(&self, history: Seq<(Action, Action)>, draws: Seq<u64>) -> Action {
        match self.consulted(history) {
            Some(distribution) => distribution.choice(draws[0]),
            None => Action::Cooperate,
        }
    }

    fn select_action(&self, history: &History, rng: &mut RandomSource) -> (action: Action)
        ensures
            self.consulted(history@) is None ==> action == Action::Cooperate,
            self.consulted(history@) is None ==> *final(rng) == *old(rng),
    {
        match self.distribution_for(history) {
            Some(distribution) => {
                let draw: u64 = rng.draw();
                proof {
                    lemma_one_more_draw(*old(rng), *rng, draw);
                }
                distribution.sample(draw)
            },
            None => Action::Cooperate,
        }
    }
}

} // verus!
