//! Probabilities as integers in units of 2^-53, and distributions over the
//! two actions.

use vstd::prelude::*;

use crate::action::Action;

verus! {

/// The number of distinct draws: 2^53. A draw `k` stands for the real number
/// `k / DRAW_RANGE`.
pub const DRAW_RANGE: u64 = 0x20_0000_0000_0000;

/// A probability `value / DRAW_RANGE`, with `value <= DRAW_RANGE`.
#[derive(Clone, Copy, Debug, PartialEq, Eq, Structural)]
pub struct Probability {
    units: u64,
}

impl Probability {
    /// The numerator of this probability over `DRAW_RANGE`.
    pub closed spec fn value(self) -> nat {
        self.units as nat
    }

    /// The probability is at most one. Every executable value satisfies this.
    #[verifier::type_invariant]
    pub open spec fn is_valid(self) -> bool {
        self.value() <= DRAW_RANGE
    }

    /// The probability `units / DRAW_RANGE`, or `None` if that exceeds one.
    pub fn new(units: u64) -> (p: Option<Probability>)
        ensures
            p is Some <==> units <= DRAW_RANGE,
            p matches Some(q) ==> q.value() == units,
    {
        if units <= DRAW_RANGE {
            Some(Probability { units })
        } else {
            None
        }
    }

    /// Probability zero.
    pub fn zero() -> (p: Probability)
        ensures
            p.value() == 0,
    {
        Probability { units: 0 }
    }

    /// Probability one.
    pub fn one() -> (p: Probability)
        ensures
            p.value() == DRAW_RANGE,
    {
        Probability { units: DRAW_RANGE }
    }

    /// The numerator of this probability over `DRAW_RANGE`.
    pub fn units(self) -> (units: u64)
        ensures
            units == self.value(),
            units <= DRAW_RANGE,
    {
        proof {
            use_type_invariant(self);
        }
        self.units
    }

    /// One minus this probability.
    pub closed spec fn complement_spec(self) -> Probability {
        Probability { units: (DRAW_RANGE - self.units) as u64 }
    }

    /// One minus this probability.
    pub fn complement(self) -> (q: Probability)
        ensures
            q == self.complement_spec(),
            q.value() == DRAW_RANGE - self.value(),
    {
        proof {
            use_type_invariant(self);
        }
        Probability { units: DRAW_RANGE - self.units }
    }

    /// The complement of a valid probability is valid, and the two add up to
    /// one.
    pub proof fn lemma_complement(self)
        requires
            self.is_valid(),
        ensures
            self.complement_spec().is_valid(),
            self.value() + self.complement_spec().value() == DRAW_RANGE,
    {
    }
}

/// A probability for each of the two actions.
///
/// Sampling walks the entries in the order of their tokens, `Cooperate`
/// before `Defect`, and adds up their mass.
#[derive(Clone, Copy, Debug, PartialEq, Eq, Structural)]
pub struct ProbabilityDistribution {
    pub cooperate: Probability,
    pub defect: Probability,
}

impl ProbabilityDistribution {
    /// The two probabilities add up to one.
    pub open spec fn is_normalized(self) -> bool {
        self.cooperate.value() + self.defect.value() == DRAW_RANGE
    }

    /// The action that `draw` selects: the first entry, `Cooperate` before
    /// `Defect`, whose cumulative mass is at least `draw`; `Cooperate` if the
    /// mass of both together stays below `draw`.
    pub open spec fn choice(self, draw: u64) -> Action {
        if draw <= self.cooperate.value() {
            Action::Cooperate
        } else if draw <= self.cooperate.value() + self.defect.value() {
            Action::Defect
        } else {
            Action::Cooperate
        }
    }

    /// The distribution that cooperates with probability `p` and defects
    /// with probability one minus `p`.
    pub open spec fn of_cooperation(p: Probability) -> ProbabilityDistribution {
        ProbabilityDistribution { cooperate: p, defect: p.complement_spec() }
    }

    /// The distribution that cooperates with probability `p` and defects
    /// with probability one minus `p`.
    pub fn from_cooperation(p: Probability) -> (d: ProbabilityDistribution)
        ensures
            d == Self::of_cooperation(p),
            d.defect.value() == DRAW_RANGE - p.value(),
            d.is_normalized(),
    {
        proof {
            use_type_invariant(p);
        }
        ProbabilityDistribution { cooperate: p, defect: p.complement() }
    }

    /// Whether the two probabilities add up to one.
    pub fn normalized(&self) -> (b: bool)
        ensures
            b == self.is_normalized(),
    {
        self.cooperate.units() + self.defect.units() == DRAW_RANGE
    }

    /// Selects an action by the cumulative walk that `choice` describes. On a
    /// normalized distribution a draw below `DRAW_RANGE` selects by the
    /// cooperation probability alone: the walk never runs past both entries.
    pub fn sample(&self, draw: u64) -> (action: Action)
        ensures
            action == self.choice(draw),
            self.is_normalized() && draw < DRAW_RANGE && draw <= self.cooperate.value()
                ==> action == Action::Cooperate,
            self.is_normalized() && draw < DRAW_RANGE && draw > self.cooperate.value()
                ==> action == Action::Defect,
    {
        let mut mass: u64 = self.cooperate.units();
        if draw <= mass {
            return Action::Cooperate;
        }
        mass = mass + self.defect.units();
        if draw <= mass {
            return Action::Defect;
        }
        Action::Cooperate
    }
}

} // verus!
