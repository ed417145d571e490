//! The binary action of a round and the joint history a player keeps.

use vstd::prelude::*;

verus! {

/// What a player does in one round.
#[derive(Clone, Copy, Debug, PartialEq, Eq, Structural)]
pub enum Action {
    Cooperate,
    Defect,
}

/// One player's record of play: `(own action, opponent's action)` for each
/// completed round, oldest first.
pub type History = Vec<(Action, Action)>;

impl Action {
    /// Row or column of this action in a payoff matrix.
    pub open spec fn index_spec(self) -> int {
        match self {
            Action::Cooperate => 0,
            Action::Defect => 1,
        }
    }

    /// The other action.
    pub open spec fn opposite(self) -> Action {
        match self {
            Action::Cooperate => Action::Defect,
            Action::Defect => Action::Cooperate,
        }
    }

    /// The canonical one-character token, as a sequence of characters.
    pub open spec fn token_spec(self) -> Seq<char> {
        match self {
            Action::Cooperate => seq!['C'],
            Action::Defect => seq!['D'],
        }
    }

    /// Row or column of this action in a payoff matrix: 0 for `Cooperate`,
    /// 1 for `Defect`.
    pub fn index(self) -> (i: usize)
        ensures
            i == self.index_spec(),
    {
        match self {
            Action::Cooperate => 0,
            Action::Defect => 1,
        }
    }

    /// Swaps `Cooperate` and `Defect`.
    pub fn flipped(self) -> (other: Action)
        ensures
            other == self.opposite(),
    {
        match self {
            Action::Cooperate => Action::Defect,
            Action::Defect => Action::Cooperate,
        }
    }

    /// The canonical token: `"C"` for `Cooperate`, `"D"` for `Defect`.
    pub fn token(self) -> (t: &'static str)
        ensures
            t@ == self.token_spec(),
    {
        proof {
            reveal_strlit("C");
            reveal_strlit("D");
        }
        match self {
            Action::Cooperate => {
                assert("C"@ =~= seq!['C']);
                "C"
            },
            Action::Defect => {
                assert("D"@ =~= seq!['D']);
                "D"
            },
        }
    }
}

/// The state key of a round as a sequence of characters: the token of the
/// player's own action followed by the token of the opponent's.
pub open spec fn state_key_spec(own: Action, opponent: Action) -> Seq<char> {
    own.token_spec() + opponent.token_spec()
}

/// The two-character state key of a round, own action first: `"CC"`, `"CD"`,
/// `"DC"` or `"DD"`.
pub fn state_key(own: Action, opponent: Action) -> (key: &'static str)
    ensures
        key@ == state_key_spec(own, opponent),
{
    proof {
        reveal_strlit("CC");
        reveal_strlit("CD");
        reveal_strlit("DC");
        reveal_strlit("DD");
    }
    match (own, opponent) {
        (Action::Cooperate, Action::Cooperate) => {
            assert("CC"@ =~= seq!['C'] + seq!['C']);
            "CC"
        },
        (Action::Cooperate, Action::Defect) => {
            assert("CD"@ =~= seq!['C'] + seq!['D']);
            "CD"
        },
        (Action::Defect, Action::Cooperate) => {
            assert("DC"@ =~= seq!['D'] + seq!['C']);
            "DC"
        },
        (Action::Defect, Action::Defect) => {
            assert("DD"@ =~= seq!['D'] + seq!['D']);
            "DD"
        },
    }
}

} // verus!
