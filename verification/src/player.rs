//! Players, the one-round interaction protocol and the simulation driver.

use vstd::prelude::*;

use crate::action::{Action, History};
use crate::probability::Probability;
use crate::random::{all_draws, lemma_draws_compose, RandomSource};
use crate::record::RoundRecord;
use crate::strategy::Strategy;

verus! {

/// A participant of a game: a name, a policy of its own, the history of play
/// from its side, and the action it took in the latest round.
pub struct Player<S> {
    pub name: String,
    pub strategy: S,
    /// `(own action, opponent's action)` for each completed round.
    pub history: History,
    /// The action of the latest round; `Cooperate` before the first.
    pub action: Action,
}

impl<S: Strategy> Player<S> {
    /// A player that has not played yet.
    pub fn new(name: String, strategy: S) -> (player: Player<S>)
        ensures
            player.name == name,
            player.strategy == strategy,
            player.history@ == Seq::<(Action, Action)>::empty(),
            player.action == Action::Cooperate,
    {
        Player { name, strategy, history: Vec::new(), action: Action::Cooperate }
    }

    /// This player has the name and the policy of `other`.
    pub open spec fn same_identity(&self, other: &Player<S>) -> bool {
        &&& self.name == other.name
        &&& self.strategy == other.strategy
    }

    /// This player is `before` after one more round in which it played `own`
    /// and its opponent played `opponent`.
    pub open spec fn advanced_from(&self, before: &Player<S>, own: Action, opponent: Action) -> bool {
        &&& self.same_identity(before)
        &&& self.history@ == before.history@.push((own, opponent))
        &&& self.action == own
    }
}

/// The payoffs of a two-action game: `rows[own][opponent]` is what a player
/// receives, with index 0 for `Cooperate` and 1 for `Defect`.
#[derive(Clone, Copy, Debug)]
pub struct PayoffMatrix {
    pub rows: [[i32; 2]; 2],
}

impl PayoffMatrix {
    /// What a player receives who played `own` against `opponent`.
    pub open spec fn payoff_spec(&self, own: Action, opponent: Action) -> i32 {
        self.rows[own.index_spec()][opponent.index_spec()]
    }

    /// What a player receives who played `own` against `opponent`.
    pub fn payoff(&self, own: Action, opponent: Action) -> (value: i32)
        ensures
            value == self.payoff_spec(own, opponent),
    {
        self.rows[own.index()][opponent.index()]
    }
}

/// Where a game stands after some rounds.
pub struct Course {
    /// The first player's history.
    pub first: Seq<(Action, Action)>,
    /// The second player's history.
    pub second: Seq<(Action, Action)>,
    /// `(first player's action, second player's action)` of each round played.
    pub plays: Seq<(Action, Action)>,
    /// How many draws the rounds consumed.
    pub consumed: nat,
}

/// A two-player repeated game. The two players may follow policies of
/// different kinds.
pub struct Game<A, B> {
    /// The number of the trial, copied into every log record.
    pub trial: usize,
    /// The first and the second player.
    pub players: (Player<A>, Player<B>),
    pub payoff_matrix: PayoffMatrix,
    /// The source of the draws that the policies consume.
    pub rng: RandomSource,
    /// The mistake probability of the trial, copied into every log record.
    pub epsilon: Probability,
}

impl<A: Strategy, B: Strategy> Game<A, B> {
    /// How many draws one round consumes when the two players' policies are
    /// shown the histories `h0` and `h1`.
    pub open spec fn draws_on(&self, h0: Seq<(Action, Action)>, h1: Seq<(Action, Action)>) -> nat {
        self.players.0.strategy.draws_needed(h0) + self.players.1.strategy.draws_needed(h1)
    }

    /// The actions of one round on the histories `h0` and `h1` that consumes
    /// `draws`: the first player's policy takes its draws from the front, the
    /// second player's policy takes the draws that follow. Neither sees what
    /// the other chooses.
    pub open spec fn actions_on(
        &self,
        h0: Seq<(Action, Action)>,
        h1: Seq<(Action, Action)>,
        draws: Seq<u64>,
    ) -> (Action, Action) {
        let n0 = self.players.0.strategy.draws_needed(h0) as int;
        let n1 = self.players.1.strategy.draws_needed(h1) as int;
        (
            self.players.0.strategy.decision(h0, draws.subrange(0, n0)),
            self.players.1.strategy.decision(h1, draws.subrange(n0, n0 + n1)),
        )
    }

    /// The two games have the same policies and histories.
    pub open spec fn same_position(&self, other: &Game<A, B>) -> bool {
        &&& self.players.0.strategy == other.players.0.strategy
        &&& self.players.1.strategy == other.players.1.strategy
        &&& self.players.0.history@ == other.players.0.history@
        &&& self.players.1.history@ == other.players.1.history@
    }

    /// The two games have the same player names, trial, payoff matrix and
    /// mistake probability.
    pub open spec fn same_setup(&self, other: &Game<A, B>) -> bool {
        &&& self.players.0.name == other.players.0.name
        &&& self.players.1.name == other.players.1.name
        &&& self.trial == other.trial
        &&& self.payoff_matrix == other.payoff_matrix
        &&& self.epsilon == other.epsilon
    }

    /// How many draws the next round consumes.
    pub open spec fn round_draws(&self) -> nat {
        self.draws_on(self.players.0.history@, self.players.1.history@)
    }

    /// The actions of the next round when it consumes `draws`.
    pub open spec fn round_actions(&self, draws: Seq<u64>) -> (Action, Action) {
        self.actions_on(self.players.0.history@, self.players.1.history@, draws)
    }

    /// The payoffs of a round with the given actions, first player first.
    pub open spec fn payoffs_of(&self, play: (Action, Action)) -> Seq<i32> {
        seq![
            self.payoff_matrix.payoff_spec(play.0, play.1),
            self.payoff_matrix.payoff_spec(play.1, play.0),
        ]
    }

    /// Where the game stands after `rounds` more rounds that consume `draws`
    /// from the front.
    pub open spec fn course(&self, rounds: nat, draws: Seq<u64>) -> Course
        decreases rounds,
    {
        if rounds == 0 {
            Course {
                first: self.players.0.history@,
                second: self.players.1.history@,
                plays: Seq::empty(),
                consumed: 0,
            }
        } else {
            let before = self.course((rounds - 1) as nat, draws);
            let rest = draws.skip(before.consumed as int);
            let play = self.actions_on(before.first, before.second, rest);
            Course {
                first: before.first.push((play.0, play.1)),
                second: before.second.push((play.1, play.0)),
                plays: before.plays.push(play),
                consumed: before.consumed + self.draws_on(before.first, before.second),
            }
        }
    }

    /// The log entry number `k` of a simulation with the given plays: entry
    /// `2 * r` is the first player's record of round `r + 1`, entry
    /// `2 * r + 1` the second player's.
    pub open spec fn record_of(&self, plays: Seq<(Action, Action)>, k: int) -> RoundRecord {
        let play = plays[k / 2];
        if k % 2 == 0 {
            RoundRecord {
                trial: self.trial,
                round: (k / 2 + 1) as usize,
                player: self.players.0.name,
                action: play.0,
                payoff: self.payoff_matrix.payoff_spec(play.0, play.1),
                epsilon: self.epsilon,
            }
        } else {
            RoundRecord {
                trial: self.trial,
                round: (k / 2 + 1) as usize,
                player: self.players.1.name,
                action: play.1,
                payoff: self.payoff_matrix.payoff_spec(play.1, play.0),
                epsilon: self.epsilon,
            }
        }
    }

    /// The log of a simulation with the given plays: two records per round,
    /// rounds in order, the first player before the second.
    pub open spec fn log_of(&self, plays: Seq<(Action, Action)>) -> Seq<RoundRecord> {
        Seq::new(2 * plays.len(), |k: int| self.record_of(plays, k))
    }

    /// Plays one round.
    ///
    /// Both policies decide on the histories as they stand before the round,
    /// the first player's policy drawing first. Only then is the round
    /// committed: each player's action is set and `(own action, opponent's
    /// action)` is appended to its history. The result holds the payoff of
    /// the first player, then that of the second.
    pub fn interact(&mut self) -> (payoffs: Vec<i32>)
        ensures
            final(self).rng.extends(&old(self).rng),
            final(self).rng.drawn_since(&old(self).rng).len() == old(self).round_draws(),
            all_draws(final(self).rng.drawn_since(&old(self).rng)),
            ({
                let play = old(self).round_actions(final(self).rng.drawn_since(&old(self).rng));
                &&& final(self).players.0.advanced_from(&old(self).players.0, play.0, play.1)
                &&& final(self).players.1.advanced_from(&old(self).players.1, play.1, play.0)
                &&& payoffs@ == old(self).payoffs_of(play)
            }),
            final(self).trial == old(self).trial,
            final(self).payoff_matrix == old(self).payoff_matrix,
            final(self).epsilon == old(self).epsilon,
    {
        // Both decisions are taken before either history changes.
        let a0 = self.players.0.strategy.select_action(&self.players.0.history, &mut self.rng);
        let ghost mid = self.rng;
        let a1 = self.players.1.strategy.select_action(&self.players.1.history, &mut self.rng);
        proof {
            // The draws of the round are the first player's followed by the
            // second player's.
            lemma_draws_compose(old(self).rng, mid, self.rng);
            let fresh = self.rng.drawn_since(&old(self).rng);
            let n0 = mid.drawn_since(&old(self).rng).len() as int;
            let n1 = self.rng.drawn_since(&mid).len() as int;
            assert(fresh.subrange(0, n0) =~= mid.drawn_since(&old(self).rng));
            assert(fresh.subrange(n0, n0 + n1) =~= self.rng.drawn_since(&mid));
        }
        self.players.0.action = a0;
        self.players.0.history.push((a0, a1));
        self.players.1.action = a1;
        self.players.1.history.push((a1, a0));
        let mut payoffs: Vec<i32> = Vec::new();
        payoffs.push(self.payoff_matrix.payoff(a0, a1));
        payoffs.push(self.payoff_matrix.payoff(a1, a0));
        payoffs
    }

    /// Plays `t` rounds and returns the payoffs of each round and the log:
    /// one record per player per round, rounds in order and numbered from 1,
    /// the first player before the second.
    pub fn simulate(&mut self, t: usize) -> (outcome: (Vec<Vec<i32>>, Vec<RoundRecord>))
        ensures
            final(self).rng.extends(&old(self).rng),
            all_draws(final(self).rng.drawn_since(&old(self).rng)),
            ({
                let fresh = final(self).rng.drawn_since(&old(self).rng);
                let course = old(self).course(t as nat, fresh);
                &&& fresh.len() == course.consumed
                &&& course.plays.len() == t
                &&& final(self).players.0.history@ == course.first
                &&& final(self).players.1.history@ == course.second
                &&& final(self).players.0.action == if t == 0 {
                    old(self).players.0.action
                } else {
                    course.plays.last().0
                }
                &&& final(self).players.1.action == if t == 0 {
                    old(self).players.1.action
                } else {
                    course.plays.last().1
                }
                &&& outcome.0@.len() == t
                &&& forall|r: int|
                    0 <= r < t ==> (#[trigger] outcome.0@[r])@ == old(self).payoffs_of(
                        course.plays[r],
                    )
                &&& outcome.1@.len() == 2 * t
                &&& outcome.1@ == old(self).log_of(course.plays)
            }),
            final(self).players.0.history@.len() == old(self).players.0.history@.len() + t,
            final(self).players.1.history@.len() == old(self).players.1.history@.len() + t,
            final(self).players.0.same_identity(&old(self).players.0),
            final(self).players.1.same_identity(&old(self).players.1),
            final(self).trial == old(self).trial,
            final(self).payoff_matrix == old(self).payoff_matrix,
            final(self).epsilon == old(self).epsilon,
    {
        let ghost start = *self;
        let mut results: Vec<Vec<i32>> = Vec::new();
        let mut log: Vec<RoundRecord> = Vec::new();
        let mut round: usize = 0;
        while round < t
            invariant
                round <= t,
                start == *old(self),
                self.rng.extends(&start.rng),
                all_draws(self.rng.drawn_since(&start.rng)),
                ({
                    let course = start.course(round as nat, self.rng.drawn_since(&start.rng));
                    &&& self.rng.drawn_since(&start.rng).len() == course.consumed
                    &&& course.plays.len() == round
                    &&& self.players.0.history@ == course.first
                    &&& self.players.1.history@ == course.second
                    &&& self.players.0.action == if round == 0 {
                        start.players.0.action
                    } else {
                        course.plays.last().0
                    }
                    &&& self.players.1.action == if round == 0 {
                        start.players.1.action
                    } else {
                        course.plays.last().1
                    }
                    &&& results@.len() == round
                    &&& forall|r: int|
                        0 <= r < round ==> (#[trigger] results@[r])@ == start.payoffs_of(
                            course.plays[r],
                        )
                    &&& log@ == start.log_of(course.plays)
                }),
                self.players.0.history@.len() == start.players.0.history@.len() + round,
                self.players.1.history@.len() == start.players.1.history@.len() + round,
                self.players.0.same_identity(&start.players.0),
                self.players.1.same_identity(&start.players.1),
                self.trial == start.trial,
                self.payoff_matrix == start.payoff_matrix,
                self.epsilon == start.epsilon,
            decreases t - round,
        {
            let ghost before = *self;
            let payoffs = self.interact();
            let first = RoundRecord {
                trial: self.trial,
                round: round + 1,
                player: self.players.0.name.clone(),
                action: self.players.0.action,
                payoff: payoffs[0],
                epsilon: self.epsilon,
            };
            let second = RoundRecord {
                trial: self.trial,
                round: round + 1,
                player: self.players.1.name.clone(),
                action: self.players.1.action,
                payoff: payoffs[1],
                epsilon: self.epsilon,
            };
            proof {
                // The draws so far are those of the earlier rounds followed by
                // those of this round. The earlier rounds read only the
                // former, so their course stands, and this round reads
                // exactly the latter.
                let earlier = before.rng.drawn_since(&start.rng);
                let fresh = self.rng.drawn_since(&before.rng);
                let all = self.rng.drawn_since(&start.rng);
                lemma_draws_compose(start.rng, before.rng, self.rng);
                lemma_course_reads_prefix(start, round as nat, earlier, all);
                let course = start.course(round as nat, earlier);
                assert(all.skip(course.consumed as int) =~= fresh);
            }
            results.push(payoffs);
            log.push(first);
            log.push(second);
            round = round + 1;
        }
        (results, log)
    }
}

/// After `rounds` rounds there are `rounds` plays, each history has grown by
/// one entry per round, and the two players' entries of a round mirror each
/// other: what one holds as `(own, opponent)` the other holds as
/// `(opponent, own)`.
pub proof fn lemma_course_histories<A: Strategy, B: Strategy>(
    game: Game<A, B>,
    rounds: nat,
    draws: Seq<u64>,
)
    ensures
        ({
            let course = game.course(rounds, draws);
            &&& course.plays.len() == rounds
            &&& course.first == game.players.0.history@ + course.plays
            &&& course.second == game.players.1.history@ + course.plays.map_values(
                |play: (Action, Action)| (play.1, play.0),
            )
        }),
    decreases rounds,
{
    let course = game.course(rounds, draws);
    let mirror = |play: (Action, Action)| (play.1, play.0);
    if rounds == 0 {
        assert(course.first =~= game.players.0.history@ + course.plays);
        assert(course.second =~= game.players.1.history@ + course.plays.map_values(mirror));
    } else {
        lemma_course_histories(game, (rounds - 1) as nat, draws);
        let before = game.course((rounds - 1) as nat, draws);
        assert(course.first =~= game.players.0.history@ + course.plays);
        assert(course.second =~= game.players.1.history@ + course.plays.map_values(mirror));
    }
}

/// The course of a game is a function of the players' policies, their
/// histories and the draws alone: two games that agree on the first two run
/// the same course on the same draws.
pub proof fn lemma_same_draws_same_course<A: Strategy, B: Strategy>(
    one: Game<A, B>,
    other: Game<A, B>,
    rounds: nat,
    draws: Seq<u64>,
)
    requires
        one.same_position(&other),
    ensures
        one.course(rounds, draws) == other.course(rounds, draws),
    decreases rounds,
{
    if rounds > 0 {
        lemma_same_draws_same_course(one, other, (rounds - 1) as nat, draws);
    }
}

/// Runs of one configuration on the same draws are identical: two games with
/// the same players, trial, payoff matrix and mistake probability pay the
/// same in every round and write the same log.
pub proof fn lemma_same_draws_same_log<A: Strategy, B: Strategy>(
    one: Game<A, B>,
    other: Game<A, B>,
    rounds: nat,
    draws: Seq<u64>,
)
    requires
        one.same_position(&other),
        one.same_setup(&other),
    ensures
        one.course(rounds, draws) == other.course(rounds, draws),
        one.log_of(one.course(rounds, draws).plays) == other.log_of(
            other.course(rounds, draws).plays,
        ),
        forall|r: int|
            #![trigger one.course(rounds, draws).plays[r]]
            one.payoffs_of(one.course(rounds, draws).plays[r]) == other.payoffs_of(
                other.course(rounds, draws).plays[r],
            ),
{
    lemma_same_draws_same_course(one, other, rounds, draws);
    let plays = one.course(rounds, draws).plays;
    assert(one.log_of(plays) =~= other.log_of(plays));
}

/// A course reads only the draws it consumes: draws that follow them do not
/// change it.
pub proof fn lemma_course_reads_prefix<A: Strategy, B: Strategy>(
    game: Game<A, B>,
    rounds: nat,
    draws: Seq<u64>,
    longer: Seq<u64>,
)
    requires
        draws.is_prefix_of(longer),
        game.course(rounds, draws).consumed <= draws.len(),
    ensures
        game.course(rounds, longer) == game.course(rounds, draws),
    decreases rounds,
{
    if rounds > 0 {
        let k = (rounds - 1) as nat;
        lemma_course_reads_prefix(game, k, draws, longer);
        let before = game.course(k, draws);
        let n0 = game.players.0.strategy.draws_needed(before.first) as int;
        let n1 = game.players.1.strategy.draws_needed(before.second) as int;
        let c = before.consumed as int;
        assert(draws.skip(c).subrange(0, n0) =~= longer.skip(c).subrange(0, n0));
        assert(draws.skip(c).subrange(n0, n0 + n1) =~= longer.skip(c).subrange(n0, n0 + n1));
    }
}

} // verus!
