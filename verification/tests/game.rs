use repeated_game::{
    build_joint_memory1_rules, Action, AlwaysCooperate, Config, EpsilonMistake, Game,
    LookupStrategy, PayoffMatrix, Player, Probability, RandomSource, RandomStrategy, RoundRecord,
    Strategy, TitForTat, DRAW_RANGE,
};

type AlwaysDefect = EpsilonMistake<AlwaysCooperate>;

fn always_defect() -> AlwaysDefect {
    EpsilonMistake { epsilon: Probability::one(), inner: AlwaysCooperate }
}

fn dilemma() -> PayoffMatrix {
    PayoffMatrix { rows: [[3, 0], [5, 1]] }
}

fn game<A: Strategy, B: Strategy>(first: A, second: B, seed: u64) -> Game<A, B> {
    Game {
        trial: 0,
        players: (Player::new("A".to_string(), first), Player::new("B".to_string(), second)),
        payoff_matrix: dilemma(),
        rng: RandomSource::seeded(seed),
        epsilon: Probability::zero(),
    }
}

fn noisy_lookup(p: [u64; 4], epsilon: u64) -> EpsilonMistake<LookupStrategy> {
    let rules = build_joint_memory1_rules(
        Probability::new(p[0]).unwrap(),
        Probability::new(p[1]).unwrap(),
        Probability::new(p[2]).unwrap(),
        Probability::new(p[3]).unwrap(),
    );
    EpsilonMistake { epsilon: Probability::new(epsilon).unwrap(), inner: LookupStrategy { rules } }
}

#[test]
fn a_new_player_has_not_played() {
    let player = Player::new("Player 1".to_string(), TitForTat);
    assert_eq!(player.name, "Player 1");
    assert!(player.history.is_empty());
    assert_eq!(player.action, Action::Cooperate);
}

#[test]
fn payoff_is_indexed_by_own_action_then_opponents() {
    let matrix = dilemma();
    assert_eq!(matrix.payoff(Action::Cooperate, Action::Cooperate), 3);
    assert_eq!(matrix.payoff(Action::Cooperate, Action::Defect), 0);
    assert_eq!(matrix.payoff(Action::Defect, Action::Cooperate), 5);
    assert_eq!(matrix.payoff(Action::Defect, Action::Defect), 1);
}

#[test]
fn cooperator_against_defector_receives_nothing_and_the_defector_five() {
    let mut g = game(AlwaysCooperate, always_defect(), 1);
    assert_eq!(g.interact(), vec![0, 5]);
    assert_eq!(g.players.0.action, Action::Cooperate);
    assert_eq!(g.players.1.action, Action::Defect);
}

#[test]
fn defector_against_cooperator_receives_five() {
    let mut g = game(always_defect(), AlwaysCooperate, 1);
    assert_eq!(g.interact(), vec![5, 0]);
}

#[test]
fn mutual_cooperation_pays_three_each() {
    let mut g = game(AlwaysCooperate, AlwaysCooperate, 1);
    assert_eq!(g.interact(), vec![3, 3]);
}

#[test]
fn mutual_defection_pays_one_each() {
    let mut g = game(always_defect(), always_defect(), 1);
    assert_eq!(g.interact(), vec![1, 1]);
}

#[test]
fn an_asymmetric_matrix_is_read_from_each_side() {
    let mut g = game(AlwaysCooperate, always_defect(), 1);
    g.payoff_matrix = PayoffMatrix { rows: [[10, -20], [30, -40]] };
    assert_eq!(g.interact(), vec![-20, 30]);
}

#[test]
fn interact_appends_mirrored_entries_to_both_histories() {
    let mut g = game(AlwaysCooperate, always_defect(), 1);
    g.interact();
    assert_eq!(g.players.0.history, vec![(Action::Cooperate, Action::Defect)]);
    assert_eq!(g.players.1.history, vec![(Action::Defect, Action::Cooperate)]);
    g.interact();
    assert_eq!(g.players.0.history, vec![(Action::Cooperate, Action::Defect); 2]);
    assert_eq!(g.players.1.history, vec![(Action::Defect, Action::Cooperate); 2]);
}

#[test]
fn policies_decide_on_the_histories_from_before_the_round() {
    let mut g = game(TitForTat, TitForTat, 1);
    g.players.0.history.push((Action::Cooperate, Action::Defect));
    g.players.1.history.push((Action::Defect, Action::Cooperate));
    assert_eq!(g.interact(), vec![5, 0]);
    assert_eq!(g.players.0.action, Action::Defect);
    assert_eq!(g.players.1.action, Action::Cooperate);
    assert_eq!(g.interact(), vec![0, 5]);
    assert_eq!(g.players.0.action, Action::Cooperate);
    assert_eq!(g.players.1.action, Action::Defect);
}

#[test]
fn interact_keeps_names_trial_matrix_and_epsilon() {
    let mut g = game(TitForTat, AlwaysCooperate, 1);
    g.trial = 42;
    g.epsilon = Probability::new(17).unwrap();
    g.interact();
    assert_eq!(g.trial, 42);
    assert_eq!(g.epsilon.units(), 17);
    assert_eq!(g.players.0.name, "A");
    assert_eq!(g.players.1.name, "B");
    assert_eq!(g.payoff_matrix.rows, [[3, 0], [5, 1]]);
}

#[test]
fn the_first_players_policy_draws_before_the_seconds() {
    let first = RandomStrategy { p_cooperate: Probability::new(DRAW_RANGE / 2).unwrap() };
    let second = RandomStrategy { p_cooperate: Probability::new(DRAW_RANGE / 5).unwrap() };
    let mut g = game(
        RandomStrategy { p_cooperate: first.p_cooperate },
        RandomStrategy { p_cooperate: second.p_cooperate },
        77,
    );
    let mut twin = RandomSource::seeded(77);
    for _ in 0..100 {
        g.interact();
        let first_draw = twin.draw();
        let second_draw = twin.draw();
        assert_eq!(g.players.0.action, first.decide(first_draw));
        assert_eq!(g.players.1.action, second.decide(second_draw));
    }
    assert_eq!(g.rng.draw(), twin.draw());
}

#[test]
fn two_constant_cooperators_over_three_rounds() {
    let mut g = game(AlwaysCooperate, AlwaysCooperate, 1);
    let (trace, log) = g.simulate(3);
    assert_eq!(trace, vec![vec![3, 3], vec![3, 3], vec![3, 3]]);
    assert_eq!(log.len(), 6);
    for record in &log {
        assert_eq!(record.action.token(), "C");
        assert_eq!(record.action, Action::Cooperate);
        assert_eq!(record.payoff, 3);
    }
}

#[test]
fn tit_for_tat_against_a_constant_cooperator_over_two_rounds() {
    let mut g = game(TitForTat, AlwaysCooperate, 1);
    let (trace, log) = g.simulate(2);
    assert_eq!(trace, vec![vec![3, 3], vec![3, 3]]);
    assert_eq!(log.len(), 4);
    assert_eq!(log[0].action, Action::Cooperate);
    assert_eq!(log[1].action, Action::Cooperate);
    assert_eq!(log[2].action, Action::Cooperate);
    assert_eq!(log[3].action, Action::Cooperate);
}

#[test]
fn tit_for_tat_against_a_defector_is_exploited_once() {
    let mut g = game(TitForTat, always_defect(), 1);
    let (trace, _) = g.simulate(4);
    assert_eq!(trace, vec![vec![0, 5], vec![1, 1], vec![1, 1], vec![1, 1]]);
}

#[test]
fn the_log_is_round_major_and_player_minor() {
    let mut g = game(TitForTat, always_defect(), 1);
    g.trial = 9;
    g.epsilon = Probability::new(123).unwrap();
    let (_, log) = g.simulate(2);
    let record = |round: usize, player: &str, action: Action, payoff: i32| RoundRecord {
        trial: 9,
        round,
        player: player.to_string(),
        action,
        payoff,
        epsilon: Probability::new(123).unwrap(),
    };
    assert_eq!(
        log,
        vec![
            record(1, "A", Action::Cooperate, 0),
            record(1, "B", Action::Defect, 5),
            record(2, "A", Action::Defect, 1),
            record(2, "B", Action::Defect, 1),
        ]
    );
}

#[test]
fn zero_rounds_change_nothing() {
    let mut g = game(TitForTat, always_defect(), 1);
    g.players.0.action = Action::Defect;
    let (trace, log) = g.simulate(0);
    assert!(trace.is_empty());
    assert!(log.is_empty());
    assert!(g.players.0.history.is_empty());
    assert!(g.players.1.history.is_empty());
    assert_eq!(g.players.0.action, Action::Defect);
    assert_eq!(g.rng.draw(), RandomSource::seeded(1).draw());
}

#[test]
fn history_length_equals_the_number_of_rounds_played() {
    for rounds in [0usize, 1, 2, 7, 50] {
        let mut g = game(noisy_lookup([DRAW_RANGE, 0, DRAW_RANGE, 0], DRAW_RANGE / 10), TitForTat, 3);
        let (trace, log) = g.simulate(rounds);
        assert_eq!(g.players.0.history.len(), rounds);
        assert_eq!(g.players.1.history.len(), rounds);
        assert_eq!(trace.len(), rounds);
        assert_eq!(log.len(), 2 * rounds);
    }
}

#[test]
fn simulating_in_two_parts_extends_the_histories() {
    let mut g = game(TitForTat, always_defect(), 1);
    g.simulate(3);
    g.simulate(4);
    assert_eq!(g.players.0.history.len(), 7);
    assert_eq!(g.players.1.history.len(), 7);
}

#[test]
fn histories_and_trace_agree_with_the_log() {
    let mut g = game(
        noisy_lookup([DRAW_RANGE / 2, DRAW_RANGE / 3, DRAW_RANGE / 4, DRAW_RANGE / 5], DRAW_RANGE / 8),
        RandomStrategy { p_cooperate: Probability::new(DRAW_RANGE / 2).unwrap() },
        2718,
    );
    let matrix = dilemma();
    let (trace, log) = g.simulate(40);
    for round in 0..40 {
        let (own, opponent) = g.players.0.history[round];
        assert_eq!(g.players.1.history[round], (opponent, own));
        assert_eq!(trace[round], vec![matrix.payoff(own, opponent), matrix.payoff(opponent, own)]);
        assert_eq!(log[2 * round].round, round + 1);
        assert_eq!(log[2 * round].player, "A");
        assert_eq!(log[2 * round].action, own);
        assert_eq!(log[2 * round].payoff, trace[round][0]);
        assert_eq!(log[2 * round + 1].round, round + 1);
        assert_eq!(log[2 * round + 1].player, "B");
        assert_eq!(log[2 * round + 1].action, opponent);
        assert_eq!(log[2 * round + 1].payoff, trace[round][1]);
    }
    assert_eq!(g.players.0.action, g.players.0.history[39].0);
    assert_eq!(g.players.1.action, g.players.1.history[39].0);
}

#[test]
fn the_same_seed_gives_the_same_log() {
    let run = |seed: u64| {
        let mut g = game(
            noisy_lookup([DRAW_RANGE - 100, 100, DRAW_RANGE / 2, DRAW_RANGE / 2], DRAW_RANGE / 20),
            noisy_lookup([DRAW_RANGE / 2, DRAW_RANGE / 2, DRAW_RANGE / 2, DRAW_RANGE / 2], DRAW_RANGE / 20),
            seed,
        );
        g.simulate(50)
    };
    let (first_trace, first_log) = run(123456);
    let (second_trace, second_log) = run(123456);
    assert_eq!(first_trace, second_trace);
    assert_eq!(first_log, second_log);
    let (_, other_log) = run(654321);
    assert_ne!(first_log, other_log);
}

#[test]
fn noiseless_memory_one_players_that_mirror_cooperation_keep_cooperating() {
    let mut g = game(
        noisy_lookup([DRAW_RANGE, 0, DRAW_RANGE, 0], 0),
        noisy_lookup([DRAW_RANGE, 0, DRAW_RANGE, 0], 0),
        5,
    );
    let (trace, _) = g.simulate(10);
    assert_eq!(trace, vec![vec![3, 3]; 10]);
}

fn config(n: usize) -> Config {
    Config {
        n,
        rounds: 5,
        rules: build_joint_memory1_rules(
            Probability::one(),
            Probability::zero(),
            Probability::one(),
            Probability::zero(),
        ),
        epsilon: Probability::new(DRAW_RANGE / 16).unwrap(),
        payoff_matrix: dilemma(),
        trial: 3,
    }
}

#[test]
fn a_configured_game_opens_with_two_fresh_noisy_players() {
    let c = config(2);
    let g = c.new_game(RandomSource::seeded(14)).unwrap();
    assert_eq!(g.trial, 3);
    assert_eq!(g.epsilon, c.epsilon);
    assert_eq!(g.payoff_matrix.rows, [[3, 0], [5, 1]]);
    assert_eq!(g.players.0.name, "Player 1");
    assert_eq!(g.players.1.name, "Player 2");
    assert!(g.players.0.history.is_empty());
    assert!(g.players.1.history.is_empty());
    assert_eq!(g.players.0.action, Action::Cooperate);
    assert_eq!(g.players.1.action, Action::Cooperate);
    assert_eq!(g.players.0.strategy.epsilon, c.epsilon);
    assert_eq!(g.players.1.strategy.epsilon, c.epsilon);
    assert_eq!(g.players.0.strategy.inner.rules, c.rules);
    assert_eq!(g.players.1.strategy.inner.rules, c.rules);
}

#[test]
fn a_configured_game_draws_from_the_source_it_is_given() {
    let mut g = config(2).new_game(RandomSource::seeded(14)).unwrap();
    assert_eq!(g.rng.draw(), RandomSource::seeded(14).draw());
}

#[test]
fn a_configuration_without_exactly_two_players_opens_no_game() {
    for n in [0usize, 1, 3, 10] {
        assert!(config(n).new_game(RandomSource::seeded(14)).is_none());
    }
}

#[test]
fn a_configured_trial_logs_both_players_in_every_round() {
    let c = config(2);
    let mut g = c.new_game(RandomSource::seeded(99)).unwrap();
    let (trace, log) = g.simulate(c.rounds);
    assert_eq!(trace.len(), 5);
    assert_eq!(log.len(), 10);
    for (k, record) in log.iter().enumerate() {
        assert_eq!(record.trial, 3);
        assert_eq!(record.round, k / 2 + 1);
        assert_eq!(record.player, if k % 2 == 0 { "Player 1" } else { "Player 2" });
        assert_eq!(record.epsilon, c.epsilon);
    }
}
