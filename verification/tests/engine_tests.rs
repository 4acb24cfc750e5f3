use vexation::board::{Player, BASE_INDEX};
use vexation::engine::{GameEngine, GameState};
use vexation::marble::Marble;

#[test]
fn fresh_game_starts_in_the_bases() {
    let e = GameEngine::new_with(Player::Red, Player::Red);
    assert_eq!(e.state, GameState::NextPlayer);
    assert_eq!(e.marbles.len(), 20);
    for m in &e.marbles {
        assert_eq!(m.index, BASE_INDEX);
    }
    assert_eq!(e.power_bars.len(), 4);
    assert!(e.dice.is_empty());
}

#[test]
fn rolled_dice_are_valid() {
    let mut e = GameEngine::new_with(Player::Red, Player::Red);
    e.choose_next_player();
    e.next_player_setup();
    e.roll_dice();
    assert_eq!(e.state, GameState::TurnSetup);
    assert!((1..=6).contains(&e.dice.one.unwrap()));
    assert!((1..=6).contains(&e.dice.two.unwrap()));
}

#[test]
fn capture_returns_the_victim_to_its_base() {
    let mut e = GameEngine::new_with(Player::Red, Player::Blue);
    // red marble 0 has just moved to its local 5; green's local 41 is the
    // same cell
    e.current_player_data.player = Player::Red;
    e.marbles[0] = Marble { index: 5, prev_index: 3 };
    e.marbles[5] = Marble { index: 41, prev_index: 40 };
    e.current_player_data.moved_marble = Some(0);
    e.state = GameState::ProcessMove;
    e.process();
    // the captured marble is back in its base; the captor stands still
    assert_eq!(e.marbles[5].index, BASE_INDEX);
    assert_eq!(e.marbles[0].index, 5);
    // the captor gains three power points, the captive loses three (floored)
    assert_eq!(e.power_bars[0].power, 144 + 20);
    assert_eq!(e.power_bars[1].power, 0);
    assert_eq!(e.state, GameState::TurnSetup);
}

#[test]
fn capture_is_a_no_op_in_the_home_row() {
    let mut e = GameEngine::new_with(Player::Red, Player::Blue);
    e.current_player_data.player = Player::Red;
    e.marbles[0] = Marble { index: 50, prev_index: 46 };
    e.marbles[5] = Marble { index: 41, prev_index: 40 };
    e.current_player_data.moved_marble = Some(0);
    e.state = GameState::ProcessMove;
    e.process();
    assert_eq!(e.marbles[5].index, 41);
    assert_eq!(e.marbles[0].index, 50);
}

#[test]
fn evading_opponents_are_not_captured() {
    let mut e = GameEngine::new_with(Player::Red, Player::Blue);
    e.current_player_data.player = Player::Red;
    e.marbles[0] = Marble { index: 5, prev_index: 3 };
    e.marbles[5] = Marble { index: 41, prev_index: 40 };
    e.game_data.green.power_up_status.evade_capture();
    e.current_player_data.moved_marble = Some(0);
    e.state = GameState::ProcessMove;
    e.process();
    assert_eq!(e.marbles[5].index, 41);
}

#[test]
fn crossing_a_threshold_drafts_a_power_up() {
    let mut e = GameEngine::new_with(Player::Red, Player::Blue);
    e.current_player_data.player = Player::Red;
    // a full-bar accrual: base to the home entrance is 48 cells
    e.marbles[0] = Marble { index: 47, prev_index: BASE_INDEX };
    e.current_player_data.moved_marble = Some(0);
    e.state = GameState::ProcessMove;
    e.process();
    assert_eq!(e.power_bars[0].power_up_count, 1);
    assert_eq!(e.power_bars[0].power, 0);
    assert!(e.game_data.red.power_ups[0].is_some());
}

#[test]
fn full_game_with_forced_exits_reaches_game_end() {
    let mut e = GameEngine::new_with(Player::Red, Player::Green);
    let mut steps: u64 = 0;
    loop {
        steps += 1;
        assert!(steps < 1_000_000, "the game did not terminate");
        match e.state {
            GameState::NextPlayer => {
                e.choose_next_player();
                e.next_player_setup();
            }
            GameState::DiceRoll => {
                e.apply_roll(1, 6);
            }
            GameState::TurnSetup => {
                e.calc_possible_moves();
                e.count_moves();
                e.turn_setup_complete();
            }
            GameState::ComputerTurn => {
                if e.current_player_data.possible_moves.is_empty() {
                    e.computer_move_buffer();
                } else {
                    let first = e.current_player_data.possible_moves[0];
                    e.current_player_data.select_move(first);
                    e.computer_move_buffer();
                }
            }
            GameState::HumanTurn => {
                if e.current_player_data.possible_moves.is_empty() {
                    e.human_done();
                } else {
                    let (mid, mv) = e.current_player_data.possible_moves[0];
                    e.select_marble(mid);
                    e.human_move_to(mv.destination);
                }
            }
            GameState::WaitForAnimation => {
                e.animation_done();
            }
            GameState::ProcessMove => {
                e.process();
            }
            GameState::EndTurn => {
                e.end_turn();
            }
            GameState::GameEnd => {
                break;
            }
            _ => panic!("unexpected phase"),
        }
    }
    // the winner's five marbles all sit in the home row
    let winner = e.current_player_data.player;
    let base = 5 * winner.ordinal() as usize;
    for k in 0..5 {
        let idx = e.marbles[base + k].index;
        assert!((48..=52).contains(&idx), "winner has a marble at {idx}");
    }
}

#[test]
fn human_done_respects_doubles() {
    let mut e = GameEngine::new_with(Player::Red, Player::Red);
    e.state = GameState::DiceRoll;
    e.apply_roll(2, 2);
    e.state = GameState::HumanTurn;
    e.human_done();
    assert_eq!(e.state, GameState::DiceRoll);
    e.apply_roll(2, 3);
    e.state = GameState::HumanTurn;
    e.human_done();
    assert_eq!(e.state, GameState::EndTurn);
}

#[test]
fn using_a_power_up_applies_its_effect() {
    let mut e = GameEngine::new_with(Player::Red, Player::Red);
    e.current_player_data.player = Player::Red;
    e.state = GameState::HumanTurn;
    let slot = {
        let pd = &mut e.game_data.red;
        pd.grant_power_up(vexation::power::PowerUp::DoubleDice)
    };
    e.power_bars[0].power_up_count = 1;
    e.use_power_up(slot);
    assert_eq!(e.dice.multiplier, 2);
    assert_eq!(e.state, GameState::TurnSetup);
    assert!(e.game_data.red.power_ups[slot].is_none());
    assert_eq!(e.power_bars[0].power_up_count, 0);
}

#[test]
fn empty_turns_force_a_one() {
    let mut e = GameEngine::new_with(Player::Red, Player::Red);
    e.choose_next_player();
    e.next_player_setup();
    let p = e.current_player_data.player;
    match p {
        Player::Red => e.game_data.red.consecutive_empty_turns = 2,
        Player::Green => e.game_data.green.consecutive_empty_turns = 2,
        Player::Blue => e.game_data.blue.consecutive_empty_turns = 2,
        Player::Yellow => e.game_data.yellow.consecutive_empty_turns = 2,
    }
    for _ in 0..20 {
        e.roll_dice();
        assert!(e.dice.one == Some(1) || e.dice.two == Some(1));
        e.state = GameState::DiceRoll;
    }
}

#[test]
fn end_turn_advances_the_streak() {
    let mut e = GameEngine::new_with(Player::Red, Player::Green);
    e.current_player_data.player = Player::Red;
    e.state = GameState::EndTurn;
    e.end_turn();
    assert_eq!(e.game_data.red.consecutive_empty_turns, 1);
    assert_eq!(e.state, GameState::NextPlayer);
    assert!(e.current_player_data.moved_marble.is_none());
}
