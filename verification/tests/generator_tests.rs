use vexation::board::Player;
use vexation::dice::{Dice, WhichDie};
use vexation::generator::{calc_possible_moves, MarbleMove, OpponentMarble};
use vexation::marble::Marble;
use vexation::power::PowerUpStatus;

fn fresh_own() -> Vec<Marble> {
    (0..5).map(|_| Marble::new()).collect()
}

#[test]
fn base_exit_is_always_available_on_a_one() {
    let own = fresh_own();
    let opponents: Vec<OpponentMarble> = Vec::new();
    let dice = Dice::new(1, 4);
    let status = PowerUpStatus::default();
    let moves = calc_possible_moves(Player::Red, &own, &opponents, &dice, &status);
    assert!(!moves.is_empty());
    // every marble in the base may exit to the start cell
    for mid in 0..5 {
        assert!(moves.iter().any(|(m, mv)| *m == mid && mv.destination == 0));
    }
}

#[test]
fn self_collision_filters_moves() {
    let mut own = fresh_own();
    own[0] = Marble { index: 0, prev_index: 54 };
    own[1] = Marble { index: 2, prev_index: 54 };
    let opponents: Vec<OpponentMarble> = Vec::new();
    let dice = Dice::new(2, 5);
    let status = PowerUpStatus::default();
    let moves = calc_possible_moves(Player::Red, &own, &opponents, &dice, &status);
    // marble 0 cannot land on or pass its sibling at index 2
    assert!(moves.iter().all(|(m, _)| *m != 0));
    assert!(moves.iter().any(|(m, _)| *m == 1));
}

#[test]
fn self_jump_permits_passing_but_not_landing() {
    let mut own = fresh_own();
    own[0] = Marble { index: 0, prev_index: 54 };
    own[1] = Marble { index: 2, prev_index: 54 };
    let opponents: Vec<OpponentMarble> = Vec::new();
    let dice = Dice::new(2, 5);
    let mut status = PowerUpStatus::default();
    status.jump_self();
    let moves = calc_possible_moves(Player::Red, &own, &opponents, &dice, &status);
    // marble 0 may now jump over index 2, but still not land on it
    assert!(moves.iter().any(|(m, mv)| *m == 0 && mv.destination == 5));
    assert!(moves.iter().all(|(m, mv)| !(*m == 0 && mv.destination == 2)));
}

#[test]
fn evading_opponents_cannot_be_landed_on() {
    let mut own = fresh_own();
    own[0] = Marble { index: 0, prev_index: 54 };
    // green's local 41 is red's local 5
    let green = OpponentMarble {
        marble: Marble { index: 41, prev_index: 40 },
        player: Player::Green,
        evading: true,
    };
    let opponents = vec![green];
    let dice = Dice::new(5, 2);
    let status = PowerUpStatus::default();
    let moves = calc_possible_moves(Player::Red, &own, &opponents, &dice, &status);
    assert!(moves.iter().all(|(m, mv)| !(*m == 0 && mv.destination == 5)));
    assert!(moves.iter().any(|(m, mv)| *m == 0 && mv.destination == 2));
}

#[test]
fn capture_nearest_lands_exactly_on_the_nearest_opponent() {
    let mut own = fresh_own();
    own[0] = Marble { index: 0, prev_index: 54 };
    let near = OpponentMarble {
        marble: Marble { index: 41, prev_index: 40 }, // red's local 5
        player: Player::Green,
        evading: false,
    };
    let far = OpponentMarble {
        marble: Marble { index: 45, prev_index: 44 }, // red's local 9
        player: Player::Green,
        evading: false,
    };
    let opponents = vec![far, near];
    let dice = Dice::default(); // both dice spent: only the power-up moves
    let mut status = PowerUpStatus::default();
    status.capture_nearest();
    let moves = calc_possible_moves(Player::Red, &own, &opponents, &dice, &status);
    assert_eq!(moves.len(), 1);
    let (mid, mv) = moves[0];
    assert_eq!(mid, 0);
    assert_eq!(mv.destination, 5);
    assert_eq!(mv.distance, 5);
    assert_eq!(mv.which, WhichDie::Neither);
}

#[test]
fn home_run_offers_every_open_home_cell() {
    let mut own = fresh_own();
    own[0] = Marble { index: 10, prev_index: 9 };
    own[1] = Marble { index: 49, prev_index: 48 }; // already home: no home run, occupies 49
    let opponents: Vec<OpponentMarble> = Vec::new();
    let dice = Dice::new(3, 4);
    let mut status = PowerUpStatus::default();
    status.home_run();
    let moves = calc_possible_moves(Player::Red, &own, &opponents, &dice, &status);
    // four marbles not home, four open cells (48, 50, 51, 52) each
    assert_eq!(moves.len(), 16);
    assert!(moves.iter().all(|(m, _)| *m != 1));
    for cell in [48usize, 50, 51, 52] {
        assert!(moves.iter().any(|(m, mv)| *m == 0 && mv.destination == cell));
    }
    assert!(moves.iter().all(|(_, mv)| mv.destination != 49));
    assert!(moves.iter().all(|(_, mv)| mv.which == WhichDie::Neither));
}

#[test]
fn marble_move_from_triple() {
    let mv = MarbleMove::from((5usize, 2usize, WhichDie::One));
    assert_eq!(mv.destination, 5);
    assert_eq!(mv.distance, 2);
    assert_eq!(mv.which, WhichDie::One);
}
