use vexation::dice::{Dice, WhichDie};
use vexation::marble::Marble;
use vexation::moves::{base_exit_rules, center_exit_rules, basic_rules, enter_center_path, PathMove};

#[test]
fn test_base_exit_moves() {
    let dice = Dice::new(1, 6);
    let mut moves: Vec<(usize, PathMove)> = Vec::new();
    base_exit_rules(&dice, 12, &mut moves);
    assert_eq!(5, moves.len());
    assert_eq!(vec![0], moves[0].1.path); // use die 1 to exit
    assert_eq!(vec![0], moves[1].1.path); // use die 2 to exit
    assert_eq!(vec![0, 1], moves[2].1.path); // use die 2 to exit then die 1 to move
    assert_eq!(vec![0, 1, 2, 3, 4, 5, 6], moves[3].1.path); // use die 1 to exit then die 2 to move
    assert_eq!(vec![0, 1, 2, 3, 4, 5, 53], moves[4].1.path); // use die 1 to exit then die 2 to move to center
}

#[test]
fn test_center_exit_moves() {
    let dice = Dice::new(1, 4);
    let mut moves: Vec<(usize, PathMove)> = Vec::new();
    center_exit_rules(&dice, 12, &mut moves);
    assert_eq!(2, moves.len());
    assert_eq!(vec![41], moves[0].1.path); // use die 1 to exit
    assert_eq!(vec![41, 42, 43, 44, 45], moves[1].1.path); // use die 1 to exit then die 2 to move
}

#[test]
fn test_basic_moves() {
    let dice = Dice::new(5, 5);
    let marble = Marble { index: 43, prev_index: 42 };
    let mut moves: Vec<(usize, PathMove)> = Vec::new();
    basic_rules(&dice, 12, &marble, &mut moves);
    assert_eq!(2, moves.len());
    assert_eq!(vec![44, 45, 46, 47, 48], moves[0].1.path);
    assert_eq!(vec![44, 45, 46, 47, 48], moves[1].1.path);

    let dice = Dice::new(4, 1);
    let marble = Marble { index: 52, prev_index: 52 };
    moves = Vec::new();
    basic_rules(&dice, 13, &marble, &mut moves);
    assert_eq!(0, moves.len());
}

#[test]
fn turn_setup_test_basic_moves() {
    let dice = Dice::new(5, 5);
    let marble = Marble { index: 43, prev_index: 43 };
    let mut moves: Vec<(usize, PathMove)> = Vec::new();
    basic_rules(&dice, 12, &marble, &mut moves);
    assert_eq!(2, moves.len());
    assert_eq!(vec![44, 45, 46, 47, 48], moves[0].1.path);
    assert_eq!(vec![44, 45, 46, 47, 48], moves[1].1.path);

    let dice = Dice::new(4, 1);
    let marble = Marble { index: 52, prev_index: 52 };
    let mut moves: Vec<(usize, PathMove)> = Vec::new();
    basic_rules(&dice, 13, &marble, &mut moves);
    assert_eq!(0, moves.len());
}

#[test]
fn basic_moves_never_pass_the_home_row() {
    let dice = Dice::new(5, 5);
    let marble = Marble { index: 43, prev_index: 42 };
    let mut moves: Vec<(usize, PathMove)> = Vec::new();
    basic_rules(&dice, 0, &marble, &mut moves);
    for (_, m) in &moves {
        assert!(*m.path.last().unwrap() <= 52);
        assert_eq!(*m.path.last().unwrap(), 48);
    }
}

#[test]
fn basic_moves_may_enter_the_center_exactly() {
    // a summed roll reaching one past a center entrance may stop on the center
    let dice = Dice::new(2, 4);
    let marble = Marble { index: 0, prev_index: 0 };
    let mut moves: Vec<(usize, PathMove)> = Vec::new();
    basic_rules(&dice, 0, &marble, &mut moves);
    // die one, die two, both, and the center-entry variant of both
    assert_eq!(4, moves.len());
    assert_eq!(vec![1, 2], moves[0].1.path);
    assert_eq!(WhichDie::One, moves[0].1.which);
    assert_eq!(vec![1, 2, 3, 4], moves[1].1.path);
    assert_eq!(vec![1, 2, 3, 4, 5, 6], moves[2].1.path);
    assert_eq!(vec![0, 1, 2, 3, 4, 5, 53], moves[3].1.path);
    assert_eq!(WhichDie::Both, moves[3].1.which);
}

#[test]
fn enter_center_path_needs_an_entrance() {
    let path = enter_center_path(0, 6).unwrap();
    assert_eq!(vec![0, 1, 2, 3, 4, 5, 53], path);
    assert!(enter_center_path(0, 7).is_none());
    assert!(enter_center_path(10, 18).unwrap().ends_with(&[17, 53]));
}

#[test]
fn base_exit_needs_a_literal_one_or_six() {
    // a summed 6 from (2, 4) does not leave the base
    let dice = Dice::new(2, 4);
    let mut moves: Vec<(usize, PathMove)> = Vec::new();
    base_exit_rules(&dice, 0, &mut moves);
    assert_eq!(0, moves.len());

    let dice = Dice::new(6, 6);
    let mut moves: Vec<(usize, PathMove)> = Vec::new();
    base_exit_rules(&dice, 0, &mut moves);
    // exit via either die, one deduplicated extension, and its center variant
    assert_eq!(4, moves.len());
    assert_eq!(vec![0], moves[0].1.path);
    assert_eq!(vec![0], moves[1].1.path);
    assert_eq!(vec![0, 1, 2, 3, 4, 5, 6], moves[2].1.path);
    assert_eq!(vec![0, 1, 2, 3, 4, 5, 53], moves[3].1.path);
}

#[test]
fn center_exit_needs_a_literal_one() {
    let dice = Dice::new(3, 4);
    let mut moves: Vec<(usize, PathMove)> = Vec::new();
    center_exit_rules(&dice, 0, &mut moves);
    assert_eq!(0, moves.len());
}
