use vexation::board::{Player, BASE_INDEX, CENTER_INDEX};

#[test]
fn same_index_test() {
    assert!(Player::is_same_index(Player::Yellow, 16, Player::Blue, 28));
    assert!(Player::is_same_index(Player::Blue, 28, Player::Yellow, 16));
    assert!(!Player::is_same_index(Player::Blue, 17, Player::Green, 13));
    assert!(Player::is_same_index(Player::Blue, 21, Player::Yellow, 9));
    assert!(!Player::is_same_index(Player::Blue, 21, Player::Green, 16));
    assert!(!Player::is_same_index(Player::Green, 53, Player::Red, 17));
}

#[test]
fn shift_index_test() {
    let tests = [
        (0, Player::Red, 36, Player::Green),
        (1, Player::Red, 25, Player::Blue),
        (2, Player::Red, 14, Player::Yellow),
        (BASE_INDEX, Player::Red, BASE_INDEX, Player::Green),
        (CENTER_INDEX, Player::Red, CENTER_INDEX, Player::Blue),
    ];
    for (i, from, expected, to) in tests {
        assert_eq!(Player::shift_index(i, from, to), expected);
    }
}

#[test]
fn shift_index_round_trips() {
    for i in 0..48 {
        for from in [Player::Red, Player::Green, Player::Blue, Player::Yellow] {
            for to in [Player::Red, Player::Green, Player::Blue, Player::Yellow] {
                let shifted = Player::shift_index(i, from, to);
                assert!(Player::is_same_index(from, i, to, shifted));
                assert_eq!(Player::shift_index(shifted, to, from), i);
            }
        }
    }
}

#[test]
fn shift_index_examples() {
    assert_eq!(Player::shift_index(0, Player::Red, Player::Green), 36);
    assert_eq!(Player::shift_index(21, Player::Blue, Player::Yellow), 9);
    assert!(Player::is_same_index(Player::Yellow, 16, Player::Blue, 28));
    assert!(!Player::is_same_index(Player::Blue, 17, Player::Green, 13));
}

#[test]
fn rotate_coords_quadrants() {
    assert_eq!(Player::Red.rotate_coords((-6, 1)), (-6, 1));
    assert_eq!(Player::Green.rotate_coords((-6, 1)), (1, 6));
    assert_eq!(Player::Blue.rotate_coords((-6, 1)), (6, -1));
    assert_eq!(Player::Yellow.rotate_coords((-6, 1)), (-1, -6));
}

#[test]
fn board_coord_landmarks() {
    assert_eq!(vexation::board::board_coord(0), (-6, 1));
    assert_eq!(vexation::board::board_coord(5), (-1, 1));
    assert_eq!(vexation::board::board_coord(23), (6, 0));
    assert_eq!(vexation::board::board_coord(47), (-6, 0));
    assert_eq!(vexation::board::board_coord(52), (-1, 0));
    assert_eq!(vexation::board::board_coord(53), (0, 0));
}

#[test]
fn player_order_is_cyclic() {
    assert_eq!(Player::Red.next(), Player::Green);
    assert_eq!(Player::Green.next(), Player::Blue);
    assert_eq!(Player::Blue.next(), Player::Yellow);
    assert_eq!(Player::Yellow.next(), Player::Red);
}
