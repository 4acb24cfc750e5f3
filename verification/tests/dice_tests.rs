use vexation::dice::{Dice, WhichDie};
use vexation::rng::roll_die;

#[test]
fn dice_consumption() {
    let mut dice = Dice::new(3, 3);
    assert!(dice.doubles);
    assert!(!dice.did_use_any());
    dice.use_die(WhichDie::One);
    assert!(dice.did_use_any());
    assert!(!dice.is_empty());
    assert_eq!(dice.one, None);
    assert_eq!(dice.two, Some(3));
    dice.use_die(WhichDie::Two);
    assert!(dice.is_empty());
}

#[test]
fn multiplier_resets_when_both_dice_are_spent() {
    let mut dice = Dice::new(2, 5);
    dice.multiplier = 2;
    dice.use_die(WhichDie::Neither);
    assert_eq!(dice.multiplier, 2);
    dice.use_die(WhichDie::Both);
    assert!(dice.is_empty());
    assert_eq!(dice.multiplier, 1);
}

#[test]
fn default_dice_are_spent() {
    let dice = Dice::default();
    assert!(dice.is_empty());
    assert!(!dice.doubles);
    assert_eq!(dice.multiplier, 1);
}

#[test]
fn rolled_faces_show_one_through_six() {
    for _ in 0..200 {
        let f = roll_die();
        assert!((1..=6).contains(&f));
    }
}
