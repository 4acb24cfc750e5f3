//! Dice state: two optional die faces, doubles detection, a multiplier effect
//! slot, and per-die consumption tracking.

use vstd::prelude::*;

verus! {

/// Which of the two dice a move consumes. `Both` consumes the sum of the
/// faces; `Neither` marks a move granted by a power-up rather than the dice.
#[derive(Debug, PartialEq, Eq, Structural, Clone, Copy)]
pub enum WhichDie {
    One,
    Two,
    Both,
    Neither,
}

/// The two die faces for the current roll. A face becomes `None` once it is
/// consumed; the multiplier scales move distances while the double-dice
/// power-up is active and resets to 1 when both dice are consumed.
#[derive(Debug, Clone, Copy)]
pub struct Dice {
    pub one: Option<u8>,
    pub two: Option<u8>,
    pub doubles: bool,
    pub multiplier: u8,
}

/// Well-formed dice: unconsumed faces show 1 through 6 and the multiplier is
/// 1, or 2 while double dice is active.
pub open spec fn dice_wf(d: Dice) -> bool {
    &&& (d.one matches Some(v) ==> 1 <= v <= 6)
    &&& (d.two matches Some(v) ==> 1 <= v <= 6)
    &&& 1 <= d.multiplier <= 2
}

/// The dice state after consuming the given die or dice.
pub open spec fn spec_use_die(d: Dice, which: WhichDie) -> Dice {
    let one = if which == WhichDie::One || which == WhichDie::Both {
        None
    } else {
        d.one
    };
    let two = if which == WhichDie::Two || which == WhichDie::Both {
        None
    } else {
        d.two
    };
    Dice {
        one,
        two,
        doubles: d.doubles,
        multiplier: if one is None && two is None {
            1
        } else {
            d.multiplier
        },
    }
}

impl Dice {
    /// A fresh roll showing the two given faces.
    pub fn new(one: u8, two: u8) -> (d: Dice)
        requires
            1 <= one <= 6,
            1 <= two <= 6,
        ensures
            d.one == Some(one),
            d.two == Some(two),
            d.doubles == (one == two),
            d.multiplier == 1,
            dice_wf(d),
    {
        Dice { one: Some(one), two: Some(two), doubles: one == two, multiplier: 1 }
    }

    /// Marks one or both faces consumed; once both are consumed the
    /// multiplier falls back to 1.
    pub fn use_die(&mut self, which: WhichDie)
        ensures
            *final(self) == spec_use_die(*old(self), which),
    {
        match which {
            WhichDie::One => self.one = None,
            WhichDie::Two => self.two = None,
            WhichDie::Both => {
                self.one = None;
                self.two = None;
            }
            WhichDie::Neither => {}
        }
        if self.is_empty() {
            self.multiplier = 1;
        }
    }

    /// Whether at least one die has been consumed.
    pub fn did_use_any(&self) -> (r: bool)
        ensures
            r == (self.one is None || self.two is None),
    {
        self.one.is_none() || self.two.is_none()
    }

    /// Whether both dice have been consumed.
    pub fn is_empty(&self) -> (r: bool)
        ensures
            r == (self.one is None && self.two is None),
    {
        self.one.is_none() && self.two.is_none()
    }
}

impl Default for Dice {
    /// Dice with both faces already consumed: the state before the first roll.
    fn default() -> (d: Dice)
        ensures
            d.one is None,
            d.two is None,
            !d.doubles,
            d.multiplier == 1,
            dice_wf(d),
    {
        Dice { one: None, two: None, doubles: false, multiplier: 1 }
    }
}

} // verus!
