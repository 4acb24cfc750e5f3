//! The power economy: power-bar accrual, drafted power-up slots, per-turn
//! status effects, and end-of-turn bookkeeping.
//!
//! Power is measured in units of 1/48 of a power point, so that the
//! per-move accrual formula `distance_factor * 10 * path_length / 48` stays
//! in integers: a whole power point is 48 units and a full bar is 480.

use vstd::prelude::*;
use crate::board::{CENTER_INDEX, BASE_INDEX, FIRST_HOME_INDEX, LAST_HOME_INDEX, CENTER_EXIT_INDEX};

verus! {

/// One drafted power-up.
#[derive(Debug, PartialEq, Eq, Structural, Clone, Copy)]
pub enum PowerUp {
    RollAgain,
    DoubleDice,
    EvadeCapture,
    SelfJump,
    CaptureNearest,
    HomeRun,
}

/// Position of a power-up in the fixed drafting order.
pub open spec fn power_up_index(p: PowerUp) -> int {
    match p {
        PowerUp::RollAgain => 0,
        PowerUp::DoubleDice => 1,
        PowerUp::EvadeCapture => 2,
        PowerUp::SelfJump => 3,
        PowerUp::CaptureNearest => 4,
        PowerUp::HomeRun => 5,
    }
}

impl PowerUp {
    /// The power-up at the given position of the fixed drafting order.
    pub fn from_index(value: usize) -> (p: PowerUp)
        requires
            value < 6,
        ensures
            power_up_index(p) == value as int,
    {
        if value == 0 {
            PowerUp::RollAgain
        } else if value == 1 {
            PowerUp::DoubleDice
        } else if value == 2 {
            PowerUp::EvadeCapture
        } else if value == 3 {
            PowerUp::SelfJump
        } else if value == 4 {
            PowerUp::CaptureNearest
        } else {
            PowerUp::HomeRun
        }
    }
}

/// Direction of a power-bar threshold crossing.
#[derive(Debug, PartialEq, Eq, Structural, Clone, Copy)]
pub enum PowerChange {
    Up,
    Down,
}

/// Which multi-turn statuses ran out at the end of a turn.
#[derive(Debug, PartialEq, Eq, Structural, Clone, Copy)]
pub enum PowerDownType {
    Evading,
    SelfJumping,
    EvadingAndSelfJumping,
}

/// A player's active power-up effects: remaining-turn counters for the
/// multi-turn statuses and flags for the one-shot ones.
#[derive(Debug, PartialEq, Eq, Structural, Clone, Copy)]
pub struct PowerUpStatus {
    pub evade_capture_turns: u8,
    pub jump_self_turns: u8,
    pub capture_nearest: bool,
    pub home_run: bool,
}

/// The status after an end-of-turn tick: one-shot flags cleared, multi-turn
/// counters decremented toward zero.
pub open spec fn spec_tick_status(s: PowerUpStatus) -> PowerUpStatus {
    PowerUpStatus {
        evade_capture_turns: if s.evade_capture_turns > 0 {
            (s.evade_capture_turns - 1) as u8
        } else {
            0u8
        },
        jump_self_turns: if s.jump_self_turns > 0 {
            (s.jump_self_turns - 1) as u8
        } else {
            0u8
        },
        capture_nearest: false,
        home_run: false,
    }
}

/// Which statuses run out when ticked: a counter that falls from 1 to 0.
pub open spec fn spec_tick_result(s: PowerUpStatus) -> Option<PowerDownType> {
    let evade_done = s.evade_capture_turns == 1;
    let jump_done = s.jump_self_turns == 1;
    if evade_done && jump_done {
        Some(PowerDownType::EvadingAndSelfJumping)
    } else if evade_done {
        Some(PowerDownType::Evading)
    } else if jump_done {
        Some(PowerDownType::SelfJumping)
    } else {
        None
    }
}

impl PowerUpStatus {
    /// Activates evade-capture for 4 turn ticks (3 full turns, as the first
    /// tick happens in the turn it is used); reports whether the status was
    /// already active.
    pub fn evade_capture(&mut self) -> (already: bool)
        ensures
            already == (old(self).evade_capture_turns > 0),
            *final(self) == (PowerUpStatus { evade_capture_turns: 4, ..*old(self) }),
    {
        let already_evading = self.evade_capture_turns > 0;
        self.evade_capture_turns = 4;
        already_evading
    }

    /// Activates self-jump for 4 turn ticks; reports whether the status was
    /// already active.
    pub fn jump_self(&mut self) -> (already: bool)
        ensures
            already == (old(self).jump_self_turns > 0),
            *final(self) == (PowerUpStatus { jump_self_turns: 4, ..*old(self) }),
    {
        let already_jumping = self.jump_self_turns > 0;
        self.jump_self_turns = 4;
        already_jumping
    }

    /// Arms the one-shot capture-nearest effect.
    pub fn capture_nearest(&mut self)
        ensures
            *final(self) == (PowerUpStatus { capture_nearest: true, ..*old(self) }),
    {
        self.capture_nearest = true;
    }

    /// Arms the one-shot home-run effect.
    pub fn home_run(&mut self)
        ensures
            *final(self) == (PowerUpStatus { home_run: true, ..*old(self) }),
    {
        self.home_run = true;
    }

    /// End-of-turn bookkeeping: clears the one-shot flags and decrements the
    /// multi-turn counters, reporting which statuses just ran out.
    pub fn tick(&mut self) -> (r: Option<PowerDownType>)
        ensures
            r == spec_tick_result(*old(self)),
            *final(self) == spec_tick_status(*old(self)),
    {
        self.clear_one_shots();
        let evade_done = if self.evade_capture_turns > 0 {
            self.evade_capture_turns -= 1;
            self.evade_capture_turns == 0
        } else {
            false
        };
        let jump_done = if self.jump_self_turns > 0 {
            self.jump_self_turns -= 1;
            self.jump_self_turns == 0
        } else {
            false
        };
        match (evade_done, jump_done) {
            (true, false) => Some(PowerDownType::Evading),
            (false, true) => Some(PowerDownType::SelfJumping),
            (true, true) => Some(PowerDownType::EvadingAndSelfJumping),
            _ => None,
        }
    }

    /// Clears the one-shot effects; they last only for the turn that used
    /// them.
    pub fn clear_one_shots(&mut self)
        ensures
            *final(self) == (PowerUpStatus {
                capture_nearest: false,
                home_run: false,
                ..*old(self)
            }),
    {
        self.capture_nearest = false;
        self.home_run = false;
    }
}

impl Default for PowerUpStatus {
    /// No status effect active.
    fn default() -> (s: PowerUpStatus)
        ensures
            s == (PowerUpStatus {
                evade_capture_turns: 0u8,
                jump_self_turns: 0u8,
                capture_nearest: false,
                home_run: false,
            }),
    {
        PowerUpStatus {
            evade_capture_turns: 0,
            jump_self_turns: 0,
            capture_nearest: false,
            home_run: false,
        }
    }
}

/// Power units for one whole power point.
pub const POWER_POINT_UNITS: u32 = 48;

/// A full power bar: ten power points.
pub const MAX_POWER_UNITS: u32 = 480;

/// Power units granted to the captor of a marble (three points); the captive
/// loses the same amount.
pub const CAPTURE_POWER_UNITS: u32 = 144;

/// Most power-up slots a player can hold at once.
pub const MAX_POWER_UPS: usize = 3;

/// A player's power bar: the current fill in power units and the number of
/// ten-point thresholds crossed so far (the power-up level).
#[derive(Debug, PartialEq, Eq, Structural, Clone, Copy)]
pub struct PowerBar {
    pub power: u32,
    pub power_up_count: usize,
}

/// A power bar never shows more than a full bar, and at most three
/// thresholds can be outstanding.
pub open spec fn bar_wf(b: PowerBar) -> bool {
    b.power <= MAX_POWER_UNITS && b.power_up_count <= MAX_POWER_UPS
}

/// The bar after accruing `delta` power units, with the threshold crossing
/// it triggers, if any: power is clamped to the bar; crossing the top while
/// fewer than three thresholds are outstanding carries the excess over (or,
/// at the third, resets to empty) and steps the level up. At level three the
/// fill is frozen until a power-up is spent.
pub open spec fn spec_bar_update(b: PowerBar, delta: int) -> (PowerBar, Option<PowerChange>) {
    let new_power = if b.power + delta >= 0 {
        b.power + delta
    } else {
        0
    };
    if new_power >= MAX_POWER_UNITS {
        if b.power_up_count == 0 || b.power_up_count == 1 {
            let carry = if new_power - MAX_POWER_UNITS <= MAX_POWER_UNITS {
                new_power - MAX_POWER_UNITS
            } else {
                MAX_POWER_UNITS as int
            };
            (
                PowerBar { power: carry as u32, power_up_count: (b.power_up_count + 1) as usize },
                Some(PowerChange::Up),
            )
        } else if b.power_up_count == 2 {
            (PowerBar { power: 0, power_up_count: 3 }, Some(PowerChange::Up))
        } else {
            (b, None)
        }
    } else {
        if b.power_up_count < 3 {
            (PowerBar { power: new_power as u32, ..b }, None)
        } else {
            (b, None)
        }
    }
}

impl PowerBar {
    /// An empty power bar.
    pub fn new() -> (b: PowerBar)
        ensures
            b == (PowerBar { power: 0u32, power_up_count: 0usize }),
            bar_wf(b),
    {
        PowerBar { power: 0, power_up_count: 0 }
    }

    /// Accrues `delta` power units (negative to drain) and reports a
    /// threshold crossing when the bar fills.
    pub fn update(&mut self, delta: i64) -> (r: Option<PowerChange>)
        requires
            bar_wf(*old(self)),
            -1000000 <= delta <= 1000000,
        ensures
            (*final(self), r) == spec_bar_update(*old(self), delta as int),
            bar_wf(*final(self)),
    {
        let signed = self.power as i64 + delta;
        let new_power: u32 = if signed >= 0 {
            signed as u32
        } else {
            0
        };
        if new_power >= MAX_POWER_UNITS {
            match self.power_up_count {
                0 | 1 => {
                    let carry = new_power - MAX_POWER_UNITS;
                    self.power = if carry <= MAX_POWER_UNITS {
                        carry
                    } else {
                        MAX_POWER_UNITS
                    };
                    self.power_up_count += 1;
                    Some(PowerChange::Up)
                }
                2 => {
                    self.power = 0;
                    self.power_up_count += 1;
                    Some(PowerChange::Up)
                }
                _ => None,
            }
        } else {
            if self.power_up_count < 3 {
                self.power = new_power;
            }
            None
        }
    }
}

/// Whether power accrual is defined for a move from `prev` to `index`: the
/// combinations a committed legal move can produce. A move into the center
/// starts at the base or before a center entrance; any other move ends on
/// the board and starts at the base, at the center with the destination at
/// or past the center exit, or strictly behind its destination.
pub open spec fn move_accrual_ok(prev: int, index: int) -> bool {
    if index == CENTER_INDEX {
        prev == BASE_INDEX || 0 <= prev <= 29
    } else {
        0 <= index <= LAST_HOME_INDEX && (prev == BASE_INDEX || (prev == CENTER_INDEX
            && index >= CENTER_EXIT_INDEX) || 0 <= prev < index)
    }
}

/// The path length a move from `prev` to `index` is worth for power accrual:
/// base to center is a fixed 7; otherwise a move into the center counts up
/// to the next entrance plus one, a base exit counts the exit itself, and a
/// center exit counts from the center-exit cell.
pub open spec fn spec_move_distance(prev: int, index: int) -> int {
    if index == CENTER_INDEX {
        if prev == BASE_INDEX {
            7
        } else if prev <= 5 {
            5 - prev + 1
        } else if prev <= 17 {
            17 - prev + 1
        } else {
            29 - prev + 1
        }
    } else {
        if prev == BASE_INDEX {
            index + 1
        } else if prev == CENTER_INDEX {
            index + 1 - CENTER_EXIT_INDEX
        } else {
            index - prev
        }
    }
}

/// Power units accrued for a move of the given length ending at `index`:
/// `distance_factor * 10 * distance` units (of 1/48 point each), where the
/// factor is 1 on the outer track and 2 in the home row or center.
pub open spec fn spec_move_power_units(index: int, distance: int) -> int {
    if 0 <= index <= 47 {
        10 * distance
    } else {
        20 * distance
    }
}

/// Whether power accrual is defined for a move from `prev` to `index`.
pub fn move_accrual_ok_exec(prev: usize, index: usize) -> (r: bool)
    ensures
        r == move_accrual_ok(prev as int, index as int),
{
    if index == CENTER_INDEX {
        prev == BASE_INDEX || prev <= 29
    } else {
        index <= LAST_HOME_INDEX && (prev == BASE_INDEX || (prev == CENTER_INDEX && index
            >= CENTER_EXIT_INDEX) || prev < index)
    }
}

/// The path length of a committed move, for power accrual.
pub fn move_distance(prev: usize, index: usize) -> (d: usize)
    requires
        move_accrual_ok(prev as int, index as int),
    ensures
        d as int == spec_move_distance(prev as int, index as int),
        1 <= d <= 53,
{
    if index == CENTER_INDEX {
        if prev == BASE_INDEX {
            7
        } else if prev <= 5 {
            5 - prev + 1
        } else if prev <= 17 {
            17 - prev + 1
        } else {
            29 - prev + 1
        }
    } else {
        if prev == BASE_INDEX {
            index + 1
        } else if prev == CENTER_INDEX {
            index + 1 - CENTER_EXIT_INDEX
        } else {
            index - prev
        }
    }
}

/// Power units accrued for a committed move from `prev` to `index`.
pub fn move_power_units(prev: usize, index: usize) -> (units: u32)
    requires
        move_accrual_ok(prev as int, index as int),
    ensures
        units as int == spec_move_power_units(
            index as int,
            spec_move_distance(prev as int, index as int),
        ),
        units <= 1060,
{
    let distance = move_distance(prev, index);
    let base = 10 * (distance as u32);
    if index <= 47 {
        base
    } else {
        2 * base
    }
}

/// Persistent per-player progress: how many moves this turn, how many turns
/// in a row went by without a legal move, the drafted power-up slots, and
/// the active status effects.
#[derive(Debug)]
pub struct PlayerData {
    pub turn_move_count: u8,
    pub consecutive_empty_turns: u8,
    pub power_ups: Vec<Option<PowerUp>>,
    pub power_up_status: PowerUpStatus,
}

/// A player always has exactly three power-up slots.
pub open spec fn player_data_wf(d: PlayerData) -> bool {
    d.power_ups@.len() == MAX_POWER_UPS
}

impl PlayerData {
    /// End-of-turn bookkeeping: advances the empty-turn streak (saturating),
    /// resets the per-turn move count, and ticks the status effects.
    pub fn end_of_turn(&mut self) -> (r: Option<PowerDownType>)
        ensures
            r == spec_tick_result(old(self).power_up_status),
            final(self).power_up_status == spec_tick_status(old(self).power_up_status),
            final(self).turn_move_count == 0,
            final(self).consecutive_empty_turns == if old(self).turn_move_count > 0 {
                0u8
            } else if old(self).consecutive_empty_turns == 255 {
                255u8
            } else {
                (old(self).consecutive_empty_turns + 1) as u8
            },
            final(self).power_ups@ == old(self).power_ups@,
    {
        self.consecutive_empty_turns = if self.turn_move_count > 0 {
            0
        } else if self.consecutive_empty_turns == 255 {
            255
        } else {
            self.consecutive_empty_turns + 1
        };
        self.turn_move_count = 0;
        self.power_up_status.tick()
    }

    /// Takes the power-up out of the given slot, if there is one; slots past
    /// the end yield nothing.
    pub fn use_power_up(&mut self, index: usize) -> (r: Option<PowerUp>)
        ensures
            index < old(self).power_ups@.len() ==> {
                &&& r == old(self).power_ups@[index as int]
                &&& final(self).power_ups@ == old(self).power_ups@.update(index as int, None)
            },
            index >= old(self).power_ups@.len() ==> r is None && final(self).power_ups@
                == old(self).power_ups@,
            final(self).turn_move_count == old(self).turn_move_count,
            final(self).consecutive_empty_turns == old(self).consecutive_empty_turns,
            final(self).power_up_status == old(self).power_up_status,
    {
        if index < self.power_ups.len() {
            let power_up = self.power_ups[index];
            self.power_ups[index] = None;
            power_up
        } else {
            None
        }
    }

    /// The first unoccupied power-up slot, if any.
    pub fn first_open_slot(&self) -> (r: Option<usize>)
        ensures
            r matches Some(i) ==> i < self.power_ups@.len() && self.power_ups@[i as int] is None
                && (forall|j: int| 0 <= j < i ==> self.power_ups@[j] is Some),
            r is None ==> forall|j: int|
                0 <= j < self.power_ups@.len() ==> self.power_ups@[j] is Some,
    {
        let mut i: usize = 0;
        while i < self.power_ups.len()
            invariant
                0 <= i <= self.power_ups@.len(),
                forall|j: int| 0 <= j < i ==> self.power_ups@[j] is Some,
            decreases self.power_ups@.len() - i,
        {
            if self.power_ups[i].is_none() {
                return Some(i);
            }
            i += 1;
        }
        None
    }

    /// Drafts a power-up into the first open slot; there must be one.
    pub fn grant_power_up(&mut self, p: PowerUp) -> (slot: usize)
        requires
            exists|j: int|
                0 <= j < old(self).power_ups@.len() && old(self).power_ups@[j] is None,
        ensures
            slot < old(self).power_ups@.len(),
            old(self).power_ups@[slot as int] is None,
            final(self).power_ups@ == old(self).power_ups@.update(slot as int, Some(p)),
            final(self).turn_move_count == old(self).turn_move_count,
            final(self).consecutive_empty_turns == old(self).consecutive_empty_turns,
            final(self).power_up_status == old(self).power_up_status,
    {
        let slot = match self.first_open_slot() {
            Some(i) => i,
            None => {
                proof {
                    assert(false);
                }
                0
            }
        };
        self.power_ups[slot] = Some(p);
        slot
    }
}

impl Default for PlayerData {
    /// A fresh player: no moves, no streak, empty slots, no statuses.
    fn default() -> (d: PlayerData)
        ensures
            d.turn_move_count == 0,
            d.consecutive_empty_turns == 0,
            d.power_ups@ =~= seq![None::<PowerUp>, None::<PowerUp>, None::<PowerUp>],
            d.power_up_status == (PowerUpStatus {
                evade_capture_turns: 0u8,
                jump_self_turns: 0u8,
                capture_nearest: false,
                home_run: false,
            }),
            player_data_wf(d),
    {
        let mut power_ups: Vec<Option<PowerUp>> = Vec::new();
        power_ups.push(None);
        power_ups.push(None);
        power_ups.push(None);
        assert(power_ups@ =~= seq![None::<PowerUp>, None::<PowerUp>, None::<PowerUp>]);
        PlayerData {
            turn_move_count: 0,
            consecutive_empty_turns: 0,
            power_ups,
            power_up_status: PowerUpStatus::default(),
        }
    }
}

/// Power accrual strictly rewards longer moves: with the same destination
/// class, a strictly longer path earns strictly more power.
pub proof fn lemma_power_increases_with_distance(index: int, d1: int, d2: int)
    requires
        0 <= d1 < d2,
    ensures
        spec_move_power_units(index, d1) < spec_move_power_units(index, d2),
{
}

/// A move of the same length is worth exactly twice the power when it ends
/// in the home row (or the center) rather than on the outer track.
pub proof fn lemma_power_doubles_in_home_row(outer: int, home: int, d: int)
    requires
        0 <= outer <= 47,
        FIRST_HOME_INDEX <= home <= CENTER_INDEX,
    ensures
        spec_move_power_units(home, d) == 2 * spec_move_power_units(outer, d),
{
}

} // verus!
