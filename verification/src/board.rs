//! Board model: track indices, the four players, per-player rotation, and the
//! shifted-index equivalence used to compare positions across players' frames.
//!
//! A marble's position is a *local* track index: `0..=47` is the shared outer
//! track in the player's own frame, `48..=52` the player's private home row,
//! `53` the shared center cell, and `54` the base (not yet entered).

use vstd::prelude::*;

verus! {

/// First cell of the outer track; where a marble lands when it exits base.
pub const START_INDEX: usize = 0;
/// The shared center shortcut cell.
pub const CENTER_INDEX: usize = 53;
/// First cell of a player's home row.
pub const FIRST_HOME_INDEX: usize = 48;
/// Last cell of a player's home row.
pub const LAST_HOME_INDEX: usize = 52;
/// The cell a marble lands on when it leaves the center.
pub const CENTER_EXIT_INDEX: usize = 41;
/// Sentinel index for a marble still in (or sent back to) its base.
pub const BASE_INDEX: usize = 54;

/// The four players, in fixed clockwise turn order.
#[derive(Debug, PartialEq, Eq, Structural, Hash, Clone, Copy)]
pub enum Player {
    Red,
    Green,
    Blue,
    Yellow,
}

/// Position of a player in the fixed turn order, `0..=3`.
pub open spec fn player_index(p: Player) -> int {
    match p {
        Player::Red => 0,
        Player::Green => 1,
        Player::Blue => 2,
        Player::Yellow => 3,
    }
}

/// True of the indices on which frame shifting is defined: the outer track,
/// the center, and the base; home-row indices are private to a player and
/// have no meaning in another player's frame.
pub open spec fn valid_shift_index(i: int) -> bool {
    0 <= i <= BASE_INDEX && !(FIRST_HOME_INDEX <= i <= LAST_HOME_INDEX)
}

/// The local index of player `to` for the cell that player `from` calls `i`:
/// identity on the center and the base, a quarter-turn rotation of the
/// 48-cell outer track otherwise.
pub open spec fn spec_shift_index(i: int, from: Player, to: Player) -> int {
    if i == CENTER_INDEX || i == BASE_INDEX {
        i
    } else {
        (i + ((4 - player_index(from)) % 4 + player_index(to)) * 36) % 48
    }
}

/// Whether player `p1`'s index `i1` and player `p2`'s index `i2` denote the
/// same cell of the shared board.
pub open spec fn spec_is_same_index(p1: Player, i1: int, p2: Player, i2: int) -> bool {
    if i1 == CENTER_INDEX && i2 == CENTER_INDEX {
        true
    } else if i1 == CENTER_INDEX || i2 == CENTER_INDEX {
        false
    } else {
        spec_shift_index(i1, p1, p2) == i2
    }
}

/// Local board coordinate of track index `i` (column, row), before rotation
/// into a player's world frame.
pub open spec fn spec_board_coord(i: int) -> (int, int) {
    if i <= 4 {
        (-6 + i, 1)
    } else if i == 5 {
        (-1, 1)
    } else if i <= 10 {
        (-1, i - 4)
    } else if i == 11 {
        (0, 6)
    } else if i <= 16 {
        (1, 18 - i)
    } else if i == 17 {
        (1, 1)
    } else if i <= 22 {
        (i - 16, 1)
    } else if i == 23 {
        (6, 0)
    } else if i <= 28 {
        (30 - i, -1)
    } else if i == 29 {
        (1, -1)
    } else if i <= 34 {
        (1, 28 - i)
    } else if i == 35 {
        (0, -6)
    } else if i <= 40 {
        (-1, i - 42)
    } else if i == 41 {
        (-1, -1)
    } else if i <= 46 {
        (40 - i, -1)
    } else if i == 47 {
        (-6, 0)
    } else if i <= 52 {
        (i - 53, 0)
    } else {
        (0, 0)
    }
}

/// Board coordinate (column, row) of track index `i` in the local frame.
pub fn board_coord(i: usize) -> (r: (i32, i32))
    requires
        i <= CENTER_INDEX,
    ensures
        (r.0 as int, r.1 as int) == spec_board_coord(i as int),
{
    if i <= 4 {
        (-6 + i as i32, 1)
    } else if i == 5 {
        (-1, 1)
    } else if i <= 10 {
        (-1, i as i32 - 4)
    } else if i == 11 {
        (0, 6)
    } else if i <= 16 {
        (1, 18 - i as i32)
    } else if i == 17 {
        (1, 1)
    } else if i <= 22 {
        (i as i32 - 16, 1)
    } else if i == 23 {
        (6, 0)
    } else if i <= 28 {
        (30 - i as i32, -1)
    } else if i == 29 {
        (1, -1)
    } else if i <= 34 {
        (1, 28 - i as i32)
    } else if i == 35 {
        (0, -6)
    } else if i <= 40 {
        (-1, i as i32 - 42)
    } else if i == 41 {
        (-1, -1)
    } else if i <= 46 {
        (40 - i as i32, -1)
    } else if i == 47 {
        (-6, 0)
    } else if i <= 52 {
        (i as i32 - 53, 0)
    } else {
        (0, 0)
    }
}

/// Rotation of a local board coordinate into a player's world frame: each
/// player's quadrant is a successive 90-degree turn, with red the identity.
pub open spec fn spec_rotate_coords(p: Player, coords: (int, int)) -> (int, int) {
    match p {
        Player::Red => coords,
        Player::Green => (coords.1, -coords.0),
        Player::Blue => (-coords.0, -coords.1),
        Player::Yellow => (-coords.1, coords.0),
    }
}

impl Player {
    /// Position of this player in the fixed turn order, `0..=3`.
    pub fn ordinal(self) -> (n: u8)
        ensures
            n as int == player_index(self),
    {
        match self {
            Player::Red => 0,
            Player::Green => 1,
            Player::Blue => 2,
            Player::Yellow => 3,
        }
    }

    /// The player with the given position in the fixed turn order.
    pub fn from_index(x: u8) -> (p: Player)
        requires
            x < 4,
        ensures
            player_index(p) == x as int,
    {
        if x == 0 {
            Player::Red
        } else if x == 1 {
            Player::Green
        } else if x == 2 {
            Player::Blue
        } else {
            Player::Yellow
        }
    }

    /// The player whose turn follows this one, clockwise.
    pub fn next(self) -> (p: Player)
        ensures
            player_index(p) == (player_index(self) + 1) % 4,
    {
        match self {
            Player::Red => Player::Green,
            Player::Green => Player::Blue,
            Player::Blue => Player::Yellow,
            Player::Yellow => Player::Red,
        }
    }

    /// Rotates a local board coordinate into this player's world frame.
    pub fn rotate_coords(&self, coords: (i32, i32)) -> (r: (i32, i32))
        requires
            coords.0 > i32::MIN,
            coords.1 > i32::MIN,
        ensures
            (r.0 as int, r.1 as int) == spec_rotate_coords(*self, (coords.0 as int, coords.1 as int)),
    {
        match self {
            Player::Red => coords,
            Player::Green => (coords.1, -coords.0),
            Player::Blue => (-coords.0, -coords.1),
            Player::Yellow => (-coords.1, coords.0),
        }
    }

    /// Shifts a local track index of the `from` player to the index the `to`
    /// player uses for the same cell. Identity on the center and the base;
    /// not defined for home-row indices, which callers must exclude.
    pub fn shift_index(i: usize, from: Player, to: Player) -> (r: usize)
        requires
            valid_shift_index(i as int),
        ensures
            r as int == spec_shift_index(i as int, from, to),
            valid_shift_index(r as int),
            i < FIRST_HOME_INDEX ==> r < FIRST_HOME_INDEX,
            i == CENTER_INDEX || i == BASE_INDEX ==> r == i,
    {
        if i == CENTER_INDEX {
            return CENTER_INDEX;
        }
        if i == BASE_INDEX {
            return BASE_INDEX;
        }
        let rotations = (4 - Self::ordinal(from) as usize) % 4;
        (i + (rotations + Self::ordinal(to) as usize) * 36) % 48
    }

    /// Whether player `p1`'s index `i1` and player `p2`'s index `i2` denote
    /// the same cell of the shared board.
    pub fn is_same_index(p1: Player, i1: usize, p2: Player, i2: usize) -> (r: bool)
        requires
            valid_shift_index(i1 as int),
            valid_shift_index(i2 as int),
        ensures
            r == spec_is_same_index(p1, i1 as int, p2, i2 as int),
    {
        if i1 == CENTER_INDEX && i2 == CENTER_INDEX {
            return true;
        }
        if i1 == CENTER_INDEX || i2 == CENTER_INDEX {
            return false;
        }
        Self::shift_index(i1, p1, p2) == i2
    }
}

/// Adding `c1` modulo 48 and then `c2` modulo 48 is the identity on `0..48`
/// whenever `c1 + c2` is a multiple of 48.
proof fn lemma_mod48_round(i: int, c1: int, c2: int)
    requires
        0 <= i < 48,
        0 <= c1,
        0 <= c2,
        (c1 + c2) % 48 == 0,
    ensures
        ((i + c1) % 48 + c2) % 48 == i,
{
    let r = (i + c1) % 48;
    vstd::arithmetic::div_mod::lemma_add_mod_noop(i + c1, c2, 48);
    vstd::arithmetic::div_mod::lemma_add_mod_noop(r, c2, 48);
    vstd::arithmetic::div_mod::lemma_mod_twice(i + c1, 48);
    assert((r + c2) % 48 == (i + c1 + c2) % 48);
    vstd::arithmetic::div_mod::lemma_fundamental_div_mod(c1 + c2, 48);
    let q = (c1 + c2) / 48;
    vstd::arithmetic::div_mod::lemma_mod_multiples_vanish(q, i, 48);
    vstd::arithmetic::div_mod::lemma_small_mod(i as nat, 48);
}

/// Shifting an outer-track index into another player's frame and back returns
/// the original index, and the shifted index denotes the same cell: two
/// players agree on which cell a marble occupies.
pub proof fn lemma_shift_index_round_trip(p1: Player, p2: Player, i: int)
    requires
        p1 != p2,
        0 <= i < 48,
    ensures
        spec_is_same_index(p1, i, p2, spec_shift_index(i, p1, p2)),
        spec_shift_index(spec_shift_index(i, p1, p2), p2, p1) == i,
{
    let k1 = ((4 - player_index(p1)) % 4 + player_index(p2)) * 36;
    let k2 = ((4 - player_index(p2)) % 4 + player_index(p1)) * 36;
    assert((k1 + k2) % 48 == 0) by {
        match (p1, p2) {
            (Player::Red, Player::Green) => {}
            (Player::Red, Player::Blue) => {}
            (Player::Red, Player::Yellow) => {}
            (Player::Green, Player::Red) => {}
            (Player::Green, Player::Blue) => {}
            (Player::Green, Player::Yellow) => {}
            (Player::Blue, Player::Red) => {}
            (Player::Blue, Player::Green) => {}
            (Player::Blue, Player::Yellow) => {}
            (Player::Yellow, Player::Red) => {}
            (Player::Yellow, Player::Green) => {}
            (Player::Yellow, Player::Blue) => {}
            _ => { assert(false); }
        }
    }
    let r = (i + k1) % 48;
    vstd::arithmetic::div_mod::lemma_mod_pos_bound(i + k1, 48);
    assert(0 <= r < 48);
    lemma_mod48_round(i, k1, k2);
}

/// The shifted-index equivalence test is symmetric: if `p1`'s `i1` and `p2`'s
/// `i2` denote the same cell, then so do `p2`'s `i2` and `p1`'s `i1`.
pub proof fn lemma_is_same_index_symmetric(p1: Player, i1: int, p2: Player, i2: int)
    requires
        valid_shift_index(i1),
        valid_shift_index(i2),
    ensures
        spec_is_same_index(p1, i1, p2, i2) == spec_is_same_index(p2, i2, p1, i1),
{
    if i1 != CENTER_INDEX && i2 != CENTER_INDEX {
        if i1 == BASE_INDEX || i2 == BASE_INDEX {
        } else {
            if p1 == p2 {
                let k = ((4 - player_index(p1)) % 4 + player_index(p1)) * 36;
                assert((i1 + k) % 48 == i1);
                assert((i2 + k) % 48 == i2);
            } else {
                lemma_shift_index_round_trip(p1, p2, i1);
                lemma_shift_index_round_trip(p2, p1, i2);
            }
        }
    }
}

} // verus!
