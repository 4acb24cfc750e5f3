//! Per-marble legal-path generation from the dice: base exit, center exit,
//! and basic advances, with the home-row truncation rule.
//!
//! A candidate move is a path of consecutive local track indices ending at
//! the destination, tagged with the die or dice it consumes. Paths produced
//! here are later filtered against the other marbles on the board.

use vstd::prelude::*;
use crate::board::{CENTER_INDEX, CENTER_EXIT_INDEX, LAST_HOME_INDEX, FIRST_HOME_INDEX, START_INDEX};
use crate::dice::{Dice, WhichDie, dice_wf};
use crate::marble::Marble;

verus! {

/// One candidate move for a marble: the path it would travel (ending at the
/// destination) and the die or dice it consumes.
#[derive(Debug, Clone)]
pub struct PathMove {
    pub path: Vec<usize>,
    pub which: WhichDie,
}

/// Abstract value of a candidate move together with the marble it moves.
pub open spec fn cand_view(c: (usize, PathMove)) -> (int, Seq<usize>, WhichDie) {
    (c.0 as int, c.1.path@, c.1.which)
}

/// Abstract value of a list of marble-tagged candidate moves.
pub open spec fn cands_view(s: Seq<(usize, PathMove)>) -> Seq<(int, Seq<usize>, WhichDie)> {
    s.map_values(|c: (usize, PathMove)| cand_view(c))
}

/// Tags each candidate move with the marble it belongs to.
pub open spec fn tag_cands(mid: int, s: Seq<(Seq<usize>, WhichDie)>) -> Seq<
    (int, Seq<usize>, WhichDie),
> {
    s.map_values(|m: (Seq<usize>, WhichDie)| (mid, m.0, m.1))
}

/// The consecutive indices `s..=e`, empty when `s > e`.
pub open spec fn seq_range(s: int, e: int) -> Seq<usize>
    decreases e - s + 1,
{
    if s > e || e < 0 {
        Seq::empty()
    } else {
        seq_range(s, e - 1).push(e as usize)
    }
}

/// Whether a cell is one of the three center-entrance cells: a path moving
/// one past such a cell may enter the center instead.
pub open spec fn is_center_entrance(i: int) -> bool {
    i == 5 || i == 17 || i == 29
}

/// A basic-advance path is kept when its destination is a real board cell:
/// at or before the end of the home row, or the center itself provided the
/// marble did not start at the last home cell and the path does not pass
/// through the home row.
pub open spec fn keep_path(p: Seq<usize>, i: int) -> bool {
    p.len() > 0 && {
        let dest = p.last();
        ||| dest <= LAST_HOME_INDEX
        ||| (dest == CENTER_INDEX && i != LAST_HOME_INDEX && (forall|k: int|
            0 <= k < p.len() ==> !(FIRST_HOME_INDEX <= #[trigger] p[k] <= LAST_HOME_INDEX)))
    }
}

/// The given move alone when its path is kept, nothing otherwise.
pub open spec fn kept(m: (Seq<usize>, WhichDie), i: int) -> Seq<(Seq<usize>, WhichDie)> {
    if keep_path(m.0, i) {
        seq![m]
    } else {
        Seq::empty()
    }
}

/// Whether a die face permits leaving the base: only a literal face of 1 or
/// 6 exits, never a summed value.
pub open spec fn die_exits(f: Option<u8>) -> bool {
    f == Some(1u8) || f == Some(6u8)
}

/// The face times the dice multiplier, when the face is unconsumed.
pub open spec fn opt_times_m(f: Option<u8>, m: u8) -> Option<int> {
    match f {
        Some(v) => Some(v as int * m as int),
        None => None,
    }
}

/// An extension of a base exit: exit to the start cell, then advance `v`
/// with the other die.
pub open spec fn base_ext(v: int) -> (Seq<usize>, WhichDie) {
    (seq_range(0, v), WhichDie::Both)
}

/// A base exit that continues into the center: possible exactly when the
/// other die advances one past the first center entrance.
pub open spec fn base_center_ext() -> (Seq<usize>, WhichDie) {
    (seq_range(0, 5).push(CENTER_INDEX), WhichDie::Both)
}

/// The base-exit extension moves, in ascending path order.
pub open spec fn base_exit_extensions(d: Dice) -> Seq<(Seq<usize>, WhichDie)> {
    let va = if die_exits(d.one) {
        opt_times_m(d.two, d.multiplier)
    } else {
        None
    };
    let vb = if die_exits(d.two) {
        opt_times_m(d.one, d.multiplier)
    } else {
        None
    };
    match (va, vb) {
        (None, None) => Seq::empty(),
        (Some(v), None) => seq![base_ext(v)] + if v == 6 {
            seq![base_center_ext()]
        } else {
            Seq::empty()
        },
        (None, Some(v)) => seq![base_ext(v)] + if v == 6 {
            seq![base_center_ext()]
        } else {
            Seq::empty()
        },
        (Some(a), Some(b)) => {
            let plain = if a == b {
                seq![base_ext(a)]
            } else if a < b {
                seq![base_ext(a), base_ext(b)]
            } else {
                seq![base_ext(b), base_ext(a)]
            };
            plain + if a == 6 || b == 6 {
                seq![base_center_ext()]
            } else {
                Seq::empty()
            }
        }
    }
}

/// All candidate moves for a marble still in its base: an exit to the start
/// cell for each die showing a literal 1 or 6, and for each such exit an
/// optional extension by the other die, possibly into the center.
pub open spec fn base_exit_paths(d: Dice) -> Seq<(Seq<usize>, WhichDie)> {
    let exits = (if die_exits(d.one) {
        seq![(seq![START_INDEX], WhichDie::One)]
    } else {
        Seq::empty()
    }) + (if die_exits(d.two) {
        seq![(seq![START_INDEX], WhichDie::Two)]
    } else {
        Seq::empty()
    });
    exits + base_exit_extensions(d)
}

/// All candidate moves for a marble on the center cell: an exit to the
/// center-exit cell for each die showing a literal 1, optionally extended by
/// the other die.
pub open spec fn center_exit_paths(d: Dice) -> Seq<(Seq<usize>, WhichDie)> {
    let m = d.multiplier as int;
    match (d.one, d.two) {
        (Some(a), Some(b)) => {
            if a == 1 && b == 1 {
                seq![
                    (seq![CENTER_EXIT_INDEX], WhichDie::One),
                    (seq![CENTER_EXIT_INDEX], WhichDie::Two),
                    (seq![CENTER_EXIT_INDEX, (CENTER_EXIT_INDEX + m) as usize], WhichDie::Both),
                ]
            } else if a == 1 {
                seq![
                    (seq![CENTER_EXIT_INDEX], WhichDie::One),
                    (seq_range(CENTER_EXIT_INDEX as int, CENTER_EXIT_INDEX + b as int * m), WhichDie::Both),
                ]
            } else if b == 1 {
                seq![
                    (seq![CENTER_EXIT_INDEX], WhichDie::Two),
                    (seq_range(CENTER_EXIT_INDEX as int, CENTER_EXIT_INDEX + a as int * m), WhichDie::Both),
                ]
            } else {
                Seq::empty()
            }
        }
        (Some(a), None) => if a == 1 {
            seq![(seq![CENTER_EXIT_INDEX], WhichDie::One)]
        } else {
            Seq::empty()
        },
        (None, Some(b)) => if b == 1 {
            seq![(seq![CENTER_EXIT_INDEX], WhichDie::Two)]
        } else {
            Seq::empty()
        },
        (None, None) => Seq::empty(),
    }
}

/// All candidate basic-advance moves for a marble at outer-track or home-row
/// index `i`: one advance per usable die value (and their sum), each kept
/// only if the home-row truncation rule allows it, plus the center-entry
/// variant of the summed advance when it lands one past a center entrance.
pub open spec fn basic_paths(d: Dice, i: int) -> Seq<(Seq<usize>, WhichDie)> {
    let m = d.multiplier as int;
    match (d.one, d.two) {
        (Some(a), Some(b)) => {
            let p1 = (seq_range(i + 1, i + a as int * m), WhichDie::One);
            let p2 = (seq_range(i + 1, i + b as int * m), WhichDie::Two);
            let v = (a as int + b as int) * m;
            let pb = (seq_range(i + 1, i + v), WhichDie::Both);
            let firsts = if a <= b {
                kept(p1, i) + kept(p2, i)
            } else {
                kept(p2, i) + kept(p1, i)
            };
            let cb = if is_center_entrance(i + v - 1) {
                kept((seq_range(i, i + v - 1).push(CENTER_INDEX), WhichDie::Both), i)
            } else {
                Seq::empty()
            };
            firsts + kept(pb, i) + cb
        }
        (Some(a), None) => kept((seq_range(i + 1, i + a as int * m), WhichDie::One), i),
        (None, Some(b)) => kept((seq_range(i + 1, i + b as int * m), WhichDie::Two), i),
        (None, None) => Seq::empty(),
    }
}

/// A die value (or sum of the two faces) scaled by the dice multiplier.
fn times_multiplier(v: u8, m: u8) -> (r: usize)
    requires
        v <= 12,
        1 <= m <= 2,
    ensures
        r as int == v as int * m as int,
        v as usize <= r <= 24,
{
    if m == 2 {
        (v * 2) as usize
    } else {
        v as usize
    }
}

/// Builds the path of consecutive indices `s..=e`.
pub fn range_path(s: usize, e: usize) -> (v: Vec<usize>)
    requires
        s <= e,
        e < usize::MAX,
    ensures
        v@ == seq_range(s as int, e as int),
        v@.len() == e - s + 1,
        forall|k: int| 0 <= k < v@.len() ==> #[trigger] v@[k] == s + k,
{
    let mut v: Vec<usize> = Vec::new();
    let mut i = s;
    assert(v@ =~= seq_range(s as int, s as int - 1));
    while i <= e
        invariant
            s <= i <= e + 1,
            e < usize::MAX,
            v@ == seq_range(s as int, i as int - 1),
            v@.len() == i - s,
            forall|k: int| 0 <= k < v@.len() ==> #[trigger] v@[k] == s + k,
        decreases e + 1 - i,
    {
        v.push(i);
        assert(v@ =~= seq_range(s as int, i as int));
        i += 1;
    }
    v
}

/// The path from `start` into the center, when `end` is one past a
/// center-entrance cell: the cells `start..=end-1` and then the center. The
/// center can only be entered on an exact roll, so the path exists only for
/// the matching `end`.
pub fn enter_center_path(start: usize, end: usize) -> (r: Option<Vec<usize>>)
    requires
        1 <= end < usize::MAX,
        start < end,
    ensures
        r is Some <==> is_center_entrance(end - 1),
        r matches Some(v) ==> v@ == seq_range(start as int, end - 1).push(CENTER_INDEX),
{
    if end - 1 == 5 || end - 1 == 17 || end - 1 == 29 {
        let mut path = range_path(start, end - 1);
        path.push(CENTER_INDEX);
        Some(path)
    } else {
        None
    }
}

/// Builds the single-cell path `[i]`.
fn single_path(i: usize) -> (v: Vec<usize>)
    ensures
        v@ == seq![i],
{
    let mut v: Vec<usize> = Vec::new();
    v.push(i);
    assert(v@ =~= seq![i]);
    v
}

/// Whether a basic-advance path may be kept: its destination must be a real
/// board cell under the home-row truncation rule.
fn path_allowed(path: &Vec<usize>, i: usize) -> (r: bool)
    requires
        path@.len() > 0,
    ensures
        r == keep_path(path@, i as int),
{
    let dest = path[path.len() - 1];
    if dest <= LAST_HOME_INDEX {
        return true;
    }
    if dest != CENTER_INDEX || i == LAST_HOME_INDEX {
        return false;
    }
    let mut k: usize = 0;
    while k < path.len()
        invariant
            0 <= k <= path@.len(),
            path@.len() > 0,
            path@.last() == CENTER_INDEX,
            i != LAST_HOME_INDEX,
            forall|j: int| 0 <= j < k ==> !(FIRST_HOME_INDEX <= #[trigger] path@[j] <= LAST_HOME_INDEX),
        decreases path@.len() - k,
    {
        let c = path[k];
        if FIRST_HOME_INDEX <= c && c <= LAST_HOME_INDEX {
            assert(FIRST_HOME_INDEX <= path@[k as int] <= LAST_HOME_INDEX);
            return false;
        }
        k += 1;
    }
    true
}

/// Candidate moves for a marble still in its base, in ascending path order:
/// an exit for each die showing a literal 1 or 6, plus the optional
/// extensions by the respective other die.
pub fn base_exit_rules(dice: &Dice, marble_id: usize, possible_moves: &mut Vec<(usize, PathMove)>)
    requires
        dice_wf(*dice),
    ensures
        cands_view(final(possible_moves)@) == cands_view(old(possible_moves)@) + tag_cands(
            marble_id as int,
            base_exit_paths(*dice),
        ),
{
    let out = possible_moves;
    let exit1 = dice.one == Some(1) || dice.one == Some(6);
    let exit2 = dice.two == Some(1) || dice.two == Some(6);
    if exit1 {
        out.push((marble_id, PathMove { path: single_path(START_INDEX), which: WhichDie::One }));
    }
    if exit2 {
        out.push((marble_id, PathMove { path: single_path(START_INDEX), which: WhichDie::Two }));
    }
    let va: Option<usize> = if exit1 {
        match dice.two {
            Some(t) => Some(times_multiplier(t, dice.multiplier)),
            None => None,
        }
    } else {
        None
    };
    let vb: Option<usize> = if exit2 {
        match dice.one {
            Some(o) => Some(times_multiplier(o, dice.multiplier)),
            None => None,
        }
    } else {
        None
    };
    let mut center = false;
    match (va, vb) {
        (Some(a), Some(b)) => {
            let lo = if a <= b { a } else { b };
            let hi = if a <= b { b } else { a };
            out.push((marble_id, PathMove { path: range_path(0, lo), which: WhichDie::Both }));
            if lo != hi {
                out.push((marble_id, PathMove { path: range_path(0, hi), which: WhichDie::Both }));
            }
            center = a == 6 || b == 6;
        }
        (Some(v), None) | (None, Some(v)) => {
            out.push((marble_id, PathMove { path: range_path(0, v), which: WhichDie::Both }));
            center = v == 6;
        }
        (None, None) => {}
    }
    if center {
        let mut path = range_path(0, 5);
        path.push(CENTER_INDEX);
        out.push((marble_id, PathMove { path, which: WhichDie::Both }));
    }
    assert(cands_view(out@) =~~= cands_view(old(possible_moves)@) + tag_cands(
        marble_id as int,
        base_exit_paths(*dice),
    ));
}

/// Candidate moves for a marble on the center cell, in ascending path order:
/// an exit to the center-exit cell for each die showing a literal 1,
/// optionally extended by the other die.
pub fn center_exit_rules(dice: &Dice, marble_id: usize, possible_moves: &mut Vec<(usize, PathMove)>)
    requires
        dice_wf(*dice),
    ensures
        cands_view(final(possible_moves)@) == cands_view(old(possible_moves)@) + tag_cands(
            marble_id as int,
            center_exit_paths(*dice),
        ),
{
    let out = possible_moves;
    match (dice.one, dice.two) {
        (Some(1), Some(1)) => {
            out.push((marble_id, PathMove { path: single_path(CENTER_EXIT_INDEX), which: WhichDie::One }));
            out.push((marble_id, PathMove { path: single_path(CENTER_EXIT_INDEX), which: WhichDie::Two }));
            let mut path = single_path(CENTER_EXIT_INDEX);
            path.push(CENTER_EXIT_INDEX + dice.multiplier as usize);
            out.push((marble_id, PathMove { path, which: WhichDie::Both }));
        }
        (Some(1), Some(d2)) => {
            out.push((marble_id, PathMove { path: single_path(CENTER_EXIT_INDEX), which: WhichDie::One }));
            out.push((marble_id, PathMove {
                path: range_path(CENTER_EXIT_INDEX, CENTER_EXIT_INDEX + times_multiplier(d2, dice.multiplier)),
                which: WhichDie::Both,
            }));
        }
        (Some(d1), Some(1)) => {
            out.push((marble_id, PathMove { path: single_path(CENTER_EXIT_INDEX), which: WhichDie::Two }));
            out.push((marble_id, PathMove {
                path: range_path(CENTER_EXIT_INDEX, CENTER_EXIT_INDEX + times_multiplier(d1, dice.multiplier)),
                which: WhichDie::Both,
            }));
        }
        (Some(1), None) => {
            out.push((marble_id, PathMove { path: single_path(CENTER_EXIT_INDEX), which: WhichDie::One }));
        }
        (None, Some(1)) => {
            out.push((marble_id, PathMove { path: single_path(CENTER_EXIT_INDEX), which: WhichDie::Two }));
        }
        _ => {}
    }
    assert(cands_view(out@) =~~= cands_view(old(possible_moves)@) + tag_cands(
        marble_id as int,
        center_exit_paths(*dice),
    ));
}

/// Candidate basic-advance moves for a marble at outer-track or home-row
/// index `marble.index`, in ascending path order: one advance per usable die
/// value and their sum, truncated at the home row, plus the center-entry
/// variant of the summed advance when it lands one past a center entrance.
pub fn basic_rules(
    dice: &Dice,
    marble_id: usize,
    marble: &Marble,
    possible_moves: &mut Vec<(usize, PathMove)>,
)
    requires
        dice_wf(*dice),
        !(dice.one is None && dice.two is None),
        marble.index <= LAST_HOME_INDEX,
    ensures
        cands_view(final(possible_moves)@) == cands_view(old(possible_moves)@) + tag_cands(
            marble_id as int,
            basic_paths(*dice, marble.index as int),
        ),
{
    let out = possible_moves;
    let i = marble.index;
    match (dice.one, dice.two) {
        (Some(d1), Some(d2)) => {
            let path1 = range_path(i + 1, i + times_multiplier(d1, dice.multiplier));
            let path2 = range_path(i + 1, i + times_multiplier(d2, dice.multiplier));
            let v = times_multiplier(d1 + d2, dice.multiplier);
            let pathb = range_path(i + 1, i + v);
            if d1 <= d2 {
                if path_allowed(&path1, i) {
                    out.push((marble_id, PathMove { path: path1, which: WhichDie::One }));
                }
                if path_allowed(&path2, i) {
                    out.push((marble_id, PathMove { path: path2, which: WhichDie::Two }));
                }
            } else {
                if path_allowed(&path2, i) {
                    out.push((marble_id, PathMove { path: path2, which: WhichDie::Two }));
                }
                if path_allowed(&path1, i) {
                    out.push((marble_id, PathMove { path: path1, which: WhichDie::One }));
                }
            }
            if path_allowed(&pathb, i) {
                out.push((marble_id, PathMove { path: pathb, which: WhichDie::Both }));
            }
            if let Some(center_path) = enter_center_path(i, i + v) {
                if path_allowed(&center_path, i) {
                    out.push((marble_id, PathMove { path: center_path, which: WhichDie::Both }));
                }
            }
        }
        (Some(d1), None) => {
            let path1 = range_path(i + 1, i + times_multiplier(d1, dice.multiplier));
            if path_allowed(&path1, i) {
                out.push((marble_id, PathMove { path: path1, which: WhichDie::One }));
            }
        }
        (None, Some(d2)) => {
            let path2 = range_path(i + 1, i + times_multiplier(d2, dice.multiplier));
            if path_allowed(&path2, i) {
                out.push((marble_id, PathMove { path: path2, which: WhichDie::Two }));
            }
        }
        (None, None) => {
            proof {
                assert(false);
            }
        }
    }
    assert(cands_view(out@) =~~= cands_view(old(possible_moves)@) + tag_cands(
        marble_id as int,
        basic_paths(*dice, marble.index as int),
    ));
}

} // verus!
