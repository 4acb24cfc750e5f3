//! Legal-move generation for the player on turn: dice-driven candidates from
//! the per-marble path rules, power-up-sourced candidates (home run and
//! capture nearest), and the move filter that removes self-collision,
//! self-jump and evasion-immunity violations.

use vstd::prelude::*;
use crate::board::{
    Player, CENTER_INDEX, BASE_INDEX, FIRST_HOME_INDEX, LAST_HOME_INDEX, CENTER_EXIT_INDEX,
    spec_shift_index, spec_is_same_index,
};
use crate::dice::{Dice, WhichDie, dice_wf};
use crate::marble::{Marble, marble_wf};
use crate::moves::{
    PathMove, cand_view, cands_view, tag_cands, seq_range, base_exit_paths, center_exit_paths,
    basic_paths, base_exit_rules, center_exit_rules, basic_rules, range_path,
};
use crate::power::PowerUpStatus;

verus! {

/// A legal move as exposed to callers: where the marble lands, how many
/// cells its path covers, and which die or dice it consumes.
#[derive(Debug, PartialEq, Eq, Structural, Clone, Copy)]
pub struct MarbleMove {
    pub destination: usize,
    pub distance: usize,
    pub which: WhichDie,
}

impl From<(usize, usize, WhichDie)> for MarbleMove {
    /// Packs a `(destination, distance, which)` triple.
    fn from(value: (usize, usize, WhichDie)) -> (r: MarbleMove) {
        MarbleMove { destination: value.0, distance: value.1, which: value.2 }
    }
}

impl vstd::std_specs::convert::FromSpecImpl<(usize, usize, WhichDie)> for MarbleMove {
    open spec fn obeys_from_spec() -> bool {
        true
    }

    open spec fn from_spec(t: (usize, usize, WhichDie)) -> MarbleMove {
        MarbleMove { destination: t.0, distance: t.1, which: t.2 }
    }
}

/// An opposing marble as the generator and filter see it: its position, its
/// owner, and whether its owner's evade-capture status protects it.
#[derive(Debug, PartialEq, Eq, Structural, Clone, Copy)]
pub struct OpponentMarble {
    pub marble: Marble,
    pub player: Player,
    pub evading: bool,
}

/// Abstract value of a list of marble-tagged legal moves.
pub open spec fn moves_view(s: Seq<(usize, MarbleMove)>) -> Seq<(int, MarbleMove)> {
    s.map_values(|p: (usize, MarbleMove)| (p.0 as int, p.1))
}

/// The legal move a surviving candidate path becomes: its last cell, its
/// length, and the dice it consumes.
pub open spec fn cand_to_move(c: (int, Seq<usize>, WhichDie)) -> (int, MarbleMove) {
    (c.0, MarbleMove { destination: c.1.last(), distance: c.1.len() as usize, which: c.2 })
}

// --- home run ---

/// Whether one of the player's own marbles sits at index `i`.
pub open spec fn own_occupies(own: Seq<Marble>, i: int) -> bool {
    exists|j: int| 0 <= j < own.len() && #[trigger] own[j].index == i
}

/// The home-row cells `48..48+n` not occupied by the player's own marbles,
/// ascending.
pub open spec fn opens_upto(own: Seq<Marble>, n: int) -> Seq<usize>
    decreases n,
{
    if n <= 0 {
        Seq::empty()
    } else {
        opens_upto(own, n - 1) + if own_occupies(own, FIRST_HOME_INDEX + n - 1) {
            Seq::empty()
        } else {
            seq![(FIRST_HOME_INDEX + n - 1) as usize]
        }
    }
}

/// One home-run candidate per open home cell for the given marble.
pub open spec fn home_run_for(mid: int, opens: Seq<usize>) -> Seq<(int, Seq<usize>, WhichDie)> {
    opens.map_values(|i: usize| (mid, seq![i], WhichDie::Neither))
}

/// Home-run candidates for the first `n` of the player's marbles: every
/// marble not already in the home row may move straight to any open home
/// cell.
pub open spec fn home_run_upto(own: Seq<Marble>, n: int) -> Seq<(int, Seq<usize>, WhichDie)>
    decreases n,
{
    if n <= 0 {
        Seq::empty()
    } else {
        home_run_upto(own, n - 1) + if FIRST_HOME_INDEX <= own[n - 1].index <= LAST_HOME_INDEX {
            Seq::empty()
        } else {
            home_run_for(n - 1, opens_upto(own, 5))
        }
    }
}

/// Appending a candidate and then taking the abstract view is the same as
/// appending its view.
proof fn lemma_cands_view_push(s: Seq<(usize, PathMove)>, x: (usize, PathMove))
    ensures
        cands_view(s.push(x)) == cands_view(s).push(cand_view(x)),
{
    assert(cands_view(s.push(x)) =~= cands_view(s).push(cand_view(x)));
}

/// One more open home cell adds one more home-run candidate.
proof fn lemma_home_run_for_push(mid: int, s: Seq<usize>, i: usize)
    ensures
        home_run_for(mid, s.push(i)) == home_run_for(mid, s).push((mid, seq![i], WhichDie::Neither)),
{
    assert(home_run_for(mid, s.push(i)) =~= home_run_for(mid, s).push(
        (mid, seq![i], WhichDie::Neither),
    ));
}

/// Whether one of the player's own marbles sits at index `i`.
fn own_at(own: &Vec<Marble>, i: usize) -> (r: bool)
    ensures
        r == own_occupies(own@, i as int),
{
    let mut j: usize = 0;
    while j < own.len()
        invariant
            0 <= j <= own@.len(),
            forall|k: int| 0 <= k < j ==> #[trigger] own@[k].index != i,
        decreases own@.len() - j,
    {
        if own[j].index == i {
            return true;
        }
        j += 1;
    }
    false
}

/// Appends the home-run candidates: for every marble of the player not
/// already home, one single-cell path to each open home cell.
pub fn home_run_moves(own: &Vec<Marble>, cands: &mut Vec<(usize, PathMove)>)
    ensures
        cands_view(final(cands)@) == cands_view(old(cands)@) + home_run_upto(own@, own@.len() as int),
{
    let mut opens: Vec<usize> = Vec::new();
    let mut k: usize = 0;
    assert(opens@ =~= opens_upto(own@, 0));
    while k < 5
        invariant
            0 <= k <= 5,
            opens@ == opens_upto(own@, k as int),
        decreases 5 - k,
    {
        if !own_at(own, FIRST_HOME_INDEX + k) {
            opens.push(FIRST_HOME_INDEX + k);
        }
        assert(opens@ =~= opens_upto(own@, k as int + 1));
        k += 1;
    }
    let ghost opens_full = opens@;
    assert(opens_full == opens_upto(own@, 5));

    let mut mid: usize = 0;
    while mid < own.len()
        invariant
            0 <= mid <= own@.len(),
            opens@ == opens_upto(own@, 5),
            cands_view(cands@) == cands_view(old(cands)@) + home_run_upto(own@, mid as int),
        decreases own@.len() - mid,
    {
        let idx = own[mid].index;
        if !(FIRST_HOME_INDEX <= idx && idx <= LAST_HOME_INDEX) {
            let mut j: usize = 0;
            while j < opens.len()
                invariant
                    0 <= j <= opens@.len(),
                    0 <= mid < own@.len(),
                    opens@ == opens_upto(own@, 5),
                    !(FIRST_HOME_INDEX <= own@[mid as int].index <= LAST_HOME_INDEX),
                    cands_view(cands@) == cands_view(old(cands)@) + home_run_upto(own@, mid as int)
                        + home_run_for(mid as int, opens@.take(j as int)),
                decreases opens@.len() - j,
            {
                let cell = opens[j];
                let mut path: Vec<usize> = Vec::new();
                path.push(cell);
                assert(path@ =~= seq![cell]);
                let pm = PathMove { path, which: WhichDie::Neither };
                proof {
                    lemma_cands_view_push(cands@, (mid, pm));
                    assert(opens@.take(j as int + 1) =~= opens@.take(j as int).push(cell));
                    lemma_home_run_for_push(mid as int, opens@.take(j as int), cell);
                    assert(cand_view((mid, pm)) == (mid as int, seq![cell], WhichDie::Neither));
                }
                cands.push((mid, pm));
                assert(cands_view(cands@) =~= cands_view(old(cands)@) + home_run_upto(
                    own@,
                    mid as int,
                ) + home_run_for(mid as int, opens@.take(j as int + 1)));
                j += 1;
            }
            assert(opens@.take(opens@.len() as int) =~= opens@);
            assert(home_run_upto(own@, mid as int + 1) =~~= home_run_upto(own@, mid as int)
                + home_run_for(mid as int, opens_upto(own@, 5)));
            assert(cands_view(cands@) =~~= cands_view(old(cands)@) + home_run_upto(
                own@,
                mid as int + 1,
            ));
        } else {
            assert(home_run_upto(own@, mid as int + 1) =~= home_run_upto(own@, mid as int));
        }
        mid += 1;
    }
}

// --- capture nearest ---

/// Whether an opposing marble can be a capture-nearest target at all: not
/// protected by evasion, not in its base, not in its home row.
pub open spec fn eligible_target(o: OpponentMarble) -> bool {
    !o.evading && o.marble.index != BASE_INDEX && !(FIRST_HOME_INDEX <= o.marble.index
        <= LAST_HOME_INDEX)
}

/// The opposing marble's position in the current player's frame.
pub open spec fn shifted_target(o: OpponentMarble, cur: Player) -> int {
    spec_shift_index(o.marble.index as int, o.player, cur)
}

/// Whether a shifted opponent position can be captured from local index
/// `mi`: it must lie ahead, and the center only counts if the marble can
/// still reach a center entrance.
pub open spec fn target_ok(t: int, mi: int) -> bool {
    t > mi && (t != CENTER_INDEX || mi <= 29)
}

/// Walking distance from local index `mi` to the shifted target `t`:
/// distance to the center goes through the next center entrance; positions
/// that cannot be reached are infinitely far.
pub open spec fn cn_dist(mi: int, t: int) -> int {
    if t == CENTER_INDEX {
        if 18 <= mi <= 29 {
            29 - mi + 1
        } else if 6 <= mi <= 17 {
            17 - mi + 1
        } else if 0 <= mi <= 5 {
            5 - mi + 1
        } else {
            usize::MAX as int
        }
    } else if mi == CENTER_INDEX {
        if CENTER_EXIT_INDEX <= t <= 47 {
            47 - t + 1
        } else {
            usize::MAX as int
        }
    } else {
        t - mi
    }
}

/// The nearest capturable shifted position among the first `n` opposing
/// marbles, ties going to the earliest.
pub open spec fn best_target_upto(
    opps: Seq<OpponentMarble>,
    cur: Player,
    mi: int,
    n: int,
) -> Option<int>
    decreases n,
{
    if n <= 0 {
        None
    } else {
        let prev = best_target_upto(opps, cur, mi, n - 1);
        let o = opps[n - 1];
        if eligible_target(o) && target_ok(shifted_target(o, cur), mi) {
            match prev {
                None => Some(shifted_target(o, cur)),
                Some(t) => if cn_dist(mi, shifted_target(o, cur)) < cn_dist(mi, t) {
                    Some(shifted_target(o, cur))
                } else {
                    Some(t)
                },
            }
        } else {
            prev
        }
    }
}

/// The center entrance ahead of local index `mi`.
pub open spec fn cn_entrance(mi: int) -> int {
    if 18 <= mi {
        29
    } else if 6 <= mi {
        17
    } else {
        5
    }
}

/// The path of a capture-nearest move from `mi` to target `t`: through the
/// next center entrance when the target is the center, straight ahead
/// otherwise.
pub open spec fn cn_path(mi: int, t: int) -> Seq<usize> {
    if t == CENTER_INDEX {
        seq_range(mi + 1, cn_entrance(mi)).push(CENTER_INDEX as usize)
    } else if mi == CENTER_INDEX {
        seq_range(CENTER_EXIT_INDEX as int, t)
    } else {
        seq_range(mi + 1, t)
    }
}

/// Capture-nearest candidates for the first `n` of the player's marbles:
/// each marble outside base and home row gets one move landing exactly on
/// the nearest capturable opponent, if there is one.
pub open spec fn capture_nearest_upto(
    own: Seq<Marble>,
    opps: Seq<OpponentMarble>,
    cur: Player,
    n: int,
) -> Seq<(int, Seq<usize>, WhichDie)>
    decreases n,
{
    if n <= 0 {
        Seq::empty()
    } else {
        capture_nearest_upto(own, opps, cur, n - 1) + {
            let mi = own[n - 1].index as int;
            if mi != BASE_INDEX && !(FIRST_HOME_INDEX <= mi <= LAST_HOME_INDEX) {
                match best_target_upto(opps, cur, mi, opps.len() as int) {
                    Some(t) => seq![(n - 1, cn_path(mi, t), WhichDie::Neither)],
                    None => Seq::empty(),
                }
            } else {
                Seq::empty()
            }
        }
    }
}

/// Walking distance from local index `mi` to a capturable shifted target.
fn capture_distance(mi: usize, t: usize) -> (d: usize)
    requires
        target_ok(t as int, mi as int),
        t <= CENTER_INDEX,
        mi <= BASE_INDEX,
    ensures
        d as int == cn_dist(mi as int, t as int),
{
    if t == CENTER_INDEX {
        if 18 <= mi && mi <= 29 {
            29 - mi + 1
        } else if 6 <= mi && mi <= 17 {
            17 - mi + 1
        } else {
            5 - mi + 1
        }
    } else if mi == CENTER_INDEX {
        if CENTER_EXIT_INDEX <= t && t <= 47 {
            47 - t + 1
        } else {
            usize::MAX
        }
    } else {
        t - mi
    }
}

/// The nearest capturable shifted position for a marble at `mi`, ties going
/// to the earliest opposing marble.
fn best_capture_target(opps: &Vec<OpponentMarble>, cur: Player, mi: usize) -> (r: Option<usize>)
    requires
        forall|j: int| 0 <= j < opps@.len() ==> marble_wf(#[trigger] opps@[j].marble),
        mi <= BASE_INDEX,
    ensures
        match r {
            Some(t) => best_target_upto(opps@, cur, mi as int, opps@.len() as int) == Some(
                t as int,
            ) && t <= CENTER_INDEX && target_ok(t as int, mi as int),
            None => best_target_upto(opps@, cur, mi as int, opps@.len() as int) is None,
        },
{
    let mut best: Option<usize> = None;
    let mut best_dist: usize = 0;
    let mut j: usize = 0;
    while j < opps.len()
        invariant
            0 <= j <= opps@.len(),
            mi <= BASE_INDEX,
            forall|k: int| 0 <= k < opps@.len() ==> marble_wf(#[trigger] opps@[k].marble),
            match best {
                Some(t) => best_target_upto(opps@, cur, mi as int, j as int) == Some(t as int)
                    && t <= CENTER_INDEX && target_ok(t as int, mi as int) && best_dist as int
                    == cn_dist(mi as int, t as int),
                None => best_target_upto(opps@, cur, mi as int, j as int) is None,
            },
        decreases opps@.len() - j,
    {
        let o = opps[j];
        let idx = o.marble.index;
        if !o.evading && idx != BASE_INDEX && !(FIRST_HOME_INDEX <= idx && idx <= LAST_HOME_INDEX) {
            let t = Player::shift_index(idx, o.player, cur);
            if t > mi && (t != CENTER_INDEX || mi <= 29) {
                let d = capture_distance(mi, t);
                match best {
                    None => {
                        best = Some(t);
                        best_dist = d;
                    }
                    Some(_) => {
                        if d < best_dist {
                            best = Some(t);
                            best_dist = d;
                        }
                    }
                }
            }
        }
        j += 1;
    }
    best
}

/// The path of a capture-nearest move from `mi` landing exactly on `t`.
fn capture_path(mi: usize, t: usize) -> (path: Vec<usize>)
    requires
        target_ok(t as int, mi as int),
        t <= CENTER_INDEX,
        mi <= BASE_INDEX,
        t == CENTER_INDEX ==> mi <= 29,
    ensures
        path@ == cn_path(mi as int, t as int),
{
    if t == CENTER_INDEX {
        let entrance: usize = if mi >= 18 {
            29
        } else if mi >= 6 {
            17
        } else {
            5
        };
        if mi < entrance {
            let mut path = range_path(mi + 1, entrance);
            path.push(CENTER_INDEX);
            path
        } else {
            let mut path: Vec<usize> = Vec::new();
            path.push(CENTER_INDEX);
            assert(path@ =~= seq_range(mi as int + 1, cn_entrance(mi as int)).push(CENTER_INDEX));
            path
        }
    } else if mi == CENTER_INDEX {
        range_path(CENTER_EXIT_INDEX, t)
    } else {
        range_path(mi + 1, t)
    }
}

/// Appends the capture-nearest candidates: one move per marble of the player
/// (outside base and home row) landing exactly on the nearest capturable
/// opponent.
pub fn capture_nearest_moves(
    own: &Vec<Marble>,
    opps: &Vec<OpponentMarble>,
    cur: Player,
    cands: &mut Vec<(usize, PathMove)>,
)
    requires
        forall|j: int| 0 <= j < own@.len() ==> marble_wf(#[trigger] own@[j]),
        forall|j: int| 0 <= j < opps@.len() ==> marble_wf(#[trigger] opps@[j].marble),
    ensures
        cands_view(final(cands)@) == cands_view(old(cands)@) + capture_nearest_upto(
            own@,
            opps@,
            cur,
            own@.len() as int,
        ),
{
    let mut mid: usize = 0;
    while mid < own.len()
        invariant
            0 <= mid <= own@.len(),
            forall|j: int| 0 <= j < own@.len() ==> marble_wf(#[trigger] own@[j]),
            forall|j: int| 0 <= j < opps@.len() ==> marble_wf(#[trigger] opps@[j].marble),
            cands_view(cands@) == cands_view(old(cands)@) + capture_nearest_upto(
                own@,
                opps@,
                cur,
                mid as int,
            ),
        decreases own@.len() - mid,
    {
        let mi = own[mid].index;
        if mi != BASE_INDEX && !(FIRST_HOME_INDEX <= mi && mi <= LAST_HOME_INDEX) {
            match best_capture_target(opps, cur, mi) {
                Some(t) => {
                    let path = capture_path(mi, t);
                    let pm = PathMove { path, which: WhichDie::Neither };
                    proof {
                        lemma_cands_view_push(cands@, (mid, pm));
                        assert(cand_view((mid, pm)) == (
                            mid as int,
                            cn_path(mi as int, t as int),
                            WhichDie::Neither,
                        ));
                    }
                    cands.push((mid, pm));
                    assert(cands_view(cands@) =~= cands_view(old(cands)@) + capture_nearest_upto(
                        own@,
                        opps@,
                        cur,
                        mid as int + 1,
                    ));
                }
                None => {
                    assert(capture_nearest_upto(own@, opps@, cur, mid as int + 1)
                        =~= capture_nearest_upto(own@, opps@, cur, mid as int));
                }
            }
        } else {
            assert(capture_nearest_upto(own@, opps@, cur, mid as int + 1) =~= capture_nearest_upto(
                own@,
                opps@,
                cur,
                mid as int,
            ));
        }
        mid += 1;
    }
}

// --- move filter ---

/// A cell an opposing marble can actually be met on: the shared outer track
/// or the center.
pub open spec fn board_cell(i: int) -> bool {
    0 <= i < FIRST_HOME_INDEX || i == CENTER_INDEX
}

/// Whether a candidate move for marble `mid` collides with another marble of
/// the same player: with self-jump active only the destination counts,
/// otherwise any cell of the path.
pub open spec fn self_violation(mid: int, p: Seq<usize>, own: Seq<Marble>, jump: bool) -> bool {
    if jump {
        exists|j: int| 0 <= j < own.len() && j != mid && #[trigger] own[j].index == p.last()
    } else {
        exists|j: int, k: int|
            0 <= j < own.len() && j != mid && 0 <= k < p.len() && #[trigger] own[j].index
                == #[trigger] p[k]
    }
}

/// Whether a move ending at `dest` would land on an opposing marble whose
/// owner has evade-capture active. Marbles in their base or home row cannot
/// be landed on, and a destination in the mover's own home row meets nobody.
pub open spec fn evade_violation(dest: int, opps: Seq<OpponentMarble>, cur: Player) -> bool {
    board_cell(dest) && exists|j: int|
        0 <= j < opps.len() && (#[trigger] opps[j]).evading && board_cell(
            opps[j].marble.index as int,
        ) && spec_is_same_index(cur, dest, opps[j].player, opps[j].marble.index as int)
}

/// Whether a candidate survives the move filter.
pub open spec fn keep_cand(
    c: (int, Seq<usize>, WhichDie),
    own: Seq<Marble>,
    jump: bool,
    opps: Seq<OpponentMarble>,
    cur: Player,
) -> bool {
    c.1.len() > 0 && !self_violation(c.0, c.1, own, jump) && !evade_violation(
        c.1.last() as int,
        opps,
        cur,
    )
}

/// The legal moves left after filtering the first `n` candidates.
pub open spec fn filtered_upto(
    cands: Seq<(int, Seq<usize>, WhichDie)>,
    own: Seq<Marble>,
    jump: bool,
    opps: Seq<OpponentMarble>,
    cur: Player,
    n: int,
) -> Seq<(int, MarbleMove)>
    decreases n,
{
    if n <= 0 {
        Seq::empty()
    } else {
        filtered_upto(cands, own, jump, opps, cur, n - 1) + if keep_cand(
            cands[n - 1],
            own,
            jump,
            opps,
            cur,
        ) {
            seq![cand_to_move(cands[n - 1])]
        } else {
            Seq::empty()
        }
    }
}

/// The first `n` candidates turned into legal moves without filtering, as a
/// home run bypasses the filter.
pub open spec fn moves_of_cands(cands: Seq<(int, Seq<usize>, WhichDie)>, n: int) -> Seq<
    (int, MarbleMove),
>
    decreases n,
{
    if n <= 0 {
        Seq::empty()
    } else {
        moves_of_cands(cands, n - 1) + if cands[n - 1].1.len() > 0 {
            seq![cand_to_move(cands[n - 1])]
        } else {
            Seq::empty()
        }
    }
}

/// Appending a legal move and then taking the abstract view is the same as
/// appending its view.
proof fn lemma_moves_view_push(s: Seq<(usize, MarbleMove)>, x: (usize, MarbleMove))
    ensures
        moves_view(s.push(x)) == moves_view(s).push((x.0 as int, x.1)),
{
    assert(moves_view(s.push(x)) =~= moves_view(s).push((x.0 as int, x.1)));
}

/// Whether another of the player's own marbles blocks this candidate move.
fn has_self_violation(mid: usize, path: &Vec<usize>, own: &Vec<Marble>, jump: bool) -> (r: bool)
    requires
        path@.len() > 0,
    ensures
        r == self_violation(mid as int, path@, own@, jump),
{
    if jump {
        let dest = path[path.len() - 1];
        let mut j: usize = 0;
        while j < own.len()
            invariant
                jump,
                0 <= j <= own@.len(),
                path@.len() > 0,
                dest == path@.last(),
                forall|j2: int| 0 <= j2 < j ==> !(j2 != mid as int && #[trigger] own@[j2].index == path@.last()),
            decreases own@.len() - j,
        {
            if j != mid && own[j].index == dest {
                assert(own@[j as int].index == path@.last());
                return true;
            }
            j += 1;
        }
        false
    } else {
        let mut j: usize = 0;
        while j < own.len()
            invariant
                !jump,
                0 <= j <= own@.len(),
                path@.len() > 0,
                forall|j2: int, k: int|
                    0 <= j2 < j && 0 <= k < path@.len() ==> !(j2 != mid as int
                        && #[trigger] own@[j2].index == #[trigger] path@[k]),
            decreases own@.len() - j,
        {
            if j != mid {
                let mut k: usize = 0;
                while k < path.len()
                    invariant
                        !jump,
                        0 <= k <= path@.len(),
                        0 <= j < own@.len(),
                        j != mid,
                        forall|k2: int| 0 <= k2 < k ==> #[trigger] own@[j as int].index != path@[k2],
                    decreases path@.len() - k,
                {
                    if own[j].index == path[k] {
                        assert(own@[j as int].index == path@[k as int]);
                        return true;
                    }
                    k += 1;
                }
            }
            j += 1;
        }
        false
    }
}

/// Whether the move's destination lands on an evade-protected opposing
/// marble.
fn has_evade_violation(dest: usize, opps: &Vec<OpponentMarble>, cur: Player) -> (r: bool)
    ensures
        r == evade_violation(dest as int, opps@, cur),
{
    if !(dest < FIRST_HOME_INDEX || dest == CENTER_INDEX) {
        return false;
    }
    let mut j: usize = 0;
    while j < opps.len()
        invariant
            0 <= j <= opps@.len(),
            dest < FIRST_HOME_INDEX || dest == CENTER_INDEX,
            forall|j2: int|
                0 <= j2 < j ==> !((#[trigger] opps@[j2]).evading && board_cell(
                    opps@[j2].marble.index as int,
                ) && spec_is_same_index(cur, dest as int, opps@[j2].player, opps@[j2].marble.index as int)),
        decreases opps@.len() - j,
    {
        let o = opps[j];
        let idx = o.marble.index;
        if o.evading && (idx < FIRST_HOME_INDEX || idx == CENTER_INDEX) {
            if Player::is_same_index(cur, dest, o.player, idx) {
                assert(opps@[j as int].evading);
                return true;
            }
        }
        j += 1;
    }
    false
}

/// Filters candidate moves against the board: removes self-collision and
/// self-jump violations and moves landing on evade-protected opponents, and
/// turns the survivors into legal moves.
pub fn filter_moves(
    cands: &Vec<(usize, PathMove)>,
    own: &Vec<Marble>,
    jump: bool,
    opps: &Vec<OpponentMarble>,
    cur: Player,
) -> (out: Vec<(usize, MarbleMove)>)
    ensures
        moves_view(out@) == filtered_upto(
            cands_view(cands@),
            own@,
            jump,
            opps@,
            cur,
            cands@.len() as int,
        ),
{
    let mut out: Vec<(usize, MarbleMove)> = Vec::new();
    let mut i: usize = 0;
    while i < cands.len()
        invariant
            0 <= i <= cands@.len(),
            moves_view(out@) == filtered_upto(
                cands_view(cands@),
                own@,
                jump,
                opps@,
                cur,
                i as int,
            ),
        decreases cands@.len() - i,
    {
        let c = &cands[i];
        let n = c.1.path.len();
        if n > 0 {
            let dest = c.1.path[n - 1];
            let sv = has_self_violation(c.0, &c.1.path, own, jump);
            let ev = has_evade_violation(dest, opps, cur);
            if !sv && !ev {
                let m = MarbleMove { destination: dest, distance: n, which: c.1.which };
                proof {
                    lemma_moves_view_push(out@, (c.0, m));
                    assert(cands_view(cands@)[i as int] == cand_view(cands@[i as int]));
                    assert(keep_cand(cands_view(cands@)[i as int], own@, jump, opps@, cur));
                }
                out.push((c.0, m));
                assert(moves_view(out@) =~= filtered_upto(
                    cands_view(cands@),
                    own@,
                    jump,
                    opps@,
                    cur,
                    i as int + 1,
                ));
            } else {
                proof {
                    assert(cands_view(cands@)[i as int] == cand_view(cands@[i as int]));
                    assert(!keep_cand(cands_view(cands@)[i as int], own@, jump, opps@, cur));
                }
                assert(moves_view(out@) =~= filtered_upto(
                    cands_view(cands@),
                    own@,
                    jump,
                    opps@,
                    cur,
                    i as int + 1,
                ));
            }
        } else {
            proof {
                assert(cands_view(cands@)[i as int] == cand_view(cands@[i as int]));
            }
            assert(moves_view(out@) =~= filtered_upto(
                cands_view(cands@),
                own@,
                jump,
                opps@,
                cur,
                i as int + 1,
            ));
        }
        i += 1;
    }
    out
}

// --- the full legal-move set ---

/// The dice-driven candidate paths of one marble: base exit from the base,
/// center exit from the center, basic advances otherwise.
pub open spec fn marble_dice_paths(d: Dice, m: Marble) -> Seq<(Seq<usize>, WhichDie)> {
    if m.index == BASE_INDEX {
        base_exit_paths(d)
    } else if m.index == CENTER_INDEX {
        center_exit_paths(d)
    } else {
        basic_paths(d, m.index as int)
    }
}

/// The dice-driven candidates of the first `n` marbles, in marble order.
pub open spec fn dice_cands_upto(d: Dice, own: Seq<Marble>, n: int) -> Seq<
    (int, Seq<usize>, WhichDie),
>
    decreases n,
{
    if n <= 0 {
        Seq::empty()
    } else {
        dice_cands_upto(d, own, n - 1) + tag_cands(n - 1, marble_dice_paths(d, own[n - 1]))
    }
}

/// The complete legal-move set of the player on turn. An armed home run
/// replaces everything else and bypasses the filter; otherwise the
/// capture-nearest candidates (if armed) and the dice-driven candidates are
/// generated and filtered.
pub open spec fn spec_calc_possible_moves(
    player: Player,
    own: Seq<Marble>,
    opps: Seq<OpponentMarble>,
    d: Dice,
    status: PowerUpStatus,
) -> Seq<(int, MarbleMove)> {
    if status.home_run {
        let cands = home_run_upto(own, own.len() as int);
        moves_of_cands(cands, cands.len() as int)
    } else {
        let cn = if status.capture_nearest {
            capture_nearest_upto(own, opps, player, own.len() as int)
        } else {
            Seq::empty()
        };
        let dice_cands = if !(d.one is None && d.two is None) {
            dice_cands_upto(d, own, own.len() as int)
        } else {
            Seq::empty()
        };
        let cands = cn + dice_cands;
        filtered_upto(cands, own, status.jump_self_turns > 0, opps, player, cands.len() as int)
    }
}

/// Well-formed candidates: each belongs to one of the player's `n` marbles
/// and each nonempty path ends on a board cell.
pub open spec fn cands_ok(s: Seq<(int, Seq<usize>, WhichDie)>, n: int) -> bool {
    forall|k: int|
        0 <= k < s.len() ==> 0 <= (#[trigger] s[k]).0 < n && (s[k].1.len() > 0 ==> s[k].1.last()
            <= CENTER_INDEX)
}

/// Well-formed legal moves: each belongs to one of the player's `n` marbles
/// and lands on a board cell.
pub open spec fn moves_ok(s: Seq<(int, MarbleMove)>, n: int) -> bool {
    forall|k: int|
        0 <= k < s.len() ==> 0 <= (#[trigger] s[k]).0 < n && s[k].1.destination <= CENTER_INDEX
}

/// A nonempty consecutive range ends at its upper bound.
proof fn lemma_seq_range_last(s: int, e: int)
    requires
        s <= e,
        0 <= e <= usize::MAX,
    ensures
        seq_range(s, e).len() > 0,
        seq_range(s, e).last() == e,
{
    assert(seq_range(s, e) == seq_range(s, e - 1).push(e as usize));
}

/// Every base-exit candidate path is nonempty and ends on a board cell.
proof fn lemma_base_exit_paths_ok(d: Dice)
    requires
        dice_wf(d),
    ensures
        forall|k: int|
            0 <= k < base_exit_paths(d).len() ==> (#[trigger] base_exit_paths(d)[k]).0.len() > 0
                && base_exit_paths(d)[k].0.last() <= CENTER_INDEX,
{
    match d.two {
        Some(t) => {
            assert(1 <= t as int * d.multiplier as int <= 12) by (nonlinear_arith)
                requires
                    1 <= t <= 6,
                    1 <= d.multiplier <= 2,
            ;
            lemma_seq_range_last(0, t as int * d.multiplier as int);
        }
        None => (),
    }
    match d.one {
        Some(o) => {
            assert(1 <= o as int * d.multiplier as int <= 12) by (nonlinear_arith)
                requires
                    1 <= o <= 6,
                    1 <= d.multiplier <= 2,
            ;
            lemma_seq_range_last(0, o as int * d.multiplier as int);
        }
        None => (),
    }
    lemma_seq_range_last(0, 5);
}

/// Every center-exit candidate path is nonempty and ends on a board cell.
proof fn lemma_center_exit_paths_ok(d: Dice)
    requires
        dice_wf(d),
    ensures
        forall|k: int|
            0 <= k < center_exit_paths(d).len() ==> (#[trigger] center_exit_paths(d)[k]).0.len()
                > 0 && center_exit_paths(d)[k].0.last() <= CENTER_INDEX,
{
    match d.two {
        Some(t) => {
            assert(1 <= t as int * d.multiplier as int <= 12) by (nonlinear_arith)
                requires
                    1 <= t <= 6,
                    1 <= d.multiplier <= 2,
            ;
            lemma_seq_range_last(
                CENTER_EXIT_INDEX as int,
                CENTER_EXIT_INDEX + t as int * d.multiplier as int,
            );
        }
        None => (),
    }
    match d.one {
        Some(o) => {
            assert(1 <= o as int * d.multiplier as int <= 12) by (nonlinear_arith)
                requires
                    1 <= o <= 6,
                    1 <= d.multiplier <= 2,
            ;
            lemma_seq_range_last(
                CENTER_EXIT_INDEX as int,
                CENTER_EXIT_INDEX + o as int * d.multiplier as int,
            );
        }
        None => (),
    }
}

/// Every kept basic-advance path is nonempty and ends on a board cell.
proof fn lemma_basic_paths_ok(d: Dice, i: int)
    requires
        dice_wf(d),
        0 <= i <= LAST_HOME_INDEX,
    ensures
        forall|k: int|
            0 <= k < basic_paths(d, i).len() ==> (#[trigger] basic_paths(d, i)[k]).0.len() > 0
                && basic_paths(d, i)[k].0.last() <= CENTER_INDEX,
{
}

/// The dice-driven candidates of the first `n` marbles are well formed.
proof fn lemma_dice_cands_ok(d: Dice, own: Seq<Marble>, n: int)
    requires
        dice_wf(d),
        forall|j: int| 0 <= j < own.len() ==> marble_wf(#[trigger] own[j]),
        0 <= n <= own.len(),
    ensures
        cands_ok(dice_cands_upto(d, own, n), n),
    decreases n,
{
    if n > 0 {
        lemma_dice_cands_ok(d, own, n - 1);
        let m = own[n - 1];
        if m.index == BASE_INDEX {
            lemma_base_exit_paths_ok(d);
        } else if m.index == CENTER_INDEX {
            lemma_center_exit_paths_ok(d);
        } else {
            lemma_basic_paths_ok(d, m.index as int);
        }
        assert(cands_ok(dice_cands_upto(d, own, n), n));
    }
}

/// The open home cells lie in the home row.
proof fn lemma_opens_bound(own: Seq<Marble>, n: int)
    requires
        0 <= n <= 5,
    ensures
        forall|k: int|
            0 <= k < opens_upto(own, n).len() ==> FIRST_HOME_INDEX <= #[trigger] opens_upto(
                own,
                n,
            )[k] <= LAST_HOME_INDEX,
    decreases n,
{
    if n > 0 {
        lemma_opens_bound(own, n - 1);
        assert forall|k: int| 0 <= k < opens_upto(own, n).len() implies FIRST_HOME_INDEX
            <= #[trigger] opens_upto(own, n)[k] <= LAST_HOME_INDEX by {
            if k < opens_upto(own, n - 1).len() {
                assert(opens_upto(own, n)[k] == opens_upto(own, n - 1)[k]);
            }
        }
    }
}

/// The home-run candidates of the first `n` marbles are well formed.
proof fn lemma_home_run_ok(own: Seq<Marble>, n: int)
    requires
        0 <= n <= own.len(),
    ensures
        cands_ok(home_run_upto(own, n), n),
    decreases n,
{
    if n > 0 {
        lemma_home_run_ok(own, n - 1);
        lemma_opens_bound(own, 5);
        assert(cands_ok(home_run_upto(own, n), n));
    }
}

/// Any nearest-capture target lies on the board.
proof fn lemma_best_target_bound(opps: Seq<OpponentMarble>, cur: Player, mi: int, n: int)
    requires
        forall|j: int| 0 <= j < opps.len() ==> marble_wf(#[trigger] opps[j].marble),
        0 <= n <= opps.len(),
    ensures
        best_target_upto(opps, cur, mi, n) matches Some(t) ==> mi < t <= CENTER_INDEX,
    decreases n,
{
    if n > 0 {
        lemma_best_target_bound(opps, cur, mi, n - 1);
        let o = opps[n - 1];
        if eligible_target(o) {
            vstd::arithmetic::div_mod::lemma_mod_pos_bound(
                o.marble.index + ((4 - crate::board::player_index(o.player)) % 4
                    + crate::board::player_index(cur)) * 36,
                48,
            );
        }
    }
}

/// The capture-nearest candidates of the first `n` marbles are well formed.
proof fn lemma_capture_nearest_ok(
    own: Seq<Marble>,
    opps: Seq<OpponentMarble>,
    cur: Player,
    n: int,
)
    requires
        forall|j: int| 0 <= j < own.len() ==> marble_wf(#[trigger] own[j]),
        forall|j: int| 0 <= j < opps.len() ==> marble_wf(#[trigger] opps[j].marble),
        0 <= n <= own.len(),
    ensures
        cands_ok(capture_nearest_upto(own, opps, cur, n), n),
    decreases n,
{
    if n > 0 {
        lemma_capture_nearest_ok(own, opps, cur, n - 1);
        let mi = own[n - 1].index as int;
        if mi != BASE_INDEX && !(FIRST_HOME_INDEX <= mi <= LAST_HOME_INDEX) {
            lemma_best_target_bound(opps, cur, mi, opps.len() as int);
            match best_target_upto(opps, cur, mi, opps.len() as int) {
                Some(t) => {
                    if t == CENTER_INDEX {
                    } else {
                        lemma_seq_range_last(mi + 1, t);
                        if mi == CENTER_INDEX {
                            lemma_seq_range_last(CENTER_EXIT_INDEX as int, t);
                        }
                    }
                }
                None => (),
            }
        }
        assert(cands_ok(capture_nearest_upto(own, opps, cur, n), n));
    }
}

/// Well-formed candidates filter into well-formed legal moves.
proof fn lemma_filtered_ok(
    cands: Seq<(int, Seq<usize>, WhichDie)>,
    own: Seq<Marble>,
    jump: bool,
    opps: Seq<OpponentMarble>,
    cur: Player,
    n: int,
    bound: int,
)
    requires
        cands_ok(cands, bound),
        0 <= n <= cands.len(),
    ensures
        moves_ok(filtered_upto(cands, own, jump, opps, cur, n), bound),
    decreases n,
{
    if n > 0 {
        lemma_filtered_ok(cands, own, jump, opps, cur, n - 1, bound);
        assert(cands_ok(cands, bound) && 0 <= n - 1 < cands.len());
        assert(0 <= cands[n - 1].0 < bound);
        assert forall|k: int| 0 <= k < filtered_upto(cands, own, jump, opps, cur, n).len()
            implies 0 <= (#[trigger] filtered_upto(cands, own, jump, opps, cur, n)[k]).0 < bound
            && filtered_upto(cands, own, jump, opps, cur, n)[k].1.destination <= CENTER_INDEX by {
            let prev = filtered_upto(cands, own, jump, opps, cur, n - 1);
            if k < prev.len() {
                assert(filtered_upto(cands, own, jump, opps, cur, n)[k] == prev[k]);
            }
        }
    }
}

/// Well-formed candidates convert into well-formed legal moves.
proof fn lemma_moves_of_cands_ok(cands: Seq<(int, Seq<usize>, WhichDie)>, n: int, bound: int)
    requires
        cands_ok(cands, bound),
        0 <= n <= cands.len(),
    ensures
        moves_ok(moves_of_cands(cands, n), bound),
    decreases n,
{
    if n > 0 {
        lemma_moves_of_cands_ok(cands, n - 1, bound);
        assert(0 <= cands[n - 1].0 < bound);
        assert forall|k: int| 0 <= k < moves_of_cands(cands, n).len() implies 0 <= (
        #[trigger] moves_of_cands(cands, n)[k]).0 < bound && moves_of_cands(cands, n)[k].1.destination
            <= CENTER_INDEX by {
            let prev = moves_of_cands(cands, n - 1);
            if k < prev.len() {
                assert(moves_of_cands(cands, n)[k] == prev[k]);
            }
        }
    }
}

/// The complete legal-move set is well formed: every move belongs to one of
/// the player's marbles and lands on a board cell.
pub proof fn lemma_calc_possible_moves_ok(
    player: Player,
    own: Seq<Marble>,
    opps: Seq<OpponentMarble>,
    d: Dice,
    status: PowerUpStatus,
)
    requires
        dice_wf(d),
        forall|j: int| 0 <= j < own.len() ==> marble_wf(#[trigger] own[j]),
        forall|j: int| 0 <= j < opps.len() ==> marble_wf(#[trigger] opps[j].marble),
    ensures
        moves_ok(spec_calc_possible_moves(player, own, opps, d, status), own.len() as int),
{
    if status.home_run {
        lemma_home_run_ok(own, own.len() as int);
        let cands = home_run_upto(own, own.len() as int);
        lemma_moves_of_cands_ok(cands, cands.len() as int, own.len() as int);
    } else {
        let cn = if status.capture_nearest {
            capture_nearest_upto(own, opps, player, own.len() as int)
        } else {
            Seq::empty()
        };
        let dice_cands = if !(d.one is None && d.two is None) {
            dice_cands_upto(d, own, own.len() as int)
        } else {
            Seq::empty()
        };
        if status.capture_nearest {
            lemma_capture_nearest_ok(own, opps, player, own.len() as int);
        }
        if !(d.one is None && d.two is None) {
            lemma_dice_cands_ok(d, own, own.len() as int);
        }
        let cands = cn + dice_cands;
        assert(cands_ok(cands, own.len() as int));
        lemma_filtered_ok(cands, own, status.jump_self_turns > 0, opps, player, cands.len() as int, own.len() as int);
    }
}

/// Computes the legal-move set of the player on turn from their marbles, the
/// opposing marbles, the dice, and their power-up status.
pub fn calc_possible_moves(
    player: Player,
    own: &Vec<Marble>,
    opponents: &Vec<OpponentMarble>,
    dice: &Dice,
    status: &PowerUpStatus,
) -> (moves: Vec<(usize, MarbleMove)>)
    requires
        dice_wf(*dice),
        forall|j: int| 0 <= j < own@.len() ==> marble_wf(#[trigger] own@[j]),
        forall|j: int| 0 <= j < opponents@.len() ==> marble_wf(#[trigger] opponents@[j].marble),
    ensures
        moves_view(moves@) == spec_calc_possible_moves(player, own@, opponents@, *dice, *status),
        moves_ok(moves_view(moves@), own@.len() as int),
{
    proof {
        lemma_calc_possible_moves_ok(player, own@, opponents@, *dice, *status);
    }
    if status.home_run {
        let mut cands: Vec<(usize, PathMove)> = Vec::new();
        home_run_moves(own, &mut cands);
        assert(cands_view(cands@) =~= home_run_upto(own@, own@.len() as int));
        let mut out: Vec<(usize, MarbleMove)> = Vec::new();
        let mut i: usize = 0;
        while i < cands.len()
            invariant
                0 <= i <= cands@.len(),
                cands_view(cands@) == home_run_upto(own@, own@.len() as int),
                moves_view(out@) == moves_of_cands(cands_view(cands@), i as int),
            decreases cands@.len() - i,
        {
            let c = &cands[i];
            let n = c.1.path.len();
            if n > 0 {
                let m = MarbleMove {
                    destination: c.1.path[n - 1],
                    distance: n,
                    which: c.1.which,
                };
                proof {
                    lemma_moves_view_push(out@, (c.0, m));
                    assert(cands_view(cands@)[i as int] == cand_view(cands@[i as int]));
                }
                out.push((c.0, m));
                assert(moves_view(out@) =~= moves_of_cands(cands_view(cands@), i as int + 1));
            } else {
                proof {
                    assert(cands_view(cands@)[i as int] == cand_view(cands@[i as int]));
                }
                assert(moves_view(out@) =~= moves_of_cands(cands_view(cands@), i as int + 1));
            }
            i += 1;
        }
        out
    } else {
        let mut cands: Vec<(usize, PathMove)> = Vec::new();
        if status.capture_nearest {
            capture_nearest_moves(own, opponents, player, &mut cands);
        }
        let ghost cn_part = cands_view(cands@);
        if !dice.is_empty() {
            let mut mid: usize = 0;
            while mid < own.len()
                invariant
                    0 <= mid <= own@.len(),
                    dice_wf(*dice),
                    !(dice.one is None && dice.two is None),
                    forall|j: int| 0 <= j < own@.len() ==> marble_wf(#[trigger] own@[j]),
                    cands_view(cands@) == cn_part + dice_cands_upto(*dice, own@, mid as int),
                decreases own@.len() - mid,
            {
                let m = own[mid];
                if m.index == BASE_INDEX {
                    base_exit_rules(dice, mid, &mut cands);
                } else if m.index == CENTER_INDEX {
                    center_exit_rules(dice, mid, &mut cands);
                } else {
                    basic_rules(dice, mid, &m, &mut cands);
                }
                assert(cands_view(cands@) =~= cn_part + dice_cands_upto(
                    *dice,
                    own@,
                    mid as int + 1,
                ));
                mid += 1;
            }
        }
        proof {
            if !(dice.one is None && dice.two is None) {
                assert(cands_view(cands@) =~= cn_part + dice_cands_upto(
                    *dice,
                    own@,
                    own@.len() as int,
                ));
            } else {
                assert(cands_view(cands@) =~= cn_part + Seq::<(int, Seq<usize>, WhichDie)>::empty());
            }
        }
        let jump = status.jump_self_turns > 0;
        let out = filter_moves(&cands, own, jump, opponents, player);
        out
    }
}

} // verus!
