//! The turn-phase state machine: per-turn state, per-player progress, and the
//! engine that sequences dice rolls, move generation, move execution, capture
//! resolution, the power economy, and win detection across the four players.

use vstd::prelude::*;
use crate::board::{
    Player, player_index, CENTER_INDEX, BASE_INDEX, FIRST_HOME_INDEX, LAST_HOME_INDEX,
    spec_is_same_index,
};
use crate::dice::{Dice, dice_wf, spec_use_die};
use crate::marble::{Marble, marble_wf};
use crate::generator::{
    MarbleMove, OpponentMarble, moves_view, calc_possible_moves, spec_calc_possible_moves,
};
use crate::power::{
    PowerUp, PowerChange, PowerUpStatus, PowerBar, PlayerData, player_data_wf, bar_wf,
    spec_bar_update, spec_tick_status, move_power_units, move_accrual_ok, spec_move_power_units,
    spec_move_distance, CAPTURE_POWER_UNITS, MAX_POWER_UPS,
};
use crate::rng::{roll_die, sample_below, sample_weighted};

verus! {

/// The phases of the game, in the order the state machine visits them.
#[derive(Debug, PartialEq, Eq, Structural, Clone, Copy, Hash, Default)]
pub enum GameState {
    #[default]
    MainMenu,
    GameStart,
    ChooseColor,
    NextPlayer,
    DiceRoll,
    TurnSetup,
    ComputerTurn,
    HumanTurn,
    WaitForAnimation,
    ProcessMove,
    EndTurn,
    GameEnd,
}

/// Transient per-turn state: the player on turn, their legal moves (each a
/// marble slot `0..5` of that player with the move), the selection, and the
/// marble that was just moved.
#[derive(Debug)]
pub struct CurrentPlayerData {
    pub player: Player,
    pub possible_moves: Vec<(usize, MarbleMove)>,
    pub selected_move: Option<MarbleMove>,
    pub selected_marble: Option<usize>,
    pub moved_marble: Option<usize>,
}

/// A selected move always belongs to a selected marble, and marble slots stay
/// below the five marbles a player owns.
pub open spec fn cpd_wf(c: CurrentPlayerData) -> bool {
    &&& c.selected_marble matches Some(m) ==> m < 5
    &&& c.moved_marble matches Some(m) ==> m < 5
    &&& forall|i: int| 0 <= i < c.possible_moves@.len() ==> (#[trigger] c.possible_moves@[i]).0 < 5
}

/// The moves of one marble, in order, among the player's legal moves.
pub open spec fn moves_for_upto(s: Seq<(usize, MarbleMove)>, mid: int, n: int) -> Seq<MarbleMove>
    decreases n,
{
    if n <= 0 {
        Seq::empty()
    } else {
        moves_for_upto(s, mid, n - 1) + if s[n - 1].0 == mid {
            seq![s[n - 1].1]
        } else {
            Seq::empty()
        }
    }
}

impl CurrentPlayerData {
    /// Fresh per-turn state for the given player: no moves, no selection.
    pub fn new(player: Player) -> (c: CurrentPlayerData)
        ensures
            c.player == player,
            c.possible_moves@.len() == 0,
            c.selected_move is None,
            c.selected_marble is None,
            c.moved_marble is None,
            cpd_wf(c),
    {
        CurrentPlayerData {
            player,
            possible_moves: Vec::new(),
            selected_move: None,
            selected_marble: None,
            moved_marble: None,
        }
    }

    /// All legal moves of one of the player's marbles.
    pub fn get_moves(&self, marble: usize) -> (r: Vec<MarbleMove>)
        ensures
            r@ == moves_for_upto(
                self.possible_moves@,
                marble as int,
                self.possible_moves@.len() as int,
            ),
    {
        let mut r: Vec<MarbleMove> = Vec::new();
        let mut i: usize = 0;
        while i < self.possible_moves.len()
            invariant
                0 <= i <= self.possible_moves@.len(),
                r@ == moves_for_upto(self.possible_moves@, marble as int, i as int),
            decreases self.possible_moves@.len() - i,
        {
            let c = &self.possible_moves[i];
            if c.0 == marble {
                r.push(c.1);
            }
            assert(r@ =~= moves_for_upto(self.possible_moves@, marble as int, i as int + 1));
            i += 1;
        }
        r
    }

    /// Selects a marble and one of its moves.
    pub fn select_move(&mut self, m: (usize, MarbleMove))
        ensures
            *final(self) == (CurrentPlayerData {
                selected_marble: Some(m.0),
                selected_move: Some(m.1),
                ..*old(self)
            }),
    {
        self.selected_marble = Some(m.0);
        self.selected_move = Some(m.1);
    }

    /// The selected marble and move, when both are chosen.
    pub fn get_selected_move(&self) -> (r: Option<(usize, MarbleMove)>)
        ensures
            r == match (self.selected_marble, self.selected_move) {
                (Some(m), Some(mv)) => Some((m, mv)),
                _ => None::<(usize, MarbleMove)>,
            },
    {
        match (self.selected_marble, self.selected_move) {
            (Some(entity), Some(marble_move)) => Some((entity, marble_move)),
            _ => None,
        }
    }

    /// Records that the selected marble has been moved.
    pub fn move_marble(&mut self)
        ensures
            *final(self) == (CurrentPlayerData {
                moved_marble: old(self).selected_marble,
                selected_marble: None,
                ..*old(self)
            }),
    {
        self.moved_marble = self.selected_marble.take();
    }

    /// Clears everything but the player: the turn is over.
    pub fn clear(&mut self)
        ensures
            final(self).player == old(self).player,
            final(self).possible_moves@.len() == 0,
            final(self).selected_move is None,
            final(self).selected_marble is None,
            final(self).moved_marble is None,
    {
        self.possible_moves = Vec::new();
        self.selected_marble = None;
        self.selected_move = None;
        self.moved_marble = None;
    }
}

/// Persistent state of all four players.
#[derive(Debug)]
pub struct GameData {
    pub red: PlayerData,
    pub green: PlayerData,
    pub blue: PlayerData,
    pub yellow: PlayerData,
}

/// The per-player data of one player.
pub open spec fn spec_player_data(g: GameData, p: Player) -> PlayerData {
    match p {
        Player::Red => g.red,
        Player::Green => g.green,
        Player::Blue => g.blue,
        Player::Yellow => g.yellow,
    }
}

/// The game data with one player's data replaced.
pub open spec fn spec_set_player_data(g: GameData, p: Player, d: PlayerData) -> GameData {
    match p {
        Player::Red => GameData { red: d, ..g },
        Player::Green => GameData { green: d, ..g },
        Player::Blue => GameData { blue: d, ..g },
        Player::Yellow => GameData { yellow: d, ..g },
    }
}

impl GameData {
    /// Fresh data for all four players.
    pub fn new() -> (g: GameData)
        ensures
            forall|p: Player| player_data_wf(#[trigger] spec_player_data(g, p)),
            forall|p: Player|
                occupied_slots((#[trigger] spec_player_data(g, p)).power_ups@) == 0
                    && spec_player_data(g, p).turn_move_count == 0 && spec_player_data(
                    g,
                    p,
                ).consecutive_empty_turns == 0 && spec_player_data(g, p).power_up_status == (
                PowerUpStatus {
                    evade_capture_turns: 0u8,
                    jump_self_turns: 0u8,
                    capture_nearest: false,
                    home_run: false,
                }),
    {
        let g = GameData {
            red: PlayerData::default(),
            green: PlayerData::default(),
            blue: PlayerData::default(),
            yellow: PlayerData::default(),
        };
        proof {
            assert forall|p: Player| player_data_wf(#[trigger] spec_player_data(g, p)) by {
                lemma_occupied_all_none(g.red.power_ups@);
            }
            assert forall|p: Player|
                occupied_slots((#[trigger] spec_player_data(g, p)).power_ups@) == 0 by {
                lemma_occupied_all_none(spec_player_data(g, p).power_ups@);
            }
        }
        g
    }

    /// Read access to one player's data.
    pub fn get(&self, p: Player) -> (r: &PlayerData)
        ensures
            *r == spec_player_data(*self, p),
    {
        match p {
            Player::Red => &self.red,
            Player::Green => &self.green,
            Player::Blue => &self.blue,
            Player::Yellow => &self.yellow,
        }
    }

    /// Mutable access to one player's data.
    pub fn get_mut(&mut self, p: Player) -> (r: &mut PlayerData)
        ensures
            *r == spec_player_data(*old(self), p),
            *final(self) == spec_set_player_data(*old(self), p, *final(r)),
    {
        match p {
            Player::Red => &mut self.red,
            Player::Green => &mut self.green,
            Player::Blue => &mut self.blue,
            Player::Yellow => &mut self.yellow,
        }
    }
}

/// How many power-up slots are occupied.
pub open spec fn occupied_slots(s: Seq<Option<PowerUp>>) -> int
    decreases s.len(),
{
    if s.len() == 0 {
        0
    } else {
        occupied_slots(s.drop_last()) + if s.last() is Some {
            1int
        } else {
            0int
        }
    }
}

/// A slot list with no power-ups has no occupied slots.
proof fn lemma_occupied_all_none(s: Seq<Option<PowerUp>>)
    requires
        forall|i: int| 0 <= i < s.len() ==> #[trigger] s[i] is None,
    ensures
        occupied_slots(s) == 0,
    decreases s.len(),
{
    if s.len() > 0 {
        lemma_occupied_all_none(s.drop_last());
    }
}

/// Occupied-slot counts lie between zero and the number of slots.
proof fn lemma_occupied_bounds(s: Seq<Option<PowerUp>>)
    ensures
        0 <= occupied_slots(s) <= s.len(),
    decreases s.len(),
{
    if s.len() > 0 {
        lemma_occupied_bounds(s.drop_last());
    }
}

/// Replacing one slot changes the count by the difference of the two slots.
proof fn lemma_occupied_update(s: Seq<Option<PowerUp>>, i: int, x: Option<PowerUp>)
    requires
        0 <= i < s.len(),
    ensures
        occupied_slots(s.update(i, x)) == occupied_slots(s) - (if s[i] is Some {
            1int
        } else {
            0int
        }) + (if x is Some {
            1int
        } else {
            0int
        }),
    decreases s.len(),
{
    let t = s.update(i, x);
    if i == s.len() - 1 {
        assert(t.drop_last() =~= s.drop_last());
    } else {
        assert(t.drop_last() =~= s.drop_last().update(i, x));
        lemma_occupied_update(s.drop_last(), i, x);
    }
}

/// A fully occupied slot list has as many occupied slots as entries.
proof fn lemma_occupied_all_some(s: Seq<Option<PowerUp>>)
    requires
        forall|i: int| 0 <= i < s.len() ==> #[trigger] s[i] is Some,
    ensures
        occupied_slots(s) == s.len(),
    decreases s.len(),
{
    if s.len() > 0 {
        lemma_occupied_all_some(s.drop_last());
    }
}

/// The rules engine: the full game state and the phase state machine over
/// it. Marbles are stored in a fixed array of twenty, five per player in
/// turn order, so marble `k` of player `p` is entry `5 * ordinal(p) + k`.
#[derive(Debug)]
pub struct GameEngine {
    pub state: GameState,
    pub human_player: Player,
    pub marbles: Vec<Marble>,
    pub dice: Dice,
    pub game_data: GameData,
    pub power_bars: Vec<PowerBar>,
    pub current_player_data: CurrentPlayerData,
}

/// The engine's data invariant: twenty on-board marbles, four well-formed
/// bars and players, well-formed dice and per-turn data, destinations of
/// stored moves on the board, and each player's occupied power-up slots in
/// step with their bar's level.
pub open spec fn engine_wf(e: GameEngine) -> bool {
    &&& e.marbles@.len() == 20
    &&& forall|i: int| 0 <= i < 20 ==> marble_wf(#[trigger] e.marbles@[i])
    &&& e.power_bars@.len() == 4
    &&& forall|i: int| 0 <= i < 4 ==> bar_wf(#[trigger] e.power_bars@[i])
    &&& dice_wf(e.dice)
    &&& forall|p: Player| player_data_wf(#[trigger] spec_player_data(e.game_data, p))
    &&& forall|p: Player|
        occupied_slots((#[trigger] spec_player_data(e.game_data, p)).power_ups@)
            == e.power_bars@[player_index(p)].power_up_count
    &&& cpd_wf(e.current_player_data)
    &&& forall|i: int|
        0 <= i < e.current_player_data.possible_moves@.len() ==> (
        #[trigger] e.current_player_data.possible_moves@[i]).1.destination <= CENTER_INDEX
    &&& e.current_player_data.selected_move matches Some(mv) ==> mv.destination <= CENTER_INDEX
}

/// The five marbles of one player, in slot order.
pub open spec fn own_marbles(e: GameEngine, p: Player) -> Seq<Marble> {
    e.marbles@.subrange(5 * player_index(p), 5 * player_index(p) + 5)
}

/// The player at the given position of the turn order.
pub open spec fn player_from_index(i: int) -> Player {
    if i == 0 {
        Player::Red
    } else if i == 1 {
        Player::Green
    } else if i == 2 {
        Player::Blue
    } else {
        Player::Yellow
    }
}

/// Whether a player's marbles are currently evade-protected.
pub open spec fn spec_evading(e: GameEngine, p: Player) -> bool {
    spec_player_data(e.game_data, p).power_up_status.evade_capture_turns > 0
}

/// The five marbles of the player at turn-order position `q`, as opposing
/// marbles.
pub open spec fn opp_block(e: GameEngine, q: int) -> Seq<OpponentMarble> {
    Seq::new(
        5,
        |k: int|
            OpponentMarble {
                marble: e.marbles@[5 * q + k],
                player: player_from_index(q),
                evading: spec_evading(e, player_from_index(q)),
            },
    )
}

/// The fifteen opposing marbles of player `p`, grouped by owner in turn
/// order.
pub open spec fn opponents_upto(e: GameEngine, p: Player, n: int) -> Seq<OpponentMarble>
    decreases n,
{
    if n <= 0 {
        Seq::empty()
    } else {
        opponents_upto(e, p, n - 1) + if n - 1 == player_index(p) {
            Seq::empty()
        } else {
            opp_block(e, n - 1)
        }
    }
}

/// All opposing marbles of player `p`.
pub open spec fn opponents_of(e: GameEngine, p: Player) -> Seq<OpponentMarble> {
    opponents_upto(e, p, 4)
}

impl GameEngine {
    /// A fresh game: twenty marbles in their bases, empty bars and slots,
    /// consumed dice, and the state machine about to hand the turn past
    /// `first` to the next player.
    pub fn new_with(human_player: Player, first: Player) -> (e: GameEngine)
        ensures
            engine_wf(e),
            e.state == GameState::NextPlayer,
            e.human_player == human_player,
            e.current_player_data.player == first,
            e.current_player_data.moved_marble is None,
            e.dice.one is None && e.dice.two is None && !e.dice.doubles,
            forall|i: int|
                0 <= i < 20 ==> (#[trigger] e.marbles@[i]).index == BASE_INDEX
                    && e.marbles@[i].prev_index == BASE_INDEX,
            forall|p: Player|
                spec_player_data(#[trigger] e.game_data, p).consecutive_empty_turns == 0,
    {
        let mut marbles: Vec<Marble> = Vec::new();
        let mut i: usize = 0;
        while i < 20
            invariant
                0 <= i <= 20,
                marbles@.len() == i,
                forall|k: int|
                    0 <= k < i ==> (#[trigger] marbles@[k]).index == BASE_INDEX
                        && marbles@[k].prev_index == BASE_INDEX,
            decreases 20 - i,
        {
            marbles.push(Marble::new());
            i += 1;
        }
        let mut power_bars: Vec<PowerBar> = Vec::new();
        let mut j: usize = 0;
        while j < 4
            invariant
                0 <= j <= 4,
                power_bars@.len() == j,
                forall|k: int|
                    0 <= k < j ==> #[trigger] power_bars@[k] == (PowerBar {
                        power: 0u32,
                        power_up_count: 0usize,
                    }),
            decreases 4 - j,
        {
            power_bars.push(PowerBar::new());
            j += 1;
        }
        let e = GameEngine {
            state: GameState::NextPlayer,
            human_player,
            marbles,
            dice: Dice::default(),
            game_data: GameData::new(),
            power_bars,
            current_player_data: CurrentPlayerData::new(first),
        };
        proof {
            assert forall|k: int| 0 <= k < 20 implies marble_wf(#[trigger] e.marbles@[k]) by {}
            assert forall|k: int| 0 <= k < 4 implies bar_wf(#[trigger] e.power_bars@[k]) by {}
        }
        e
    }

    /// A fresh game against a randomly drawn first player.
    pub fn new_game(human_player: Player) -> (e: GameEngine)
        ensures
            engine_wf(e),
            e.state == GameState::NextPlayer,
            e.human_player == human_player,
            forall|i: int| 0 <= i < 20 ==> (#[trigger] e.marbles@[i]).index == BASE_INDEX,
    {
        let first = Player::from_index(crate::rng::sample_uniform_inclusive(0, 3));
        Self::new_with(human_player, first)
    }

    /// Hands the turn to the next player in the fixed cyclic order.
    pub fn choose_next_player(&mut self)
        requires
            engine_wf(*old(self)),
            old(self).state == GameState::NextPlayer,
        ensures
            engine_wf(*final(self)),
            player_index(final(self).current_player_data.player) == (player_index(
                old(self).current_player_data.player,
            ) + 1) % 4,
            final(self).current_player_data.possible_moves@
                == old(self).current_player_data.possible_moves@,
            final(self).current_player_data.selected_move
                == old(self).current_player_data.selected_move,
            final(self).current_player_data.selected_marble
                == old(self).current_player_data.selected_marble,
            final(self).current_player_data.moved_marble
                == old(self).current_player_data.moved_marble,
            final(self).state == old(self).state,
            final(self).human_player == old(self).human_player,
            final(self).marbles@ == old(self).marbles@,
            final(self).dice == old(self).dice,
            final(self).game_data == old(self).game_data,
            final(self).power_bars@ == old(self).power_bars@,
    {
        self.current_player_data.player = self.current_player_data.player.next();
    }

    /// Readies the dice for the player now on turn.
    pub fn next_player_setup(&mut self)
        requires
            engine_wf(*old(self)),
            old(self).state == GameState::NextPlayer,
        ensures
            engine_wf(*final(self)),
            final(self).state == GameState::DiceRoll,
            *final(self) == (GameEngine { state: GameState::DiceRoll, ..*old(self) }),
    {
        self.state = GameState::DiceRoll;
    }

    /// Accepts a dice roll showing the given faces and moves on to computing
    /// the player's moves.
    pub fn apply_roll(&mut self, one: u8, two: u8)
        requires
            engine_wf(*old(self)),
            old(self).state == GameState::DiceRoll,
            1 <= one <= 6,
            1 <= two <= 6,
        ensures
            engine_wf(*final(self)),
            *final(self) == (GameEngine {
                state: GameState::TurnSetup,
                dice: final(self).dice,
                ..*old(self)
            }),
            final(self).dice.one == Some(one),
            final(self).dice.two == Some(two),
            final(self).dice.doubles == (one == two),
            final(self).dice.multiplier == 1,
    {
        self.dice = Dice::new(one, two);
        self.state = GameState::TurnSetup;
    }

    /// Rolls the dice for the player on turn. A player who has sat through
    /// two empty turns is owed a move: their roll is repeated until a face
    /// shows 1.
    pub fn roll_dice(&mut self)
        requires
            engine_wf(*old(self)),
            old(self).state == GameState::DiceRoll,
        ensures
            engine_wf(*final(self)),
            final(self).state == GameState::TurnSetup,
            final(self).dice.one matches Some(a) && 1 <= a <= 6,
            final(self).dice.two matches Some(b) && 1 <= b <= 6,
            final(self).dice.doubles == (final(self).dice.one == final(self).dice.two),
            final(self).dice.multiplier == 1,
            spec_player_data(
                old(self).game_data,
                old(self).current_player_data.player,
            ).consecutive_empty_turns >= 2 ==> final(self).dice.one == Some(1u8)
                || final(self).dice.two == Some(1u8),
            *final(self) == (GameEngine {
                state: GameState::TurnSetup,
                dice: final(self).dice,
                ..*old(self)
            }),
    {
        let empty_turns = self.game_data.get(
            self.current_player_data.player,
        ).consecutive_empty_turns;
        let mut d1 = roll_die();
        let mut d2 = roll_die();
        // a bounded number of rerolls; the run of all-failing fair rolls has
        // vanishing probability, and the owed face is a 1 in any case
        let mut tries: usize = 10000;
        while empty_turns >= 2 && d1 != 1 && d2 != 1 && tries > 0
            invariant
                1 <= d1 <= 6,
                1 <= d2 <= 6,
            decreases tries,
        {
            d1 = roll_die();
            d2 = roll_die();
            tries -= 1;
        }
        if empty_turns >= 2 && d1 != 1 && d2 != 1 {
            d1 = 1;
        }
        self.apply_roll(d1, d2);
    }
}

/// The turn-setup phase has run when the stored legal moves are exactly the
/// computed ones for the player on turn.
pub open spec fn spec_new_moves(e: GameEngine) -> Seq<(int, MarbleMove)> {
    spec_calc_possible_moves(
        e.current_player_data.player,
        own_marbles(e, e.current_player_data.player),
        opponents_of(e, e.current_player_data.player),
        e.dice,
        spec_player_data(e.game_data, e.current_player_data.player).power_up_status,
    )
}

/// A move count added to the per-turn total, saturating at the counter's top.
pub open spec fn spec_add_move_count(c: u8, n: int) -> u8 {
    if c + n <= 255 {
        (c + n) as u8
    } else {
        255u8
    }
}

impl GameEngine {
    /// The five marbles of the player on turn.
    fn own_marbles_vec(&self) -> (own: Vec<Marble>)
        requires
            engine_wf(*self),
        ensures
            own@ == own_marbles(*self, self.current_player_data.player),
            own@.len() == 5,
    {
        let base = 5 * self.current_player_data.player.ordinal() as usize;
        let mut own: Vec<Marble> = Vec::new();
        let mut k: usize = 0;
        while k < 5
            invariant
                0 <= k <= 5,
                engine_wf(*self),
                base == 5 * player_index(self.current_player_data.player),
                own@.len() == k,
                forall|j: int| 0 <= j < k ==> #[trigger] own@[j] == self.marbles@[base + j],
            decreases 5 - k,
        {
            own.push(self.marbles[base + k]);
            k += 1;
        }
        assert(own@ =~= own_marbles(*self, self.current_player_data.player));
        own
    }

    /// The fifteen opposing marbles of the player on turn, with their owners'
    /// evasion status.
    fn opponents_vec(&self) -> (opps: Vec<OpponentMarble>)
        requires
            engine_wf(*self),
        ensures
            opps@ == opponents_of(*self, self.current_player_data.player),
    {
        let cur = self.current_player_data.player.ordinal();
        let mut opps: Vec<OpponentMarble> = Vec::new();
        let mut q: u8 = 0;
        assert(opps@ =~= opponents_upto(*self, self.current_player_data.player, 0));
        while q < 4
            invariant
                0 <= q <= 4,
                engine_wf(*self),
                cur as int == player_index(self.current_player_data.player),
                opps@ == opponents_upto(*self, self.current_player_data.player, q as int),
            decreases 4 - q,
        {
            if q != cur {
                let owner = Player::from_index(q);
                proof {
                    assert(owner == player_from_index(q as int));
                }
                let evading = self.game_data.get(owner).power_up_status.evade_capture_turns > 0;
                let mut k: usize = 0;
                while k < 5
                    invariant
                        0 <= k <= 5,
                        engine_wf(*self),
                        cur as int == player_index(self.current_player_data.player),
                        0 <= q < 4,
                        q != cur,
                        owner == player_from_index(q as int),
                        evading == spec_evading(*self, owner),
                        opps@ == opponents_upto(*self, self.current_player_data.player, q as int)
                            + opp_block(*self, q as int).take(k as int),
                    decreases 5 - k,
                {
                    let idx = 5 * q as usize + k;
                    opps.push(OpponentMarble { marble: self.marbles[idx], player: owner, evading });
                    assert(opp_block(*self, q as int).take(k as int + 1) =~= opp_block(
                        *self,
                        q as int,
                    ).take(k as int).push(opp_block(*self, q as int)[k as int]));
                    assert(opps@ =~= opponents_upto(*self, self.current_player_data.player, q as int)
                        + opp_block(*self, q as int).take(k as int + 1));
                    k += 1;
                }
                assert(opp_block(*self, q as int).take(5) =~= opp_block(*self, q as int));
                assert(opps@ =~= opponents_upto(
                    *self,
                    self.current_player_data.player,
                    q as int + 1,
                ));
            } else {
                assert(opps@ =~= opponents_upto(
                    *self,
                    self.current_player_data.player,
                    q as int + 1,
                ));
            }
            q += 1;
        }
        opps
    }

    /// Runs the move generator and filter for the player on turn and stores
    /// the resulting legal-move set.
    pub fn calc_possible_moves(&mut self)
        requires
            engine_wf(*old(self)),
            old(self).state == GameState::TurnSetup,
        ensures
            engine_wf(*final(self)),
            moves_view(final(self).current_player_data.possible_moves@) == spec_new_moves(
                *old(self),
            ),
            final(self).current_player_data.player == old(self).current_player_data.player,
            final(self).current_player_data.selected_marble
                == old(self).current_player_data.selected_marble,
            final(self).current_player_data.selected_move
                == old(self).current_player_data.selected_move,
            final(self).current_player_data.moved_marble
                == old(self).current_player_data.moved_marble,
            final(self).state == old(self).state,
            final(self).human_player == old(self).human_player,
            final(self).marbles@ == old(self).marbles@,
            final(self).dice == old(self).dice,
            final(self).game_data == old(self).game_data,
            final(self).power_bars@ == old(self).power_bars@,
    {
        let own = self.own_marbles_vec();
        let opps = self.opponents_vec();
        proof {
            assert forall|j: int| 0 <= j < own@.len() implies marble_wf(#[trigger] own@[j]) by {
                assert(own@[j] == self.marbles@[5 * player_index(self.current_player_data.player)
                    + j]);
            }
            assert forall|j: int| 0 <= j < opps@.len() implies marble_wf(
                #[trigger] opps@[j].marble,
            ) by {
                lemma_opponents_marbles_wf(*self, self.current_player_data.player, 4, j);
            }
        }
        let status = self.game_data.get(self.current_player_data.player).power_up_status;
        let moves = calc_possible_moves(
            self.current_player_data.player,
            &own,
            &opps,
            &self.dice,
            &status,
        );
        proof {
            assert forall|i: int| 0 <= i < moves@.len() implies (#[trigger] moves@[i]).0 < 5
                && moves@[i].1.destination <= CENTER_INDEX by {
                assert(moves_view(moves@)[i] == (moves@[i].0 as int, moves@[i].1));
            }
        }
        self.current_player_data.possible_moves = moves;
    }

    /// Adds the size of the computed legal-move set to the player's per-turn
    /// move count.
    pub fn count_moves(&mut self)
        requires
            engine_wf(*old(self)),
        ensures
            engine_wf(*final(self)),
            final(self).game_data == spec_set_player_data(
                old(self).game_data,
                old(self).current_player_data.player,
                PlayerData {
                    turn_move_count: spec_add_move_count(
                        spec_player_data(
                            old(self).game_data,
                            old(self).current_player_data.player,
                        ).turn_move_count,
                        old(self).current_player_data.possible_moves@.len() as int,
                    ),
                    ..spec_player_data(old(self).game_data, old(self).current_player_data.player)
                },
            ),
            *final(self) == (GameEngine { game_data: final(self).game_data, ..*old(self) }),
    {
        let p = self.current_player_data.player;
        let count = self.current_player_data.possible_moves.len();
        let pd = self.game_data.get_mut(p);
        let c = pd.turn_move_count as usize;
        pd.turn_move_count = if count <= 255 - c {
            (c + count) as u8
        } else {
            255
        };
        proof {
            assert forall|pp: Player| occupied_slots(
                (#[trigger] spec_player_data(self.game_data, pp)).power_ups@,
            ) == self.power_bars@[player_index(pp)].power_up_count by {
                lemma_player_data_set(
                    old(self).game_data,
                    p,
                    spec_player_data(self.game_data, p),
                    pp,
                );
            }
            assert forall|pp: Player| player_data_wf(
                #[trigger] spec_player_data(self.game_data, pp),
            ) by {
                lemma_player_data_set(
                    old(self).game_data,
                    p,
                    spec_player_data(self.game_data, p),
                    pp,
                );
            }
        }
    }

    /// Routes the turn to the human or the computer, now that the legal-move
    /// set is known.
    pub fn turn_setup_complete(&mut self)
        requires
            engine_wf(*old(self)),
            old(self).state == GameState::TurnSetup,
        ensures
            engine_wf(*final(self)),
            final(self).state == (if old(self).human_player
                == old(self).current_player_data.player {
                GameState::HumanTurn
            } else {
                GameState::ComputerTurn
            }),
            *final(self) == (GameEngine { state: final(self).state, ..*old(self) }),
    {
        if self.human_player == self.current_player_data.player {
            self.state = GameState::HumanTurn;
        } else {
            self.state = GameState::ComputerTurn;
        }
    }
}

/// Every move listed for one marble is one of the player's legal moves.
proof fn lemma_moves_for_member(s: Seq<(usize, MarbleMove)>, mid: int, n: int, k: int)
    requires
        0 <= n <= s.len(),
        0 <= k < moves_for_upto(s, mid, n).len(),
    ensures
        exists|i: int|
            0 <= i < s.len() && (#[trigger] s[i]).0 == mid && s[i].1 == moves_for_upto(
                s,
                mid,
                n,
            )[k],
    decreases n,
{
    let prev = moves_for_upto(s, mid, n - 1);
    if k < prev.len() {
        lemma_moves_for_member(s, mid, n - 1, k);
        let i = choose|i: int| 0 <= i < s.len() && (#[trigger] s[i]).0 == mid && s[i].1 == prev[k];
        assert(s[i].0 == mid && s[i].1 == moves_for_upto(s, mid, n)[k]);
    } else {
        assert((#[trigger] s[n - 1]).0 == mid && s[n - 1].1 == moves_for_upto(s, mid, n)[k]);
    }
}

/// The first legal move of the given marble landing on the given cell.
pub open spec fn find_move_for(
    s: Seq<(usize, MarbleMove)>,
    mid: int,
    dest: int,
    n: int,
) -> Option<MarbleMove>
    decreases n,
{
    if n <= 0 {
        None
    } else {
        let prev = find_move_for(s, mid, dest, n - 1);
        if prev is Some {
            prev
        } else if s[n - 1].0 == mid && s[n - 1].1.destination == dest {
            Some(s[n - 1].1)
        } else {
            None
        }
    }
}

/// Reading a player's data after writing one player's data: the written
/// value for that player, the old value for everyone else.
pub proof fn lemma_player_data_set(g: GameData, p: Player, d: PlayerData, q: Player)
    ensures
        spec_player_data(spec_set_player_data(g, p, d), q) == if q == p {
            d
        } else {
            spec_player_data(g, q)
        },
{
}

/// Every opposing marble in the prefix construction is one of the engine's
/// well-formed marbles.
proof fn lemma_opponents_marbles_wf(e: GameEngine, p: Player, n: int, j: int)
    requires
        engine_wf(e),
        0 <= n <= 4,
        0 <= j < opponents_upto(e, p, n).len(),
    ensures
        marble_wf(opponents_upto(e, p, n)[j].marble),
    decreases n,
{
    if n > 0 {
        let prev = opponents_upto(e, p, n - 1);
        if j < prev.len() {
            lemma_opponents_marbles_wf(e, p, n - 1, j);
        }
    }
}

impl GameEngine {
    /// Commits the selected move of the player on turn: the marble takes its
    /// destination, the dice are consumed, and the engine waits for the move
    /// animation.
    fn commit_selected_move(&mut self, mid: usize, mv: MarbleMove)
        requires
            engine_wf(*old(self)),
            old(self).current_player_data.selected_marble == Some(mid),
            old(self).current_player_data.selected_move == Some(mv),
        ensures
            engine_wf(*final(self)),
            ({
                let g = 5 * player_index(old(self).current_player_data.player) + mid;
                &&& final(self).marbles@ == old(self).marbles@.update(
                    g,
                    Marble { index: mv.destination, prev_index: old(self).marbles@[g].index },
                )
                &&& final(self).dice == spec_use_die(old(self).dice, mv.which)
                &&& final(self).state == GameState::WaitForAnimation
                &&& final(self).current_player_data.player == old(self).current_player_data.player
                &&& final(self).current_player_data.moved_marble == Some(mid)
                &&& final(self).current_player_data.selected_marble is None
                &&& final(self).current_player_data.selected_move == Some(mv)
                &&& final(self).current_player_data.possible_moves@
                    == old(self).current_player_data.possible_moves@
                &&& final(self).game_data == old(self).game_data
                &&& final(self).power_bars@ == old(self).power_bars@
                &&& final(self).human_player == old(self).human_player
            }),
    {
        let g = 5 * self.current_player_data.player.ordinal() as usize + mid;
        let mut m = self.marbles[g];
        m.update_index(mv.destination);
        self.marbles[g] = m;
        self.dice.use_die(mv.which);
        self.current_player_data.move_marble();
        self.state = GameState::WaitForAnimation;
    }

    /// Picks a move for the computer player, uniformly at random among the
    /// legal moves; a marble selected earlier in the turn keeps priority when
    /// it still has moves.
    pub fn computer_choose_move(&mut self)
        requires
            engine_wf(*old(self)),
            old(self).state == GameState::ComputerTurn,
        ensures
            engine_wf(*final(self)),
            old(self).current_player_data.possible_moves@.len() == 0 ==> *final(self) == *old(
                self,
            ),
            old(self).current_player_data.possible_moves@.len() > 0 ==> {
                &&& exists|i: int|
                    0 <= i < old(self).current_player_data.possible_moves@.len()
                        && final(self).current_player_data.selected_marble == Some(
                        (#[trigger] old(self).current_player_data.possible_moves@[i]).0,
                    ) && final(self).current_player_data.selected_move == Some(
                        old(self).current_player_data.possible_moves@[i].1,
                    )
                &&& final(self).current_player_data.possible_moves@
                    == old(self).current_player_data.possible_moves@
                &&& final(self).current_player_data.player
                    == old(self).current_player_data.player
                &&& final(self).current_player_data.moved_marble
                    == old(self).current_player_data.moved_marble
                &&& *final(self) == (GameEngine {
                    current_player_data: final(self).current_player_data,
                    ..*old(self)
                })
            },
    {
        if self.current_player_data.possible_moves.len() == 0 {
            return ;
        }
        if let Some(marble) = self.current_player_data.selected_marble {
            let options = self.current_player_data.get_moves(marble);
            if options.len() > 0 {
                let pick = sample_below(options.len());
                let chosen = options[pick];
                proof {
                    lemma_moves_for_member(
                        self.current_player_data.possible_moves@,
                        marble as int,
                        self.current_player_data.possible_moves@.len() as int,
                        pick as int,
                    );
                }
                self.current_player_data.select_move((marble, chosen));
                return ;
            }
        }
        let pick = sample_below(self.current_player_data.possible_moves.len());
        let chosen = self.current_player_data.possible_moves[pick];
        self.current_player_data.select_move(chosen);
    }

    /// Finishes the computer's turn step: commits the selected move, or, with
    /// nothing to play, rolls again on doubles and otherwise ends the turn.
    pub fn computer_move_buffer(&mut self)
        requires
            engine_wf(*old(self)),
            old(self).state == GameState::ComputerTurn,
        ensures
            engine_wf(*final(self)),
            match (
                old(self).current_player_data.selected_marble,
                old(self).current_player_data.selected_move,
            ) {
                (Some(mid), Some(mv)) => {
                    let g = 5 * player_index(old(self).current_player_data.player) + mid;
                    &&& final(self).marbles@ == old(self).marbles@.update(
                        g,
                        Marble { index: mv.destination, prev_index: old(self).marbles@[g].index },
                    )
                    &&& final(self).dice == spec_use_die(old(self).dice, mv.which)
                    &&& final(self).state == GameState::WaitForAnimation
                    &&& final(self).current_player_data.moved_marble == Some(mid)
                    &&& final(self).current_player_data.player
                        == old(self).current_player_data.player
                    &&& final(self).game_data == old(self).game_data
                    &&& final(self).power_bars@ == old(self).power_bars@
                },
                _ => {
                    &&& final(self).state == (if old(self).dice.doubles {
                        GameState::DiceRoll
                    } else {
                        GameState::EndTurn
                    })
                    &&& *final(self) == (GameEngine { state: final(self).state, ..*old(self) })
                },
            },
    {
        match self.current_player_data.get_selected_move() {
            Some((mid, mv)) => {
                self.commit_selected_move(mid, mv);
            }
            None => {
                if self.dice.doubles {
                    self.state = GameState::DiceRoll;
                } else {
                    self.state = GameState::EndTurn;
                }
            }
        }
    }

    /// Selects one of the human player's marbles.
    pub fn select_marble(&mut self, marble: usize)
        requires
            engine_wf(*old(self)),
            old(self).state == GameState::HumanTurn,
            marble < 5,
        ensures
            engine_wf(*final(self)),
            final(self).current_player_data.selected_marble == Some(marble),
            final(self).current_player_data.selected_move
                == old(self).current_player_data.selected_move,
            final(self).current_player_data.possible_moves@
                == old(self).current_player_data.possible_moves@,
            final(self).current_player_data.player == old(self).current_player_data.player,
            final(self).current_player_data.moved_marble
                == old(self).current_player_data.moved_marble,
            *final(self) == (GameEngine {
                current_player_data: final(self).current_player_data,
                ..*old(self)
            }),
    {
        self.current_player_data.selected_marble = Some(marble);
    }

    /// Interprets the human player's click on a board cell: the first legal
    /// move of the selected marble landing there is committed; a click
    /// anywhere else deselects the marble.
    pub fn human_move_to(&mut self, clicked_index: usize)
        requires
            engine_wf(*old(self)),
            old(self).state == GameState::HumanTurn,
            old(self).current_player_data.selected_marble matches Some(m),
        ensures
            engine_wf(*final(self)),
            ({
                let mid = old(self).current_player_data.selected_marble->0;
                let found = find_move_for(
                    old(self).current_player_data.possible_moves@,
                    mid as int,
                    clicked_index as int,
                    old(self).current_player_data.possible_moves@.len() as int,
                );
                match found {
                    Some(mv) => {
                        let g = 5 * player_index(old(self).current_player_data.player) + mid;
                        &&& final(self).marbles@ == old(self).marbles@.update(
                            g,
                            Marble {
                                index: mv.destination,
                                prev_index: old(self).marbles@[g].index,
                            },
                        )
                        &&& final(self).dice == spec_use_die(old(self).dice, mv.which)
                        &&& final(self).state == GameState::WaitForAnimation
                        &&& final(self).current_player_data.moved_marble == Some(mid)
                        &&& final(self).current_player_data.selected_marble is None
                        &&& final(self).game_data == old(self).game_data
                        &&& final(self).power_bars@ == old(self).power_bars@
                    },
                    None => {
                        &&& final(self).current_player_data.selected_marble is None
                        &&& final(self).current_player_data.possible_moves@
                            == old(self).current_player_data.possible_moves@
                        &&& final(self).current_player_data.selected_move
                            == old(self).current_player_data.selected_move
                        &&& final(self).current_player_data.moved_marble
                            == old(self).current_player_data.moved_marble
                        &&& final(self).current_player_data.player
                            == old(self).current_player_data.player
                        &&& *final(self) == (GameEngine {
                            current_player_data: final(self).current_player_data,
                            ..*old(self)
                        })
                    },
                }
            }),
    {
        let mid = match self.current_player_data.selected_marble {
            Some(m) => m,
            None => {
                proof {
                    assert(false);
                }
                0
            }
        };
        let mut i: usize = 0;
        let n = self.current_player_data.possible_moves.len();
        while i < n
            invariant
                engine_wf(*self),
                *self == *old(self),
                self.current_player_data.selected_marble == Some(mid),
                n == self.current_player_data.possible_moves@.len(),
                0 <= i <= n,
                find_move_for(
                    self.current_player_data.possible_moves@,
                    mid as int,
                    clicked_index as int,
                    i as int,
                ) is None,
            decreases n - i,
        {
            let c = self.current_player_data.possible_moves[i];
            if c.0 == mid && c.1.destination == clicked_index {
                let mv = c.1;
                proof {
                    assert(find_move_for(
                        self.current_player_data.possible_moves@,
                        mid as int,
                        clicked_index as int,
                        i as int + 1,
                    ) == Some(mv));
                    lemma_find_move_stable(
                        self.current_player_data.possible_moves@,
                        mid as int,
                        clicked_index as int,
                        i as int + 1,
                        self.current_player_data.possible_moves@.len() as int,
                    );
                }
                self.current_player_data.selected_move = Some(mv);
                self.commit_selected_move(mid, mv);
                return ;
            }
            i += 1;
        }
        self.current_player_data.selected_marble = None;
    }

    /// The human player ends their move phase: doubles earn another roll,
    /// otherwise the turn is over.
    pub fn human_done(&mut self)
        requires
            engine_wf(*old(self)),
            old(self).state == GameState::HumanTurn,
        ensures
            engine_wf(*final(self)),
            final(self).state == (if old(self).dice.doubles {
                GameState::DiceRoll
            } else {
                GameState::EndTurn
            }),
            *final(self) == (GameEngine { state: final(self).state, ..*old(self) }),
    {
        if self.dice.doubles {
            self.state = GameState::DiceRoll;
        } else {
            self.state = GameState::EndTurn;
        }
    }

    /// The move animation has finished: resolve the move.
    pub fn animation_done(&mut self)
        requires
            engine_wf(*old(self)),
            old(self).state == GameState::WaitForAnimation,
        ensures
            engine_wf(*final(self)),
            final(self).state == GameState::ProcessMove,
            *final(self) == (GameEngine { state: GameState::ProcessMove, ..*old(self) }),
    {
        self.state = GameState::ProcessMove;
    }
}

/// Once a move is found, scanning further candidates does not change it.
proof fn lemma_find_move_stable(
    s: Seq<(usize, MarbleMove)>,
    mid: int,
    dest: int,
    n: int,
    m: int,
)
    requires
        0 <= n <= m <= s.len(),
        find_move_for(s, mid, dest, n) is Some,
    ensures
        find_move_for(s, mid, dest, m) == find_move_for(s, mid, dest, n),
    decreases m - n,
{
    if m > n {
        lemma_find_move_stable(s, mid, dest, n, m - 1);
    }
}

/// One occupied slot means at least one occupied slot.
proof fn lemma_occupied_pos(s: Seq<Option<PowerUp>>, i: int)
    requires
        0 <= i < s.len(),
        s[i] is Some,
    ensures
        occupied_slots(s) >= 1,
    decreases s.len(),
{
    lemma_occupied_bounds(s.drop_last());
    if i < s.len() - 1 {
        lemma_occupied_pos(s.drop_last(), i);
    }
}

/// Distinct players have distinct turn-order positions.
proof fn lemma_player_index_injective(p: Player, q: Player)
    ensures
        p != q ==> player_index(p) != player_index(q),
{
}

/// The owner of a marble slot in the engine's fixed marble array.
pub open spec fn owner_of(g: int) -> Player {
    player_from_index(g / 5)
}

/// Whether the opposing marble at global slot `g` is hit by a move of the
/// player on turn ending at `dest`: it sits on a shared cell, denotes the
/// same cell, and its owner is not evade-protected.
pub open spec fn capture_hit(e: GameEngine, dest: int, g: int) -> bool {
    let idx = e.marbles@[g].index;
    &&& !spec_evading(e, owner_of(g))
    &&& (idx < FIRST_HOME_INDEX || idx == CENTER_INDEX)
    &&& spec_is_same_index(e.current_player_data.player, dest, owner_of(g), idx as int)
}

/// The first opposing marble (in the fixed scan order) captured by a move of
/// the player on turn ending at `dest`, among the first `n` marble slots.
pub open spec fn spec_capture_target(e: GameEngine, dest: int, n: int) -> Option<int>
    decreases n,
{
    if n <= 0 {
        None
    } else {
        let prev = spec_capture_target(e, dest, n - 1);
        if prev is Some {
            prev
        } else {
            let g = n - 1;
            if g / 5 != player_index(e.current_player_data.player) && capture_hit(e, dest, g) {
                Some(g)
            } else {
                None
            }
        }
    }
}

/// Whether all five marbles of a player are in their home row.
pub open spec fn spec_all_home(e: GameEngine, p: Player) -> bool {
    forall|k: int|
        0 <= k < 5 ==> FIRST_HOME_INDEX <= (#[trigger] e.marbles@[5 * player_index(p) + k]).index
            <= LAST_HOME_INDEX
}

/// A found capture target is an opposing marble slot that was hit.
proof fn lemma_capture_target_props(e: GameEngine, dest: int, n: int)
    requires
        spec_capture_target(e, dest, n) is Some,
    ensures
        ({
            let g = spec_capture_target(e, dest, n)->0;
            &&& 0 <= g < n
            &&& g / 5 != player_index(e.current_player_data.player)
            &&& capture_hit(e, dest, g)
        }),
    decreases n,
{
    if n > 0 {
        if spec_capture_target(e, dest, n - 1) is Some {
            lemma_capture_target_props(e, dest, n - 1);
        }
    }
}

/// Once a capture target is found, scanning further marbles keeps it.
proof fn lemma_capture_target_stable(e: GameEngine, dest: int, n: int, m: int)
    requires
        0 <= n <= m,
        spec_capture_target(e, dest, n) is Some,
    ensures
        spec_capture_target(e, dest, m) == spec_capture_target(e, dest, n),
    decreases m - n,
{
    if m > n {
        lemma_capture_target_stable(e, dest, n, m - 1);
    }
}

/// A power bar after accruing a sequence of deltas, in order.
pub open spec fn bar_after(b: PowerBar, ds: Seq<int>) -> PowerBar
    decreases ds.len(),
{
    if ds.len() == 0 {
        b
    } else {
        spec_bar_update(bar_after(b, ds.drop_last()), ds.last()).0
    }
}

impl GameEngine {
    /// Accrues power for one player and, on a threshold crossing, drafts a
    /// random power-up into their first open slot. Returns the drafted
    /// power-up, if any.
    fn apply_power_delta(&mut self, p: Player, delta: i64) -> (granted: Option<PowerUp>)
        requires
            engine_wf(*old(self)),
            -1000000 <= delta <= 1000000,
        ensures
            engine_wf(*final(self)),
            ({
                let pi = player_index(p);
                let old_bar = old(self).power_bars@[pi];
                let change = spec_bar_update(old_bar, delta as int).1;
                &&& final(self).power_bars@ == old(self).power_bars@.update(
                    pi,
                    spec_bar_update(old_bar, delta as int).0,
                )
                &&& (change != Some(PowerChange::Up) ==> granted is None && final(self).game_data
                    == old(self).game_data)
                &&& (change == Some(PowerChange::Up) ==> (granted matches Some(kind) && (exists|
                    slot: int,
                |
                    #![trigger spec_player_data(old(self).game_data, p).power_ups@[slot]]
                    {
                        &&& 0 <= slot < spec_player_data(old(self).game_data, p).power_ups@.len()
                        &&& spec_player_data(old(self).game_data, p).power_ups@[slot] is None
                        &&& spec_player_data(final(self).game_data, p).power_ups@
                            == spec_player_data(old(self).game_data, p).power_ups@.update(
                            slot,
                            Some(kind),
                        )
                    })))
                &&& (forall|q: Player|
                    q != p ==> spec_player_data(#[trigger] final(self).game_data, q)
                        == spec_player_data(old(self).game_data, q))
                &&& spec_player_data(final(self).game_data, p).power_up_status == spec_player_data(
                    old(self).game_data,
                    p,
                ).power_up_status
                &&& spec_player_data(final(self).game_data, p).turn_move_count == spec_player_data(
                    old(self).game_data,
                    p,
                ).turn_move_count
                &&& spec_player_data(final(self).game_data, p).consecutive_empty_turns
                    == spec_player_data(old(self).game_data, p).consecutive_empty_turns
                &&& (forall|j: int|
                    0 <= j < spec_player_data(old(self).game_data, p).power_ups@.len()
                        && spec_player_data(old(self).game_data, p).power_ups@[j] is Some
                        ==> #[trigger] spec_player_data(final(self).game_data, p).power_ups@[j]
                        == spec_player_data(old(self).game_data, p).power_ups@[j])
            }),
            *final(self) == (GameEngine {
                power_bars: final(self).power_bars,
                game_data: final(self).game_data,
                ..*old(self)
            }),
    {
        let pi = p.ordinal() as usize;
        let mut bar = self.power_bars[pi];
        let change = bar.update(delta);
        self.power_bars[pi] = bar;
        match change {
            Some(PowerChange::Up) => {
                let mut weights: Vec<u32> = Vec::new();
                weights.push(4);
                weights.push(4);
                weights.push(3);
                weights.push(2);
                weights.push(1);
                weights.push(1);
                proof {
                    assert(weights@.len() == 6);
                    assert(weights@[0] == 4);
                    assert forall|i: int| 0 <= i < weights@.len() implies #[trigger] weights@[i]
                        <= 1000 by {}
                }
                let idx = sample_weighted(&weights);
                let kind = PowerUp::from_index(idx);
                let ghost old_slots = spec_player_data(self.game_data, p).power_ups@;
                let pd = self.game_data.get_mut(p);
                match pd.first_open_slot() {
                    Some(_) => {
                        let slot = pd.grant_power_up(kind);
                        proof {
                            lemma_occupied_update(old_slots, slot as int, Some(kind));
                        }
                    }
                    None => {
                        proof {
                            lemma_occupied_all_some(pd.power_ups@);
                            assert(false);
                        }
                    }
                }
                proof {
                    assert forall|q: Player| occupied_slots(
                        (#[trigger] spec_player_data(self.game_data, q)).power_ups@,
                    ) == self.power_bars@[player_index(q)].power_up_count by {
                        lemma_player_data_set(
                            old(self).game_data,
                            p,
                            spec_player_data(self.game_data, p),
                            q,
                        );
                        lemma_player_index_injective(q, p);
                    }
                    assert forall|q: Player| player_data_wf(
                        #[trigger] spec_player_data(self.game_data, q),
                    ) by {
                        lemma_player_data_set(
                            old(self).game_data,
                            p,
                            spec_player_data(self.game_data, p),
                            q,
                        );
                    }
                    assert forall|q: Player|
                        q != p implies spec_player_data(#[trigger] self.game_data, q)
                        == spec_player_data(old(self).game_data, q) by {
                        lemma_player_data_set(
                            old(self).game_data,
                            p,
                            spec_player_data(self.game_data, p),
                            q,
                        );
                    }
                }
                Some(kind)
            }
            _ => {
                proof {
                    assert forall|q: Player| occupied_slots(
                        (#[trigger] spec_player_data(self.game_data, q)).power_ups@,
                    ) == self.power_bars@[player_index(q)].power_up_count by {
                        lemma_player_index_injective(q, p);
                    }
                }
                None
            }
        }
    }

    /// Spends a drafted power-up of the player on turn: the slot empties, the
    /// bar's level drops, and the effect applies — another roll, doubled
    /// dice, a protective or permissive status, or an armed one-shot.
    pub fn use_power_up(&mut self, slot: usize)
        requires
            engine_wf(*old(self)),
            old(self).state == GameState::HumanTurn,
            slot < MAX_POWER_UPS,
            spec_player_data(
                old(self).game_data,
                old(self).current_player_data.player,
            ).power_ups@[slot as int] is Some,
        ensures
            engine_wf(*final(self)),
            ({
                let p = old(self).current_player_data.player;
                let pi = player_index(p);
                let od = spec_player_data(old(self).game_data, p);
                let nd = spec_player_data(final(self).game_data, p);
                &&& od.power_ups@[slot as int] matches Some(kind) ==> {
                    &&& nd.power_ups@ == od.power_ups@.update(slot as int, None)
                    &&& final(self).power_bars@ == old(self).power_bars@.update(
                        pi,
                        PowerBar {
                            power: old(self).power_bars@[pi].power,
                            power_up_count: (old(self).power_bars@[pi].power_up_count
                                - 1) as usize,
                        },
                    )
                    &&& (forall|q: Player|
                        q != p ==> spec_player_data(#[trigger] final(self).game_data, q)
                            == spec_player_data(old(self).game_data, q))
                    &&& nd.turn_move_count == od.turn_move_count
                    &&& nd.consecutive_empty_turns == od.consecutive_empty_turns
                    &&& final(self).marbles@ == old(self).marbles@
                    &&& final(self).current_player_data.player == p
                    &&& match kind {
                        PowerUp::RollAgain => final(self).state == GameState::DiceRoll
                            && final(self).dice == old(self).dice && nd.power_up_status
                            == od.power_up_status,
                        PowerUp::DoubleDice => final(self).state == GameState::TurnSetup && final(self).dice == (Dice { multiplier: 2u8, ..old(self).dice }) && nd.power_up_status
                            == od.power_up_status,
                        PowerUp::EvadeCapture => final(self).state == GameState::HumanTurn && final(self).dice == old(self).dice && nd.power_up_status == (PowerUpStatus {
                            evade_capture_turns: 4u8,
                            ..od.power_up_status
                        }),
                        PowerUp::SelfJump => final(self).state == GameState::TurnSetup && final(self).dice == old(self).dice && nd.power_up_status == (PowerUpStatus {
                            jump_self_turns: 4u8,
                            ..od.power_up_status
                        }),
                        PowerUp::CaptureNearest => final(self).state == GameState::TurnSetup
                            && final(self).dice == old(self).dice && nd.power_up_status == (
                        PowerUpStatus { capture_nearest: true, ..od.power_up_status }),
                        PowerUp::HomeRun => final(self).state == GameState::TurnSetup && final(self).dice == old(self).dice && nd.power_up_status == (PowerUpStatus {
                            home_run: true,
                            ..od.power_up_status
                        }),
                    }
                }
            }),
    {
        let p = self.current_player_data.player;
        let pi = p.ordinal() as usize;
        let ghost old_slots = spec_player_data(self.game_data, p).power_ups@;
        let pd = self.game_data.get_mut(p);
        proof {
            lemma_occupied_pos(pd.power_ups@, slot as int);
        }
        let kind = match pd.use_power_up(slot) {
            Some(k) => k,
            None => {
                proof {
                    assert(false);
                }
                PowerUp::RollAgain
            }
        };
        proof {
            lemma_occupied_update(old_slots, slot as int, None);
        }
        let mut bar = self.power_bars[pi];
        bar.power_up_count = bar.power_up_count - 1;
        self.power_bars[pi] = bar;
        proof {
            assert forall|q: Player| occupied_slots(
                (#[trigger] spec_player_data(self.game_data, q)).power_ups@,
            ) == self.power_bars@[player_index(q)].power_up_count by {
                lemma_player_data_set(
                    old(self).game_data,
                    p,
                    spec_player_data(self.game_data, p),
                    q,
                );
                lemma_player_index_injective(q, p);
            }
            assert forall|q: Player| player_data_wf(
                #[trigger] spec_player_data(self.game_data, q),
            ) by {
                lemma_player_data_set(
                    old(self).game_data,
                    p,
                    spec_player_data(self.game_data, p),
                    q,
                );
            }
        }
        let ghost g1 = self.game_data;
        match kind {
            PowerUp::RollAgain => {
                self.state = GameState::DiceRoll;
            }
            PowerUp::DoubleDice => {
                self.dice.multiplier = 2;
                self.state = GameState::TurnSetup;
            }
            PowerUp::EvadeCapture => {
                let pd = self.game_data.get_mut(p);
                pd.power_up_status.evade_capture();
            }
            PowerUp::SelfJump => {
                let pd = self.game_data.get_mut(p);
                pd.power_up_status.jump_self();
                self.state = GameState::TurnSetup;
            }
            PowerUp::CaptureNearest => {
                let pd = self.game_data.get_mut(p);
                pd.power_up_status.capture_nearest();
                self.state = GameState::TurnSetup;
            }
            PowerUp::HomeRun => {
                let pd = self.game_data.get_mut(p);
                pd.power_up_status.home_run();
                self.state = GameState::TurnSetup;
            }
        }
        proof {
            assert forall|q: Player| occupied_slots(
                (#[trigger] spec_player_data(self.game_data, q)).power_ups@,
            ) == self.power_bars@[player_index(q)].power_up_count by {
                lemma_player_data_set(g1, p, spec_player_data(self.game_data, p), q);
            }
            assert forall|q: Player| player_data_wf(
                #[trigger] spec_player_data(self.game_data, q),
            ) by {
                lemma_player_data_set(g1, p, spec_player_data(self.game_data, p), q);
            }
            assert forall|q: Player|
                q != p implies spec_player_data(#[trigger] self.game_data, q) == spec_player_data(
                old(self).game_data,
                q,
            ) by {
                lemma_player_data_set(g1, p, spec_player_data(self.game_data, p), q);
                lemma_player_data_set(
                    old(self).game_data,
                    p,
                    spec_player_data(g1, p),
                    q,
                );
            }
        }
    }
}

/// An empty accrual leaves the bar alone.
proof fn lemma_bar_after_zero(b: PowerBar)
    ensures
        bar_after(b, Seq::<int>::empty()) == b,
{
}

/// A single accrual is one bar update.
proof fn lemma_bar_after_one(b: PowerBar, d: int)
    ensures
        bar_after(b, seq![d]) == spec_bar_update(b, d).0,
{
    assert(seq![d].drop_last() =~= Seq::<int>::empty());
    assert(seq![d].last() == d);
    lemma_bar_after_zero(b);
    assert(bar_after(b, seq![d]) == spec_bar_update(bar_after(b, seq![d].drop_last()), d).0);
}

/// Two accruals are two bar updates, in order.
proof fn lemma_bar_after_two(b: PowerBar, d1: int, d2: int)
    ensures
        bar_after(b, seq![d1, d2]) == spec_bar_update(spec_bar_update(b, d1).0, d2).0,
{
    assert(seq![d1, d2].drop_last() =~= seq![d1]);
    assert(seq![d1, d2].last() == d2);
    lemma_bar_after_one(b, d1);
    assert(bar_after(b, seq![d1, d2]) == spec_bar_update(
        bar_after(b, seq![d1, d2].drop_last()),
        d2,
    ).0);
}

impl GameEngine {
    /// Finds the first opposing marble captured by the moved marble's
    /// destination, in the fixed scan order.
    fn find_capture(&self, dest: usize) -> (r: Option<usize>)
        requires
            engine_wf(*self),
            dest <= BASE_INDEX,
            !(FIRST_HOME_INDEX <= dest <= LAST_HOME_INDEX),
        ensures
            match r {
                Some(g) => g < 20 && spec_capture_target(*self, dest as int, 20) == Some(g as int),
                None => spec_capture_target(*self, dest as int, 20) is None,
            },
    {
        let cur = self.current_player_data.player.ordinal() as usize;
        let mut g: usize = 0;
        while g < 20
            invariant
                engine_wf(*self),
                dest <= BASE_INDEX,
                !(FIRST_HOME_INDEX <= dest <= LAST_HOME_INDEX),
                cur == player_index(self.current_player_data.player),
                0 <= g <= 20,
                spec_capture_target(*self, dest as int, g as int) is None,
            decreases 20 - g,
        {
            if g / 5 != cur {
                let owner = Player::from_index((g / 5) as u8);
                proof {
                    assert(owner == owner_of(g as int));
                }
                let idx = self.marbles[g].index;
                if !(self.game_data.get(owner).power_up_status.evade_capture_turns > 0) && (idx
                    < FIRST_HOME_INDEX || idx == CENTER_INDEX) {
                    if Player::is_same_index(self.current_player_data.player, dest, owner, idx) {
                        proof {
                            assert(capture_hit(*self, dest as int, g as int));
                            assert(spec_capture_target(*self, dest as int, g as int + 1) == Some(
                                g as int,
                            ));
                            lemma_capture_target_stable(*self, dest as int, g as int + 1, 20);
                        }
                        return Some(g);
                    }
                }
            }
            g += 1;
        }
        None
    }

    /// Whether all five marbles of the player on turn are home.
    fn current_player_won(&self) -> (r: bool)
        requires
            engine_wf(*self),
        ensures
            r == spec_all_home(*self, self.current_player_data.player),
    {
        let base = 5 * self.current_player_data.player.ordinal() as usize;
        let mut k: usize = 0;
        while k < 5
            invariant
                engine_wf(*self),
                base == 5 * player_index(self.current_player_data.player),
                0 <= k <= 5,
                forall|j: int|
                    0 <= j < k ==> FIRST_HOME_INDEX <= (#[trigger] self.marbles@[base
                        + j]).index <= LAST_HOME_INDEX,
            decreases 5 - k,
        {
            let idx = self.marbles[base + k].index;
            if !(FIRST_HOME_INDEX <= idx && idx <= LAST_HOME_INDEX) {
                return false;
            }
            k += 1;
        }
        true
    }

    /// Resolves the committed move: captures the opposing marble it landed
    /// on (sending it back to its base), accrues power for the capture and
    /// for the move's distance (drafting power-ups on threshold crossings),
    /// clears the turn's one-shot effects and selections, and routes to the
    /// next phase — the game ends when all of the mover's marbles are home.
    #[verifier::rlimit(100)]
    pub fn process(&mut self)
        requires
            engine_wf(*old(self)),
            old(self).state == GameState::ProcessMove,
            old(self).current_player_data.moved_marble is Some,
        ensures
            engine_wf(*final(self)),
            ({
                let p = old(self).current_player_data.player;
                let pi = player_index(p);
                let mid = old(self).current_player_data.moved_marble->0;
                let g = 5 * pi + mid;
                let moved = old(self).marbles@[g];
                let captured = if FIRST_HOME_INDEX <= moved.index <= LAST_HOME_INDEX {
                    None
                } else {
                    spec_capture_target(*old(self), moved.index as int, 20)
                };
                let accrue = !spec_player_data(old(self).game_data, p).power_up_status.home_run
                    && move_accrual_ok(moved.prev_index as int, moved.index as int);
                let units = spec_move_power_units(
                    moved.index as int,
                    spec_move_distance(moved.prev_index as int, moved.index as int),
                );
                let deltas = (if captured is Some {
                    seq![CAPTURE_POWER_UNITS as int]
                } else {
                    Seq::empty()
                }) + (if accrue {
                    seq![units]
                } else {
                    Seq::empty()
                });
                &&& (match captured {
                    Some(og) => final(self).marbles@ == old(self).marbles@.update(
                        og,
                        Marble {
                            index: BASE_INDEX,
                            prev_index: old(self).marbles@[og].prev_index,
                        },
                    ),
                    None => final(self).marbles@ == old(self).marbles@,
                })
                &&& final(self).power_bars@[pi] == bar_after(old(self).power_bars@[pi], deltas)
                &&& (match captured {
                    Some(og) => final(self).power_bars@[player_index(owner_of(og))]
                        == spec_bar_update(
                        old(self).power_bars@[player_index(owner_of(og))],
                        -(CAPTURE_POWER_UNITS as int),
                    ).0,
                    None => true,
                })
                &&& (forall|q: Player|
                    q != p && (match captured {
                        Some(og) => q != owner_of(og),
                        None => true,
                    }) ==> final(self).power_bars@[#[trigger] player_index(q)] == old(
                        self,
                    ).power_bars@[player_index(q)])
                &&& final(self).state == (if spec_all_home(*old(self), p) {
                    GameState::GameEnd
                } else {
                    GameState::TurnSetup
                })
                &&& final(self).current_player_data.player == p
                &&& final(self).current_player_data.possible_moves@.len() == 0
                &&& final(self).current_player_data.selected_marble is None
                &&& final(self).current_player_data.selected_move is None
                &&& final(self).current_player_data.moved_marble is None
                &&& spec_player_data(final(self).game_data, p).power_up_status == (PowerUpStatus {
                    capture_nearest: false,
                    home_run: false,
                    ..spec_player_data(old(self).game_data, p).power_up_status
                })
                &&& (forall|q: Player|
                    q != p ==> spec_player_data(#[trigger] final(self).game_data, q).power_up_status
                        == spec_player_data(old(self).game_data, q).power_up_status)
                &&& (forall|q: Player|
                    spec_player_data(#[trigger] final(self).game_data, q).turn_move_count
                        == spec_player_data(old(self).game_data, q).turn_move_count
                        && spec_player_data(final(self).game_data, q).consecutive_empty_turns
                        == spec_player_data(old(self).game_data, q).consecutive_empty_turns)
                &&& (forall|q: Player, j: int|
                    0 <= j < spec_player_data(old(self).game_data, q).power_ups@.len()
                        && (#[trigger] spec_player_data(old(self).game_data, q).power_ups@[j])
                        is Some ==> spec_player_data(#[trigger] final(self).game_data, q).power_ups@[j]
                        == spec_player_data(old(self).game_data, q).power_ups@[j])
                &&& final(self).dice == old(self).dice
                &&& final(self).human_player == old(self).human_player
            }),
    {
        let p = self.current_player_data.player;
        let ghost pi = player_index(p);
        let mid = match self.current_player_data.moved_marble {
            Some(m) => m,
            None => {
                proof {
                    assert(false);
                }
                0
            }
        };
        let g = 5 * p.ordinal() as usize + mid;
        let moved = self.marbles[g];
        let ghost captured = if FIRST_HOME_INDEX <= moved.index <= LAST_HOME_INDEX {
            None
        } else {
            spec_capture_target(*old(self), moved.index as int, 20)
        };

        // capture resolution: skipped entirely for a move ending in the home
        // row
        let mut captive: Option<Player> = None;
        if !(FIRST_HOME_INDEX <= moved.index && moved.index <= LAST_HOME_INDEX) {
            match self.find_capture(moved.index) {
                Some(og) => {
                    let owner = Player::from_index((og / 5) as u8);
                    proof {
                        lemma_capture_target_props(*old(self), moved.index as int, 20);
                        assert(owner == owner_of(og as int));
                        assert(player_index(owner) == og as int / 5);
                        assert(og as int / 5 != pi);
                    }
                    let mut cm = self.marbles[og];
                    cm.index = BASE_INDEX;
                    self.marbles[og] = cm;
                    captive = Some(owner);
                }
                None => {}
            }
        }
        proof {
            match captured {
                Some(og) => {
                    assert(captive == Some(owner_of(og)));
                    assert(self.marbles@ =~= old(self).marbles@.update(
                        og,
                        Marble { index: BASE_INDEX, prev_index: old(self).marbles@[og].prev_index },
                    ));
                }
                None => {
                    assert(captive is None);
                    assert(self.marbles@ =~= old(self).marbles@);
                }
            }
        }

        // power accrual for the capture
        let ghost bars0 = self.power_bars@;
        let ghost data0 = self.game_data;
        if let Some(op) = captive {
            self.apply_power_delta(p, CAPTURE_POWER_UNITS as i64);
            self.apply_power_delta(op, -(CAPTURE_POWER_UNITS as i64));
            proof {
                lemma_player_index_injective(op, p);
                assert(self.power_bars@[pi] == spec_bar_update(
                    bars0[pi],
                    CAPTURE_POWER_UNITS as int,
                ).0);
            }
        }
        let ghost bars1 = self.power_bars@;

        // power accrual for the move's distance, except for a home run
        let home_run = self.game_data.get(p).power_up_status.home_run;
        proof {
            assert(home_run == spec_player_data(old(self).game_data, p).power_up_status.home_run);
        }
        let accruing = !home_run && crate::power::move_accrual_ok_exec(moved.prev_index, moved.index);
        if accruing {
            let units = move_power_units(moved.prev_index, moved.index);
            self.apply_power_delta(p, units as i64);
        }
        proof {
            let units = spec_move_power_units(
                moved.index as int,
                spec_move_distance(moved.prev_index as int, moved.index as int),
            );
            let deltas = (if captured is Some {
                seq![CAPTURE_POWER_UNITS as int]
            } else {
                Seq::<int>::empty()
            }) + (if accruing {
                seq![units]
            } else {
                Seq::<int>::empty()
            });
            if captured is Some {
                if accruing {
                    assert(deltas =~= seq![CAPTURE_POWER_UNITS as int, units]);
                    lemma_bar_after_two(bars0[pi], CAPTURE_POWER_UNITS as int, units);
                    assert(bars1[pi] == spec_bar_update(bars0[pi], CAPTURE_POWER_UNITS as int).0);
                    assert(self.power_bars@[pi] == spec_bar_update(bars1[pi], units).0);
                    assert(self.power_bars@[pi] == bar_after(bars0[pi], deltas));
                } else {
                    assert(deltas =~= seq![CAPTURE_POWER_UNITS as int]);
                    lemma_bar_after_one(bars0[pi], CAPTURE_POWER_UNITS as int);
                    assert(self.power_bars@[pi] == bar_after(bars0[pi], deltas));
                }
            } else {
                if accruing {
                    assert(deltas =~= seq![units]);
                    lemma_bar_after_one(bars0[pi], units);
                    assert(bars1[pi] == bars0[pi]);
                    assert(self.power_bars@[pi] == spec_bar_update(bars1[pi], units).0);
                    assert(self.power_bars@[pi] == bar_after(bars0[pi], deltas));
                } else {
                    assert(deltas =~= Seq::<int>::empty());
                    lemma_bar_after_zero(bars0[pi]);
                    assert(self.power_bars@[pi] == bar_after(bars0[pi], deltas));
                }
            }
        }

        // win detection: a capture moves only opposing marbles, so the
        // mover's own marbles are judged as they stand
        proof {
            assert forall|k: int| 0 <= k < 5 implies #[trigger] self.marbles@[5 * player_index(p)
                + k] == old(self).marbles@[5 * player_index(p) + k] by {
                assert((5 * player_index(p) + k) / 5 == player_index(p)) by (nonlinear_arith)
                    requires
                        0 <= k < 5,
                        0 <= player_index(p),
                ;
                if captured is Some {
                    lemma_capture_target_props(*old(self), moved.index as int, 20);
                }
            }
            assert(spec_all_home(*self, p) ==> spec_all_home(*old(self), p)) by {
                if spec_all_home(*self, p) {
                    assert forall|k: int|
                        0 <= k < 5 implies FIRST_HOME_INDEX <= (#[trigger] old(self).marbles@[5
                        * player_index(p) + k]).index <= LAST_HOME_INDEX by {
                        assert(self.marbles@[5 * player_index(p) + k] == old(self).marbles@[5
                            * player_index(p) + k]);
                        assert(FIRST_HOME_INDEX <= self.marbles@[5 * player_index(p) + k].index
                            <= LAST_HOME_INDEX);
                    }
                }
            }
            assert(spec_all_home(*old(self), p) ==> spec_all_home(*self, p)) by {
                if spec_all_home(*old(self), p) {
                    assert forall|k: int|
                        0 <= k < 5 implies FIRST_HOME_INDEX <= (#[trigger] self.marbles@[5
                        * player_index(p) + k]).index <= LAST_HOME_INDEX by {
                        assert(self.marbles@[5 * player_index(p) + k] == old(self).marbles@[5
                            * player_index(p) + k]);
                        assert(FIRST_HOME_INDEX <= old(self).marbles@[5 * player_index(p)
                            + k].index <= LAST_HOME_INDEX);
                    }
                }
            }
            assert(spec_all_home(*self, p) == spec_all_home(*old(self), p));
        }
        if self.current_player_won() {
            self.state = GameState::GameEnd;
        } else {
            self.state = GameState::TurnSetup;
        }

        // the turn's transient data and one-shot effects are spent
        self.current_player_data.clear();
        let ghost g2 = self.game_data;
        let pd = self.game_data.get_mut(p);
        pd.power_up_status.clear_one_shots();
        proof {
            assert forall|q: Player| occupied_slots(
                (#[trigger] spec_player_data(self.game_data, q)).power_ups@,
            ) == self.power_bars@[player_index(q)].power_up_count by {
                lemma_player_data_set(g2, p, spec_player_data(self.game_data, p), q);
            }
            assert forall|q: Player| player_data_wf(
                #[trigger] spec_player_data(self.game_data, q),
            ) by {
                lemma_player_data_set(g2, p, spec_player_data(self.game_data, p), q);
            }
            assert forall|q: Player|
                q != p implies spec_player_data(#[trigger] self.game_data, q).power_up_status
                == spec_player_data(old(self).game_data, q).power_up_status by {
                lemma_player_data_set(g2, p, spec_player_data(self.game_data, p), q);
            }
        }
    }

    /// The game is over: hand control back to the menu.
    pub fn game_end(&mut self)
        requires
            engine_wf(*old(self)),
            old(self).state == GameState::GameEnd,
        ensures
            engine_wf(*final(self)),
            final(self).state == GameState::MainMenu,
            *final(self) == (GameEngine { state: GameState::MainMenu, ..*old(self) }),
    {
        self.state = GameState::MainMenu;
    }

    /// Ends the turn: per-player end-of-turn bookkeeping runs, the turn's
    /// transient data is dropped, and the next player comes up.
    pub fn end_turn(&mut self)
        requires
            engine_wf(*old(self)),
            old(self).state == GameState::EndTurn,
        ensures
            engine_wf(*final(self)),
            ({
                let p = old(self).current_player_data.player;
                let od = spec_player_data(old(self).game_data, p);
                let nd = spec_player_data(final(self).game_data, p);
                &&& nd.power_up_status == spec_tick_status(od.power_up_status)
                &&& nd.turn_move_count == 0
                &&& nd.consecutive_empty_turns == (if od.turn_move_count > 0 {
                    0u8
                } else if od.consecutive_empty_turns == 255 {
                    255u8
                } else {
                    (od.consecutive_empty_turns + 1) as u8
                })
                &&& nd.power_ups@ == od.power_ups@
                &&& (forall|q: Player|
                    q != p ==> spec_player_data(#[trigger] final(self).game_data, q)
                        == spec_player_data(old(self).game_data, q))
                &&& final(self).state == GameState::NextPlayer
                &&& final(self).current_player_data.player == p
                &&& final(self).current_player_data.possible_moves@.len() == 0
                &&& final(self).current_player_data.selected_marble is None
                &&& final(self).current_player_data.selected_move is None
                &&& final(self).current_player_data.moved_marble is None
                &&& final(self).marbles@ == old(self).marbles@
                &&& final(self).dice == old(self).dice
                &&& final(self).power_bars@ == old(self).power_bars@
                &&& final(self).human_player == old(self).human_player
            }),
    {
        let p = self.current_player_data.player;
        let pd = self.game_data.get_mut(p);
        pd.end_of_turn();
        proof {
            assert forall|q: Player| occupied_slots(
                (#[trigger] spec_player_data(self.game_data, q)).power_ups@,
            ) == self.power_bars@[player_index(q)].power_up_count by {
                lemma_player_data_set(
                    old(self).game_data,
                    p,
                    spec_player_data(self.game_data, p),
                    q,
                );
            }
            assert forall|q: Player| player_data_wf(
                #[trigger] spec_player_data(self.game_data, q),
            ) by {
                lemma_player_data_set(
                    old(self).game_data,
                    p,
                    spec_player_data(self.game_data, p),
                    q,
                );
            }
            assert forall|q: Player|
                q != p implies spec_player_data(#[trigger] self.game_data, q) == spec_player_data(
                old(self).game_data,
                q,
            ) by {
                lemma_player_data_set(
                    old(self).game_data,
                    p,
                    spec_player_data(self.game_data, p),
                    q,
                );
            }
        }
        self.current_player_data.clear();
        self.state = GameState::NextPlayer;
    }
}

} // verus!
