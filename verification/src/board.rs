//! The turn engine: all mutable game state, the phase state machine,
//! dice/slot assignment, wall drawing, movement, and the encounter and
//! tile-effect resolution tables.
//!
//! One logical input — a [`BoardMessage`] classified by an external input
//! layer — is applied at a time through [`Board::handle_message`]. Inputs
//! that are not legal for the active phase are silently ignored. The two
//! fatal, unrecoverable conditions are reported as [`FatalError`] values:
//! the player's health reaching zero, and an internal inconsistency such as
//! an encounter table consulted outside its defined turn range.

use vstd::prelude::*;
use crate::grid::Wall;
use crate::grid::valid_cell;
use crate::grid::is_teleport_cell;
use crate::grid::is_tile_effect_cell;
use crate::grid::wall_id;
use crate::grid::wall_id_spec;
use crate::grid::neighbors;
use crate::grid::neighbors_spec;
use crate::grid::NUM_WALLS;
use crate::grid::START_CELL;
use crate::grid::IDOL_CELL;
use crate::grid::PICKAXE_CELL;
use crate::grid::ELIXIR_CELL;
use crate::grid::MACHETE_CELL;
use crate::rng::Rng;
use crate::rng::rng_steps;
use crate::rng::rng_step;
use crate::rng::d6_of;
use crate::tables::sneak_damage_spec;
use crate::tables::beast_damage_spec;
use crate::tables::trap_damage_spec;
use crate::tables::sneak_damage;
use crate::tables::beast_damage;
use crate::tables::trap_damage;
use crate::grid::lemma_wall_id_bounds;
use crate::tables::wall_shape;
use crate::tables::shape_walls;
use crate::tables::next_orientation;

verus! {

/// The actions of a turn: exactly one phase is active at a time.
#[derive(Debug, Copy, Clone, PartialEq, Eq, Structural)]
pub enum BoardState {
    AssignDice,
    DrawWalls,
    Movement,
    TileEffect,
    Encounter,
    ChooseTeleport,
    ShortcutDrawWalls,
    ShortcutMovement,
    ShortcutChooseTeleport,
    ShortcutTileEffect,
    EndTurn,
}

/// The two die-face holders of a turn.
#[derive(Debug, Copy, Clone, PartialEq, Eq, Structural)]
pub enum Slot {
    NextTile,
    Encounter,
}

/// Messages that are triggered by classified mouse clicks.
#[derive(Debug, Copy, Clone)]
pub enum BoardMessage {
    NextState,
    Select(usize),
    ChooseDie1,
    ChooseDie2,
    ChooseNextTile,
    ChooseEncounter,
    ChangeWallOrientation,
    MoveToLocation((Wall, usize)),
    ChooseTeleport(usize),
}

/// The two fatal, unrecoverable conditions: the player dying, and an
/// internal inconsistency that has no defined resolution.
#[derive(Debug, Copy, Clone, PartialEq, Eq, Structural)]
pub enum FatalError {
    PlayerDied,
    InvariantViolation,
}

/// Logical ids of the fixed clickable regions, for routing clicks outside
/// the grid cells.
#[derive(Debug, Copy, Clone, PartialEq, Eq, Structural)]
pub enum ButtonId {
    Health,
    TurnNextAction,
    TurnAssignDice,
    TurnDrawWalls,
    TurnMovement,
    TurnTileEffect,
    TurnEncounter,
    Die1,
    Die2,
    NextTile,
    Encounter,
    Charm,
    Machete,
    Pickaxe,
    Shotgun,
    Bandage,
    Elixir,
    Idol,
}

/// The clickable-region index of each fixed button.
pub open spec fn button_index_spec(b: ButtonId) -> usize {
    match b {
        ButtonId::Health => 0,
        ButtonId::TurnNextAction => 30,
        ButtonId::TurnAssignDice => 31,
        ButtonId::TurnDrawWalls => 32,
        ButtonId::TurnMovement => 33,
        ButtonId::TurnTileEffect => 34,
        ButtonId::TurnEncounter => 35,
        ButtonId::Die1 => 28,
        ButtonId::Die2 => 29,
        ButtonId::NextTile => 8,
        ButtonId::Encounter => 9,
        ButtonId::Charm => 1,
        ButtonId::Machete => 2,
        ButtonId::Pickaxe => 3,
        ButtonId::Shotgun => 4,
        ButtonId::Bandage => 5,
        ButtonId::Elixir => 6,
        ButtonId::Idol => 7,
    }
}

impl ButtonId {
    /// Returns the clickable-region index of this button.
    pub fn index(self) -> (r: usize)
        ensures
            r == button_index_spec(self),
    {
        match self {
            ButtonId::Health => 0,
            ButtonId::TurnNextAction => 30,
            ButtonId::TurnAssignDice => 31,
            ButtonId::TurnDrawWalls => 32,
            ButtonId::TurnMovement => 33,
            ButtonId::TurnTileEffect => 34,
            ButtonId::TurnEncounter => 35,
            ButtonId::Die1 => 28,
            ButtonId::Die2 => 29,
            ButtonId::NextTile => 8,
            ButtonId::Encounter => 9,
            ButtonId::Charm => 1,
            ButtonId::Machete => 2,
            ButtonId::Pickaxe => 3,
            ButtonId::Shotgun => 4,
            ButtonId::Bandage => 5,
            ButtonId::Elixir => 6,
            ButtonId::Idol => 7,
        }
    }
}

/// Mathematical image of the whole engine state.
#[verifier::ext_equal]
pub ghost struct BoardView {
    pub state: BoardState,
    pub selected: Option<usize>,
    pub health: usize,
    pub die1: Option<usize>,
    pub die2: Option<usize>,
    pub selected_die: Option<usize>,
    pub selected_move: Option<(usize, usize, Option<usize>)>,
    pub selected_teleport: Option<usize>,
    pub next_tile: Option<usize>,
    pub encounter: Option<usize>,
    pub player_location: usize,
    pub current_turn: usize,
    pub built_walls: Seq<usize>,
    pub visited_locations: Seq<usize>,
    pub wall_orientation: usize,
    pub selected_walls: Seq<Wall>,
    pub rng: u128,
    pub idol: bool,
    pub elixir: bool,
    pub machete: bool,
    pub charm: usize,
    pub pickaxe: usize,
    pub shotgun: usize,
    pub bandage: usize,
}

/// A die face or slot value is in 1..=6 when present.
pub open spec fn face_opt(v: Option<usize>) -> bool {
    v matches Some(f) ==> 1 <= f <= 6
}

/// How many of the two dice and two slots currently hold a face. Every
/// assignment or swap preserves this count, so during dice assignment it
/// stays at two: both dice unassigned means both slots are filled.
pub open spec fn some_count(v: BoardView) -> int {
    (if v.die1 is Some { 1int } else { 0int })
    + (if v.die2 is Some { 1int } else { 0int })
    + (if v.next_tile is Some { 1int } else { 0int })
    + (if v.encounter is Some { 1int } else { 0int })
}

/// The wall-drawing phases, normal and shortcut.
pub open spec fn in_draw_phase(s: BoardState) -> bool {
    s == BoardState::DrawWalls || s == BoardState::ShortcutDrawWalls
}

/// The movement phases, normal and shortcut.
pub open spec fn in_move_phase(s: BoardState) -> bool {
    s == BoardState::Movement || s == BoardState::ShortcutMovement
}

/// The teleport-choice phases, normal and shortcut.
pub open spec fn in_teleport_phase(s: BoardState) -> bool {
    s == BoardState::ChooseTeleport || s == BoardState::ShortcutChooseTeleport
}

/// Well-formedness of the engine state. Established by the constructor and
/// preserved by every message. In particular, outside the dice-assignment
/// phase the committed next-tile face is never 6 (it was rerolled), and in a
/// wall-drawing phase the selected walls are exactly the shape of that face
/// at the current orientation.
pub open spec fn wf(v: BoardView) -> bool {
    &&& v.health <= 6
    &&& valid_cell(v.player_location)
    &&& v.current_turn >= 1
    &&& v.charm <= 2
    &&& v.pickaxe <= 2
    &&& v.shotgun <= 2
    &&& v.bandage <= 2
    &&& face_opt(v.die1)
    &&& face_opt(v.die2)
    &&& face_opt(v.next_tile)
    &&& face_opt(v.encounter)
    &&& v.wall_orientation < 4
    &&& (v.selected_die matches Some(i) ==> ((i == 1 && v.die1 is Some) || (i == 2
        && v.die2 is Some)))
    &&& (v.selected_move matches Some(m) ==> valid_cell(m.0) && m.1 <= 6 && (
    m.2 matches Some(id) ==> id < NUM_WALLS))
    &&& (v.selected_teleport matches Some(t) ==> is_teleport_cell(t))
    &&& (forall|i: int| 0 <= i < v.built_walls.len() ==> #[trigger] v.built_walls[i] < NUM_WALLS)
    &&& (forall|i: int|
        0 <= i < v.visited_locations.len() ==> valid_cell(#[trigger] v.visited_locations[i]))
    &&& (v.state == BoardState::AssignDice ==> some_count(v) == 2)
    &&& (v.state != BoardState::AssignDice ==> v.die1 is None && v.die2 is None && (
    v.next_tile matches Some(f) && f != 6) && v.encounter is Some)
    &&& (in_draw_phase(v.state) ==> v.selected_walls == wall_shape(
        v.next_tile->0 as int,
        v.wall_orientation as int,
    ))
    &&& (!in_draw_phase(v.state) ==> v.selected_walls.len() == 0)
    &&& (!in_move_phase(v.state) ==> v.selected_move is None)
    &&& (!in_teleport_phase(v.state) ==> v.selected_teleport is None)
}

/// Game board storing all engine state.
pub struct Board {
    /// Current phase of the turn.
    state: BoardState,
    /// Which clickable region is currently highlighted, if any.
    selected: Option<usize>,
    /// Current health of the player, in 0..=6.
    health: usize,
    /// Value of die 1.
    die1: Option<usize>,
    /// Value of die 2.
    die2: Option<usize>,
    /// Currently selected die (1 or 2).
    selected_die: Option<usize>,
    /// Currently selected movement candidate: destination cell, the health
    /// that results if the move is taken, and the wall broken, if any.
    selected_move: Option<(usize, usize, Option<usize>)>,
    /// Currently selected teleport destination.
    selected_teleport: Option<usize>,
    /// Die face assigned to the next-tile slot.
    next_tile: Option<usize>,
    /// Die face assigned to the encounter slot.
    encounter: Option<usize>,
    /// Current cell of the player.
    player_location: usize,
    /// Current turn, starting at 1.
    current_turn: usize,
    /// Wall identities currently standing; duplicates are possible, and
    /// breaking a wall removes one occurrence.
    built_walls: Vec<usize>,
    /// Every cell visited, in order, duplicates allowed; display only.
    visited_locations: Vec<usize>,
    /// Current orientation of the walls to place, in 0..=3.
    wall_orientation: usize,
    /// Wall directions currently selected for drawing.
    selected_walls: Vec<Wall>,
    /// The engine's die-roll source.
    rng: Rng,
    /// Does the player have the idol.
    idol: bool,
    /// Does the player have the elixir.
    elixir: bool,
    /// Does the player have the machete.
    machete: bool,
    /// Number of uses left on the charm.
    charm: usize,
    /// Number of uses left on the pickaxe.
    pickaxe: usize,
    /// Number of uses left on the shotgun.
    shotgun: usize,
    /// Number of uses left on the bandage.
    bandage: usize,
}

impl View for Board {
    type V = BoardView;

    closed spec fn view(&self) -> BoardView {
        BoardView {
            state: self.state,
            selected: self.selected,
            health: self.health,
            die1: self.die1,
            die2: self.die2,
            selected_die: self.selected_die,
            selected_move: self.selected_move,
            selected_teleport: self.selected_teleport,
            next_tile: self.next_tile,
            encounter: self.encounter,
            player_location: self.player_location,
            current_turn: self.current_turn,
            built_walls: self.built_walls@,
            visited_locations: self.visited_locations@,
            wall_orientation: self.wall_orientation,
            selected_walls: self.selected_walls@,
            rng: self.rng@,
            idol: self.idol,
            elixir: self.elixir,
            machete: self.machete,
            charm: self.charm,
            pickaxe: self.pickaxe,
            shotgun: self.shotgun,
            bandage: self.bandage,
        }
    }
}

impl Board {
    /// Creates a fresh board: dice-assignment phase, full health, the player
    /// on the starting cell at turn 1, no walls, no items, and both dice
    /// rolled from the seeded generator.
    pub fn new(seed: u64) -> (r: Board)
        ensures
            wf(r@),
            r@.state == BoardState::AssignDice,
            r@.selected is None,
            r@.health == 6,
            r@.die1 == Some(d6_of(rng_steps(seed as u128, 101))),
            r@.die2 == Some(d6_of(rng_steps(seed as u128, 102))),
            r@.selected_die is None,
            r@.selected_move is None,
            r@.selected_teleport is None,
            r@.next_tile is None,
            r@.encounter is None,
            r@.player_location == START_CELL,
            r@.current_turn == 1,
            r@.built_walls == Seq::<usize>::empty(),
            r@.visited_locations == seq![START_CELL],
            r@.wall_orientation == 0,
            r@.selected_walls == Seq::<Wall>::empty(),
            r@.rng == rng_steps(seed as u128, 102),
            !r@.idol,
            !r@.elixir,
            !r@.machete,
            r@.charm == 0,
            r@.pickaxe == 0,
            r@.shotgun == 0,
            r@.bandage == 0,
    {
        let mut rng = Rng::new(seed);
        let die1 = Some(rng.roll_d6());
        let die2 = Some(rng.roll_d6());
        proof {
            assert(rng_steps(seed as u128, 101) == crate::rng::rng_step(
                rng_steps(seed as u128, 100),
            ));
            assert(rng_steps(seed as u128, 102) == crate::rng::rng_step(
                rng_steps(seed as u128, 101),
            ));
        }
        let mut visited_locations: Vec<usize> = Vec::new();
        visited_locations.push(START_CELL);
        Board {
            state: BoardState::AssignDice,
            selected: None,
            health: 6,
            die1,
            die2,
            selected_die: None,
            selected_move: None,
            selected_teleport: None,
            next_tile: None,
            encounter: None,
            player_location: START_CELL,
            current_turn: 1,
            built_walls: Vec::new(),
            visited_locations,
            wall_orientation: 0,
            selected_walls: Vec::new(),
            rng,
            idol: false,
            elixir: false,
            machete: false,
            charm: 0,
            pickaxe: 0,
            shotgun: 0,
            bandage: 0,
        }
    }

    /// Sets the value of die 1.
    pub fn set_die1(&mut self, val: Option<usize>)
        requires
            face_opt(val),
        ensures
            final(self)@ == (BoardView { die1: val, ..old(self)@ }),
    {
        self.die1 = val;
    }

    /// Sets the value of die 2.
    pub fn set_die2(&mut self, val: Option<usize>)
        requires
            face_opt(val),
        ensures
            final(self)@ == (BoardView { die2: val, ..old(self)@ }),
    {
        self.die2 = val;
    }

    /// Sets the face on the next-tile slot.
    pub fn set_next_tile(&mut self, val: Option<usize>)
        requires
            face_opt(val),
        ensures
            final(self)@ == (BoardView { next_tile: val, ..old(self)@ }),
    {
        self.next_tile = val;
    }

    /// Sets the player's health; values above 6 are not representable states.
    pub fn set_health(&mut self, val: usize)
        requires
            val <= 6,
        ensures
            final(self)@ == (BoardView { health: val, ..old(self)@ }),
    {
        self.health = val;
    }

    /// Sets the number of uses left on the charm.
    pub fn set_charm(&mut self, val: usize)
        requires
            val <= 2,
        ensures
            final(self)@ == (BoardView { charm: val, ..old(self)@ }),
    {
        self.charm = val;
    }

    /// Grants the machete.
    pub fn find_machete(&mut self)
        ensures
            final(self)@ == (BoardView { machete: true, ..old(self)@ }),
    {
        self.machete = true;
    }

    /// Grants the idol.
    pub fn find_idol(&mut self)
        ensures
            final(self)@ == (BoardView { idol: true, ..old(self)@ }),
    {
        self.idol = true;
    }

    /// Sets the number of uses left on the pickaxe.
    pub fn set_pickaxe(&mut self, val: usize)
        requires
            val <= 2,
        ensures
            final(self)@ == (BoardView { pickaxe: val, ..old(self)@ }),
    {
        self.pickaxe = val;
    }

    /// Sets the number of uses left on the shotgun.
    pub fn set_shotgun(&mut self, val: usize)
        requires
            val <= 2,
        ensures
            final(self)@ == (BoardView { shotgun: val, ..old(self)@ }),
    {
        self.shotgun = val;
    }

    /// Sets the number of uses left on the bandage.
    pub fn set_bandage(&mut self, val: usize)
        requires
            val <= 2,
        ensures
            final(self)@ == (BoardView { bandage: val, ..old(self)@ }),
    {
        self.bandage = val;
    }

    /// Grants the elixir.
    pub fn find_elixir(&mut self)
        ensures
            final(self)@ == (BoardView { elixir: true, ..old(self)@ }),
    {
        self.elixir = true;
    }

    /// Consumes the elixir and heals 4 health, capped at the maximum of 6.
    pub fn use_elixir(&mut self)
        requires
            old(self)@.health <= 6,
        ensures
            final(self)@ == (BoardView {
                elixir: false,
                health: if old(self)@.health + 4 <= 6 {
                    (old(self)@.health + 4) as usize
                } else {
                    6
                },
                ..old(self)@
            }),
    {
        self.elixir = false;
        let new_health = if self.health + 4 <= 6 {
            self.health + 4
        } else {
            6
        };
        self.set_health(new_health);
    }

    /// Returns the (direction, neighbor) pairs of the player's current cell,
    /// in the order left, right, top, bottom.
    pub fn get_neighbors(&self) -> (r: Vec<(Wall, usize)>)
        requires
            valid_cell(self@.player_location),
        ensures
            r@ == neighbors_spec(self@.player_location),
    {
        neighbors(self.player_location)
    }

    /// Checks whether the wall in the given direction from the player's
    /// current cell is standing.
    pub fn is_wall_built(&self, wall: Wall) -> (r: bool)
        requires
            valid_cell(self@.player_location),
        ensures
            r == self@.built_walls.contains(
                wall_id_spec(self@.player_location, wall) as usize,
            ),
    {
        let curr_wall = match wall_id(self.player_location, wall) {
            Ok(id) => id,
            Err(_) => {
                assert(false);
                0
            },
        };
        let ghost target = wall_id_spec(self@.player_location, wall) as usize;
        let n = self.built_walls.len();
        let mut i: usize = 0;
        while i < n
            invariant
                valid_cell(self@.player_location),
                target == wall_id_spec(self@.player_location, wall) as usize,
                n == self@.built_walls.len(),
                i <= n,
                curr_wall == target,
                forall|j: int| 0 <= j < i ==> self@.built_walls[j] != target,
            decreases n - i,
        {
            if self.built_walls[i] == curr_wall {
                proof {
                    assert(self@.built_walls[i as int] == target);
                    assert(self@.built_walls.contains(target));
                }
                return true;
            }
            i += 1;
        }
        false
    }

    /// Inserts the currently selected walls, resolved at the player's
    /// current cell, into the built walls.
    pub fn insert_walls(&mut self)
        requires
            valid_cell(old(self)@.player_location),
        ensures
            final(self)@ == (BoardView {
                built_walls: old(self)@.built_walls + committed_wall_ids(
                    old(self)@.player_location,
                    old(self)@.selected_walls,
                ),
                ..old(self)@
            }),
    {
        let ghost orig = self@;
        let n = self.selected_walls.len();
        let mut i: usize = 0;
        while i < n
            invariant
                valid_cell(self@.player_location),
                n == self@.selected_walls.len(),
                i <= n,
                self@ == (BoardView {
                    built_walls: orig.built_walls + committed_wall_ids(
                        orig.player_location,
                        orig.selected_walls.take(i as int),
                    ),
                    ..orig
                }),
            decreases n - i,
        {
            let wall = self.selected_walls[i];
            match wall_id(self.player_location, wall) {
                Ok(id) => {
                    self.built_walls.push(id);
                },
                Err(_) => {
                    assert(false);
                },
            }
            i += 1;
            assert(orig.selected_walls.take(i as int) == orig.selected_walls.take(
                i as int - 1,
            ).push(orig.selected_walls[i as int - 1]));
        }
        assert(orig.selected_walls.take(n as int) == orig.selected_walls);
    }
}

/// The wall identities committed when drawing the given wall directions at
/// a cell, in selection order.
pub open spec fn committed_wall_ids(loc: usize, walls: Seq<Wall>) -> Seq<usize> {
    walls.map(|i: int, w: Wall| wall_id_spec(loc, w) as usize)
}

/// Health after taking damage, floored at zero.
pub open spec fn sub_floor(h: int, d: int) -> int {
    if d >= h {
        0
    } else {
        h - d
    }
}

/// Selecting a die: in the dice-assignment phase, selecting a die that
/// holds a face records it as the active selection, overwriting any
/// previous one; selecting an empty die, or selecting in any other phase,
/// is ignored.
pub open spec fn select_die_rel(pre: BoardView, post: BoardView, which: usize) -> bool {
    if pre.state == BoardState::AssignDice && ((which == 1 && pre.die1 is Some) || (which == 2
        && pre.die2 is Some)) {
        post == (BoardView { selected_die: Some(which), ..pre })
    } else {
        post == pre
    }
}

/// Assigning the selected die to a slot: the die's face moves onto the
/// slot. An empty slot clears the die; an occupied slot writes its old face
/// back into the die (a swap). The die selection is cleared. Without a
/// selected die, or outside the dice-assignment phase, nothing changes.
pub open spec fn assign_to_slot_rel(pre: BoardView, post: BoardView, slot: Slot) -> bool {
    if pre.state == BoardState::AssignDice && pre.selected_die is Some {
        let which = pre.selected_die->0;
        let face = if which == 1 {
            pre.die1->0
        } else {
            pre.die2->0
        };
        let displaced = if slot == Slot::NextTile {
            pre.next_tile
        } else {
            pre.encounter
        };
        if slot == Slot::NextTile {
            if which == 1 {
                post == (BoardView {
                    next_tile: Some(face),
                    die1: displaced,
                    selected_die: None,
                    ..pre
                })
            } else {
                post == (BoardView {
                    next_tile: Some(face),
                    die2: displaced,
                    selected_die: None,
                    ..pre
                })
            }
        } else {
            if which == 1 {
                post == (BoardView {
                    encounter: Some(face),
                    die1: displaced,
                    selected_die: None,
                    ..pre
                })
            } else {
                post == (BoardView {
                    encounter: Some(face),
                    die2: displaced,
                    selected_die: None,
                    ..pre
                })
            }
        }
    } else {
        post == pre
    }
}

/// Cycling the wall orientation: in a wall-drawing phase the orientation
/// advances one step mod 4 and the selected walls become the committed
/// next-tile face's shape at the new orientation; elsewhere the input is
/// ignored.
pub open spec fn cycle_orientation_rel(pre: BoardView, post: BoardView) -> bool {
    if in_draw_phase(pre.state) {
        post == (BoardView {
            wall_orientation: next_orientation(pre.wall_orientation as int) as usize,
            selected_walls: wall_shape(
                pre.next_tile->0 as int,
                next_orientation(pre.wall_orientation as int),
            ),
            ..pre
        })
    } else {
        post == pre
    }
}

/// Selecting a movement candidate: in a movement phase, a click on an
/// adjacent cell records the destination, the health that results if the
/// move is taken — 4 less, floored at zero, when the wall between is
/// standing — and the wall to break, if any. Committed state is untouched.
/// Clicks on non-adjacent cells, or in other phases, are ignored.
pub open spec fn candidate_move_rel(
    pre: BoardView,
    post: BoardView,
    through_wall: Wall,
    dest: usize,
) -> bool {
    if in_move_phase(pre.state) && neighbors_spec(pre.player_location).contains(
        (through_wall, dest),
    ) {
        let id = wall_id_spec(pre.player_location, through_wall) as usize;
        if pre.built_walls.contains(id) {
            post == (BoardView {
                selected_move: Some(
                    (dest, sub_floor(pre.health as int, 4) as usize, Some(id)),
                ),
                ..pre
            })
        } else {
            post == (BoardView { selected_move: Some((dest, pre.health, None)), ..pre })
        }
    } else {
        post == pre
    }
}

/// Selecting a teleport destination: in a teleport-choice phase, a click on
/// one of the two teleport cells records it; anything else is ignored.
pub open spec fn choose_teleport_rel(pre: BoardView, post: BoardView, index: usize) -> bool {
    if in_teleport_phase(pre.state) && is_teleport_cell(index) {
        post == (BoardView { selected_teleport: Some(index), ..pre })
    } else {
        post == pre
    }
}

/// Highlighting a clickable region: a pure display selection with no
/// gameplay meaning.
pub open spec fn select_rel(pre: BoardView, post: BoardView, x: usize) -> bool {
    post == (BoardView { selected: Some(x), ..pre })
}

impl Board {
    /// Records which die (1 or 2) is the active selection. Valid only in the
    /// dice-assignment phase, and only for a die that still holds a face;
    /// anything else is silently ignored.
    pub fn select_die(&mut self, which: usize)
        requires
            wf(old(self)@),
            which == 1 || which == 2,
        ensures
            wf(final(self)@),
            select_die_rel(old(self)@, final(self)@, which),
    {
        if matches!(self.state, BoardState::AssignDice) {
            if which == 1 && self.die1.is_some() {
                self.selected_die = Some(1);
            } else if which == 2 && self.die2.is_some() {
                self.selected_die = Some(2);
            }
        }
        proof {
            let pre = old(self)@;
            if pre.state == BoardState::AssignDice && ((which == 1 && pre.die1 is Some) || (
            which == 2 && pre.die2 is Some)) {
                assert(self@ =~= (BoardView { selected_die: Some(which), ..pre }));
            } else {
                assert(self@ =~= pre);
            }
        }
    }

    /// Assigns the face of the currently selected die to a slot. An empty
    /// slot clears the die; an occupied slot swaps its old face back into
    /// the die. With no die selected, or outside the dice-assignment phase,
    /// the input is silently ignored.
    pub fn assign_to_slot(&mut self, slot: Slot)
        requires
            wf(old(self)@),
        ensures
            wf(final(self)@),
            assign_to_slot_rel(old(self)@, final(self)@, slot),
    {
        if !matches!(self.state, BoardState::AssignDice) {
            return;
        }
        let which = match self.selected_die {
            Some(w) => w,
            None => {
                return;
            },
        };
        let face = if which == 1 {
            self.die1.unwrap()
        } else {
            self.die2.unwrap()
        };
        let displaced = match slot {
            Slot::NextTile => self.next_tile,
            Slot::Encounter => self.encounter,
        };
        match slot {
            Slot::NextTile => {
                self.next_tile = Some(face);
            },
            Slot::Encounter => {
                self.encounter = Some(face);
            },
        }
        self.selected_die = None;
        if which == 1 {
            self.die1 = displaced;
        } else {
            self.die2 = displaced;
        }
        proof {
            let pre = old(self)@;
            let face_s = if which == 1 {
                pre.die1->0
            } else {
                pre.die2->0
            };
            if slot == Slot::NextTile {
                if which == 1 {
                    assert(self@ =~= (BoardView {
                        next_tile: Some(face_s),
                        die1: displaced,
                        selected_die: None,
                        ..pre
                    }));
                } else {
                    assert(self@ =~= (BoardView {
                        next_tile: Some(face_s),
                        die2: displaced,
                        selected_die: None,
                        ..pre
                    }));
                }
            } else {
                if which == 1 {
                    assert(self@ =~= (BoardView {
                        encounter: Some(face_s),
                        die1: displaced,
                        selected_die: None,
                        ..pre
                    }));
                } else {
                    assert(self@ =~= (BoardView {
                        encounter: Some(face_s),
                        die2: displaced,
                        selected_die: None,
                        ..pre
                    }));
                }
            }
        }
    }

    /// Rotates the walls to place by 90 degrees. Valid only in a
    /// wall-drawing phase; elsewhere the input is silently ignored.
    pub fn change_wall_orientation(&mut self)
        requires
            wf(old(self)@),
        ensures
            wf(final(self)@),
            cycle_orientation_rel(old(self)@, final(self)@),
    {
        if matches!(self.state, BoardState::DrawWalls) || matches!(
            self.state,
            BoardState::ShortcutDrawWalls,
        ) {
            self.wall_orientation = (self.wall_orientation + 1) % 4;
            let face = self.next_tile.unwrap();
            self.selected_walls = shape_walls(face, self.wall_orientation);
        }
        proof {
            let pre = old(self)@;
            if in_draw_phase(pre.state) {
                assert(self@ =~= (BoardView {
                    wall_orientation: next_orientation(pre.wall_orientation as int) as usize,
                    selected_walls: wall_shape(
                        pre.next_tile->0 as int,
                        next_orientation(pre.wall_orientation as int),
                    ),
                    ..pre
                }));
            } else {
                assert(self@ =~= pre);
            }
        }
    }

    /// Records a movement candidate for a click on an adjacent cell: the
    /// destination, the health that results if the move is taken, and the
    /// wall that breaking the way would remove, if one is standing. Valid
    /// only in a movement phase and only for an adjacent cell; anything
    /// else is silently ignored.
    pub fn move_to_location(&mut self, through_wall: Wall, dest: usize)
        requires
            wf(old(self)@),
        ensures
            wf(final(self)@),
            candidate_move_rel(old(self)@, final(self)@, through_wall, dest),
    {
        if !(matches!(self.state, BoardState::Movement) || matches!(
            self.state,
            BoardState::ShortcutMovement,
        )) {
            return;
        }
        let nbs = self.get_neighbors();
        let mut adjacent = false;
        let n = nbs.len();
        let mut i: usize = 0;
        while i < n
            invariant
                n == nbs@.len(),
                i <= n,
                adjacent <==> exists|j: int|
                    0 <= j < i && nbs@[j] == (through_wall, dest),
            decreases n - i,
        {
            let (w, c) = nbs[i];
            if w == through_wall && c == dest {
                proof {
                    assert(nbs@[i as int] == (through_wall, dest));
                }
                adjacent = true;
            }
            i += 1;
        }
        if !adjacent {
            return;
        }
        let mut health = self.health;
        let mut wall: Option<usize> = None;
        if self.is_wall_built(through_wall) {
            let curr_wall = match wall_id(self.player_location, through_wall) {
                Ok(id) => id,
                Err(_) => {
                    assert(false);
                    0
                },
            };
            health = if self.health >= 4 {
                self.health - 4
            } else {
                0
            };
            wall = Some(curr_wall);
        }
        self.selected_move = Some((dest, health, wall));
        proof {
            let pre = old(self)@;
            let id = wall_id_spec(pre.player_location, through_wall) as usize;
            if pre.built_walls.contains(id) {
                assert(self@ =~= (BoardView {
                    selected_move: Some(
                        (dest, sub_floor(pre.health as int, 4) as usize, Some(id)),
                    ),
                    ..pre
                }));
            } else {
                assert(self@ =~= (BoardView {
                    selected_move: Some((dest, pre.health, None)),
                    ..pre
                }));
            }
        }
    }

    /// Records a teleport destination for a click on one of the two
    /// teleport cells. Valid only in a teleport-choice phase; anything else
    /// is silently ignored.
    pub fn choose_teleport(&mut self, index: usize)
        requires
            wf(old(self)@),
        ensures
            wf(final(self)@),
            choose_teleport_rel(old(self)@, final(self)@, index),
    {
        if matches!(self.state, BoardState::ChooseTeleport) || matches!(
            self.state,
            BoardState::ShortcutChooseTeleport,
        ) {
            if index == crate::grid::TELEPORT_LEFT || index == crate::grid::TELEPORT_RIGHT {
                self.selected_teleport = Some(index);
            }
        }
        proof {
            let pre = old(self)@;
            if in_teleport_phase(pre.state) && is_teleport_cell(index) {
                assert(self@ =~= (BoardView { selected_teleport: Some(index), ..pre }));
            } else {
                assert(self@ =~= pre);
            }
        }
    }

    /// Removes one standing occurrence of a wall identity, the earliest
    /// inserted, from the built walls; absent identities are a no-op.
    fn remove_built_wall(&mut self, id: usize)
        ensures
            final(self)@ == (BoardView {
                built_walls: final(self)@.built_walls,
                ..old(self)@
            }),
            removed_one(old(self)@.built_walls, final(self)@.built_walls, id),
            forall|i: int|
                0 <= i < final(self)@.built_walls.len() ==> old(self)@.built_walls.contains(
                    #[trigger] final(self)@.built_walls[i],
                ),
    {
        let n = self.built_walls.len();
        let mut i: usize = 0;
        while i < n
            invariant
                n == self@.built_walls.len(),
                i <= n,
                self@ == old(self)@,
                forall|j: int| 0 <= j < i ==> self@.built_walls[j] != id,
            decreases n - i,
        {
            if self.built_walls[i] == id {
                let ghost pre_walls = self@.built_walls;
                let ghost k = i as int;
                self.built_walls.remove(i);
                proof {
                    assert(pre_walls[k] == id);
                    assert(pre_walls.contains(id));
                    assert(self@.built_walls =~= pre_walls.remove(k));
                    assert(self@ =~= (BoardView {
                        built_walls: self@.built_walls,
                        ..old(self)@
                    }));
                    assert forall|j: int|
                        0 <= j < self@.built_walls.len() implies pre_walls.contains(
                        #[trigger] self@.built_walls[j],
                    ) by {
                        if j < k {
                            assert(self@.built_walls[j] == pre_walls[j]);
                        } else {
                            assert(self@.built_walls[j] == pre_walls[j + 1]);
                        }
                    }
                }
                return;
            }
            i += 1;
        }
        proof {
            assert(!old(self)@.built_walls.contains(id));
            assert(self@ =~= (BoardView { built_walls: self@.built_walls, ..old(self)@ }));
        }
    }

    /// Highlights a clickable region; display state with no gameplay effect.
    pub fn select(&mut self, x: usize)
        requires
            wf(old(self)@),
        ensures
            wf(final(self)@),
            select_rel(old(self)@, final(self)@, x),
    {
        self.selected = Some(x);
        proof {
            assert(self@ =~= (BoardView { selected: Some(x), ..old(self)@ }));
        }
    }
}

/// One occurrence of `id` — the earliest — was removed from `pre` to give
/// `post`; when `pre` holds no occurrence, `post` is `pre` unchanged.
pub open spec fn removed_one(pre: Seq<usize>, post: Seq<usize>, id: usize) -> bool {
    if pre.contains(id) {
        exists|k: int|
            #![auto]
            0 <= k < pre.len() && pre[k] == id && (forall|j: int| 0 <= j < k ==> pre[j] != id)
                && post == pre.remove(k)
    } else {
        post == pre
    }
}

/// The built walls after a movement commit: the wall to break, if any, loses
/// one occurrence.
pub open spec fn wall_removed(pre: Seq<usize>, post: Seq<usize>, w: Option<usize>) -> bool {
    match w {
        Some(id) => removed_one(pre, post, id),
        None => post == pre,
    }
}

/// Advancing out of dice assignment: only possible once both dice are
/// unassigned (both slots filled). The committed next-tile face is rerolled
/// while it is a 6 — so the face that seeds the wall shape is in 1..=5 —
/// the orientation resets to 0, the selected walls become that face's base
/// shape, and the phase moves to wall drawing. With a die still assigned,
/// nothing changes.
pub open spec fn advance_assign_rel(pre: BoardView, post: BoardView) -> bool {
    if pre.die1 is None && pre.die2 is None {
        &&& post.next_tile is Some
        &&& 1 <= post.next_tile->0 <= 5
        &&& (pre.next_tile->0 != 6 ==> post.next_tile->0 == pre.next_tile->0 && post.rng
            == pre.rng)
        &&& post == (BoardView {
            state: BoardState::DrawWalls,
            next_tile: post.next_tile,
            wall_orientation: 0,
            selected_walls: wall_shape(post.next_tile->0 as int, 0),
            rng: post.rng,
            ..pre
        })
    } else {
        post == pre
    }
}

/// Advancing out of wall drawing, which is never blocked: the selected
/// walls are committed at the player's cell, the selection is cleared, and
/// the phase moves to movement (shortcut wall drawing to shortcut
/// movement).
pub open spec fn advance_draw_rel(pre: BoardView, post: BoardView, shortcut: bool) -> bool {
    post == (BoardView {
        state: if shortcut {
            BoardState::ShortcutMovement
        } else {
            BoardState::Movement
        },
        built_walls: pre.built_walls + committed_wall_ids(
            pre.player_location,
            pre.selected_walls,
        ),
        selected_walls: Seq::empty(),
        ..pre
    })
}

/// Committing a pending move: the destination joins the visited history and
/// becomes the player's cell, the precomputed resulting health is applied,
/// the broken wall — if the move went through one — loses one standing
/// occurrence, and the selection is cleared. A teleport destination routes
/// to the teleport-choice phase, any other to the tile-effect phase. A
/// resulting health of zero is the player's death. Without a pending move,
/// nothing changes.
pub open spec fn advance_move_rel(
    pre: BoardView,
    post: BoardView,
    r: Result<(), FatalError>,
    shortcut: bool,
) -> bool {
    match pre.selected_move {
        None => post == pre && r is Ok,
        Some(m) => {
            &&& wall_removed(pre.built_walls, post.built_walls, m.2)
            &&& post == (BoardView {
                state: if is_teleport_cell(m.0) {
                    if shortcut {
                        BoardState::ShortcutChooseTeleport
                    } else {
                        BoardState::ChooseTeleport
                    }
                } else {
                    if shortcut {
                        BoardState::ShortcutTileEffect
                    } else {
                        BoardState::TileEffect
                    }
                },
                visited_locations: pre.visited_locations.push(m.0),
                player_location: m.0,
                health: m.1,
                built_walls: post.built_walls,
                selected_move: None,
                ..pre
            })
            &&& r == (if m.1 == 0 {
                Err::<(), FatalError>(FatalError::PlayerDied)
            } else {
                Ok::<(), FatalError>(())
            })
        },
    }
}

/// The one-time reward of arriving at a tile-effect cell; any other cell
/// grants nothing.
pub open spec fn tile_effect_view(v: BoardView) -> BoardView {
    if v.player_location == IDOL_CELL {
        BoardView { idol: true, ..v }
    } else if v.player_location == PICKAXE_CELL {
        BoardView { pickaxe: 2, ..v }
    } else if v.player_location == ELIXIR_CELL {
        BoardView { elixir: true, ..v }
    } else if v.player_location == MACHETE_CELL {
        BoardView { machete: true, ..v }
    } else {
        v
    }
}

/// Advancing out of the tile-effect phase, which is never blocked: the
/// current cell's one-time effect applies, and the phase moves to the
/// encounter (shortcut tile effect ends the turn instead).
pub open spec fn advance_tile_rel(pre: BoardView, post: BoardView, shortcut: bool) -> bool {
    post == (BoardView {
        state: if shortcut {
            BoardState::EndTurn
        } else {
            BoardState::Encounter
        },
        ..tile_effect_view(pre)
    })
}

/// Committing a pending teleport: the chosen cell joins the visited history
/// and becomes the player's cell, the selection is cleared, and the phase
/// moves to the encounter (the shortcut variant ends the turn instead).
/// Without a pending teleport, nothing changes.
pub open spec fn advance_teleport_rel(pre: BoardView, post: BoardView, shortcut: bool) -> bool {
    match pre.selected_teleport {
        None => post == pre,
        Some(t) => post == (BoardView {
            state: if shortcut {
                BoardState::EndTurn
            } else {
                BoardState::Encounter
            },
            visited_locations: pre.visited_locations.push(t),
            player_location: t,
            selected_teleport: None,
            ..pre
        }),
    }
}

/// The item granted by an encounter-item roll.
pub open spec fn grant_item_view(v: BoardView, roll: usize) -> BoardView {
    if roll == 1 {
        BoardView { charm: 2, ..v }
    } else if roll == 2 {
        BoardView { machete: true, ..v }
    } else if roll == 3 {
        BoardView { pickaxe: 2, ..v }
    } else if roll == 4 {
        BoardView { shotgun: 2, ..v }
    } else if roll == 5 {
        BoardView { bandage: 2, ..v }
    } else {
        BoardView { elixir: true, ..v }
    }
}

/// Resolving the encounter, keyed by the encounter face.
///
/// Faces 1 and 3 roll a fresh die and deal table damage banded by that roll
/// and the turn; face 2 rests, healing one up to the maximum of 6; face 4
/// rolls a fresh non-6 next-tile face and branches into the shortcut
/// sub-loop; face 5 grants a rolled item unless the player stands on a
/// tile-effect cell; face 6 deals turn-banded trap damage. Health is
/// floored at zero and reaching zero is the player's death, reported after
/// the face's effect has been applied. A damage table consulted outside
/// its defined turn range 1..=18 is an invariant violation: the face's
/// effect does not apply (though faces 1 and 3 have rolled), and the state
/// is otherwise unchanged.
pub open spec fn advance_encounter_rel(
    pre: BoardView,
    post: BoardView,
    r: Result<(), FatalError>,
) -> bool {
    let face = pre.encounter->0;
    if face == 1 || face == 3 {
        let roll = d6_of(rng_step(pre.rng));
        if 1 <= pre.current_turn <= 18 {
            let dmg = if face == 1 {
                sneak_damage_spec(roll as int, pre.current_turn as int)
            } else {
                beast_damage_spec(roll as int, pre.current_turn as int)
            };
            let h2 = sub_floor(pre.health as int, dmg) as usize;
            if h2 == 0 {
                post == (BoardView { health: h2, rng: rng_step(pre.rng), ..pre }) && r == Err::<
                    (),
                    FatalError,
                >(FatalError::PlayerDied)
            } else {
                post == (BoardView {
                    health: h2,
                    state: BoardState::EndTurn,
                    rng: rng_step(pre.rng),
                    ..pre
                }) && r is Ok
            }
        } else {
            post == (BoardView { rng: rng_step(pre.rng), ..pre }) && r == Err::<
                (),
                FatalError,
            >(FatalError::InvariantViolation)
        }
    } else if face == 2 {
        let h2 = if pre.health < 6 {
            (pre.health + 1) as usize
        } else {
            pre.health
        };
        post == (BoardView { health: h2, state: BoardState::EndTurn, ..pre }) && r is Ok
    } else if face == 4 {
        &&& post.next_tile is Some
        &&& 1 <= post.next_tile->0 <= 5
        &&& (d6_of(rng_step(pre.rng)) != 6 ==> post.next_tile->0 == d6_of(rng_step(pre.rng))
            && post.rng == rng_step(pre.rng))
        &&& post == (BoardView {
            state: BoardState::ShortcutDrawWalls,
            next_tile: post.next_tile,
            wall_orientation: 0,
            selected_walls: wall_shape(post.next_tile->0 as int, 0),
            rng: post.rng,
            ..pre
        })
        &&& r == (if pre.health == 0 {
            Err::<(), FatalError>(FatalError::PlayerDied)
        } else {
            Ok::<(), FatalError>(())
        })
    } else if face == 5 {
        if is_tile_effect_cell(pre.player_location) {
            if pre.health == 0 {
                post == pre && r == Err::<(), FatalError>(FatalError::PlayerDied)
            } else {
                post == (BoardView { state: BoardState::EndTurn, ..pre }) && r is Ok
            }
        } else {
            let roll = d6_of(rng_step(pre.rng));
            if pre.health == 0 {
                post == (BoardView { rng: rng_step(pre.rng), ..grant_item_view(pre, roll) })
                    && r == Err::<(), FatalError>(FatalError::PlayerDied)
            } else {
                post == (BoardView {
                    state: BoardState::EndTurn,
                    rng: rng_step(pre.rng),
                    ..grant_item_view(pre, roll)
                }) && r is Ok
            }
        }
    } else {
        if 1 <= pre.current_turn <= 18 {
            let h2 = sub_floor(pre.health as int, trap_damage_spec(pre.current_turn as int))
                as usize;
            if h2 == 0 {
                post == (BoardView { health: h2, ..pre }) && r == Err::<(), FatalError>(
                    FatalError::PlayerDied,
                )
            } else {
                post == (BoardView { health: h2, state: BoardState::EndTurn, ..pre })
                    && r is Ok
            }
        } else {
            post == pre && r == Err::<(), FatalError>(FatalError::InvariantViolation)
        }
    }
}

/// Ending the turn, which is never blocked: both dice reroll, both slots
/// clear, the turn counter increments (capped only by the machine integer),
/// and a new dice-assignment phase begins.
pub open spec fn advance_end_rel(pre: BoardView, post: BoardView) -> bool {
    post == (BoardView {
        state: BoardState::AssignDice,
        die1: Some(d6_of(rng_step(pre.rng))),
        die2: Some(d6_of(rng_step(rng_step(pre.rng)))),
        next_tile: None,
        encounter: None,
        current_turn: if pre.current_turn < usize::MAX {
            (pre.current_turn + 1) as usize
        } else {
            pre.current_turn
        },
        rng: rng_step(rng_step(pre.rng)),
        ..pre
    })
}

impl Board {
    /// Advances out of dice assignment, rerolling a committed next-tile
    /// face of 6 and seeding the wall shape.
    fn advance_assign(&mut self)
        requires
            wf(old(self)@),
            old(self)@.state == BoardState::AssignDice,
        ensures
            wf(final(self)@),
            advance_assign_rel(old(self)@, final(self)@),
    {
        if self.die1.is_none() && self.die2.is_none() {
            let cur = self.next_tile.unwrap();
            let f = if cur == 6 {
                self.rng.roll_non6()
            } else {
                cur
            };
            self.next_tile = Some(f);
            self.wall_orientation = 0;
            self.selected_walls = shape_walls(f, 0);
            self.state = BoardState::DrawWalls;
            proof {
                assert(self@ =~= (BoardView {
                    state: BoardState::DrawWalls,
                    next_tile: Some(f),
                    wall_orientation: 0,
                    selected_walls: wall_shape(f as int, 0),
                    rng: self@.rng,
                    ..old(self)@
                }));
            }
        } else {
            proof {
                assert(self@ =~= old(self)@);
            }
        }
    }

    /// Advances out of wall drawing: commits the selected walls and clears
    /// the selection.
    fn advance_draw(&mut self)
        requires
            wf(old(self)@),
            in_draw_phase(old(self)@.state),
        ensures
            wf(final(self)@),
            advance_draw_rel(
                old(self)@,
                final(self)@,
                old(self)@.state == BoardState::ShortcutDrawWalls,
            ),
    {
        let shortcut = matches!(self.state, BoardState::ShortcutDrawWalls);
        self.insert_walls();
        self.selected_walls.clear();
        self.state = if shortcut {
            BoardState::ShortcutMovement
        } else {
            BoardState::Movement
        };
        proof {
            let pre = old(self)@;
            let committed = committed_wall_ids(pre.player_location, pre.selected_walls);
            assert forall|i: int| 0 <= i < committed.len() implies #[trigger] committed[i]
                < NUM_WALLS by {
                lemma_wall_id_bounds(pre.player_location, pre.selected_walls[i]);
            }
            assert(self@ =~= (BoardView {
                state: if shortcut {
                    BoardState::ShortcutMovement
                } else {
                    BoardState::Movement
                },
                built_walls: pre.built_walls + committed,
                selected_walls: Seq::empty(),
                ..pre
            }));
        }
    }

    /// Advances out of the tile-effect phase, applying the current cell's
    /// one-time effect.
    fn advance_tile(&mut self)
        requires
            wf(old(self)@),
            old(self)@.state == BoardState::TileEffect || old(self)@.state
                == BoardState::ShortcutTileEffect,
        ensures
            wf(final(self)@),
            advance_tile_rel(
                old(self)@,
                final(self)@,
                old(self)@.state == BoardState::ShortcutTileEffect,
            ),
    {
        let shortcut = matches!(self.state, BoardState::ShortcutTileEffect);
        if self.player_location == IDOL_CELL {
            self.find_idol();
        } else if self.player_location == PICKAXE_CELL {
            self.set_pickaxe(2);
        } else if self.player_location == ELIXIR_CELL {
            self.find_elixir();
        } else if self.player_location == MACHETE_CELL {
            self.find_machete();
        }
        self.state = if shortcut {
            BoardState::EndTurn
        } else {
            BoardState::Encounter
        };
        proof {
            assert(self@ =~= (BoardView {
                state: if shortcut {
                    BoardState::EndTurn
                } else {
                    BoardState::Encounter
                },
                ..tile_effect_view(old(self)@)
            }));
        }
    }

    /// Advances out of a teleport choice, committing the pending teleport.
    fn advance_teleport(&mut self)
        requires
            wf(old(self)@),
            in_teleport_phase(old(self)@.state),
        ensures
            wf(final(self)@),
            advance_teleport_rel(
                old(self)@,
                final(self)@,
                old(self)@.state == BoardState::ShortcutChooseTeleport,
            ),
    {
        let shortcut = matches!(self.state, BoardState::ShortcutChooseTeleport);
        let tele_loc = match self.selected_teleport {
            Some(t) => t,
            None => {
                proof {
                    assert(self@ =~= old(self)@);
                }
                return;
            },
        };
        self.visited_locations.push(tele_loc);
        self.player_location = tele_loc;
        self.selected_teleport = None;
        self.state = if shortcut {
            BoardState::EndTurn
        } else {
            BoardState::Encounter
        };
        proof {
            assert(self@ =~= (BoardView {
                state: if shortcut {
                    BoardState::EndTurn
                } else {
                    BoardState::Encounter
                },
                visited_locations: old(self)@.visited_locations.push(tele_loc),
                player_location: tele_loc,
                selected_teleport: None,
                ..old(self)@
            }));
        }
    }

    /// Advances out of a movement phase, committing the pending move.
    fn advance_move(&mut self) -> (r: Result<(), FatalError>)
        requires
            wf(old(self)@),
            in_move_phase(old(self)@.state),
        ensures
            wf(final(self)@),
            advance_move_rel(
                old(self)@,
                final(self)@,
                r,
                old(self)@.state == BoardState::ShortcutMovement,
            ),
    {
        let shortcut = matches!(self.state, BoardState::ShortcutMovement);
        let (next_location, next_health, wall) = match self.selected_move {
            Some(m) => m,
            None => {
                proof {
                    assert(self@ =~= old(self)@);
                }
                return Ok(());
            },
        };
        self.visited_locations.push(next_location);
        self.player_location = next_location;
        if let Some(broken_wall) = wall {
            self.remove_built_wall(broken_wall);
        }
        self.set_health(next_health);
        self.selected_move = None;
        let teleport = next_location == crate::grid::TELEPORT_LEFT || next_location
            == crate::grid::TELEPORT_RIGHT;
        self.state = if teleport {
            if shortcut {
                BoardState::ShortcutChooseTeleport
            } else {
                BoardState::ChooseTeleport
            }
        } else {
            if shortcut {
                BoardState::ShortcutTileEffect
            } else {
                BoardState::TileEffect
            }
        };
        proof {
            let pre = old(self)@;
            assert forall|i: int| 0 <= i < self@.built_walls.len() implies #[trigger] self@
                .built_walls[i] < NUM_WALLS by {
                assert(pre.built_walls.contains(self@.built_walls[i]));
                let j = choose|j: int|
                    0 <= j < pre.built_walls.len() && pre.built_walls[j] == self@
                        .built_walls[i];
                assert(pre.built_walls[j] < NUM_WALLS);
            }
            assert(self@ =~= (BoardView {
                state: self@.state,
                visited_locations: pre.visited_locations.push(next_location),
                player_location: next_location,
                health: next_health,
                built_walls: self@.built_walls,
                selected_move: None,
                ..pre
            }));
        }
        if next_health == 0 {
            Err(FatalError::PlayerDied)
        } else {
            Ok(())
        }
    }

    /// Resolves the encounter by its assigned face: damage tables for faces
    /// 1, 3 and 6, rest for face 2, the shortcut sub-loop for face 4, and an
    /// item for face 5.
    fn advance_encounter(&mut self) -> (r: Result<(), FatalError>)
        requires
            wf(old(self)@),
            old(self)@.state == BoardState::Encounter,
        ensures
            wf(final(self)@),
            advance_encounter_rel(old(self)@, final(self)@, r),
    {
        let face = self.encounter.unwrap();
        if face == 1 || face == 3 {
            let rand_roll = self.rng.roll_d6();
            if self.current_turn >= 1 && self.current_turn <= 18 {
                let dmg = if face == 1 {
                    sneak_damage(rand_roll, self.current_turn)
                } else {
                    beast_damage(rand_roll, self.current_turn)
                };
                let h2 = if dmg >= self.health {
                    0
                } else {
                    self.health - dmg
                };
                self.set_health(h2);
                if h2 == 0 {
                    proof {
                        assert(self@ =~= (BoardView {
                            health: h2,
                            rng: rng_step(old(self)@.rng),
                            ..old(self)@
                        }));
                    }
                    return Err(FatalError::PlayerDied);
                }
                self.state = BoardState::EndTurn;
                proof {
                    assert(self@ =~= (BoardView {
                        health: h2,
                        state: BoardState::EndTurn,
                        rng: rng_step(old(self)@.rng),
                        ..old(self)@
                    }));
                }
                Ok(())
            } else {
                proof {
                    assert(self@ =~= (BoardView {
                        rng: rng_step(old(self)@.rng),
                        ..old(self)@
                    }));
                }
                Err(FatalError::InvariantViolation)
            }
        } else if face == 2 {
            if self.health < 6 {
                let h = self.health + 1;
                self.set_health(h);
            }
            self.state = BoardState::EndTurn;
            proof {
                let pre = old(self)@;
                let h2 = if pre.health < 6 {
                    (pre.health + 1) as usize
                } else {
                    pre.health
                };
                assert(self@ =~= (BoardView {
                    health: h2,
                    state: BoardState::EndTurn,
                    ..pre
                }));
            }
            Ok(())
        } else if face == 4 {
            let f = self.rng.roll_non6();
            self.next_tile = Some(f);
            self.wall_orientation = 0;
            self.selected_walls = shape_walls(f, 0);
            self.state = BoardState::ShortcutDrawWalls;
            proof {
                assert(self@ =~= (BoardView {
                    state: BoardState::ShortcutDrawWalls,
                    next_tile: Some(f),
                    wall_orientation: 0,
                    selected_walls: wall_shape(f as int, 0),
                    rng: self@.rng,
                    ..old(self)@
                }));
            }
            if self.health == 0 {
                Err(FatalError::PlayerDied)
            } else {
                Ok(())
            }
        } else if face == 5 {
            let loc = self.player_location;
            let on_effect_cell = loc == IDOL_CELL || loc == PICKAXE_CELL || loc == ELIXIR_CELL
                || loc == MACHETE_CELL;
            if !on_effect_cell {
                let item_roll = self.rng.roll_d6();
                if item_roll == 1 {
                    self.set_charm(2);
                } else if item_roll == 2 {
                    self.find_machete();
                } else if item_roll == 3 {
                    self.set_pickaxe(2);
                } else if item_roll == 4 {
                    self.set_shotgun(2);
                } else if item_roll == 5 {
                    self.set_bandage(2);
                } else {
                    self.find_elixir();
                }
                proof {
                    assert(self@ =~= (BoardView {
                        rng: rng_step(old(self)@.rng),
                        ..grant_item_view(old(self)@, d6_of(rng_step(old(self)@.rng)))
                    }));
                }
            }
            if self.health == 0 {
                proof {
                    if on_effect_cell {
                        assert(self@ =~= old(self)@);
                    }
                }
                return Err(FatalError::PlayerDied);
            }
            self.state = BoardState::EndTurn;
            proof {
                let pre = old(self)@;
                if on_effect_cell {
                    assert(self@ =~= (BoardView { state: BoardState::EndTurn, ..pre }));
                } else {
                    assert(self@ =~= (BoardView {
                        state: BoardState::EndTurn,
                        rng: rng_step(pre.rng),
                        ..grant_item_view(pre, d6_of(rng_step(pre.rng)))
                    }));
                }
            }
            Ok(())
        } else {
            if self.current_turn >= 1 && self.current_turn <= 18 {
                let dmg = trap_damage(self.current_turn);
                let h2 = if dmg >= self.health {
                    0
                } else {
                    self.health - dmg
                };
                self.set_health(h2);
                if h2 == 0 {
                    proof {
                        assert(self@ =~= (BoardView { health: h2, ..old(self)@ }));
                    }
                    return Err(FatalError::PlayerDied);
                }
                self.state = BoardState::EndTurn;
                proof {
                    assert(self@ =~= (BoardView {
                        health: h2,
                        state: BoardState::EndTurn,
                        ..old(self)@
                    }));
                }
                Ok(())
            } else {
                proof {
                    assert(self@ =~= old(self)@);
                }
                Err(FatalError::InvariantViolation)
            }
        }
    }

    /// Ends the turn: rerolls both dice, clears both slots, and increments
    /// the turn counter.
    fn advance_end(&mut self)
        requires
            wf(old(self)@),
            old(self)@.state == BoardState::EndTurn,
        ensures
            wf(final(self)@),
            advance_end_rel(old(self)@, final(self)@),
    {
        let val1 = self.rng.roll_d6();
        self.set_die1(Some(val1));
        let val2 = self.rng.roll_d6();
        self.set_die2(Some(val2));
        self.next_tile = None;
        self.encounter = None;
        if self.current_turn < usize::MAX {
            self.current_turn = self.current_turn + 1;
        }
        self.state = BoardState::AssignDice;
        proof {
            let pre = old(self)@;
            assert(self@ =~= (BoardView {
                state: BoardState::AssignDice,
                die1: Some(d6_of(rng_step(pre.rng))),
                die2: Some(d6_of(rng_step(rng_step(pre.rng)))),
                next_tile: None,
                encounter: None,
                current_turn: if pre.current_turn < usize::MAX {
                    (pre.current_turn + 1) as usize
                } else {
                    pre.current_turn
                },
                rng: rng_step(rng_step(pre.rng)),
                ..pre
            }));
        }
    }

    /// Advances the phase state machine one step, as the explicit advance
    /// input does.
    pub fn advance(&mut self) -> (r: Result<(), FatalError>)
        requires
            wf(old(self)@),
        ensures
            wf(final(self)@),
            advance_rel(old(self)@, final(self)@, r),
    {
        match self.state {
            BoardState::AssignDice => {
                self.advance_assign();
                Ok(())
            },
            BoardState::DrawWalls | BoardState::ShortcutDrawWalls => {
                self.advance_draw();
                Ok(())
            },
            BoardState::Movement | BoardState::ShortcutMovement => self.advance_move(),
            BoardState::TileEffect | BoardState::ShortcutTileEffect => {
                self.advance_tile();
                Ok(())
            },
            BoardState::ChooseTeleport | BoardState::ShortcutChooseTeleport => {
                self.advance_teleport();
                Ok(())
            },
            BoardState::Encounter => self.advance_encounter(),
            BoardState::EndTurn => {
                self.advance_end();
                Ok(())
            },
        }
    }

    /// Applies one classified input to the engine. Inputs not valid for the
    /// active phase are silently ignored; the two fatal conditions — the
    /// player dying, and a table consulted outside its defined range — are
    /// reported as errors, after which the session is over.
    pub fn handle_message(&mut self, message: BoardMessage) -> (r: Result<(), FatalError>)
        requires
            wf(old(self)@),
        ensures
            wf(final(self)@),
            handle_message_rel(old(self)@, final(self)@, message, r),
    {
        match message {
            BoardMessage::NextState => self.advance(),
            BoardMessage::Select(x) => {
                self.select(x);
                Ok(())
            },
            BoardMessage::ChooseDie1 => {
                self.select_die(1);
                Ok(())
            },
            BoardMessage::ChooseDie2 => {
                self.select_die(2);
                Ok(())
            },
            BoardMessage::ChooseNextTile => {
                self.assign_to_slot(Slot::NextTile);
                Ok(())
            },
            BoardMessage::ChooseEncounter => {
                self.assign_to_slot(Slot::Encounter);
                Ok(())
            },
            BoardMessage::ChangeWallOrientation => {
                self.change_wall_orientation();
                Ok(())
            },
            BoardMessage::MoveToLocation(p) => {
                let (through_wall, dest) = p;
                self.move_to_location(through_wall, dest);
                Ok(())
            },
            BoardMessage::ChooseTeleport(i) => {
                self.choose_teleport(i);
                Ok(())
            },
        }
    }
}

impl Board {
    /// Current phase of the turn.
    pub fn state(&self) -> (r: BoardState)
        ensures
            r == self@.state,
    {
        self.state
    }

    /// Currently highlighted clickable region, if any.
    pub fn selected(&self) -> (r: Option<usize>)
        ensures
            r == self@.selected,
    {
        self.selected
    }

    /// Current health of the player.
    pub fn health(&self) -> (r: usize)
        ensures
            r == self@.health,
    {
        self.health
    }

    /// Value of die 1.
    pub fn die1(&self) -> (r: Option<usize>)
        ensures
            r == self@.die1,
    {
        self.die1
    }

    /// Value of die 2.
    pub fn die2(&self) -> (r: Option<usize>)
        ensures
            r == self@.die2,
    {
        self.die2
    }

    /// Currently selected die (1 or 2), if any.
    pub fn selected_die(&self) -> (r: Option<usize>)
        ensures
            r == self@.selected_die,
    {
        self.selected_die
    }

    /// Pending movement candidate, if any: destination, resulting health,
    /// and the wall to break.
    pub fn selected_move(&self) -> (r: Option<(usize, usize, Option<usize>)>)
        ensures
            r == self@.selected_move,
    {
        self.selected_move
    }

    /// Pending teleport destination, if any.
    pub fn selected_teleport(&self) -> (r: Option<usize>)
        ensures
            r == self@.selected_teleport,
    {
        self.selected_teleport
    }

    /// Die face on the next-tile slot, if any.
    pub fn next_tile(&self) -> (r: Option<usize>)
        ensures
            r == self@.next_tile,
    {
        self.next_tile
    }

    /// Die face on the encounter slot, if any.
    pub fn encounter(&self) -> (r: Option<usize>)
        ensures
            r == self@.encounter,
    {
        self.encounter
    }

    /// Current cell of the player.
    pub fn player_location(&self) -> (r: usize)
        ensures
            r == self@.player_location,
    {
        self.player_location
    }

    /// Current turn number.
    pub fn current_turn(&self) -> (r: usize)
        ensures
            r == self@.current_turn,
    {
        self.current_turn
    }

    /// The standing wall identities, in insertion order.
    pub fn built_walls(&self) -> (r: &Vec<usize>)
        ensures
            r@ == self@.built_walls,
    {
        &self.built_walls
    }

    /// Every cell visited, in order.
    pub fn visited_locations(&self) -> (r: &Vec<usize>)
        ensures
            r@ == self@.visited_locations,
    {
        &self.visited_locations
    }

    /// Current orientation of the walls to place.
    pub fn wall_orientation(&self) -> (r: usize)
        ensures
            r == self@.wall_orientation,
    {
        self.wall_orientation
    }

    /// Wall directions currently selected for drawing.
    pub fn selected_walls(&self) -> (r: &Vec<Wall>)
        ensures
            r@ == self@.selected_walls,
    {
        &self.selected_walls
    }

    /// Does the player have the idol.
    pub fn idol(&self) -> (r: bool)
        ensures
            r == self@.idol,
    {
        self.idol
    }

    /// Does the player have the elixir.
    pub fn elixir(&self) -> (r: bool)
        ensures
            r == self@.elixir,
    {
        self.elixir
    }

    /// Does the player have the machete.
    pub fn machete(&self) -> (r: bool)
        ensures
            r == self@.machete,
    {
        self.machete
    }

    /// Number of uses left on the charm.
    pub fn charm(&self) -> (r: usize)
        ensures
            r == self@.charm,
    {
        self.charm
    }

    /// Number of uses left on the pickaxe.
    pub fn pickaxe(&self) -> (r: usize)
        ensures
            r == self@.pickaxe,
    {
        self.pickaxe
    }

    /// Number of uses left on the shotgun.
    pub fn shotgun(&self) -> (r: usize)
        ensures
            r == self@.shotgun,
    {
        self.shotgun
    }

    /// Number of uses left on the bandage.
    pub fn bandage(&self) -> (r: usize)
        ensures
            r == self@.bandage,
    {
        self.bandage
    }
}

/// The whole phase state machine, as driven by one advance input.
pub open spec fn advance_rel(
    pre: BoardView,
    post: BoardView,
    r: Result<(), FatalError>,
) -> bool {
    match pre.state {
        BoardState::AssignDice => advance_assign_rel(pre, post) && r is Ok,
        BoardState::DrawWalls => advance_draw_rel(pre, post, false) && r is Ok,
        BoardState::ShortcutDrawWalls => advance_draw_rel(pre, post, true) && r is Ok,
        BoardState::Movement => advance_move_rel(pre, post, r, false),
        BoardState::ShortcutMovement => advance_move_rel(pre, post, r, true),
        BoardState::TileEffect => advance_tile_rel(pre, post, false) && r is Ok,
        BoardState::ShortcutTileEffect => advance_tile_rel(pre, post, true) && r is Ok,
        BoardState::ChooseTeleport => advance_teleport_rel(pre, post, false) && r is Ok,
        BoardState::ShortcutChooseTeleport => advance_teleport_rel(pre, post, true)
            && r is Ok,
        BoardState::Encounter => advance_encounter_rel(pre, post, r),
        BoardState::EndTurn => advance_end_rel(pre, post) && r is Ok,
    }
}

/// What one classified input does to the engine: the advance input drives
/// the phase machine; every other input is a phase-gated selection that
/// cannot fail.
pub open spec fn handle_message_rel(
    pre: BoardView,
    post: BoardView,
    message: BoardMessage,
    r: Result<(), FatalError>,
) -> bool {
    match message {
        BoardMessage::NextState => advance_rel(pre, post, r),
        BoardMessage::Select(x) => select_rel(pre, post, x) && r is Ok,
        BoardMessage::ChooseDie1 => select_die_rel(pre, post, 1) && r is Ok,
        BoardMessage::ChooseDie2 => select_die_rel(pre, post, 2) && r is Ok,
        BoardMessage::ChooseNextTile => assign_to_slot_rel(pre, post, Slot::NextTile)
            && r is Ok,
        BoardMessage::ChooseEncounter => assign_to_slot_rel(pre, post, Slot::Encounter)
            && r is Ok,
        BoardMessage::ChangeWallOrientation => cycle_orientation_rel(pre, post) && r is Ok,
        BoardMessage::MoveToLocation(p) => candidate_move_rel(pre, post, p.0, p.1)
            && r is Ok,
        BoardMessage::ChooseTeleport(i) => choose_teleport_rel(pre, post, i) && r is Ok,
    }
}

} // verus!
