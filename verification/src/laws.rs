//! The engine's cross-cutting guarantees, each stated as a proof over the
//! transition relations that [`crate::board::Board::handle_message`]
//! ensures. Together with [`crate::grid::lemma_wall_id_dedup`] and the
//! shape and damage lemmas of [`crate::tables`], these are the library's
//! stated laws.

use vstd::prelude::*;
use crate::board::BoardView;
use crate::board::BoardState;
use crate::board::Slot;
use crate::board::FatalError;
use crate::board::wf;
use crate::board::in_draw_phase;
use crate::board::in_move_phase;
use crate::board::in_teleport_phase;
use crate::board::sub_floor;
use crate::board::removed_one;
use crate::board::assign_to_slot_rel;
use crate::board::candidate_move_rel;
use crate::board::advance_rel;
use crate::board::advance_move_rel;
use crate::board::advance_encounter_rel;
use crate::board::handle_message_rel;
use crate::board::BoardMessage;
use crate::grid::Wall;
use crate::grid::wall_id_spec;
use crate::grid::neighbors_spec;
use crate::grid::is_teleport_cell;

verus! {

/// Assigning the selected die to a slot moves its face onto the slot: an
/// empty slot clears the die, while an occupied slot swaps its old face
/// back into the die instead of losing it. The die selection is cleared
/// either way.
pub proof fn lemma_assign_clears_or_swaps(pre: BoardView, post: BoardView, slot: Slot)
    requires
        wf(pre),
        pre.state == BoardState::AssignDice,
        pre.selected_die is Some,
        assign_to_slot_rel(pre, post, slot),
    ensures
        ({
            let which = pre.selected_die->0;
            let face = if which == 1 {
                pre.die1->0
            } else {
                pre.die2->0
            };
            let slot_pre = if slot == Slot::NextTile {
                pre.next_tile
            } else {
                pre.encounter
            };
            let slot_post = if slot == Slot::NextTile {
                post.next_tile
            } else {
                post.encounter
            };
            let die_post = if which == 1 {
                post.die1
            } else {
                post.die2
            };
            &&& slot_post == Some(face)
            &&& (slot_pre is None ==> die_post is None)
            &&& (slot_pre matches Some(w) ==> die_post == Some(w))
            &&& post.selected_die is None
        }),
{
}

/// Dice assignment cannot be left while any die remains unassigned: the
/// advance input changes nothing then.
pub proof fn lemma_assign_dice_gate(pre: BoardView, post: BoardView, r: Result<(), FatalError>)
    requires
        wf(pre),
        pre.state == BoardState::AssignDice,
        pre.die1 is Some || pre.die2 is Some,
        advance_rel(pre, post, r),
    ensures
        post == pre,
{
}

/// Wall drawing always advances, unconditionally, into the matching
/// movement phase.
pub proof fn lemma_draw_walls_always_advances(
    pre: BoardView,
    post: BoardView,
    r: Result<(), FatalError>,
)
    requires
        wf(pre),
        in_draw_phase(pre.state),
        advance_rel(pre, post, r),
    ensures
        in_move_phase(post.state),
        pre.state == BoardState::DrawWalls ==> post.state == BoardState::Movement,
        pre.state == BoardState::ShortcutDrawWalls ==> post.state
            == BoardState::ShortcutMovement,
        r is Ok,
{
}

/// Moving through a standing wall costs exactly 4 health, floored at zero,
/// and the commit removes one occurrence of that wall from the built walls;
/// moving through an open edge costs nothing and leaves the built walls
/// unchanged.
pub proof fn lemma_move_cost(
    pre: BoardView,
    mid: BoardView,
    post: BoardView,
    r: Result<(), FatalError>,
    through_wall: Wall,
    dest: usize,
)
    requires
        wf(pre),
        in_move_phase(pre.state),
        neighbors_spec(pre.player_location).contains((through_wall, dest)),
        candidate_move_rel(pre, mid, through_wall, dest),
        advance_move_rel(mid, post, r, pre.state == BoardState::ShortcutMovement),
    ensures
        ({
            let id = wall_id_spec(pre.player_location, through_wall) as usize;
            &&& (pre.built_walls.contains(id) ==> post.health == sub_floor(
                pre.health as int,
                4,
            ) as usize && removed_one(pre.built_walls, post.built_walls, id))
            &&& (!pre.built_walls.contains(id) ==> post.health == pre.health
                && post.built_walls == pre.built_walls)
        }),
{
}

/// Committing a move onto a teleport cell always routes into a
/// teleport-choice phase; committing onto any other cell skips directly to
/// the matching tile-effect phase.
pub proof fn lemma_move_routes_by_destination(
    pre: BoardView,
    post: BoardView,
    r: Result<(), FatalError>,
)
    requires
        wf(pre),
        in_move_phase(pre.state),
        pre.selected_move is Some,
        advance_move_rel(pre, post, r, pre.state == BoardState::ShortcutMovement),
    ensures
        is_teleport_cell((pre.selected_move->0).0) ==> in_teleport_phase(post.state),
        !is_teleport_cell((pre.selected_move->0).0) ==> (post.state == BoardState::TileEffect
            || post.state == BoardState::ShortcutTileEffect),
{
}

/// Resting at the campfire heals one health, and never raises health above
/// the maximum of 6.
pub proof fn lemma_rest_never_exceeds_max(
    pre: BoardView,
    post: BoardView,
    r: Result<(), FatalError>,
)
    requires
        wf(pre),
        pre.state == BoardState::Encounter,
        pre.encounter == Some(2usize),
        advance_encounter_rel(pre, post, r),
    ensures
        post.health <= 6,
        pre.health < 6 ==> post.health == pre.health + 1,
        pre.health == 6 ==> post.health == 6,
{
}

/// Within the defined turn range — turns 1 through 18 — no input can
/// produce an invariant violation: every wall lookup resolves, every wall
/// shape is defined, and every damage table is consulted inside its range.
/// The only fatal condition left is the player's death.
pub proof fn lemma_no_violation_within_turn_range(
    pre: BoardView,
    post: BoardView,
    message: BoardMessage,
    r: Result<(), FatalError>,
)
    requires
        wf(pre),
        pre.current_turn <= 18,
        handle_message_rel(pre, post, message, r),
    ensures
        r != Err::<(), FatalError>(FatalError::InvariantViolation),
{
}

/// While the player lives, death is reported exactly when an input brings
/// health to zero: `PlayerDied` comes back if and only if the new health is
/// zero.
pub proof fn lemma_death_reported_exactly_at_zero_health(
    pre: BoardView,
    post: BoardView,
    message: BoardMessage,
    r: Result<(), FatalError>,
)
    requires
        wf(pre),
        pre.health > 0,
        handle_message_rel(pre, post, message, r),
    ensures
        (r == Err::<(), FatalError>(FatalError::PlayerDied)) <==> post.health == 0,
{
}

/// Once committed for wall drawing — in every phase past dice assignment —
/// the next-tile face is present and never a 6: it was rerolled.
pub proof fn lemma_committed_next_tile_never_six(v: BoardView)
    requires
        wf(v),
        v.state != BoardState::AssignDice,
    ensures
        v.next_tile is Some,
        1 <= v.next_tile->0 <= 5,
{
}

} // verus!
