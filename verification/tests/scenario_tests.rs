use temple_antics::board::{Board, BoardMessage, BoardState, FatalError};
use temple_antics::grid::Wall;

/// Assigns die 1 to the next-tile slot and die 2 to the encounter slot.
fn assign_die1_next_die2_encounter(b: &mut Board) {
    b.handle_message(BoardMessage::ChooseDie1).unwrap();
    b.handle_message(BoardMessage::ChooseNextTile).unwrap();
    b.handle_message(BoardMessage::ChooseDie2).unwrap();
    b.handle_message(BoardMessage::ChooseEncounter).unwrap();
}

#[test]
fn a_full_first_turn_from_the_starting_cell() {
    // Seed 71 rolls dice 3 and 5, and its third roll — the encounter item —
    // is a 3, the pickaxe.
    let mut b = Board::new(71);
    assert_eq!(b.current_turn(), 1);
    assert_eq!(b.health(), 6);
    assert_eq!(b.player_location(), 60);
    assert_eq!(b.die1(), Some(3));
    assert_eq!(b.die2(), Some(5));

    assign_die1_next_die2_encounter(&mut b);
    assert_eq!(b.next_tile(), Some(3));
    assert_eq!(b.encounter(), Some(5));
    assert_eq!(b.die1(), None);
    assert_eq!(b.die2(), None);

    b.handle_message(BoardMessage::NextState).unwrap();
    assert_eq!(b.state(), BoardState::DrawWalls);
    assert_eq!(b.selected_walls(), &vec![Wall::Left, Wall::Right]);

    b.handle_message(BoardMessage::NextState).unwrap();
    assert_eq!(b.state(), BoardState::Movement);
    assert!(b.is_wall_built(Wall::Left));
    assert!(b.is_wall_built(Wall::Right));

    // Move up through an unbuilt edge: free.
    b.handle_message(BoardMessage::MoveToLocation((Wall::Top, 52))).unwrap();
    assert_eq!(b.selected_move(), Some((52, 6, None)));
    b.handle_message(BoardMessage::NextState).unwrap();
    assert_eq!(b.state(), BoardState::TileEffect);
    assert_eq!(b.player_location(), 52);
    assert_eq!(b.health(), 6);
    assert_eq!(b.visited_locations(), &vec![60, 52]);

    // Cell 52 carries no tile effect.
    b.handle_message(BoardMessage::NextState).unwrap();
    assert_eq!(b.state(), BoardState::Encounter);
    assert!(!b.idol());
    assert!(!b.elixir());
    assert!(!b.machete());
    assert_eq!(b.pickaxe(), 0);

    // Encounter face 5 away from the effect cells: the item roll is a 3,
    // granting the pickaxe.
    b.handle_message(BoardMessage::NextState).unwrap();
    assert_eq!(b.state(), BoardState::EndTurn);
    assert_eq!(b.pickaxe(), 2);
    assert_eq!(b.health(), 6);

    b.handle_message(BoardMessage::NextState).unwrap();
    assert_eq!(b.state(), BoardState::AssignDice);
    assert_eq!(b.current_turn(), 2);
    assert!(b.die1().is_some());
    assert!(b.die2().is_some());
    assert_eq!(b.next_tile(), None);
    assert_eq!(b.encounter(), None);
}

#[test]
fn breaking_a_wall_costs_four_health_and_removes_the_wall() {
    // Seed 47 rolls dice 3 and 2, then 3 and 2 again for the second turn.
    let mut b = Board::new(47);
    assert_eq!(b.die1(), Some(3));
    assert_eq!(b.die2(), Some(2));
    assign_die1_next_die2_encounter(&mut b);
    b.handle_message(BoardMessage::NextState).unwrap();
    b.handle_message(BoardMessage::NextState).unwrap();
    assert_eq!(b.state(), BoardState::Movement);
    // Face 3 built {Left, Right} at cell 60; move right through the wall.
    assert!(b.is_wall_built(Wall::Right));
    b.handle_message(BoardMessage::MoveToLocation((Wall::Right, 61))).unwrap();
    let (dest, resulting_health, broken) = b.selected_move().unwrap();
    assert_eq!(dest, 61);
    assert_eq!(resulting_health, 2);
    assert!(broken.is_some());
    b.handle_message(BoardMessage::NextState).unwrap();
    assert_eq!(b.player_location(), 61);
    assert_eq!(b.health(), 2);
    // The broken wall is gone: only cell 60's left wall remains standing.
    assert!(!b.is_wall_built(Wall::Left));
    assert_eq!(b.built_walls().len(), 1);
}

#[test]
fn dying_on_a_wall_break_is_reported_as_the_player_death() {
    let mut b = Board::new(47);
    // Turn 1: build {Left, Right} at 60, break right (health 6 -> 2), rest
    // at the encounter campfire (health 3).
    assign_die1_next_die2_encounter(&mut b);
    b.handle_message(BoardMessage::NextState).unwrap();
    b.handle_message(BoardMessage::NextState).unwrap();
    b.handle_message(BoardMessage::MoveToLocation((Wall::Right, 61))).unwrap();
    b.handle_message(BoardMessage::NextState).unwrap();
    b.handle_message(BoardMessage::NextState).unwrap();
    assert_eq!(b.state(), BoardState::Encounter);
    assert_eq!(b.encounter(), Some(2));
    b.handle_message(BoardMessage::NextState).unwrap();
    assert_eq!(b.health(), 3);
    b.handle_message(BoardMessage::NextState).unwrap();
    assert_eq!(b.current_turn(), 2);

    // Turn 2: dice 3 and 2 again; face 3 rebuilds {Left, Right} at 61, and
    // breaking back through the left wall floors health at zero.
    assert_eq!(b.die1(), Some(3));
    assign_die1_next_die2_encounter(&mut b);
    b.handle_message(BoardMessage::NextState).unwrap();
    b.handle_message(BoardMessage::NextState).unwrap();
    assert_eq!(b.state(), BoardState::Movement);
    assert!(b.is_wall_built(Wall::Left));
    b.handle_message(BoardMessage::MoveToLocation((Wall::Left, 60))).unwrap();
    let (_, resulting_health, _) = b.selected_move().unwrap();
    assert_eq!(resulting_health, 0);
    let r = b.handle_message(BoardMessage::NextState);
    assert_eq!(r, Err(FatalError::PlayerDied));
    assert_eq!(b.health(), 0);
    assert_eq!(b.player_location(), 60);
}

#[test]
fn arriving_at_a_teleport_cell_routes_through_the_teleport_choice() {
    // Seed 80 rolls 4 and 2 for three turns in a row: face 4 draws only a
    // left wall, face 2 rests, and moving up each turn walks 60 -> 52 -> 44
    // -> 36, the left teleport cell.
    let mut b = Board::new(80);
    for expected_cell in [52, 44] {
        assign_die1_next_die2_encounter(&mut b);
        b.handle_message(BoardMessage::NextState).unwrap();
        assert_eq!(b.state(), BoardState::DrawWalls);
        b.handle_message(BoardMessage::NextState).unwrap();
        b.handle_message(BoardMessage::MoveToLocation((Wall::Top, expected_cell))).unwrap();
        b.handle_message(BoardMessage::NextState).unwrap();
        // An ordinary cell skips directly to the tile effect.
        assert_eq!(b.state(), BoardState::TileEffect);
        assert_eq!(b.player_location(), expected_cell);
        assert_eq!(b.health(), 6);
        b.handle_message(BoardMessage::NextState).unwrap();
        b.handle_message(BoardMessage::NextState).unwrap();
        b.handle_message(BoardMessage::NextState).unwrap();
        assert_eq!(b.state(), BoardState::AssignDice);
    }
    assert_eq!(b.current_turn(), 3);
    assign_die1_next_die2_encounter(&mut b);
    b.handle_message(BoardMessage::NextState).unwrap();
    b.handle_message(BoardMessage::NextState).unwrap();
    b.handle_message(BoardMessage::MoveToLocation((Wall::Top, 36))).unwrap();
    b.handle_message(BoardMessage::NextState).unwrap();
    // The teleport cell routes to the teleport choice, not the tile effect.
    assert_eq!(b.state(), BoardState::ChooseTeleport);
    assert_eq!(b.player_location(), 36);
    // Choosing the other teleport cell and advancing lands there, then
    // continues into the encounter.
    b.handle_message(BoardMessage::ChooseTeleport(43)).unwrap();
    assert_eq!(b.selected_teleport(), Some(43));
    b.handle_message(BoardMessage::NextState).unwrap();
    assert_eq!(b.state(), BoardState::Encounter);
    assert_eq!(b.player_location(), 43);
}

#[test]
fn a_teleport_choice_does_not_advance_without_a_selection() {
    let mut b = Board::new(80);
    for cell in [52, 44, 36] {
        assign_die1_next_die2_encounter(&mut b);
        b.handle_message(BoardMessage::NextState).unwrap();
        b.handle_message(BoardMessage::NextState).unwrap();
        b.handle_message(BoardMessage::MoveToLocation((Wall::Top, cell))).unwrap();
        b.handle_message(BoardMessage::NextState).unwrap();
        if cell != 36 {
            b.handle_message(BoardMessage::NextState).unwrap();
            b.handle_message(BoardMessage::NextState).unwrap();
            b.handle_message(BoardMessage::NextState).unwrap();
        }
    }
    assert_eq!(b.state(), BoardState::ChooseTeleport);
    b.handle_message(BoardMessage::NextState).unwrap();
    assert_eq!(b.state(), BoardState::ChooseTeleport);
    // A click on a non-teleport cell is ignored too.
    b.handle_message(BoardMessage::ChooseTeleport(50)).unwrap();
    assert_eq!(b.selected_teleport(), None);
}

/// Plays whole turns with safe choices — healing before every encounter and
/// movement — until a damage-table encounter lands past turn 18, where the
/// table is undefined. Returns the board at that point, or `None` when the
/// run dies first.
fn drive_past_the_last_turn_band(seed: u64) -> Option<Board> {
    let mut b = Board::new(seed);
    for _ in 0..5000 {
        match b.state() {
            BoardState::AssignDice => {
                if let (Some(a), Some(c)) = (b.die1(), b.die2()) {
                    // Face preference for the encounter slot: safe faces
                    // while the damage tables still apply, table faces once
                    // past their range.
                    let pref: [usize; 6] = if b.current_turn() > 18 {
                        [6, 3, 1, 2, 5, 4]
                    } else {
                        [2, 5, 4, 6, 3, 1]
                    };
                    let rank_a = pref.iter().position(|&f| f == a).unwrap();
                    let rank_c = pref.iter().position(|&f| f == c).unwrap();
                    if rank_a <= rank_c {
                        b.handle_message(BoardMessage::ChooseDie1).unwrap();
                        b.handle_message(BoardMessage::ChooseEncounter).unwrap();
                        b.handle_message(BoardMessage::ChooseDie2).unwrap();
                        b.handle_message(BoardMessage::ChooseNextTile).unwrap();
                    } else {
                        b.handle_message(BoardMessage::ChooseDie2).unwrap();
                        b.handle_message(BoardMessage::ChooseEncounter).unwrap();
                        b.handle_message(BoardMessage::ChooseDie1).unwrap();
                        b.handle_message(BoardMessage::ChooseNextTile).unwrap();
                    }
                }
                b.handle_message(BoardMessage::NextState).unwrap();
            }
            BoardState::DrawWalls
            | BoardState::ShortcutDrawWalls
            | BoardState::TileEffect
            | BoardState::ShortcutTileEffect
            | BoardState::EndTurn => {
                b.handle_message(BoardMessage::NextState).unwrap();
            }
            BoardState::Movement | BoardState::ShortcutMovement => {
                b.set_health(6);
                let nbs = b.get_neighbors();
                let mut choice = nbs[0];
                for &(w, c) in &nbs {
                    if !b.is_wall_built(w) {
                        choice = (w, c);
                        break;
                    }
                }
                b.handle_message(BoardMessage::MoveToLocation(choice)).unwrap();
                if b.handle_message(BoardMessage::NextState).is_err() {
                    return None;
                }
            }
            BoardState::ChooseTeleport | BoardState::ShortcutChooseTeleport => {
                b.handle_message(BoardMessage::ChooseTeleport(43)).unwrap();
                b.handle_message(BoardMessage::NextState).unwrap();
            }
            BoardState::Encounter => {
                b.set_health(6);
                match b.handle_message(BoardMessage::NextState) {
                    Ok(()) => {}
                    Err(FatalError::PlayerDied) => return None,
                    Err(FatalError::InvariantViolation) => return Some(b),
                }
            }
        }
        assert!(b.health() <= 6);
    }
    None
}

#[test]
fn a_damage_table_past_turn_eighteen_is_an_invariant_violation() {
    let mut found = None;
    for seed in 0..50 {
        if let Some(b) = drive_past_the_last_turn_band(seed) {
            found = Some(b);
            break;
        }
    }
    let b = found.expect("some seed survives past turn 18");
    assert!(b.current_turn() > 18);
    // The violation leaves the encounter unresolved and the health untouched.
    assert_eq!(b.state(), BoardState::Encounter);
    assert_eq!(b.health(), 6);
    let face = b.encounter().unwrap();
    assert!(face == 1 || face == 3 || face == 6);
}

#[test]
fn resting_at_full_health_changes_nothing() {
    // Seed 80's first turn ends in a rest encounter (face 2) at full health.
    let mut b = Board::new(80);
    assign_die1_next_die2_encounter(&mut b);
    b.handle_message(BoardMessage::NextState).unwrap();
    b.handle_message(BoardMessage::NextState).unwrap();
    b.handle_message(BoardMessage::MoveToLocation((Wall::Top, 52))).unwrap();
    b.handle_message(BoardMessage::NextState).unwrap();
    b.handle_message(BoardMessage::NextState).unwrap();
    assert_eq!(b.state(), BoardState::Encounter);
    assert_eq!(b.encounter(), Some(2));
    assert_eq!(b.health(), 6);
    b.handle_message(BoardMessage::NextState).unwrap();
    assert_eq!(b.state(), BoardState::EndTurn);
    assert_eq!(b.health(), 6);
}
