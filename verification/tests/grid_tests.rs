use temple_antics::grid::{
    neighbors, wall_id, GridError, Wall, ELIXIR_CELL, FIRST_CELL, IDOL_CELL, LAST_CELL,
    MACHETE_CELL, NUM_WALLS, PICKAXE_CELL, START_CELL, TELEPORT_LEFT, TELEPORT_RIGHT,
};

#[test]
fn wall_id_rejects_cells_outside_the_grid() {
    assert_eq!(wall_id(0, Wall::Top), Err(GridError::UnknownWall));
    assert_eq!(wall_id(35, Wall::Left), Err(GridError::UnknownWall));
    assert_eq!(wall_id(68, Wall::Bottom), Err(GridError::UnknownWall));
}

#[test]
fn wall_id_is_defined_for_every_grid_cell_and_direction() {
    for cell in FIRST_CELL..=LAST_CELL {
        for &dir in &[Wall::Top, Wall::Right, Wall::Bottom, Wall::Left] {
            let id = wall_id(cell, dir).expect("wall id of a grid cell");
            assert!(id < NUM_WALLS);
        }
    }
}

#[test]
fn shared_walls_resolve_to_one_identity_from_both_sides() {
    for cell in FIRST_CELL..=LAST_CELL {
        let col = (cell - FIRST_CELL) % 8;
        let row = (cell - FIRST_CELL) / 8;
        if col < 7 {
            assert_eq!(
                wall_id(cell, Wall::Right).unwrap(),
                wall_id(cell + 1, Wall::Left).unwrap(),
                "right wall of {} is the left wall of {}",
                cell,
                cell + 1
            );
        }
        if row < 3 {
            assert_eq!(
                wall_id(cell, Wall::Bottom).unwrap(),
                wall_id(cell + 8, Wall::Top).unwrap(),
                "bottom wall of {} is the top wall of {}",
                cell,
                cell + 8
            );
        }
    }
}

#[test]
fn distinct_walls_have_distinct_identities() {
    // Collect each cell's four wall ids and check that the only collisions
    // are the shared edges of adjacent cells.
    let mut seen: Vec<(usize, usize, Wall)> = Vec::new();
    for cell in FIRST_CELL..=LAST_CELL {
        for &dir in &[Wall::Top, Wall::Right, Wall::Bottom, Wall::Left] {
            let id = wall_id(cell, dir).unwrap();
            for &(other_id, other_cell, other_dir) in &seen {
                if other_id == id {
                    let same = other_cell == cell && other_dir == dir;
                    let shared_h = (dir == Wall::Top
                        && other_dir == Wall::Bottom
                        && cell == other_cell + 8)
                        || (dir == Wall::Bottom
                            && other_dir == Wall::Top
                            && other_cell == cell + 8);
                    let shared_v = (dir == Wall::Left
                        && other_dir == Wall::Right
                        && cell == other_cell + 1)
                        || (dir == Wall::Right
                            && other_dir == Wall::Left
                            && other_cell == cell + 1);
                    assert!(
                        same || shared_h || shared_v,
                        "unexpected identity collision: ({}, {:?}) and ({}, {:?})",
                        cell,
                        dir,
                        other_cell,
                        other_dir
                    );
                }
            }
            seen.push((id, cell, dir));
        }
    }
}

#[test]
fn neighbors_of_the_corners() {
    assert_eq!(
        neighbors(36),
        vec![(Wall::Right, 37), (Wall::Bottom, 44)]
    );
    assert_eq!(neighbors(43), vec![(Wall::Left, 42), (Wall::Bottom, 51)]);
    assert_eq!(neighbors(60), vec![(Wall::Right, 61), (Wall::Top, 52)]);
    assert_eq!(neighbors(67), vec![(Wall::Left, 66), (Wall::Top, 59)]);
}

#[test]
fn neighbors_of_an_interior_cell_in_order() {
    assert_eq!(
        neighbors(45),
        vec![
            (Wall::Left, 44),
            (Wall::Right, 46),
            (Wall::Top, 37),
            (Wall::Bottom, 53)
        ]
    );
}

#[test]
fn neighbors_never_leave_the_grid() {
    for cell in FIRST_CELL..=LAST_CELL {
        for (_, n) in neighbors(cell) {
            assert!((FIRST_CELL..=LAST_CELL).contains(&n));
        }
    }
}

#[test]
fn fixed_cells_lie_on_the_grid() {
    for &c in &[
        TELEPORT_LEFT,
        TELEPORT_RIGHT,
        START_CELL,
        IDOL_CELL,
        PICKAXE_CELL,
        ELIXIR_CELL,
        MACHETE_CELL,
    ] {
        assert!((FIRST_CELL..=LAST_CELL).contains(&c));
    }
    assert_eq!(TELEPORT_LEFT, 36);
    assert_eq!(TELEPORT_RIGHT, 43);
    assert_eq!(START_CELL, 60);
}
