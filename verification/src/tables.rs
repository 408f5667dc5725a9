//! The fixed gameplay tables: wall shapes keyed by next-tile face and
//! orientation, and the encounter damage tables banded by turn number.

use vstd::prelude::*;
use crate::grid::Wall;

verus! {

/// The orientation reached by one 90-degree cycle step.
pub open spec fn next_orientation(o: int) -> int {
    (o + 1) % 4
}

/// The set of wall directions drawn for a next-tile face at an orientation,
/// as a sequence in drawing order.
///
/// At orientation 0: face 1 is the three-wall "U" `{Left, Top, Right}`,
/// face 2 the corner `{Left, Bottom}`, face 3 the parallel pair
/// `{Left, Right}`, face 4 the single `{Left}`, and face 5 draws nothing.
/// Each orientation step rotates the shape 90 degrees; face 3's parallel
/// shape repeats with period 2, and face 5 stays empty at every orientation.
pub open spec fn wall_shape(face: int, orientation: int) -> Seq<Wall> {
    if face == 1 {
        if orientation == 0 {
            seq![Wall::Left, Wall::Top, Wall::Right]
        } else if orientation == 1 {
            seq![Wall::Top, Wall::Right, Wall::Bottom]
        } else if orientation == 2 {
            seq![Wall::Right, Wall::Bottom, Wall::Left]
        } else {
            seq![Wall::Bottom, Wall::Left, Wall::Top]
        }
    } else if face == 2 {
        if orientation == 0 {
            seq![Wall::Left, Wall::Bottom]
        } else if orientation == 1 {
            seq![Wall::Top, Wall::Left]
        } else if orientation == 2 {
            seq![Wall::Right, Wall::Top]
        } else {
            seq![Wall::Bottom, Wall::Right]
        }
    } else if face == 3 {
        if orientation == 0 || orientation == 2 {
            seq![Wall::Left, Wall::Right]
        } else {
            seq![Wall::Top, Wall::Bottom]
        }
    } else if face == 4 {
        if orientation == 0 {
            seq![Wall::Left]
        } else if orientation == 1 {
            seq![Wall::Top]
        } else if orientation == 2 {
            seq![Wall::Right]
        } else {
            seq![Wall::Bottom]
        }
    } else {
        Seq::empty()
    }
}

/// Builds the drawn wall directions for a face and orientation.
pub fn shape_walls(face: usize, orientation: usize) -> (r: Vec<Wall>)
    requires
        1 <= face <= 5,
        orientation < 4,
    ensures
        r@ == wall_shape(face as int, orientation as int),
{
    let mut r: Vec<Wall> = Vec::new();
    if face == 1 {
        if orientation == 0 {
            r.push(Wall::Left);
            r.push(Wall::Top);
            r.push(Wall::Right);
        } else if orientation == 1 {
            r.push(Wall::Top);
            r.push(Wall::Right);
            r.push(Wall::Bottom);
        } else if orientation == 2 {
            r.push(Wall::Right);
            r.push(Wall::Bottom);
            r.push(Wall::Left);
        } else {
            r.push(Wall::Bottom);
            r.push(Wall::Left);
            r.push(Wall::Top);
        }
    } else if face == 2 {
        if orientation == 0 {
            r.push(Wall::Left);
            r.push(Wall::Bottom);
        } else if orientation == 1 {
            r.push(Wall::Top);
            r.push(Wall::Left);
        } else if orientation == 2 {
            r.push(Wall::Right);
            r.push(Wall::Top);
        } else {
            r.push(Wall::Bottom);
            r.push(Wall::Right);
        }
    } else if face == 3 {
        if orientation == 0 || orientation == 2 {
            r.push(Wall::Left);
            r.push(Wall::Right);
        } else {
            r.push(Wall::Top);
            r.push(Wall::Bottom);
        }
    } else if face == 4 {
        if orientation == 0 {
            r.push(Wall::Left);
        } else if orientation == 1 {
            r.push(Wall::Top);
        } else if orientation == 2 {
            r.push(Wall::Right);
        } else {
            r.push(Wall::Bottom);
        }
    }
    r
}

/// Difficulty band of a fresh d6 roll: 1 for faces 1-2, 2 for 3-4, 3 for 5-6.
pub open spec fn roll_band(roll: int) -> int {
    if roll <= 2 {
        1
    } else if roll <= 4 {
        2
    } else {
        3
    }
}

/// Difficulty band of a turn: 1 for turns 1-6, 2 for 7-12, 3 for 13-18.
pub open spec fn turn_band(turn: int) -> int {
    if turn <= 6 {
        1
    } else if turn <= 12 {
        2
    } else {
        3
    }
}

/// Damage of a sneak-beast encounter: the 3x3 table ranging 2-6, which is
/// the sum of the roll band and the turn band.
pub open spec fn sneak_damage_spec(roll: int, turn: int) -> int {
    roll_band(roll) + turn_band(turn)
}

/// Damage of a beast attack: the 3x3 table ranging 1-5, one less than the
/// sneak-beast table throughout.
pub open spec fn beast_damage_spec(roll: int, turn: int) -> int {
    roll_band(roll) + turn_band(turn) - 1
}

/// Damage of a trap: 1, 2 or 3 by turn band alone.
pub open spec fn trap_damage_spec(turn: int) -> int {
    turn_band(turn)
}

/// Looks up the sneak-beast damage table for a roll and a turn.
pub fn sneak_damage(roll: usize, turn: usize) -> (d: usize)
    requires
        1 <= roll <= 6,
        1 <= turn <= 18,
    ensures
        d == sneak_damage_spec(roll as int, turn as int),
        2 <= d <= 6,
{
    if roll <= 2 {
        if turn <= 6 {
            2
        } else if turn <= 12 {
            3
        } else {
            4
        }
    } else if roll <= 4 {
        if turn <= 6 {
            3
        } else if turn <= 12 {
            4
        } else {
            5
        }
    } else {
        if turn <= 6 {
            4
        } else if turn <= 12 {
            5
        } else {
            6
        }
    }
}

/// Looks up the beast-attack damage table for a roll and a turn.
pub fn beast_damage(roll: usize, turn: usize) -> (d: usize)
    requires
        1 <= roll <= 6,
        1 <= turn <= 18,
    ensures
        d == beast_damage_spec(roll as int, turn as int),
        1 <= d <= 5,
{
    if roll <= 2 {
        if turn <= 6 {
            1
        } else if turn <= 12 {
            2
        } else {
            3
        }
    } else if roll <= 4 {
        if turn <= 6 {
            2
        } else if turn <= 12 {
            3
        } else {
            4
        }
    } else {
        if turn <= 6 {
            3
        } else if turn <= 12 {
            4
        } else {
            5
        }
    }
}

/// Looks up the trap damage table for a turn.
pub fn trap_damage(turn: usize) -> (d: usize)
    requires
        1 <= turn <= 18,
    ensures
        d == trap_damage_spec(turn as int),
        1 <= d <= 3,
{
    if turn <= 6 {
        1
    } else if turn <= 12 {
        2
    } else {
        3
    }
}

/// Cycling the wall orientation is a 4-cycle: after four steps the
/// orientation, and with it the drawn shape, is back where it started,
/// for every next-tile face.
pub proof fn lemma_wall_shape_cycle(face: int, o: int)
    requires
        1 <= face <= 5,
        0 <= o < 4,
    ensures
        next_orientation(next_orientation(next_orientation(next_orientation(o)))) == o,
        wall_shape(
            face,
            next_orientation(next_orientation(next_orientation(next_orientation(o)))),
        ) == wall_shape(face, o),
{
}

/// Face 5 draws no walls at any orientation.
pub proof fn lemma_face5_shape_empty(o: int)
    ensures
        wall_shape(5, o) == Seq::<Wall>::empty(),
{
}

/// For a fixed roll, encounter damage never decreases as the turn moves
/// through the bands 1-6, 7-12, 13-18: later turns hit at least as hard,
/// for the sneak-beast, beast-attack and trap tables alike.
pub proof fn lemma_damage_monotone(roll: int, t1: int, t2: int)
    requires
        1 <= roll <= 6,
        1 <= t1 <= t2 <= 18,
    ensures
        sneak_damage_spec(roll, t1) <= sneak_damage_spec(roll, t2),
        beast_damage_spec(roll, t1) <= beast_damage_spec(roll, t2),
        trap_damage_spec(t1) <= trap_damage_spec(t2),
{
}

} // verus!
