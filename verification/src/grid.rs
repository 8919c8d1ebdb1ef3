//! The coordinate space: positions on a bounded board, the four movement
//! headings, adjacency, and the single-step rule with saturation at the
//! origin.

use vstd::prelude::*;

verus! {

/// One of the four movement headings.
#[derive(Clone, Copy, PartialEq, Eq, Structural, Debug)]
pub enum Direction {
    Up,
    Down,
    Left,
    Right,
}

/// A cell on the board; `x` grows rightward, `y` grows downward.
#[derive(Clone, Copy, PartialEq, Eq, Structural, Debug)]
pub struct Position {
    pub x: u16,
    pub y: u16,
}

/// The heading that points exactly backwards from `d`.
pub open spec fn opposite(d: Direction) -> Direction {
    match d {
        Direction::Up => Direction::Down,
        Direction::Down => Direction::Up,
        Direction::Left => Direction::Right,
        Direction::Right => Direction::Left,
    }
}

/// True when `b` points exactly backwards from `a`.
pub fn is_opposite(a: Direction, b: Direction) -> (r: bool)
    ensures
        r == (opposite(a) == b),
{
    match (a, b) {
        (Direction::Up, Direction::Down) => true,
        (Direction::Down, Direction::Up) => true,
        (Direction::Left, Direction::Right) => true,
        (Direction::Right, Direction::Left) => true,
        _ => false,
    }
}

/// Reversal is mutual: `b` points backwards from `a` exactly when `a`
/// points backwards from `b`.
pub proof fn lemma_opposite_symmetric(a: Direction, b: Direction)
    ensures
        (opposite(a) == b) == (opposite(b) == a),
{
}

/// Strictly inside the border of a `w` by `h` board: the border cells
/// `x == 0`, `y == 0`, `x == w - 1`, `y == h - 1` are out of bounds.
pub open spec fn in_interior(p: Position, w: u16, h: u16) -> bool {
    1 <= p.x && p.x < w - 1 && 1 <= p.y && p.y < h - 1
}

/// Cells exactly one grid step apart.
pub open spec fn adjacent(a: Position, b: Position) -> bool {
    (a.x == b.x && (a.y == b.y + 1 || b.y == a.y + 1)) || (a.y == b.y && (a.x == b.x + 1 || b.x
        == a.x + 1))
}

/// Where a head at `p` lands after one step along `d`; a move toward the
/// origin saturates at zero instead of wrapping, so that stepping off the
/// low edge lands on the border rather than the opposite side.
pub open spec fn step_spec(p: Position, d: Direction) -> Position {
    match d {
        Direction::Up => Position {
            x: p.x,
            y: if p.y == 0 {
                0u16
            } else {
                (p.y - 1) as u16
            },
        },
        Direction::Down => Position { x: p.x, y: ((p.y + 1) as u16) },
        Direction::Left => Position {
            x: if p.x == 0 {
                0u16
            } else {
                (p.x - 1) as u16
            },
            y: p.y,
        },
        Direction::Right => Position { x: ((p.x + 1) as u16), y: p.y },
    }
}

/// Step one cell along `d`, saturating to zero on moves toward the origin.
pub fn step(p: Position, d: Direction) -> (r: Position)
    requires
        p.x < u16::MAX,
        p.y < u16::MAX,
    ensures
        r == step_spec(p, d),
{
    match d {
        Direction::Up => Position {
            x: p.x,
            y: if p.y == 0 {
                0
            } else {
                p.y - 1
            },
        },
        Direction::Down => Position { x: p.x, y: p.y + 1 },
        Direction::Left => Position {
            x: if p.x == 0 {
                0
            } else {
                p.x - 1
            },
            y: p.y,
        },
        Direction::Right => Position { x: p.x + 1, y: p.y },
    }
}

/// A step taken from a cell away from the low edges lands on an adjacent
/// cell (no saturation happens there, and nothing wraps).
pub proof fn lemma_step_adjacent(p: Position, d: Direction)
    requires
        1 <= p.x,
        1 <= p.y,
        p.x < u16::MAX,
        p.y < u16::MAX,
    ensures
        adjacent(step_spec(p, d), p),
{
}

} // verus!
