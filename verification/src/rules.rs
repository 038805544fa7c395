//! The fixed transition table of the automaton: what the ant does as a joint
//! function of the color of the cell it stands on and its current heading.
//! A Black cell turns the ant a quarter turn clockwise, a White cell a
//! quarter turn counter-clockwise, and the cell color alone decides the sign
//! of the one-cell move.

use vstd::prelude::*;

verus! {

/// The two states a grid cell can take.
#[derive(Clone, Copy, Debug, PartialEq, Eq, Structural)]
pub enum Cell {
    White,
    Black,
}

/// The four cardinal directions the ant can face, cyclic under turning.
#[derive(Clone, Copy, Debug, PartialEq, Eq, Structural)]
pub enum Heading {
    Up,
    Down,
    Left,
    Right,
}

/// The opposite cell state.
pub open spec fn spec_flip(c: Cell) -> Cell {
    match c {
        Cell::White => Cell::Black,
        Cell::Black => Cell::White,
    }
}

/// The heading after one step, given the color of the cell the ant read:
/// Black turns clockwise (Up, Right, Down, Left), White counter-clockwise
/// (Up, Left, Down, Right).
pub open spec fn spec_turn(c: Cell, h: Heading) -> Heading {
    match c {
        Cell::Black => match h {
            Heading::Up => Heading::Right,
            Heading::Right => Heading::Down,
            Heading::Down => Heading::Left,
            Heading::Left => Heading::Up,
        },
        Cell::White => match h {
            Heading::Up => Heading::Left,
            Heading::Left => Heading::Down,
            Heading::Down => Heading::Right,
            Heading::Right => Heading::Up,
        },
    }
}

/// The move along the x axis, given the cell color read and the heading the
/// ant had when reading it.
pub open spec fn spec_dx(c: Cell, h: Heading) -> int {
    match c {
        Cell::Black => match h {
            Heading::Up => 1,
            Heading::Down => -1,
            Heading::Left => 0,
            Heading::Right => 0,
        },
        Cell::White => match h {
            Heading::Up => -1,
            Heading::Down => 1,
            Heading::Left => 0,
            Heading::Right => 0,
        },
    }
}

/// The move along the y axis, given the cell color read and the heading the
/// ant had when reading it.
pub open spec fn spec_dy(c: Cell, h: Heading) -> int {
    match c {
        Cell::Black => match h {
            Heading::Up => 0,
            Heading::Down => 0,
            Heading::Left => 1,
            Heading::Right => -1,
        },
        Cell::White => match h {
            Heading::Up => 0,
            Heading::Down => 0,
            Heading::Left => -1,
            Heading::Right => 1,
        },
    }
}

impl Cell {
    /// The opposite state.
    pub fn flip(self) -> (r: Cell)
        ensures
            r == spec_flip(self),
    {
        match self {
            Cell::White => Cell::Black,
            Cell::Black => Cell::White,
        }
    }
}

impl Heading {
    /// The heading after reading a cell of color `c`.
    pub fn turn(self, c: Cell) -> (r: Heading)
        ensures
            r == spec_turn(c, self),
    {
        match c {
            Cell::Black => match self {
                Heading::Up => Heading::Right,
                Heading::Right => Heading::Down,
                Heading::Down => Heading::Left,
                Heading::Left => Heading::Up,
            },
            Cell::White => match self {
                Heading::Up => Heading::Left,
                Heading::Left => Heading::Down,
                Heading::Down => Heading::Right,
                Heading::Right => Heading::Up,
            },
        }
    }

    /// The move along x after reading a cell of color `c`.
    pub fn delta_x(self, c: Cell) -> (d: i32)
        ensures
            d as int == spec_dx(c, self),
    {
        match c {
            Cell::Black => match self {
                Heading::Up => 1,
                Heading::Down => -1,
                Heading::Left => 0,
                Heading::Right => 0,
            },
            Cell::White => match self {
                Heading::Up => -1,
                Heading::Down => 1,
                Heading::Left => 0,
                Heading::Right => 0,
            },
        }
    }

    /// The move along y after reading a cell of color `c`.
    pub fn delta_y(self, c: Cell) -> (d: i32)
        ensures
            d as int == spec_dy(c, self),
    {
        match c {
            Cell::Black => match self {
                Heading::Up => 0,
                Heading::Down => 0,
                Heading::Left => 1,
                Heading::Right => -1,
            },
            Cell::White => match self {
                Heading::Up => 0,
                Heading::Down => 0,
                Heading::Left => -1,
                Heading::Right => 1,
            },
        }
    }
}

/// Heading cycle law: four turns that each read the same cell color bring
/// the heading back to where it started, since each is a quarter turn in a
/// consistent rotational sense per color.
pub proof fn lemma_heading_cycle(c: Cell, h: Heading)
    ensures
        spec_turn(c, spec_turn(c, spec_turn(c, spec_turn(c, h)))) == h,
{
}

/// Reversibility of the transition table: applying the Black-branch turn and
/// then the White-branch turn from the resulting heading restores the
/// original heading.
pub proof fn lemma_turn_reversible(h: Heading)
    ensures
        spec_turn(Cell::White, spec_turn(Cell::Black, h)) == h,
{
}

} // verus!
