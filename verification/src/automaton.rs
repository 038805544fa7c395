//! The automaton: a grid plus the ant's position and heading, advanced one
//! deterministic step at a time.  Each step first wraps the ant's position
//! onto the torus, reads the cell there, flips it, and turns and moves the
//! ant according to the transition table.  The position the ant moves to is
//! deliberately not wrapped until the start of the next step, so between
//! steps it may lie one cell outside the grid.

use vstd::prelude::*;
use crate::grid::{Grid, MAX_DIM};
use crate::rules::{Cell, Heading, spec_dx, spec_dy, spec_flip, spec_turn};

verus! {

/// The ant: a signed position and a facing direction.  Between steps the
/// position may lie one cell outside the grid; the next step wraps it before
/// touching the grid.
#[derive(Clone, Copy, Debug, PartialEq, Eq, Structural)]
pub struct Ant {
    pub x: i32,
    pub y: i32,
    pub heading: Heading,
}

/// The mathematical state of the simulation: dimensions, the grid as a
/// sequence of columns, and the ant's position and heading.
#[verifier::ext_equal]
pub struct SimState {
    pub width: int,
    pub height: int,
    pub cells: Seq<Seq<Cell>>,
    pub x: int,
    pub y: int,
    pub heading: Heading,
}

impl SimState {
    /// State invariant: positive dimensions within `MAX_DIM`, a rectangular
    /// cell array of exactly those dimensions, and an ant position at most
    /// one cell outside the grid on each axis.
    pub open spec fn wf(self) -> bool {
        &&& 1 <= self.width <= MAX_DIM
        &&& 1 <= self.height <= MAX_DIM
        &&& self.cells.len() == self.width
        &&& (forall|x: int| 0 <= x < self.width ==> self.cells[x].len() == self.height)
        &&& -1 <= self.x <= self.width
        &&& -1 <= self.y <= self.height
    }
}

/// Single-branch toroidal correction: a coordinate one step past either edge
/// comes back on the opposite edge.  This is deliberately not a general
/// modulo: the ant moves at most one cell per step, so one branch suffices,
/// and any coordinate at or past the far edge maps to 0.
pub open spec fn spec_wrap(v: int, n: int) -> int {
    if v >= n {
        0
    } else if v < 0 {
        n - 1
    } else {
        v
    }
}

/// The freshly constructed state for a `w` by `h` grid: every cell White,
/// the ant at the grid's center facing Up.
pub open spec fn spec_init(w: int, h: int) -> SimState {
    SimState {
        width: w,
        height: h,
        cells: Seq::new(w as nat, |x: int| Seq::new(h as nat, |y: int| Cell::White)),
        x: w / 2,
        y: h / 2,
        heading: Heading::Up,
    }
}

/// One step of the automaton: wrap the ant's position, read the cell there,
/// flip it, and turn and move the ant by the transition table.  The new
/// position is left unwrapped until the next step.
pub open spec fn spec_step(s: SimState) -> SimState {
    let wx = spec_wrap(s.x, s.width);
    let wy = spec_wrap(s.y, s.height);
    let c = s.cells[wx][wy];
    SimState {
        width: s.width,
        height: s.height,
        cells: s.cells.update(wx, s.cells[wx].update(wy, spec_flip(c))),
        x: wx + spec_dx(c, s.heading),
        y: wy + spec_dy(c, s.heading),
        heading: spec_turn(c, s.heading),
    }
}

/// The color a step started from state `s` reads: the cell at the wrapped
/// position.
pub open spec fn spec_read(s: SimState) -> Cell {
    s.cells[spec_wrap(s.x, s.width)][spec_wrap(s.y, s.height)]
}

/// The state after `n` steps.
pub open spec fn spec_run(s: SimState, n: nat) -> SimState
    decreases n,
{
    if n == 0 {
        s
    } else {
        spec_step(spec_run(s, (n - 1) as nat))
    }
}

/// Why construction can be refused.
#[derive(Clone, Copy, Debug, PartialEq, Eq, Structural)]
pub enum SimError {
    /// A requested dimension was zero or larger than `MAX_DIM`.
    InvalidDimensions,
}

/// The simulation: a grid together with the ant that walks on it.  The
/// abstract value `self@` is a `SimState`, and every operation is specified
/// against it.
pub struct Automaton {
    pub grid: Grid,
    pub ant: Ant,
}

impl View for Automaton {
    type V = SimState;

    open spec fn view(&self) -> SimState {
        SimState {
            width: self.grid.width as int,
            height: self.grid.height as int,
            cells: self.grid@,
            x: self.ant.x as int,
            y: self.ant.y as int,
            heading: self.ant.heading,
        }
    }
}

impl Automaton {
    /// Representation invariant: a well-formed grid and an ant at most one
    /// cell outside it on each axis.  It implies `self@.wf()`.
    pub open spec fn wf(&self) -> bool {
        &&& self.grid.wf()
        &&& -1 <= self.ant.x as int <= self.grid.width as int
        &&& -1 <= self.ant.y as int <= self.grid.height as int
    }

    /// A fresh simulation on a `width` by `height` grid: every cell White,
    /// the ant at the grid's center facing Up.
    pub fn new(width: usize, height: usize) -> (a: Automaton)
        requires
            1 <= width <= MAX_DIM,
            1 <= height <= MAX_DIM,
        ensures
            a.wf(),
            a@ == spec_init(width as int, height as int),
    {
        let grid = Grid::new(width, height);
        let ant = Ant { x: (width / 2) as i32, y: (height / 2) as i32, heading: Heading::Up };
        let a = Automaton { grid, ant };
        proof {
            assert(a@.cells =~~= spec_init(width as int, height as int).cells);
            assert(a@ =~~= spec_init(width as int, height as int));
        }
        a
    }

    /// Checked construction: returns the fresh simulation exactly when both
    /// dimensions are positive and within `MAX_DIM`, and
    /// `SimError::InvalidDimensions` otherwise, before any state is created.
    pub fn try_new(width: usize, height: usize) -> (r: Result<Automaton, SimError>)
        ensures
            match r {
                Ok(a) => {
                    &&& 1 <= width <= MAX_DIM
                    &&& 1 <= height <= MAX_DIM
                    &&& a.wf()
                    &&& a@ == spec_init(width as int, height as int)
                },
                Err(e) => {
                    &&& e == SimError::InvalidDimensions
                    &&& !(1 <= width <= MAX_DIM && 1 <= height <= MAX_DIM)
                },
            },
    {
        if 1 <= width && width <= MAX_DIM && 1 <= height && height <= MAX_DIM {
            Ok(Automaton::new(width, height))
        } else {
            Err(SimError::InvalidDimensions)
        }
    }

    /// Advance the simulation exactly one tick; the new state is the fixed
    /// function `spec_step` of the old one.
    pub fn step(&mut self)
        requires
            old(self).wf(),
        ensures
            final(self).wf(),
            final(self)@ == spec_step(old(self)@),
    {
        let w = self.grid.width;
        let h = self.grid.height;
        let mut x = self.ant.x;
        let mut y = self.ant.y;
        if x >= w as i32 {
            x = 0;
        } else if x < 0 {
            x = w as i32 - 1;
        }
        if y >= h as i32 {
            y = 0;
        } else if y < 0 {
            y = h as i32 - 1;
        }
        let c = self.grid.get(x as usize, y as usize);
        self.grid.set(x as usize, y as usize, c.flip());
        let heading = self.ant.heading.turn(c);
        let nx = x + self.ant.heading.delta_x(c);
        let ny = y + self.ant.heading.delta_y(c);
        self.ant = Ant { x: nx, y: ny, heading };
        proof {
            assert(self@ =~= spec_step(old(self)@));
        }
    }

    /// The grid width.
    pub fn width(&self) -> (w: usize)
        ensures
            w as int == self@.width,
    {
        self.grid.width
    }

    /// The grid height.
    pub fn height(&self) -> (h: usize)
        ensures
            h as int == self@.height,
    {
        self.grid.height
    }

    /// The cell at `(x, y)`; the coordinates must lie inside the grid.
    pub fn cell(&self, x: usize, y: usize) -> (c: Cell)
        requires
            self.wf(),
            x < self@.width,
            y < self@.height,
        ensures
            c == self@.cells[x as int][y as int],
    {
        self.grid.get(x, y)
    }

    /// One rendering-pass snapshot: grid dimensions, ant position and ant
    /// heading.  Cell states are read through `cell`.
    pub fn snapshot(&self) -> (r: (usize, usize, i32, i32, Heading))
        ensures
            r.0 as int == self@.width,
            r.1 as int == self@.height,
            r.2 as int == self@.x,
            r.3 as int == self@.y,
            r.4 == self@.heading,
    {
        (self.grid.width, self.grid.height, self.ant.x, self.ant.y, self.ant.heading)
    }
}

/// Bounded position law: on a well-formed state the wrapped coordinates —
/// the ones used to index the grid — lie strictly inside the grid.
pub proof fn lemma_wrap_in_bounds(s: SimState)
    requires
        s.wf(),
    ensures
        0 <= spec_wrap(s.x, s.width) < s.width,
        0 <= spec_wrap(s.y, s.height) < s.height,
{
}

/// One step keeps the state well-formed: the dimensions and the cell array's
/// shape are unchanged, and the new position is at most one cell outside the
/// grid.
pub proof fn lemma_step_preserves_wf(s: SimState)
    requires
        s.wf(),
    ensures
        spec_step(s).wf(),
        spec_step(s).width == s.width,
        spec_step(s).height == s.height,
{
}

/// Bounded position law over a whole run: every state reached from a
/// well-formed state is well-formed, so every grid access of every step is
/// in bounds.
pub proof fn lemma_run_preserves_wf(s: SimState, n: nat)
    requires
        s.wf(),
    ensures
        spec_run(s, n).wf(),
    decreases n,
{
    if n > 0 {
        lemma_run_preserves_wf(s, (n - 1) as nat);
        lemma_step_preserves_wf(spec_run(s, (n - 1) as nat));
    }
}

/// Determinism law: stepping is a fixed function of the state alone, so two
/// runs of the same length from the same state end in the same state.
pub proof fn lemma_run_deterministic(s1: SimState, s2: SimState, n: nat)
    requires
        s1 == s2,
    ensures
        spec_run(s1, n) == spec_run(s2, n),
{
}

/// Heading cycle law over steps: four consecutive steps that each read the
/// same cell color return the heading to its starting value, since each is
/// a quarter turn in a consistent rotational sense per color.
pub proof fn lemma_four_steps_same_color_restore_heading(s: SimState, c: Cell)
    requires
        spec_read(s) == c,
        spec_read(spec_step(s)) == c,
        spec_read(spec_step(spec_step(s))) == c,
        spec_read(spec_step(spec_step(spec_step(s)))) == c,
    ensures
        spec_step(spec_step(spec_step(spec_step(s)))).heading == s.heading,
{
    crate::rules::lemma_heading_cycle(c, s.heading);
}

/// Cell flip law: one step changes exactly one cell — the wrapped cell the
/// ant stood on — and changes it to the opposite of its prior state.
pub proof fn lemma_step_flips_one_cell(s: SimState)
    requires
        s.wf(),
    ensures
        ({
            let wx = spec_wrap(s.x, s.width);
            let wy = spec_wrap(s.y, s.height);
            let t = spec_step(s);
            &&& t.cells[wx][wy] == spec_flip(s.cells[wx][wy])
            &&& spec_flip(s.cells[wx][wy]) != s.cells[wx][wy]
            &&& forall|x: int, y: int|
                0 <= x < s.width && 0 <= y < s.height && !(x == spec_wrap(s.x, s.width)
                    && y == spec_wrap(s.y, s.height)) ==> t.cells[x][y] == s.cells[x][y]
        }),
{
    lemma_wrap_in_bounds(s);
}

} // verus!
