//! A generalized Langton's Ant: a single agent walks on a toroidal grid of
//! two-state cells, flipping each cell it leaves and turning according to a
//! fixed rule.  The grid representation, the wraparound addressing and the
//! turn/move rule are specified and verified here; rendering and the frame
//! loop are host concerns outside this crate.

pub mod automaton;
pub mod grid;
pub mod rules;
