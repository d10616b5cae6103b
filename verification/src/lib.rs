//! Verified solver for the 2x2x2 rotating-corner puzzle.
//!
//! The cube is modelled as eight corner slots, each holding an integer
//! rotation matrix that records how the corner occupying the slot is turned
//! relative to the solved state. The solver extracts a permutation and a
//! twist vector from a cube, decomposes the permutation into transpositions,
//! and emits fixed move macros that are proved to swap exactly the intended
//! pair of corners (and, for the twist macros, to twist exactly the intended
//! pair while keeping every corner in place).

pub mod cube;
pub mod permutations;
pub mod positions;
pub mod swap_cases;
pub mod orientations;
pub mod twist_cases;
pub mod solver;
