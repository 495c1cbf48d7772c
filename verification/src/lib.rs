//! Commit-and-prove core for a hidden-information board game.
//!
//! Two parties play battleship over an untrusted channel while proving
//! cryptographically that they follow the rules: ship placements are bound
//! by hiding commitments, every coordinate is shown to lie on the board by
//! a zero-knowledge range proof, and each hit/miss report is backed by a
//! zero-knowledge circuit proof tied to the published commitments.

pub mod board;
pub mod commit;
pub mod errors;
pub mod hit;
pub mod range;
