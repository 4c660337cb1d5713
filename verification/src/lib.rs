//! Verified core of the Acorn / iamp2p Holochain zomes: the decisions that the
//! zomes take between their calls into the conductor, on plain values.

pub mod hashes;
pub mod dna_help;
pub mod projects;
pub mod goal_comment;
pub mod acorn;
