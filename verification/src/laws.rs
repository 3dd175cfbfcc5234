//! Laws that hold of every shape: public proofs over the same functions
//! that the contracts of the crate are stated with.

pub mod border;
pub mod lerp;
pub mod line;
pub mod rect;
pub mod segment;
pub mod trace;
