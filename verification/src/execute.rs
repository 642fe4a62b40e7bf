//! Messages that change something: swaps, and the parts they are made of.
//!
//! As queries, they are treated in steps: a step is either the end, or a
//! question to the chain together with what is known so far.

pub mod laws;
pub mod meaning;
pub mod promises;
pub mod state;
pub mod step;
