//! Setting the adapter up, and moving it to a later version.
//!
//! Setting up is done in steps: a step is either the end, or something that the
//! chain has to do together with what is known so far.

pub mod laws;
pub mod promises;
pub mod step;
