//! Queries: what a swap would give, simulated by the router.
//!
//! A query is answered in steps. A step is either the reply, or a question to
//! the chain that the adapter is deployed on together with what is known so
//! far; handing the answer to the question's `resume` gives the next step.

pub mod answer;
pub mod laws;
pub mod meaning;
pub mod msg;
pub mod price;
pub mod promises;
pub mod sound;
pub mod split;
pub mod state;
