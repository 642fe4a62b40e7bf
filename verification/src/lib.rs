//! The swap adapter between an entry point contract and the OraiDEX router.
//!
//! The entry point hands the adapter coins or tokens together with a list of
//! swap operations; the adapter carries them out one after the other and sends
//! what comes out back. It also tells what such a swap would give.
//!
//! Nothing here reads storage, asks another contract or encodes a message.
//! Where the adapter depends on such a thing, it stops at a step that says what
//! is needed, and goes on once it is told.

pub mod asset;
pub mod decimal;
pub mod error;
pub mod execute;
pub mod history;
pub mod hop;
pub mod instantiate;
pub mod message;
pub mod operation;
pub mod query;
pub mod views;

pub use crate::execute::step::{execute, receive_cw20};
pub use crate::instantiate::step::{instantiate, migrate};
pub use crate::query::answer::query;
