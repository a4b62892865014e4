//! A one-shot asynchronous condition: one value travels from a `Sender` to the
//! `Signal` that awaits it.
//!
//! The rules of the hand-off live in [`condition::Condition`], a plain value
//! whose two transitions are specified exactly over the model in [`state`].
//! [`handle`] shares one such condition behind a lock, and [`laws`] proves what
//! follows for every order in which polls and the delivery may be serialised.

pub mod condition;
pub mod handle;
pub mod laws;
pub mod lock;
pub mod state;
pub mod task;

pub use condition::Condition;
pub use handle::{cond, Sender, Signal};
pub use state::{ProtocolViolation, State};
