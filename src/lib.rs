//! A generic finite-state-machine harness.
//!
//! A [`StateMachine`] holds a current state and the handler that decides,
//! input by input, what the next state is. A handler is any value whose type
//! implements [`Executor`]; each step it returns a [`NextState`] that keeps
//! the handler, swaps it for another, or ends the machine.
//!
//! `machine::step` and `machine::run` model what `process` does to a
//! machine's handler and state; `laws` proves how the three outcomes behave
//! over any number of later inputs.
pub mod executor;
pub mod laws;
pub mod machine;
pub mod storage;

pub use executor::{Executor, NextState};
pub use machine::StateMachine;
pub use storage::{simple_storage_statefn, SimpleStorage};
