//! The active-validator scheduler of a Highway-style consensus participant,
//! together with a few small building blocks of the networking layer.

pub mod time;
pub mod traits;
pub mod validators;
pub mod vertex;
pub mod vote;
pub mod state;
pub mod state_laws;
pub mod memory_state;
pub mod active_validator;
pub mod schedule_laws;
pub mod run_laws;
pub mod error;
pub mod frame;
pub mod testing;
