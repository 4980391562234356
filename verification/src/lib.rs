//! The deploy execution engine of a permissioned blockchain.
//!
//! Given the root of a state of the global state and a deploy, the engine says what the
//! deploy does to the state, what it costs, and whether it failed. A deploy is a payment
//! and a session, two pieces of code that run for an account; the payment is finalized
//! after the session. The engine also installs the genesis state.
//!
//! The engine does not run code itself, nor does it store the global state: it works with
//! an [`execution::Executor`], a [`wasm_prep::Preprocessor`] and a
//! [`storage::global_state::StateProvider`]. Everything else is stated and proved here:
//!
//! - [`types`] holds the values of the global state, their keys, and the wide integers;
//! - [`shared`] holds the transforms, gas and motes, and hashes;
//! - [`tracking_copy`] is the overlay in which a deploy reads and writes;
//! - [`engine_state`] is the engine: [`engine_state::deploy`] says what a deploy leaves,
//!   [`engine_state::installer`] what the installation of the genesis state leaves.

pub mod engine_state;
pub mod execution;
pub mod shared;
pub mod storage;
pub mod tracking_copy;
pub mod types;
pub mod wasm_prep;

pub use engine_state::EngineState;
