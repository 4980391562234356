//! The store of the global state, as the engine sees it.

pub mod global_state;
pub mod protocol_data;
