//! What the engine shares with the store: transforms, gas and motes, hashes.

pub mod gas;
pub mod motes;
pub mod newtypes;
pub mod transform;
