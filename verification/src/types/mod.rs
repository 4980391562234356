//! The values that the global state holds, and what names them.

pub mod account;
pub mod bytesrepr;
pub mod contract;
pub mod key;
pub mod names;
pub mod uint;
pub mod value;
pub mod vec_map;
