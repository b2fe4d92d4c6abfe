//! Firmware logic of a five-key chorded keyboard whose rotation, read from a
//! gyroscope, selects which letter each key types.

pub mod binds;
pub mod bindings;
pub mod state;
pub mod text;
pub mod laws;
pub mod peak;
pub mod sensor;
