//! Logical controller keys, their bindings to concrete hardware inputs, and the
//! per-tick engine that resolves and polls those bindings.

pub mod input;
pub mod layout;
pub mod listener;
pub mod persist;
pub mod raw_input;
pub mod sink;
