//! Holon Phantoms: hook composition.
pub mod hooks;
