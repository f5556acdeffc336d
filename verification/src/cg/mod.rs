//! Crystal Guardians: hook composition and card modules.
pub mod cards;
pub mod hooks;
