//! Dragon Frontiers: set-wide rules, shared helpers, Trainers, and card bodies.
pub mod cards;
pub mod engine;
pub mod helpers;
pub mod runtime;
pub mod trainers;
