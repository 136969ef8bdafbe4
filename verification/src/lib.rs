//! Control logic of a single synthesis voice: the engine table, engine
//! selection, the trigger state machine, the routing of modulations and the
//! plans that drive the per-channel post-processing.
//!
//! The audio itself (samples, gains and envelopes in floating point) is
//! handled by the caller; this crate decides what is to be done with it.

pub mod engine;
pub mod post_processor;
pub mod resources;
pub mod modulation;
pub mod voice;
