//! A verified model of the coordination logic behind an outline-material
//! demo scene: a store of live-tunable outline parameters, the single shared
//! extended-material instance whose uniform fields mirror that store, the
//! one-shot rewrite that swaps a freshly loaded scene's default materials for
//! the shared instance, and the per-tick light rotation.
//!
//! The host engine (windowing, asset streaming, the entity-component system,
//! the render graph) works in floating point and performs I/O, so it stays
//! outside this crate. Every scalar the shader reads is carried here as the
//! bit pattern of an IEEE 754 single-precision value, and angles are carried
//! as binary fractions of a full turn, so that the logic itself is exact and
//! fully checked.

pub mod bootstrap;
pub mod float_bits;
pub mod material;
pub mod param_sync;
pub mod params;
pub mod rotation;
pub mod scene_rewrite;
