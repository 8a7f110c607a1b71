//! Core of a minimal 2D platformer character controller.
//!
//! The library reconciles collision begin/end events from a physics engine
//! into durable contact flags (grounded, touching a left or right wall),
//! counts down a post-wall-jump lockout timer, and turns held input keys
//! plus the current contact flags into velocity decisions.  The physics
//! engine itself, rendering and input polling are external collaborators:
//! they hand this library plain event and input values each tick and read
//! the resulting velocities back.

pub mod components;
pub mod detection;
pub mod events;
pub mod layers;
pub mod scene;
pub mod systems;
