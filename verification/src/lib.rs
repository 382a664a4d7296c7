//! Frame-step logic for a small jetpack obstacle-course shooter.
//!
//! The game engine supplies physics, rendering, input and picking; this
//! library holds the per-frame decisions the game itself makes: how the
//! jetpack burns and recharges fuel, which movement command the held keys
//! ask for, when a bullet expires and how far it flies in a frame, and
//! where the course's obstacles stand. Time and fuel are measured in
//! whole milliseconds and distances in millimetres, so every update is
//! exact integer arithmetic.

pub mod bullet;
pub mod jetpack;
pub mod scene;
