//! A one-dimensional rigid-body engine.
//!
//! Point bodies move along one axis of a plane tilted at an angle, under
//! gravity and two regimes of friction, collide with each other elastically
//! or inelastically, and are held inside a bounded domain. One call of
//! [`engine::system::System::update`] advances the system by one tick:
//! collisions among all bodies are resolved first, then every body moves on
//! its own.
//!
//! All quantities are fixed-point numbers ([`scalar::Scalar`]) with
//! saturating arithmetic, so every operation is total and every result is
//! determined exactly by the inputs. The contracts state each result as a
//! function of the inputs, and [`laws`] proves what follows from them:
//! exchange of velocities, conservation of momentum and of energy, rest,
//! and the response of the walls.
//!
//! - [`scalar`], [`trig`]: numbers, their arithmetic, sine and cosine.
//! - [`engine`]: bodies, collisions, kinematics, the system and its energy.
//! - [`text`], [`script`]: the commands that configure a system.
//! - [`render`], [`color`]: the shapes that show a system, as plain values.
//! - [`laws`]: theorems about the engine.

pub mod color;
pub mod engine;
pub mod laws;
pub mod render;
pub mod scalar;
pub mod script;
pub mod text;
pub mod trig;
