//! One step of a Koch-curve refinement over a scene of line and marker layers.
//!
//! The library decides which layers are lines, in which order the refined
//! segments come out, which apex a bump takes, and what the scene holds after
//! a command. The arithmetic of the coordinates themselves belongs to the
//! caller: points are carried, compared and placed, never computed here.

pub mod actor;
pub mod command;
pub mod geometry;
pub mod input;
pub mod koch;
pub mod lines;
pub mod scene;
