//! The deterministic core of a small interactive physics renderer.
//!
//! The window, the GPU and the rigid-body engine live outside this crate.
//! What is decided here is everything that can be said in integers and
//! booleans: which keys steer the camera, how the surface reacts to a resize,
//! what each window event asks the program to do, how vertex data is laid out
//! in its buffers, and when the instance buffer has to be replaced.

pub mod geometry;
pub mod input;
pub mod instances;
pub mod state;
