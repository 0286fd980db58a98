//! Simulation core of a Game of Life visualiser.
//!
//! The crate holds everything the visualiser decides on the CPU: how the grid
//! is laid out, how many workgroups a compute dispatch needs, what one
//! generation of the automaton is, which of the two state buffers is current,
//! how pointer positions turn into painted cells, and when a simulation step,
//! a paint flush or a redraw is due. Windowing and GPU submission live with
//! the caller, which carries out the effects these functions ask for.
//!
//! The state buffers are kept as plain vectors, so that every function says
//! exactly what a frame of the GPU pipeline reads and writes.

pub mod app;
pub mod compute;
pub mod config;
pub mod constants;
pub mod game_data;
pub mod game_state;
pub mod gpu_resources;
pub mod graphics;
pub mod paint;
pub mod random;
pub mod render;
pub mod uniforms;
