//! A verified core for a single-pipeline, full-screen-quad renderer.
//!
//! The library holds the decision logic of the renderer: the wire layout of
//! the per-frame uniform value, the startup protocol that acquires a GPU
//! context, the descriptor values the pipeline is built from, and the
//! event-driven render loop that reacts to resize, redraw and close events.
//! All window-system and GPU calls live outside the library; they receive
//! plain values (sizes, byte vectors, descriptor plans) and hand plain
//! values back.

pub mod driver;
pub mod setup;
pub mod uniform;
