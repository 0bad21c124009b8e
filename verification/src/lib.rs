//! A minimal real-time rendering demo, with its decision logic verified.
//!
//! The library models everything the demo decides or computes as plain
//! values: the quad mesh data (in integer fixed point), buffer sizing, the
//! shader-build reporting rules, the frame-loop state machine, input
//! handling, and viewport updates on resize. The binary around it performs
//! the actual window and GPU calls and consults this library for every
//! decision and every constant.

pub mod frame;
pub mod geometry;
pub mod input;
pub mod setup;
pub mod shader;
pub mod viewport;
pub mod window;
