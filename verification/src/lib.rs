//! Control core of a small arcade space shooter: the global game-state
//! machine, edge-triggered keyboard input, and the per-tick decisions that
//! drive the player ship (torque, thrust, firing, pause/resume, exit).
//!
//! The host engine owns the windowing, rendering, asset and audio plumbing
//! and the floating-point rigid-body store; this crate owns every decision
//! the ship systems make and hands the host exact integer commands to carry
//! out.

pub mod components;
pub mod input;
pub mod player;
pub mod state;
