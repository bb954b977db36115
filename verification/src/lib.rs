//! Kinematics and trajectory-planning core for a four-axis motion system.
//!
//! The library plans one linear move at a time: a selective per-axis vector
//! algebra ([`tgeo`]), move decomposition and constraint projection
//! ([`segment`]), and a jerk-limited velocity-profile generator ([`planner`])
//! whose output can be sampled for diagnostics ([`sampler`]).

pub mod fixed;
pub mod tgeo;
pub mod planner;
pub mod segment;
pub mod sampler;
pub mod control;
pub mod sdcard;
