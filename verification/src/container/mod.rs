//! The execution environment of a room: activity tracking and resource limits.

pub mod activity;
pub mod keys;
pub mod limits;
