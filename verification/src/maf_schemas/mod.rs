//! Shared schemas used in MAF: apps and rooms, API errors, packets, project configuration and
//! admin views.

pub mod apps;
pub mod error;
pub mod admin;
pub mod packet;
pub mod project_config;
