//! Schemas shared by the app tooling: app descriptions, project configuration and app type data.

pub mod typed;
pub mod apps;
pub mod project_config;
