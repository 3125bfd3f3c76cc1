//! The MAF Platform host: environment and shutdown decisions, request authentication, app and
//! bundle management, and sign-in.

pub mod state;
pub mod auth;
pub mod user_app;
pub mod bundle_storage;
pub mod repos;
pub mod oauth;
pub mod app_cache;
pub mod gateway;
