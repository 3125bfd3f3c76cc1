//! A verified core for MAF, a toolkit for realtime apps: room bookkeeping, container activity and
//! resource limits, configuration and request validation, and the shared schemas.

pub mod container;
pub mod text;
pub mod schemas;
pub mod maf_schemas;
pub mod server;
pub mod host;
pub mod demo;
pub mod maf_typed;
