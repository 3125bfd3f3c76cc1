//! The server side of rooms: apps, bundles, connection checks and the bookkeeping of live rooms.

pub mod assoc;
pub mod room_storage;
pub mod app;
pub mod bundle;
pub mod connection;
pub mod types;
pub mod service;
pub mod room;
pub mod token;
pub mod ws;
