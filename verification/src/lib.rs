//! Verified core of a Socket.IO bridge between a Spotify client plugin and web
//! controllers: player state, client registry, event handling and helpers.
pub mod console;
pub mod models;
pub mod number;
pub mod registry;
pub mod server;
pub mod startup;
pub mod text;
pub mod tray;
