//! A verified core for driving Discord's mute from a DualSense controller.
//!
//! Nothing here reads a device, a socket, a file or a clock. What would is a
//! state machine instead: it says what is to be done next and is handed what
//! came of it.

pub mod api;
pub mod auth;
pub mod calls;
pub mod cli;
pub mod config;
pub mod controller;
pub mod daemon;
pub mod discord_ipc;
pub mod discord_mute;
pub mod json;
pub mod keyboard;
pub mod paths;
pub mod text;
pub mod token;
pub mod wire;
