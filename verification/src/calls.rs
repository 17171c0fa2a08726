//! What calls of the library come to, told of the calls themselves: what goes in
//! and what comes out.

pub mod controller;
pub mod discord;
pub mod files;
pub mod service;
