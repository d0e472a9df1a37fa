//! Menu state machine and helpers for a terminal tool that edits score,
//! lives and bombs of a running game through its process memory.

pub mod actions;
pub mod app;
pub mod config;
pub mod errors;
pub mod events;
pub mod game;
pub mod key;
pub mod laws;
pub mod readers;
pub mod utils;
