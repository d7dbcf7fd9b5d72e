//! Clipboard history manager: the selection model, the key-driven interaction
//! state machine, the history store and a few small helpers.

pub mod app;
pub mod clipboard;
pub mod driver;
pub mod laws;
pub mod stack;
pub mod config;
pub mod encryption;
