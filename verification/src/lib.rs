//! Hotkey detection and translation-request orchestration for a
//! clipboard translator, with machine-checked contracts.

pub mod client;
pub mod config;
pub mod display;
pub mod hotkey;
pub mod hotkey_laws;
pub mod keys;
pub mod models;
pub mod orchestrator;
pub mod response;
pub mod text;
