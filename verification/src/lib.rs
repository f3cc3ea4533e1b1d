//! Verba: the decision logic of a tray-based LLM translation utility.

pub mod app_runtime;
pub mod cli;
pub mod config;
pub mod error;
pub mod gui;
pub mod ipc;
pub mod llm;
pub mod notify;
pub mod secrets;
pub mod text;
pub mod tray;
pub mod urls;
