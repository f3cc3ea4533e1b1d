//! The persisted configuration: its schema, its validation and its location.

pub mod schema;
pub mod store;
pub mod validation;

pub use schema::{AppConfig, Preset, ProviderConfig, UiConfig};
pub use store::ConfigStore;
