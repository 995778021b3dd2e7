//! Verified core of the URA notifier plugin.
pub mod config;
pub mod decimal;
pub mod class_path;
pub mod settings;
pub mod notify;
pub mod plugin_api;
pub mod host;
pub mod utf16;
