//! The settings and the messages of the console client for the DNS API.

pub mod config;
pub mod menu;

pub use config::{default_api_url, AppConfig};
pub use menu::MenuHelper;
