//! Predefined rule sets and default Sing-Box documents.

pub mod rules;
pub mod singbox_config;
