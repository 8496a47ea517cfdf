//! Subscription conversion for proxy clients: URI parsers for the
//! supported protocols, the placeholder language of configuration
//! templates, node filtering, and the builders of Clash, Sing-Box and
//! Surge configurations.

pub mod templates;
pub mod utils;
pub mod parsers;
pub mod builders;
pub mod cli;
pub mod config;
pub mod convert;
