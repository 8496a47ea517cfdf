//! Parsers of the supported proxy protocols.

pub mod anytls;
pub mod hysteria2;
pub mod trojan;
