//! Shared helpers.

pub mod base64_utils;
pub mod text;
pub mod value;
