//! Configuration templates and their placeholder language.

pub mod apply;
pub mod defaults;
pub mod filter;
pub mod fill_laws;
pub mod interpolation;
pub mod laws;
pub mod singbox;

pub use defaults::{generate_clash_template, generate_singbox_template, generate_surge_template};
pub use interpolation::InterpolationParser;
