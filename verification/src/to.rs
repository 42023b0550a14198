//! The text writers: JSON in both modes, and YAML.
pub mod json;
pub mod yaml;
