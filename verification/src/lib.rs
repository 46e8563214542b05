pub mod encoding;
pub mod registry;
