//! Preset logic for the settings of configurable mods.

pub mod codec;
pub mod edit;
pub mod laws;
pub mod names;
pub mod order;
pub mod panel;
pub mod preset;
pub mod resolver;
pub mod schema;
pub mod value;
pub mod values;
