pub mod config;
pub mod flags;
pub mod macros;
pub mod plugin;
pub mod plugin_dir;
pub mod plugin_setup;
pub mod text;
pub mod variant;
pub mod variant_map;
pub mod variant_tuples;
