pub mod analyze;
pub mod config;
pub mod module_hooks;
pub mod module_id;
pub mod pot;
pub mod render;
pub mod resolve;
pub mod source_map;
