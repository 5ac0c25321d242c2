//! Hot-reload host for a dynamically loaded application module.
//!
//! The library holds the decisions of the reload cycle: when a rebuilt
//! artifact counts as new, how loading it proceeds step by step, which
//! entry points a loaded module offers, and how the active module is
//! swapped while the capability table survives. The host program performs
//! the file-system work and the calls into the module.
pub mod watcher;
pub mod table;
pub mod texture;
pub mod module;
pub mod loader;
pub mod reloader;
