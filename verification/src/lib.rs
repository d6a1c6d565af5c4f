//! A bridge between a native plugin and video subsystem and a host runtime
//! that can only exchange C-compatible values: result encoding, string
//! marshaling, callback slots and the decisions taken when an event or a
//! video frame is handed to the host.

pub mod errno;
pub mod json;
pub mod marshal;
pub mod plugin;
pub mod plugin_return;
pub mod registry;
pub mod video;
