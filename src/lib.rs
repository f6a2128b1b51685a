//! Host-side adapter over a plugin instance: a descriptor of optional
//! function slots paired with an opaque handle.
//!
//! Every operation takes a possibly absent instance and decides which slot
//! call, if any, is owed. The call itself is made by whoever holds the loaded
//! plugin code. A missing mandatory slot (`connect_port`, `run`) is treated
//! leniently, as a no-op like a missing optional one: flagging malformed
//! descriptors is left to the loader that builds them.

pub mod adapter;
pub mod instance;
pub mod laws;
pub mod plugin_model;

pub use adapter::{
    lilv_instance_activate, lilv_instance_connect_port, lilv_instance_deactivate,
    lilv_instance_get_descriptor, lilv_instance_get_extension_data, lilv_instance_get_handle,
    lilv_instance_get_uri, lilv_instance_run,
};
pub use instance::{Call, Descriptor, Handle, LilvInstance, Slot};
pub use plugin_model::PluginModel;
