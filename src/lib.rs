//! Binding for a file-search host's plugin interface: the message state
//! machine that drives a plugin, its options pages, the host's capability
//! calls, and discovery of the host's IPC window.
pub mod handler;
pub mod host;
pub mod ipc;
pub mod sys;
pub mod ui;

pub use handler::{PluginApp, PluginHandler};
pub use host::PluginHost;
pub use ipc::{IpcWindow, Version};
