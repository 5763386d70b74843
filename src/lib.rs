//! Adapter layer for plugins that follow the host's `load` / `loadu` / `request` /
//! `unload` calling convention.
//!
//! The library holds the logic of that boundary: the write-once process registries,
//! the buffer bridge between host-owned memory blocks and owned byte buffers, the
//! decoding of the module path, and the negotiation between the two load entry points.
pub mod dll_util;
pub mod entry;
pub mod host_memory;

pub use dll_util::read_dll_path_string;
