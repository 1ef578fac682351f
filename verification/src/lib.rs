//! Resource-handle registry for a native windowing backend.
//!
//! The registry converts backend objects (windows, menus, menu handles) into
//! opaque integer identifiers that a foreign caller can hold across call
//! boundaries. It owns the identifier allocator, the per-kind resource
//! tables, the process-wide "last error" slot, and the per-window key-code
//! snapshot used by the two-step query/drain input protocol.

pub mod laws;
pub mod registry;
pub mod text;
