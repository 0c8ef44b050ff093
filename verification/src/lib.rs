//! Host-side bridge between an embedding host process and a sandboxed,
//! dynamically-typed scripting engine instance.
//!
//! The bridge routes guest calls to numbered host operations, manages the
//! single reusable response slot for small synchronous results, delivers
//! deferred results through the one registered completion channel, tracks
//! deferred values that are currently rejected with no handler attached,
//! correlates dynamic module-load requests with their completions, resolves
//! static import specifiers during linking, and converts engine exceptions
//! into structured diagnostic records that serialize to bytes.

pub mod buffer;
pub mod context;
pub mod diagnostic;
pub mod dispatch;
pub mod eval;
pub mod imports;
pub mod modules;
pub mod rejection;
pub mod wire;
