//! A verified bridge between a component store and a dynamically typed
//! scripting runtime.
//!
//! Scripts reach the store through copyable handles that own nothing. Each
//! store owns one liveness flag ([`liveness`]), and every access through a
//! handle ([`world_ref`]) first checks that flag, so a handle kept past the
//! store's end fails cleanly, forever. A registry keyed by 128-bit type
//! identifiers ([`registry`]) lets untrusted callers create views
//! ([`view`]), test presence, insert and remove values of registered types.
//! The laws that tie these operations together are in [`laws`].

pub mod liveness;
pub mod world;
pub mod world_ref;
pub mod view;
pub mod registry;
pub mod laws;
