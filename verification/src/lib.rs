//! A verified management layer for GPU driver resources.
//!
//! The graphics driver exposes a low-level API with no compiler-enforced
//! safety: misuse silently corrupts state or no-ops. This crate wraps that
//! API in resource types (buffers, vertex arrays, shaders, shader programs)
//! whose correct call ordering, object lifetime and state invalidation are
//! stated in contracts and proved.
//!
//! The driver itself cannot be called from verified code (its entry points
//! are unsafe and require a loaded context), so the crate models the
//! driver's observable state — the object tables, the current-binding
//! slots, the error flag and the stream of commands issued — as an explicit
//! [`driver_state::DriverState`] value that every operation threads through.
//! An unverified front end owns the real context, replays the command
//! stream against it, and feeds back the few verdicts only the driver can
//! decide (compile and link status, diagnostic logs, uniform locations).
//!
//! All operations are synchronous round-trips on the one thread that owns
//! the context; the `DriverState` value is that thread's, and no locking
//! exists or is needed.

pub mod client;
pub mod driver_state;
pub mod engine_types;
pub mod gl_loading;
pub mod mesh_management;
pub mod opengl_utils;
pub mod services;
pub mod shader_errors;
pub mod shader_management;
