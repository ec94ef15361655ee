//! The platform shell beneath a retained-mode GUI toolkit: negotiation of a
//! GPU rendering context, routing of native input to a window handler, and the
//! queue of work deferred to the UI thread.
//!
//! Everything here is pure: it decides what to ask of the platform and what to
//! make of the answer. The native calls themselves are made by the embedding
//! code, which feeds their results back in.

pub mod cgl;
pub mod error;
pub mod event;
pub mod extensions;
pub mod gl;
pub mod icon;
pub mod idle;
pub mod keyboard;
pub mod wgl;
pub mod window;
pub mod wgl_context;
