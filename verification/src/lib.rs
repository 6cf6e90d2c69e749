//! Backend-agnostic core of a cross-platform windowing layer.
//!
//! The crate models the subsystems that sit between a native event loop and
//! an application handler: normalization of pointer and keyboard input,
//! key-repeat scheduling, a thread-safe idle-callback queue, a timer registry
//! ordered by deadline, and the window lifecycle state machine (configure,
//! deferred geometry, client-side decoration, close bookkeeping).
//! Platform glue (AppKit, Wayland, GTK) drives these state machines and
//! performs the native calls that the state machines decide on.

pub mod builder;
pub mod clipboard;
pub mod cursor;
pub mod dialog;
pub mod error;
pub mod geometry;
pub mod idle;
pub mod input;
pub mod keyboard;
pub mod locale;
pub mod ordmap;
pub mod placement;
pub mod pointer;
pub mod registry;
pub mod text_input;
pub mod timer;
pub mod tokens;
pub mod window;
