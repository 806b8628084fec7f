//! A minimal window-management engine.
//!
//! The engine is a deterministic state machine: the host process decodes
//! events from the display server, feeds them to [`engine::Engine`], and
//! carries out the commands the engine hands back.  All policy — focus,
//! interactive move/resize, binding lookup, border compositing — lives here;
//! nothing in this crate talks to a server itself.

pub mod bindings;
pub mod config;
pub mod drag;
pub mod engine;
pub mod geom;
pub mod keys;
pub mod laws;
pub mod registry;
pub mod render;
pub mod theme;

pub use geom::Geometry;
