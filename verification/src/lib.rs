//! Bindings to OpenGL that call through libepoxy's dispatch table.
//!
//! [`generator`] makes the text of the bindings for a [`registry`], with the
//! helpers of `gl_generator` that [`glgen`] calls and the fixed text in
//! [`templates`]. [`resolve`] is the lookup that the bindings perform for
//! each command, the primary symbol first and then the fallbacks;
//! [`loader`] is what it asks, with the record of the names asked for; and
//! [`bindings`] is the table of slots that a loader fills.

pub mod bindings;
pub mod generator;
pub mod glgen;
pub mod loader;
pub mod registry;
pub mod resolve;
pub mod templates;
pub mod text;
