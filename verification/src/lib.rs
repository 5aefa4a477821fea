//! A minimal, backend-agnostic 2D drawing surface.
//!
//! The crate models the core of a vector-graphics boundary layer: surfaces
//! with fixed dimensions, incremental path builders with a one-shot finish,
//! and draw commands (clear, fill, stroke, rectangle fill) recorded against a
//! surface. Handles are generation-checked indices into a registry, so a null
//! or stale handle makes every operation a detectable no-op. Rasterization
//! itself is the job of an external rendering engine: an adapter replays the
//! recorded commands into the engine of its choice and reads pixels back.
//! The pixel semantics that the boundary contract pins down exactly (a clear,
//! and an opaque pixel-aligned rectangle fill) are stated and proved in the
//! `model` module.

pub mod color;
pub mod geom;
pub mod error;
pub mod path;
pub mod surface;
pub mod table;
pub mod registry;
pub mod caps;
pub mod model;

