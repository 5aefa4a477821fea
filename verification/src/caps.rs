//! Capability reporting for the two rendering engines.
//!
//! The engines differ in feature completeness. Callers query these
//! capabilities instead of discovering a gap visually: where a flag is
//! false, the engine's adapter accepts the parameter, records it, and
//! applies the engine's default instead.

use vstd::prelude::*;

verus! {

/// Which rendering engine executes the recorded commands.
#[derive(Clone, Copy, PartialEq, Eq, Structural, Debug)]
pub enum Backend {
    /// The raqote engine: rasterizes eagerly, honors stroke geometry.
    Raqote,
    /// The vello-cpu engine: records and rasterizes on read, strokes with
    /// its own defaults.
    VelloCpu,
}

/// What an engine's adapter actually honors of the drawing parameters.
#[derive(Clone, Copy, PartialEq, Eq, Structural, Debug)]
pub struct Caps {
    /// The fill-rule parameter is applied; where false, the adapter always
    /// fills `NonZero`.
    pub fill_rule: bool,
    /// Stroke width, cap and join are applied; where false, the adapter
    /// strokes with the engine's defaults.
    pub stroke_style: bool,
}

/// Reports an engine's capabilities. Neither adapter applies the fill-rule
/// parameter (both always fill `NonZero`), and only the raqote adapter
/// applies the stroke style.
pub fn backend_caps(b: Backend) -> (c: Caps)
    ensures
        b is Raqote ==> c == (Caps { fill_rule: false, stroke_style: true }),
        b is VelloCpu ==> c == (Caps { fill_rule: false, stroke_style: false }),
{
    match b {
        Backend::Raqote => Caps { fill_rule: false, stroke_style: true },
        Backend::VelloCpu => Caps { fill_rule: false, stroke_style: false },
    }
}

} // verus!
