//! Errors of footprint selection and mesh construction.
use vstd::prelude::*;

verus! {

/// Why a set of footprints could not be turned into meshes.
#[derive(Clone, Copy, Debug, PartialEq, Eq, Structural)]
pub enum GeometryError {
    /// A feature is not a polygon with elevations.
    UnsupportedFeatureShape,
    /// A polygon feature does not consist of exactly one ring.
    MultiRingPolygon,
    /// A ring has fewer than two points, so it has no edge to extrude.
    DegeneratePolygon,
    /// The vertex count exceeds what a 32-bit index buffer can address.
    IndexOverflow,
}

} // verus!
