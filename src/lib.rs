//! Extrusion of building footprints into wall and outline meshes.
//!
//! The geometry is generic over the coordinate type `C`: every vertex the
//! builders emit is a copy of a coordinate taken from the input (or the
//! ground height given by the caller), so the placement of each vertex is
//! stated and proved exactly, whatever numeric type the caller renders with.
use vstd::prelude::*;

pub mod error;
pub mod footprint;
pub mod geometry;
pub mod laws;
pub mod mesh;
