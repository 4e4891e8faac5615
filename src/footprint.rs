//! Selection of the single ring of each footprint feature.
use vstd::prelude::*;
use crate::error::GeometryError;

verus! {

/// A feature read from a footprint source, with its rings of type `R`.
pub enum Feature<R> {
    /// A polygon with elevations, given as its rings.
    Polygon(Vec<R>),
    /// Any other kind of shape.
    Unsupported,
}

/// A feature is usable when it is a polygon of exactly one ring.
pub open spec fn is_single_ring<R>(f: Feature<R>) -> bool {
    f matches Feature::Polygon(rings) && rings@.len() == 1
}

/// The error a feature raises, if any.
pub open spec fn feature_error<R>(f: Feature<R>) -> Option<GeometryError> {
    match f {
        Feature::Polygon(rings) => if rings@.len() == 1 {
            None
        } else {
            Some(GeometryError::MultiRingPolygon)
        },
        Feature::Unsupported => Some(GeometryError::UnsupportedFeatureShape),
    }
}

/// The sole ring of a single-ring feature.
pub open spec fn sole_ring<R>(f: Feature<R>) -> R
    recommends
        is_single_ring(f),
{
    match f {
        Feature::Polygon(rings) => rings@[0],
        Feature::Unsupported => arbitrary(),
    }
}

/// The ring of one feature, or the reason it has none to give.
pub fn feature_ring<R>(feature: Feature<R>) -> (r: Result<R, GeometryError>)
    ensures
        feature_error(feature) matches Some(e) ==> r == Err::<R, GeometryError>(e),
        feature_error(feature) is None ==> r == Ok::<R, GeometryError>(sole_ring(feature)),
{
    match feature {
        Feature::Polygon(mut rings) => {
            if rings.len() != 1 {
                return Err(GeometryError::MultiRingPolygon);
            }
            match rings.pop() {
                Some(ring) => Ok(ring),
                None => Err(GeometryError::MultiRingPolygon),
            }
        },
        Feature::Unsupported => Err(GeometryError::UnsupportedFeatureShape),
    }
}

/// The rings of all features, in order; the first feature that is not a
/// single-ring polygon rejects the whole set with its error.
pub fn footprint_rings<R>(features: Vec<Feature<R>>) -> (r: Result<Vec<R>, GeometryError>)
    ensures
        r is Ok <==> forall|i: int| 0 <= i < features@.len() ==> #[trigger] feature_error(
            features@[i],
        ) is None,
        r matches Ok(rings) ==> rings@.len() == features@.len() && forall|i: int|
            0 <= i < features@.len() ==> #[trigger] rings@[i] == sole_ring(features@[i]),
        r matches Err(e) ==> exists|i: int|
            0 <= i < features@.len() && feature_error(#[trigger] features@[i]) == Some(e)
                && forall|k: int| 0 <= k < i ==> #[trigger] feature_error(features@[k]) is None,
{
    let ghost fs = features@;
    let mut out: Vec<R> = Vec::new();
    for f in it: features.into_iter()
        invariant
            it.seq() == fs,
            out@.len() == it.index(),
            forall|k: int| 0 <= k < it.index() ==> #[trigger] feature_error(fs[k]) is None,
            forall|k: int| 0 <= k < it.index() ==> #[trigger] out@[k] == sole_ring(fs[k]),
    {
        let ghost k = it.index();
        match feature_ring(f) {
            Ok(ring) => out.push(ring),
            Err(e) => {
                assert(feature_error(fs[k]) == Some(e));
                return Err(e);
            },
        }
    }
    Ok(out)
}

} // verus!
