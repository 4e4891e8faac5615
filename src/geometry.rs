//! Points of a footprint, render-space vertices, and the planar axis swap.
use vstd::prelude::*;

verus! {

/// A footprint point: planar position `(x, y)` and elevation `z`.
#[derive(Clone, Copy, Debug)]
pub struct Point3<C> {
    pub x: C,
    pub y: C,
    pub z: C,
}

/// A render-space vertex: `y` is the height axis, `x` and `z` span the ground.
#[derive(Clone, Copy, Debug)]
pub struct Vertex<C> {
    pub x: C,
    pub y: C,
    pub z: C,
}

/// The point with its two planar axes exchanged; the elevation is kept.
pub open spec fn swapped<C>(p: Point3<C>) -> Point3<C> {
    Point3 { x: p.y, y: p.x, z: p.z }
}

/// Exchanges the two planar axes of a point, keeping its elevation.
pub fn swap_axes<C: Copy>(p: Point3<C>) -> (r: Point3<C>)
    ensures
        r == swapped(p),
{
    Point3 { x: p.y, y: p.x, z: p.z }
}

/// A ring with the planar axes of each point exchanged.
pub open spec fn swapped_ring<C>(ring: Seq<Point3<C>>) -> Seq<Point3<C>> {
    ring.map_values(|p: Point3<C>| swapped(p))
}

/// Exchanges the planar axes of every point of every ring, keeping the
/// order of rings and of points.
pub fn swap_rings<C: Copy>(rings: &[Vec<Point3<C>>]) -> (r: Vec<Vec<Point3<C>>>)
    ensures
        r@.len() == rings@.len(),
        forall|i: int| 0 <= i < rings@.len() ==> #[trigger] r@[i]@ == swapped_ring(rings@[i]@),
{
    let mut out: Vec<Vec<Point3<C>>> = Vec::new();
    let n = rings.len();
    let mut i: usize = 0;
    while i < n
        invariant
            n == rings@.len(),
            i <= n,
            out@.len() == i,
            forall|k: int| 0 <= k < i ==> #[trigger] out@[k]@ == swapped_ring(rings@[k]@),
        decreases n - i,
    {
        let ring = &rings[i];
        let len = ring.len();
        let mut moved: Vec<Point3<C>> = Vec::new();
        let mut j: usize = 0;
        while j < len
            invariant
                len == ring@.len(),
                j <= len,
                moved@ == swapped_ring(ring@.take(j as int)),
            decreases len - j,
        {
            moved.push(swap_axes(ring[j]));
            assert(moved@ =~= swapped_ring(ring@.take(j + 1)));
            j += 1;
        }
        assert(ring@.take(len as int) =~= ring@);
        out.push(moved);
        i += 1;
    }
    out
}

} // verus!
