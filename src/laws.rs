//! Properties that relate the normalizer and the two mesh builders.
use vstd::prelude::*;
use crate::geometry::{Point3, Vertex, swapped, swapped_ring};
use crate::mesh::{Topology, ring_vertices, set_vertices, lemma_ring_count};

verus! {

/// A vertex with its two ground axes exchanged.
pub open spec fn mirrored<C>(v: Vertex<C>) -> Vertex<C> {
    Vertex { x: v.z, y: v.y, z: v.x }
}

/// Swapping the planar axes of every point of a ring and then building its
/// vertices gives the same mesh as swapping the point of every vertex
/// emitted for the unswapped ring: the axis swap commutes with extrusion.
pub proof fn lemma_swap_commutes_ring<C>(topology: Topology, ring: Seq<Point3<C>>, base: C)
    ensures
        ring_vertices(topology, swapped_ring(ring), base) == ring_vertices(
            topology,
            ring,
            base,
        ).map_values(|v: Vertex<C>| mirrored(v)),
    decreases ring.len(),
{
    if ring.len() >= 2 {
        lemma_swap_commutes_ring(topology, ring.drop_last(), base);
        assert(swapped_ring(ring).drop_last() =~= swapped_ring(ring.drop_last()));
        assert(ring_vertices(topology, swapped_ring(ring), base) =~= ring_vertices(
            topology,
            ring,
            base,
        ).map_values(|v: Vertex<C>| mirrored(v)));
    } else {
        assert(ring_vertices(topology, swapped_ring(ring), base) =~= ring_vertices(
            topology,
            ring,
            base,
        ).map_values(|v: Vertex<C>| mirrored(v)));
    }
}

/// Normalizing a whole set of rings and then building a mesh gives the mesh
/// built from rings whose points were normalized one by one, and that mesh
/// is the mesh of the unswapped rings with each vertex's ground axes exchanged.
pub proof fn lemma_normalization_distributes<C>(
    topology: Topology,
    rings: Seq<Seq<Point3<C>>>,
    pre: Seq<Seq<Point3<C>>>,
    base: C,
)
    requires
        pre.len() == rings.len(),
        forall|i: int| 0 <= i < rings.len() ==> (#[trigger] pre[i]).len() == rings[i].len(),
        forall|i: int, j: int|
            0 <= i < rings.len() && 0 <= j < rings[i].len() ==> #[trigger] pre[i][j] == swapped(
                rings[i][j],
            ),
    ensures
        set_vertices(topology, rings.map_values(|r: Seq<Point3<C>>| swapped_ring(r)), base)
            == set_vertices(topology, pre, base),
        set_vertices(topology, pre, base) == set_vertices(topology, rings, base).map_values(
            |v: Vertex<C>| mirrored(v),
        ),
    decreases rings.len(),
{
    assert(rings.map_values(|r: Seq<Point3<C>>| swapped_ring(r)) =~~= pre);
    if rings.len() > 0 {
        lemma_normalization_distributes(topology, rings.drop_last(), pre.drop_last(), base);
        lemma_swap_commutes_ring(topology, rings.last(), base);
        assert(pre.last() =~= swapped_ring(rings.last()));
        assert(set_vertices(topology, pre, base) =~= set_vertices(
            topology,
            rings,
            base,
        ).map_values(|v: Vertex<C>| mirrored(v)));
    } else {
        assert(set_vertices(topology, pre, base) =~= set_vertices(
            topology,
            rings,
            base,
        ).map_values(|v: Vertex<C>| mirrored(v)));
    }
}

/// A ring of `L >= 2` points contributes exactly `12 * (L - 1)` vertices to
/// the wall mesh and `4 * (L - 1)` vertices to the outline mesh.
pub proof fn lemma_vertex_count<C>(ring: Seq<Point3<C>>, base: C)
    requires
        ring.len() >= 2,
    ensures
        ring_vertices(Topology::TriangleList, ring, base).len() == 12 * (ring.len() - 1),
        ring_vertices(Topology::LineList, ring, base).len() == 4 * (ring.len() - 1),
{
    lemma_ring_count(Topology::TriangleList, ring, base);
    lemma_ring_count(Topology::LineList, ring, base);
}

/// Exchanging the planar axes twice gives back the same point and ring.
pub proof fn lemma_swap_involution<C>(p: Point3<C>, ring: Seq<Point3<C>>)
    ensures
        swapped(swapped(p)) == p,
        swapped_ring(swapped_ring(ring)) == ring,
{
    assert(swapped_ring(swapped_ring(ring)) =~= ring);
}

} // verus!
