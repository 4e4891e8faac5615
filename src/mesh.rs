//! Extruded wall meshes and outline meshes built from footprint rings.
//!
//! Each consecutive pair of points of a ring is an edge; the ring is not
//! closed implicitly, so a ring of `L` points has `L - 1` edges. A vertex on
//! the ground at point `p` sits at `(p.x, base, p.y)` and the top vertex at
//! `(p.x, p.z, p.y)`: the footprint's planar axes span the ground plane and
//! the elevation becomes the height.
use vstd::prelude::*;
use crate::error::GeometryError;
use crate::geometry::{Point3, Vertex};

verus! {

/// How consecutive vertices of a mesh are grouped.
#[derive(Clone, Copy, Debug, PartialEq, Eq, Structural)]
pub enum Topology {
    /// Every three vertices form a triangle.
    TriangleList,
    /// Every two vertices form a line segment.
    LineList,
}

/// A vertex buffer with its topology and an optional index buffer.
pub struct Mesh<C> {
    pub topology: Topology,
    pub positions: Vec<Vertex<C>>,
    pub indices: Option<Vec<u32>>,
}

/// Number of vertices a 32-bit index buffer can address.
pub const INDEX_LIMIT: u64 = 0x1_0000_0000;

/// The vertex on the ground below `p`, at height `base`.
pub open spec fn ground<C>(p: Point3<C>, base: C) -> Vertex<C> {
    Vertex { x: p.x, y: base, z: p.y }
}

/// The vertex at the top of the wall above `p`, at height `p.z`.
pub open spec fn top<C>(p: Point3<C>) -> Vertex<C> {
    Vertex { x: p.x, y: p.z, z: p.y }
}

/// The wall over the edge `(p1, p2)`: the quad ground-`p1`, ground-`p2`,
/// top-`p2`, top-`p1` as two triangles, then the same quad once more with
/// the opposite winding, so that it shows from both sides.
pub open spec fn wall_vertices<C>(p1: Point3<C>, p2: Point3<C>, base: C) -> Seq<Vertex<C>> {
    let g1 = ground(p1, base);
    let g2 = ground(p2, base);
    let t1 = top(p1);
    let t2 = top(p2);
    seq![g1, g2, t2, g1, t2, t1, g1, t2, g2, g1, t1, t2]
}

/// The outline over the edge `(p1, p2)`: the riser at `p1`, then the rim
/// from the top of `p1` to the top of `p2`.
pub open spec fn outline_vertices<C>(p1: Point3<C>, p2: Point3<C>, base: C) -> Seq<Vertex<C>> {
    seq![ground(p1, base), top(p1), top(p1), top(p2)]
}

/// The vertices emitted for one edge in the given topology.
pub open spec fn edge_vertices<C>(
    topology: Topology,
    p1: Point3<C>,
    p2: Point3<C>,
    base: C,
) -> Seq<Vertex<C>> {
    match topology {
        Topology::TriangleList => wall_vertices(p1, p2, base),
        Topology::LineList => outline_vertices(p1, p2, base),
    }
}

/// How many vertices one edge contributes in the given topology.
pub open spec fn per_edge(topology: Topology) -> nat {
    match topology {
        Topology::TriangleList => 12,
        Topology::LineList => 4,
    }
}

/// The vertices of one ring: those of each edge, in ring order.
pub open spec fn ring_vertices<C>(topology: Topology, ring: Seq<Point3<C>>, base: C) -> Seq<
    Vertex<C>,
>
    decreases ring.len(),
{
    if ring.len() < 2 {
        Seq::empty()
    } else {
        ring_vertices(topology, ring.drop_last(), base) + edge_vertices(
            topology,
            ring[ring.len() - 2],
            ring.last(),
            base,
        )
    }
}

/// The vertices of a set of rings: those of each ring, in order.
pub open spec fn set_vertices<C>(topology: Topology, rings: Seq<Seq<Point3<C>>>, base: C) -> Seq<
    Vertex<C>,
>
    decreases rings.len(),
{
    if rings.len() == 0 {
        Seq::empty()
    } else {
        set_vertices(topology, rings.drop_last(), base) + ring_vertices(
            topology,
            rings.last(),
            base,
        )
    }
}

/// The point sequences of a slice of rings.
pub open spec fn ring_views<C>(rings: Seq<Vec<Point3<C>>>) -> Seq<Seq<Point3<C>>> {
    rings.map_values(|r: Vec<Point3<C>>| r@)
}

/// Some ring has fewer than two points.
pub open spec fn has_degenerate<C>(rings: Seq<Seq<Point3<C>>>) -> bool {
    exists|i: int| 0 <= i < rings.len() && #[trigger] rings[i].len() < 2
}

/// The identity index buffer of `n` vertices.
pub open spec fn identity_indices(n: nat) -> Seq<u32> {
    Seq::new(n, |i: int| i as u32)
}

/// A ring of `L >= 2` points contributes `per_edge * (L - 1)` vertices.
pub proof fn lemma_ring_count<C>(topology: Topology, ring: Seq<Point3<C>>, base: C)
    ensures
        ring.len() >= 2 ==> ring_vertices(topology, ring, base).len() == per_edge(topology) * (
        ring.len() - 1),
        ring.len() < 2 ==> ring_vertices(topology, ring, base).len() == 0,
    decreases ring.len(),
{
    if ring.len() >= 2 {
        lemma_ring_count(topology, ring.drop_last(), base);
    }
}

/// Extending the prefix of a ring by one point appends that edge's vertices.
proof fn lemma_ring_step<C>(topology: Topology, ring: Seq<Point3<C>>, j: int, base: C)
    requires
        1 <= j < ring.len(),
    ensures
        ring_vertices(topology, ring.take(j + 1), base) == ring_vertices(
            topology,
            ring.take(j),
            base,
        ) + edge_vertices(topology, ring[j - 1], ring[j], base),
{
    assert(ring.take(j + 1).drop_last() =~= ring.take(j));
}

/// Extending the prefix of a set by one ring appends that ring's vertices.
proof fn lemma_set_step<C>(topology: Topology, rings: Seq<Seq<Point3<C>>>, i: int, base: C)
    requires
        0 <= i < rings.len(),
    ensures
        set_vertices(topology, rings.take(i + 1), base) == set_vertices(
            topology,
            rings.take(i),
            base,
        ) + ring_vertices(topology, rings[i], base),
{
    assert(rings.take(i + 1).drop_last() =~= rings.take(i));
}

/// Reports whether some ring has fewer than two points.
pub fn any_degenerate<C>(rings: &[Vec<Point3<C>>]) -> (r: bool)
    ensures
        r == has_degenerate(ring_views(rings@)),
{
    let n = rings.len();
    let mut i: usize = 0;
    while i < n
        invariant
            n == rings@.len(),
            i <= n,
            forall|k: int| 0 <= k < i ==> (#[trigger] ring_views(rings@)[k]).len() >= 2,
        decreases n - i,
    {
        if rings[i].len() < 2 {
            assert(ring_views(rings@)[i as int].len() < 2);
            return true;
        }
        i += 1;
    }
    false
}

/// Appends the vertices of the edge `(p1, p2)` in the given topology.
fn push_edge<C: Copy>(
    out: &mut Vec<Vertex<C>>,
    topology: Topology,
    p1: Point3<C>,
    p2: Point3<C>,
    base: C,
)
    ensures
        final(out)@ == old(out)@ + edge_vertices(topology, p1, p2, base),
{
    let g1 = Vertex { x: p1.x, y: base, z: p1.y };
    let g2 = Vertex { x: p2.x, y: base, z: p2.y };
    let t1 = Vertex { x: p1.x, y: p1.z, z: p1.y };
    let t2 = Vertex { x: p2.x, y: p2.z, z: p2.y };
    match topology {
        Topology::TriangleList => {
            out.push(g1);
            out.push(g2);
            out.push(t2);
            out.push(g1);
            out.push(t2);
            out.push(t1);
            out.push(g1);
            out.push(t2);
            out.push(g2);
            out.push(g1);
            out.push(t1);
            out.push(t2);
        },
        Topology::LineList => {
            out.push(g1);
            out.push(t1);
            out.push(t1);
            out.push(t2);
        },
    }
    assert(final(out)@ =~= old(out)@ + edge_vertices(topology, p1, p2, base));
}

/// The vertices of every edge of every ring, rings and edges in order.
pub fn emit_vertices<C: Copy>(rings: &[Vec<Point3<C>>], topology: Topology, base: C) -> (r: Vec<
    Vertex<C>,
>)
    ensures
        r@ == set_vertices(topology, ring_views(rings@), base),
{
    let ghost views = ring_views(rings@);
    let mut out: Vec<Vertex<C>> = Vec::new();
    let n = rings.len();
    let mut i: usize = 0;
    assert(views.take(0) =~= Seq::<Seq<Point3<C>>>::empty());
    while i < n
        invariant
            n == rings@.len(),
            views == ring_views(rings@),
            i <= n,
            out@ == set_vertices(topology, views.take(i as int), base),
        decreases n - i,
    {
        let ring = &rings[i];
        let len = ring.len();
        let ghost before = out@;
        proof {
            lemma_set_step(topology, views, i as int, base);
        }
        assert(views[i as int] == ring@);
        if len >= 2 {
            let mut j: usize = 1;
            assert(ring@.take(1).len() < 2);
            while j < len
                invariant
                    len == ring@.len(),
                    1 <= j <= len,
                    out@ == before + ring_vertices(topology, ring@.take(j as int), base),
                decreases len - j,
            {
                proof {
                    lemma_ring_step(topology, ring@, j as int, base);
                }
                push_edge(&mut out, topology, ring[j - 1], ring[j], base);
                assert(out@ =~= before + ring_vertices(topology, ring@.take(j + 1), base));
                j += 1;
            }
            assert(ring@.take(len as int) =~= ring@);
        } else {
            assert(out@ =~= before + ring_vertices(topology, ring@, base));
        }
        i += 1;
    }
    assert(views.take(n as int) =~= views);
    out
}

/// The identity index buffer `0, 1, ..., n - 1`.
fn identity_index_buffer(n: usize) -> (r: Vec<u32>)
    requires
        n <= INDEX_LIMIT,
    ensures
        r@ == identity_indices(n as nat),
{
    let mut out: Vec<u32> = Vec::new();
    let mut k: usize = 0;
    while k < n
        invariant
            k <= n,
            n <= INDEX_LIMIT,
            out@ == identity_indices(k as nat),
        decreases n - k,
    {
        out.push(k as u32);
        assert(out@ =~= identity_indices((k + 1) as nat));
        k += 1;
    }
    out
}

/// Builds the solid wall mesh of a set of rings, with `base` as ground height.
///
/// Every edge becomes a quad, emitted twice with opposite windings; the index
/// buffer addresses the vertices one by one. A ring with fewer than two points
/// rejects the whole set.
pub fn create_buildings<C: Copy>(rings: &[Vec<Point3<C>>], base: C) -> (r: Result<
    Mesh<C>,
    GeometryError,
>)
    ensures
        has_degenerate(ring_views(rings@)) ==> r == Err::<Mesh<C>, GeometryError>(
            GeometryError::DegeneratePolygon,
        ),
        !has_degenerate(ring_views(rings@)) && set_vertices(
            Topology::TriangleList,
            ring_views(rings@),
            base,
        ).len() > INDEX_LIMIT ==> r == Err::<Mesh<C>, GeometryError>(
            GeometryError::IndexOverflow,
        ),
        !has_degenerate(ring_views(rings@)) && set_vertices(
            Topology::TriangleList,
            ring_views(rings@),
            base,
        ).len() <= INDEX_LIMIT ==> r is Ok,
        r matches Ok(m) ==> {
            &&& m.topology == Topology::TriangleList
            &&& m.positions@ == set_vertices(Topology::TriangleList, ring_views(rings@), base)
            &&& m.indices matches Some(ix)
            &&& ix@ == identity_indices(m.positions@.len())
        },
{
    if any_degenerate(rings) {
        return Err(GeometryError::DegeneratePolygon);
    }
    let positions = emit_vertices(rings, Topology::TriangleList, base);
    let n = positions.len();
    if n as u64 > INDEX_LIMIT {
        return Err(GeometryError::IndexOverflow);
    }
    let indices = identity_index_buffer(n);
    Ok(Mesh { topology: Topology::TriangleList, positions, indices: Some(indices) })
}

/// Builds the outline mesh of a set of rings, with `base` as ground height.
///
/// Every edge becomes two segments: the riser at its first point and the rim
/// along its top. There is no index buffer. A ring with fewer than two points
/// rejects the whole set.
pub fn create_stroke<C: Copy>(rings: &[Vec<Point3<C>>], base: C) -> (r: Result<
    Mesh<C>,
    GeometryError,
>)
    ensures
        has_degenerate(ring_views(rings@)) <==> r == Err::<Mesh<C>, GeometryError>(
            GeometryError::DegeneratePolygon,
        ),
        r is Ok <==> !has_degenerate(ring_views(rings@)),
        r matches Ok(m) ==> {
            &&& m.topology == Topology::LineList
            &&& m.positions@ == set_vertices(Topology::LineList, ring_views(rings@), base)
            &&& m.indices is None
        },
{
    if any_degenerate(rings) {
        return Err(GeometryError::DegeneratePolygon);
    }
    let positions = emit_vertices(rings, Topology::LineList, base);
    Ok(Mesh { topology: Topology::LineList, positions, indices: None })
}

} // verus!
