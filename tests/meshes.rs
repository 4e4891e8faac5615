use footprint_mesh::error::GeometryError;
use footprint_mesh::footprint::{feature_ring, footprint_rings, Feature};
use footprint_mesh::geometry::{swap_axes, swap_rings, Point3, Vertex};
use footprint_mesh::mesh::{any_degenerate, create_buildings, create_stroke, emit_vertices, Topology};

fn p(x: f64, y: f64, z: f64) -> Point3<f64> {
    Point3 { x, y, z }
}

fn xyz(v: &Vertex<f64>) -> (f64, f64, f64) {
    (v.x, v.y, v.z)
}

fn translate(rings: &[Vec<Point3<f64>>], rx: f64, ry: f64) -> Vec<Vec<Point3<f64>>> {
    rings
        .iter()
        .map(|r| r.iter().map(|q| p(q.x - rx, q.y - ry, q.z)).collect())
        .collect()
}

#[test]
fn example_footprint_normalized_and_built() {
    let rings = vec![vec![p(0.0, 0.0, 5.0), p(10.0, 0.0, 5.0), p(10.0, 10.0, 5.0)]];
    let normalized = swap_rings(&translate(&rings, 0.0, 0.0));
    let pts: Vec<(f64, f64, f64)> = normalized[0].iter().map(|q| (q.x, q.y, q.z)).collect();
    assert_eq!(pts, vec![(0.0, 0.0, 5.0), (0.0, 10.0, 5.0), (10.0, 10.0, 5.0)]);
    let volume = create_buildings(&normalized, 0.0).unwrap();
    assert_eq!(volume.positions.len(), 24);
    assert_eq!(volume.topology, Topology::TriangleList);
    let outline = create_stroke(&normalized, 0.0).unwrap();
    assert_eq!(outline.positions.len(), 8);
    assert_eq!(outline.topology, Topology::LineList);
    assert_eq!(xyz(&outline.positions[0]), (0.0, 0.0, 0.0));
    assert_eq!(xyz(&outline.positions[1]), (0.0, 5.0, 0.0));
}

#[test]
fn reference_point_is_subtracted_before_swap() {
    let rings = vec![vec![p(105.0, 220.0, 3.0), p(110.0, 230.0, 4.0)]];
    let normalized = swap_rings(&translate(&rings, 100.0, 200.0));
    assert_eq!((normalized[0][0].x, normalized[0][0].y, normalized[0][0].z), (20.0, 5.0, 3.0));
    assert_eq!((normalized[0][1].x, normalized[0][1].y, normalized[0][1].z), (30.0, 10.0, 4.0));
}

#[test]
fn wall_vertices_of_one_edge() {
    let rings = vec![vec![p(1.0, 2.0, 3.0), p(4.0, 5.0, 6.0)]];
    let mesh = create_buildings(&rings, 0.0).unwrap();
    let g1 = (1.0, 0.0, 2.0);
    let g2 = (4.0, 0.0, 5.0);
    let t1 = (1.0, 3.0, 2.0);
    let t2 = (4.0, 6.0, 5.0);
    let got: Vec<(f64, f64, f64)> = mesh.positions.iter().map(xyz).collect();
    assert_eq!(got, vec![g1, g2, t2, g1, t2, t1, g1, t2, g2, g1, t1, t2]);
    assert_eq!(mesh.indices, Some((0u32..12).collect::<Vec<u32>>()));
}

#[test]
fn outline_vertices_of_one_edge() {
    let rings = vec![vec![p(1.0, 2.0, 3.0), p(4.0, 5.0, 6.0)]];
    let mesh = create_stroke(&rings, 0.0).unwrap();
    let got: Vec<(f64, f64, f64)> = mesh.positions.iter().map(xyz).collect();
    assert_eq!(got, vec![(1.0, 0.0, 2.0), (1.0, 3.0, 2.0), (1.0, 3.0, 2.0), (4.0, 6.0, 5.0)]);
    assert!(mesh.indices.is_none());
}

#[test]
fn ground_height_is_the_given_base() {
    let rings = vec![vec![p(1.0, 2.0, 3.0), p(4.0, 5.0, 6.0)]];
    let mesh = create_stroke(&rings, -1.5).unwrap();
    assert_eq!(mesh.positions[0].y, -1.5);
}

#[test]
fn vertex_counts_follow_edge_count() {
    let ring: Vec<Point3<f64>> = (0..5).map(|i| p(i as f64, 0.0, 1.0)).collect();
    let rings = vec![ring.clone(), vec![p(0.0, 0.0, 1.0), p(1.0, 1.0, 2.0)]];
    let volume = create_buildings(&rings, 0.0).unwrap();
    assert_eq!(volume.positions.len(), 12 * 4 + 12);
    assert_eq!(volume.indices.unwrap().len(), 60);
    let outline = create_stroke(&rings, 0.0).unwrap();
    assert_eq!(outline.positions.len(), 4 * 4 + 4);
}

#[test]
fn rings_are_not_closed() {
    let open = vec![vec![p(0.0, 0.0, 1.0), p(1.0, 0.0, 1.0), p(1.0, 1.0, 1.0)]];
    let closed = vec![vec![p(0.0, 0.0, 1.0), p(1.0, 0.0, 1.0), p(1.0, 1.0, 1.0), p(0.0, 0.0, 1.0)]];
    assert_eq!(create_stroke(&open, 0.0).unwrap().positions.len(), 8);
    assert_eq!(create_stroke(&closed, 0.0).unwrap().positions.len(), 12);
}

#[test]
fn degenerate_rings_are_rejected() {
    let empty: Vec<Vec<Point3<f64>>> = vec![vec![]];
    let single = vec![vec![p(1.0, 1.0, 1.0)]];
    let mixed = vec![vec![p(0.0, 0.0, 1.0), p(1.0, 0.0, 1.0)], vec![p(1.0, 1.0, 1.0)]];
    for rings in [&empty, &single, &mixed] {
        assert!(any_degenerate(rings));
        assert!(matches!(create_buildings(rings, 0.0), Err(GeometryError::DegeneratePolygon)));
        assert!(matches!(create_stroke(rings, 0.0), Err(GeometryError::DegeneratePolygon)));
    }
}

#[test]
fn empty_set_gives_empty_meshes() {
    let rings: Vec<Vec<Point3<f64>>> = Vec::new();
    let volume = create_buildings(&rings, 0.0).unwrap();
    assert!(volume.positions.is_empty());
    assert_eq!(volume.indices, Some(Vec::new()));
    let outline = create_stroke(&rings, 0.0).unwrap();
    assert!(outline.positions.is_empty());
}

#[test]
fn swap_twice_is_identity() {
    let q = p(3.0, -7.0, 2.0);
    let back = swap_axes(swap_axes(q));
    assert_eq!((back.x, back.y, back.z), (3.0, -7.0, 2.0));
    let once = swap_axes(q);
    assert_eq!((once.x, once.y, once.z), (-7.0, 3.0, 2.0));
}

#[test]
fn double_normalization_translates_without_swap() {
    let rings = vec![vec![p(15.0, 27.0, 4.0), p(16.0, 29.0, 4.0)]];
    let first = swap_rings(&translate(&rings, 10.0, 20.0));
    let second = swap_rings(&translate(&first, 0.0, 0.0));
    assert_eq!((second[0][0].x, second[0][0].y, second[0][0].z), (5.0, 7.0, 4.0));
    assert_eq!((second[0][1].x, second[0][1].y, second[0][1].z), (6.0, 9.0, 4.0));
}

#[test]
fn normalizing_set_equals_normalizing_points() {
    let rings = vec![
        vec![p(1.0, 2.0, 3.0), p(4.0, 5.0, 6.0), p(7.0, 8.0, 9.0)],
        vec![p(-1.0, 0.5, 2.0), p(2.0, 1.5, 2.5)],
    ];
    let whole = swap_rings(&rings);
    let each: Vec<Vec<Point3<f64>>> =
        rings.iter().map(|r| r.iter().map(|q| swap_axes(*q)).collect()).collect();
    for topology in [Topology::TriangleList, Topology::LineList] {
        let a: Vec<(f64, f64, f64)> = emit_vertices(&whole, topology, 0.0).iter().map(xyz).collect();
        let b: Vec<(f64, f64, f64)> = emit_vertices(&each, topology, 0.0).iter().map(xyz).collect();
        let mirrored: Vec<(f64, f64, f64)> = emit_vertices(&rings, topology, 0.0)
            .iter()
            .map(|v| (v.z, v.y, v.x))
            .collect();
        assert_eq!(a, b);
        assert_eq!(a, mirrored);
    }
}

#[test]
fn single_ring_features_give_their_rings() {
    let features = vec![
        Feature::Polygon(vec![vec![p(0.0, 0.0, 1.0), p(1.0, 0.0, 1.0)]]),
        Feature::Polygon(vec![vec![p(2.0, 2.0, 2.0)]]),
    ];
    let rings = footprint_rings(features).unwrap();
    assert_eq!(rings.len(), 2);
    assert_eq!(rings[0].len(), 2);
    assert_eq!(rings[1][0].z, 2.0);
}

#[test]
fn unsupported_feature_is_rejected() {
    let features: Vec<Feature<Vec<Point3<f64>>>> =
        vec![Feature::Polygon(vec![vec![p(0.0, 0.0, 1.0)]]), Feature::Unsupported];
    assert!(matches!(footprint_rings(features), Err(GeometryError::UnsupportedFeatureShape)));
}

#[test]
fn multi_ring_feature_is_rejected() {
    let two = Feature::Polygon(vec![vec![p(0.0, 0.0, 1.0)], vec![p(1.0, 1.0, 1.0)]]);
    assert!(matches!(feature_ring(two), Err(GeometryError::MultiRingPolygon)));
    let none: Feature<Vec<Point3<f64>>> = Feature::Polygon(vec![]);
    assert!(matches!(feature_ring(none), Err(GeometryError::MultiRingPolygon)));
}

#[test]
fn first_bad_feature_decides_the_error() {
    let features: Vec<Feature<Vec<Point3<f64>>>> = vec![
        Feature::Polygon(vec![vec![], vec![]]),
        Feature::Unsupported,
    ];
    assert!(matches!(footprint_rings(features), Err(GeometryError::MultiRingPolygon)));
}
