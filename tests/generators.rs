use lith::gen::{generate, Corner, GenError, Layer, Topology, VertexGrid};
use lith::geo::Vec3;
use std::collections::HashMap;

/// A grid whose vertices name their own position: surface vertices carry
/// z = 1, base vertices z = 0 (raw words, not floats).
fn tagged_grid(w: usize, h: usize) -> VertexGrid {
    let mut surface = vec![];
    let mut base = vec![];
    for row in 0..h {
        for col in 0..w {
            surface.push(Vec3 { x: col as u32, y: row as u32, z: 1 });
            base.push(Vec3 { x: col as u32, y: row as u32, z: 0 });
        }
    }
    VertexGrid::new(w, h, surface, base).unwrap()
}

/// A flat-lithophane grid of real coordinates: (x, y, height) on top and
/// (x, y, floor) below.
fn flat_grid(w: usize, h: usize, heights: &[f32], floor: f32) -> VertexGrid {
    let mut surface = vec![];
    let mut base = vec![];
    for row in 0..h {
        for col in 0..w {
            let (x, y) = (col as f32, row as f32);
            surface.push(Vec3 { x: x.to_bits(), y: y.to_bits(), z: heights[row * w + col].to_bits() });
            base.push(Vec3 { x: x.to_bits(), y: y.to_bits(), z: floor.to_bits() });
        }
    }
    VertexGrid::new(w, h, surface, base).unwrap()
}

fn s(col: u32, row: u32) -> Vec3 {
    Vec3 { x: col, y: row, z: 1 }
}

fn b(col: u32, row: u32) -> Vec3 {
    Vec3 { x: col, y: row, z: 0 }
}

fn point(v: &Vec3) -> [f64; 3] {
    [f32::from_bits(v.x) as f64, f32::from_bits(v.y) as f64, f32::from_bits(v.z) as f64]
}

fn normal(t: &[Vec3]) -> [f64; 3] {
    let (p0, p1, p2) = (point(&t[0]), point(&t[1]), point(&t[2]));
    let u = [p1[0] - p0[0], p1[1] - p0[1], p1[2] - p0[2]];
    let v = [p2[0] - p0[0], p2[1] - p0[1], p2[2] - p0[2]];
    [u[1] * v[2] - u[2] * v[1], u[2] * v[0] - u[0] * v[2], u[0] * v[1] - u[1] * v[0]]
}

#[test]
fn flat_three_by_three_scenario() {
    let grid = flat_grid(3, 3, &[0.0; 9], -1.0);
    let mesh = generate(Topology::FlatGrid, &grid);
    assert_eq!(mesh.vertices().len(), 78);
    assert_eq!(mesh.triangle_count(), 26);
    let normals = vec![Vec3 { x: 0, y: 0, z: 0 }; 26];
    assert_eq!(mesh.as_stl_bytes(&normals).unwrap().len(), 1384);
}

#[test]
fn flat_two_by_two_is_closed() {
    let mesh = generate(Topology::FlatGrid, &tagged_grid(2, 2));
    let verts = mesh.vertices();
    assert_eq!(verts.len() % 3, 0);
    assert_eq!(mesh.triangle_count(), 12);
    let mut edges: HashMap<(Vec3, Vec3), usize> = HashMap::new();
    for t in verts.chunks(3) {
        for (a, b) in [(t[0], t[1]), (t[1], t[2]), (t[2], t[0])] {
            *edges.entry((a, b)).or_insert(0) += 1;
        }
    }
    for ((a, b), n) in edges.iter() {
        assert_eq!(*n, 1, "directed edge used more than once");
        assert_eq!(edges.get(&(*b, *a)), Some(&1), "edge without its opposite");
    }
}

#[test]
fn flat_triangle_count_closed_form() {
    for (w, h) in [(1usize, 1usize), (1, 4), (4, 3), (5, 2), (7, 7)] {
        let mesh = generate(Topology::FlatGrid, &tagged_grid(w, h));
        let expected = 2 * (w - 1) * (h - 1) + 4 * (h - 1) + 4 * (w - 1) + 2;
        assert_eq!(mesh.triangle_count(), expected);
        assert_eq!(mesh.vertices().len(), 3 * expected);
    }
}

#[test]
fn flat_image_topology_matches_flat_grid() {
    let grid = tagged_grid(4, 3);
    let a = generate(Topology::FlatGrid, &grid);
    let b = generate(Topology::FlatImage, &grid);
    assert_eq!(a.vertices(), b.vertices());
}

#[test]
fn flat_first_quad_and_floor_cap_order() {
    let mesh = generate(Topology::FlatGrid, &tagged_grid(3, 2));
    let v = mesh.vertices();
    assert_eq!(&v[0..6], &[s(1, 1), s(0, 1), s(0, 0), s(1, 0), s(1, 1), s(0, 0)]);
    let n = v.len();
    assert_eq!(&v[n - 6..], &[b(0, 0), b(0, 1), b(2, 1), b(2, 0), b(0, 0), b(2, 1)]);
}

#[test]
fn flat_normals_point_out_of_the_slab() {
    let (w, h) = (4usize, 3usize);
    let heights = [-0.2f32, -0.9, -0.5, 0.0, -1.0, -0.3, -0.7, -0.1, -0.4, -0.6, 0.0, -0.8];
    let floor = -1.0f32;
    let mesh = generate(Topology::FlatGrid, &flat_grid(w, h, &heights, floor));
    for t in mesh.vertices().chunks(3) {
        let n = normal(t);
        let ps: Vec<[f64; 3]> = t.iter().map(point).collect();
        let all = |f: &dyn Fn(&[f64; 3]) -> bool| ps.iter().all(|p| f(p));
        let dir = if all(&|p| p[0] == 0.0) {
            [-1.0, 0.0, 0.0]
        } else if all(&|p| p[0] == (w - 1) as f64) {
            [1.0, 0.0, 0.0]
        } else if all(&|p| p[1] == 0.0) {
            [0.0, -1.0, 0.0]
        } else if all(&|p| p[1] == (h - 1) as f64) {
            [0.0, 1.0, 0.0]
        } else if all(&|p| p[2] == floor as f64) {
            [0.0, 0.0, -1.0]
        } else {
            [0.0, 0.0, 1.0]
        };
        assert!(n[0] * dir[0] + n[1] * dir[1] + n[2] * dir[2] >= 0.0);
    }
}

#[test]
fn flat_box_normals_point_away_from_its_centre() {
    let (w, h) = (3usize, 4usize);
    let mesh = generate(Topology::FlatGrid, &flat_grid(w, h, &[0.0; 12], -2.0));
    let centre = [1.0, 1.5, -1.0];
    for t in mesh.vertices().chunks(3) {
        let n = normal(t);
        let ps: Vec<[f64; 3]> = t.iter().map(point).collect();
        let c = [0, 1, 2].map(|k| (ps[0][k] + ps[1][k] + ps[2][k]) / 3.0 - centre[k]);
        assert!(n[0] * c[0] + n[1] * c[1] + n[2] * c[2] >= 0.0);
    }
}

#[test]
fn cylinder_has_four_triangles_per_position() {
    for (w, h) in [(1usize, 1usize), (3, 2), (8, 5)] {
        let mesh = generate(Topology::Cylinder, &tagged_grid(w, h));
        assert_eq!(mesh.triangle_count(), 4 * w * h);
    }
}

#[test]
fn cylinder_seam_wraps_to_column_zero() {
    let mesh = generate(Topology::Cylinder, &tagged_grid(3, 2));
    let v = mesh.vertices();
    // row 1: logical columns 1 and 2, then the seam (logical column 3 = column 0)
    assert_eq!(&v[24..30], &[s(2, 0), s(2, 1), s(0, 1), s(2, 0), s(0, 1), s(0, 0)]);
    assert_eq!(&v[30..36], &[b(0, 1), b(2, 1), b(2, 0), b(0, 0), b(0, 1), b(2, 0)]);
    // the annulus pair across the seam closes the mesh
    let n = v.len();
    assert_eq!(&v[n - 12..n - 6], &[s(0, 1), s(2, 1), b(2, 1), b(0, 1), s(0, 1), b(2, 1)]);
    assert_eq!(&v[n - 6..], &[b(0, 0), b(2, 0), s(2, 0), s(0, 0), b(0, 0), s(2, 0)]);
    assert!(v.iter().all(|p| p.x < 3));
}

#[test]
fn cylinder_is_closed() {
    let mesh = generate(Topology::Cylinder, &tagged_grid(4, 3));
    let mut edges: HashMap<(Vec3, Vec3), usize> = HashMap::new();
    for t in mesh.vertices().chunks(3) {
        for (a, b) in [(t[0], t[1]), (t[1], t[2]), (t[2], t[0])] {
            *edges.entry((a, b)).or_insert(0) += 1;
        }
    }
    for ((a, b), n) in edges.iter() {
        assert_eq!(*n, 1);
        assert_eq!(edges.get(&(*b, *a)), Some(&1));
    }
}

#[test]
fn grid_with_zero_dimension_is_degenerate() {
    assert_eq!(VertexGrid::new(0, 3, vec![], vec![]).err(), Some(GenError::Degenerate));
    assert_eq!(VertexGrid::new(2, 0, vec![], vec![]).err(), Some(GenError::Degenerate));
}

#[test]
fn grid_with_wrong_sheet_size_is_refused() {
    let v = Vec3 { x: 0, y: 0, z: 0 };
    assert_eq!(VertexGrid::new(2, 2, vec![v; 4], vec![v; 3]).err(), Some(GenError::SizeMismatch));
    assert_eq!(VertexGrid::new(2, 2, vec![v; 5], vec![v; 4]).err(), Some(GenError::SizeMismatch));
    assert!(VertexGrid::new(2, 2, vec![v; 4], vec![v; 4]).is_ok());
}

#[test]
fn build_places_every_position() {
    let grid = VertexGrid::build(3, 2, |col, row, layer| Vec3 {
        x: col as u32,
        y: row as u32,
        z: if layer == Layer::Surface { 1 } else { 0 },
    })
    .unwrap();
    assert_eq!((grid.width(), grid.height()), (3, 2));
    assert_eq!(grid.vertex(Corner { col: 2, row: 1, layer: Layer::Base }), b(2, 1));
    assert_eq!(grid.vertex(Corner { col: 1, row: 0, layer: Layer::Surface }), s(1, 0));
    let built = generate(Topology::Cylinder, &grid);
    let tagged = generate(Topology::Cylinder, &tagged_grid(3, 2));
    assert_eq!(built.vertices(), tagged.vertices());
}

#[test]
fn build_refuses_empty_and_oversized_grids() {
    let place = |_: usize, _: usize, _: Layer| Vec3 { x: 0, y: 0, z: 0 };
    assert_eq!(VertexGrid::build(0, 5, place).err(), Some(GenError::Degenerate));
    assert_eq!(VertexGrid::build(4, 0, place).err(), Some(GenError::Degenerate));
    assert_eq!(VertexGrid::build(usize::MAX, 2, place).err(), Some(GenError::TooLarge));
}
