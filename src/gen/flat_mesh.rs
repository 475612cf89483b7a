use vstd::prelude::*;
use crate::geo::{Mesh, Vec3};
use super::{base, lemma_render_append, quad, surface, Corner, Layer, VertexGrid, Winding};

verus! {

/// The relief quad whose bottom-right corner is `(x, y)`.
pub open spec fn top_quad(x: int, y: int) -> Seq<Corner> {
    quad(Winding::A, surface(x - 1, y - 1), surface(x - 1, y), surface(x, y - 1), surface(x, y))
}

/// The wall quad on the left edge (column `x`) between rows `y - 1` and `y`.
pub open spec fn left_wall(x: int, y: int) -> Seq<Corner> {
    quad(Winding::C, surface(x, y - 1), base(x, y - 1), surface(x, y), base(x, y))
}

/// The wall quad on the right edge (column `x`) between rows `y - 1` and `y`.
pub open spec fn right_wall(x: int, y: int) -> Seq<Corner> {
    quad(Winding::D, surface(x, y - 1), base(x, y - 1), surface(x, y), base(x, y))
}

/// The wall quad on the top edge (row `y`) between columns `x - 1` and `x`.
pub open spec fn top_wall(x: int, y: int) -> Seq<Corner> {
    quad(Winding::D, surface(x - 1, y), base(x - 1, y), surface(x, y), base(x, y))
}

/// The wall quad on the bottom edge (row `y`) between columns `x - 1` and `x`.
pub open spec fn bottom_wall(x: int, y: int) -> Seq<Corner> {
    quad(Winding::C, surface(x - 1, y), base(x - 1, y), surface(x, y), base(x, y))
}

/// The two triangles that close the backing sheet of a `w` by `h` grid.
pub open spec fn floor_cap(w: int, h: int) -> Seq<Corner> {
    quad(Winding::D, base(0, 0), base(0, h - 1), base(w - 1, 0), base(w - 1, h - 1))
}

/// The relief quads of row `y` for columns `1..=k`.
pub open spec fn quad_row(y: int, k: nat) -> Seq<Corner>
    decreases k,
{
    if k == 0 {
        Seq::empty()
    } else {
        quad_row(y, (k - 1) as nat) + top_quad(k as int, y)
    }
}

/// Rows `1..=k` of a grid `w` wide: each row's relief quads, then its left
/// and right wall quads.
pub open spec fn rows(w: nat, k: nat) -> Seq<Corner>
    decreases k,
{
    if k == 0 {
        Seq::empty()
    } else {
        rows(w, (k - 1) as nat) + quad_row(k as int, (w - 1) as nat) + left_wall(0, k as int)
            + right_wall(w - 1, k as int)
    }
}

/// The top and bottom wall quads for columns `1..=k` of a grid `h` high.
pub open spec fn edge_walls(h: nat, k: nat) -> Seq<Corner>
    decreases k,
{
    if k == 0 {
        Seq::empty()
    } else {
        edge_walls(h, (k - 1) as nat) + top_wall(k as int, 0) + bottom_wall(k as int, h - 1)
    }
}

/// The corners of a flat lithophane's triangles, in order: the relief and its
/// side walls row by row, the top and bottom walls, then the floor cap.
pub open spec fn flat_corners(w: nat, h: nat) -> Seq<Corner> {
    rows(w, (h - 1) as nat) + edge_walls(h, (w - 1) as nat) + floor_cap(w as int, h as int)
}

/// The number of triangles of a flat lithophane on a `w` by `h` grid: two per
/// relief quad, two per wall quad along each of the four edges, and two for
/// the floor cap.
pub open spec fn flat_triangle_count(w: int, h: int) -> int {
    2 * (w - 1) * (h - 1) + 4 * (h - 1) + 4 * (w - 1) + 2
}

proof fn lemma_quad_row_len(y: int, k: nat)
    ensures
        quad_row(y, k).len() == 6 * k,
    decreases k,
{
    if k > 0 {
        lemma_quad_row_len(y, (k - 1) as nat);
    }
}

proof fn lemma_rows_len(w: nat, k: nat)
    requires
        w >= 1,
    ensures
        rows(w, k).len() == k * (6 * (w - 1) + 12),
    decreases k,
{
    if k > 0 {
        lemma_rows_len(w, (k - 1) as nat);
        lemma_quad_row_len(k as int, (w - 1) as nat);
        assert(left_wall(0, k as int).len() == 6);
        assert(right_wall(w - 1, k as int).len() == 6);
        let c = 6 * (w - 1) + 12;
        assert(rows(w, k).len() == rows(w, (k - 1) as nat).len() + c);
        let km: int = k - 1;
        assert(km * c + c == (km + 1) * c) by (nonlinear_arith);
    } else {
        assert(k * (6 * (w - 1) + 12) == 0) by (nonlinear_arith) requires k == 0;
    }
}

proof fn lemma_edge_walls_len(h: nat, k: nat)
    ensures
        edge_walls(h, k).len() == 12 * k,
    decreases k,
{
    if k > 0 {
        lemma_edge_walls_len(h, (k - 1) as nat);
        assert(top_wall(k as int, 0).len() == 6);
        assert(bottom_wall(k as int, h - 1).len() == 6);
    }
}

/// A flat lithophane lists whole triangles, as many as
/// `flat_triangle_count` says.
pub proof fn lemma_flat_corners_len(w: nat, h: nat)
    requires
        w >= 1,
        h >= 1,
    ensures
        flat_corners(w, h).len() == 3 * flat_triangle_count(w as int, h as int),
        flat_corners(w, h).len() % 3 == 0,
{
    lemma_rows_len(w, (h - 1) as nat);
    lemma_edge_walls_len(h, (w - 1) as nat);
    assert(floor_cap(w as int, h as int).len() == 6);
    let hm: int = h - 1;
    let wm: int = w - 1;
    assert(hm * (6 * wm + 12) == 6 * wm * hm + 12 * hm) by (nonlinear_arith);
    assert(3 * (2 * wm * hm + 4 * hm + 4 * wm + 2) == 6 * wm * hm + 12 * hm + 12 * wm + 6)
        by (nonlinear_arith);
}

enum Side {
    Left,
    Top,
    Right,
    Bottom,
}

/// Append the relief quad whose bottom-right corner is `(x, y)`.
fn add_quad(grid: &VertexGrid, out: &mut Vec<Vec3>, x: usize, y: usize)
    requires
        grid@.wf(),
        1 <= x < grid@.width,
        1 <= y < grid@.height,
    ensures
        final(out)@ == old(out)@ + grid@.render(top_quad(x as int, y as int)),
{
    let tl = Corner { col: x - 1, row: y - 1, layer: Layer::Surface };
    let bl = Corner { col: x - 1, row: y, layer: Layer::Surface };
    let tr = Corner { col: x, row: y - 1, layer: Layer::Surface };
    let br = Corner { col: x, row: y, layer: Layer::Surface };
    grid.emit_quad(out, Winding::A, tl, bl, tr, br);
}

/// Append a wall quad: for the left and right sides the one between rows
/// `y - 1` and `y` at column `x`, for the top and bottom sides the one between
/// columns `x - 1` and `x` at row `y`.
fn add_brim_quad(grid: &VertexGrid, out: &mut Vec<Vec3>, x: usize, y: usize, s: Side)
    requires
        grid@.wf(),
        x < grid@.width,
        y < grid@.height,
        (s is Left || s is Right) ==> y >= 1,
        (s is Top || s is Bottom) ==> x >= 1,
    ensures
        final(out)@ == old(out)@ + grid@.render(
            match s {
                Side::Left => left_wall(x as int, y as int),
                Side::Right => right_wall(x as int, y as int),
                Side::Top => top_wall(x as int, y as int),
                Side::Bottom => bottom_wall(x as int, y as int),
            },
        ),
{
    let (w, vertical) = match s {
        Side::Left => (Winding::C, true),
        Side::Right => (Winding::D, true),
        Side::Top => (Winding::D, false),
        Side::Bottom => (Winding::C, false),
    };
    if vertical {
        let tl = Corner { col: x, row: y - 1, layer: Layer::Surface };
        let tr = Corner { col: x, row: y, layer: Layer::Surface };
        let bl = Corner { col: x, row: y - 1, layer: Layer::Base };
        let br = Corner { col: x, row: y, layer: Layer::Base };
        grid.emit_quad(out, w, tl, bl, tr, br);
    } else {
        let tl = Corner { col: x - 1, row: y, layer: Layer::Surface };
        let tr = Corner { col: x, row: y, layer: Layer::Surface };
        let bl = Corner { col: x - 1, row: y, layer: Layer::Base };
        let br = Corner { col: x, row: y, layer: Layer::Base };
        grid.emit_quad(out, w, tl, bl, tr, br);
    }
}

/// Append the two triangles of the floor cap.
fn add_bottom(grid: &VertexGrid, out: &mut Vec<Vec3>)
    requires
        grid@.wf(),
    ensures
        final(out)@ == old(out)@ + grid@.render(
            floor_cap(grid@.width as int, grid@.height as int),
        ),
{
    let width = grid.width();
    let height = grid.height();
    let tl = Corner { col: 0, row: 0, layer: Layer::Base };
    let tr = Corner { col: width - 1, row: 0, layer: Layer::Base };
    let bl = Corner { col: 0, row: height - 1, layer: Layer::Base };
    let br = Corner { col: width - 1, row: height - 1, layer: Layer::Base };
    grid.emit_quad(out, Winding::D, tl, bl, tr, br);
}

/// Triangulate a height field as a flat slab: the relief surface on top,
/// walls down to the backing sheet along all four edges, and a floor cap.
pub fn generate_flat(grid: &VertexGrid) -> (r: Mesh)
    requires
        grid@.wf(),
    ensures
        r@ == grid@.render(flat_corners(grid@.width, grid@.height)),
        r@.len() == 3 * flat_triangle_count(grid@.width as int, grid@.height as int),
        r@.len() % 3 == 0,
{
    proof {
        lemma_flat_corners_len(grid@.width, grid@.height);
    }
    let width = grid.width();
    let height = grid.height();
    let ghost g = grid@;
    let mut tris: Vec<Vec3> = Vec::new();
    let mut y: usize = 1;
    while y < height
        invariant
            g == grid@,
            g.wf(),
            width == g.width,
            height == g.height,
            1 <= y <= height,
            tris@ == g.render(rows(g.width, (y - 1) as nat)),
        decreases height - y,
    {
        let ghost before = tris@;
        let mut x: usize = 1;
        while x < width
            invariant
                g == grid@,
                g.wf(),
                width == g.width,
                height == g.height,
                1 <= y < height,
                1 <= x <= width,
                tris@ == before + g.render(quad_row(y as int, (x - 1) as nat)),
            decreases width - x,
        {
            add_quad(grid, &mut tris, x, y);
            proof {
                lemma_render_append(g, quad_row(y as int, (x - 1) as nat), top_quad(x as int, y as int));
            }
            x = x + 1;
        }
        add_brim_quad(grid, &mut tris, 0, y, Side::Left);
        add_brim_quad(grid, &mut tris, width - 1, y, Side::Right);
        proof {
            let q = quad_row(y as int, (width - 1) as nat);
            let l = left_wall(0, y as int);
            let rr = right_wall(width - 1, y as int);
            let prev = rows(g.width, (y - 1) as nat);
            lemma_render_append(g, prev, q);
            lemma_render_append(g, prev + q, l);
            lemma_render_append(g, prev + q + l, rr);
            assert(rows(g.width, y as nat) == prev + q + l + rr);
        }
        y = y + 1;
    }
    let ghost body = tris@;
    let mut x: usize = 1;
    while x < width
        invariant
            g == grid@,
            g.wf(),
            width == g.width,
            height == g.height,
            1 <= x <= width,
            tris@ == body + g.render(edge_walls(g.height, (x - 1) as nat)),
        decreases width - x,
    {
        add_brim_quad(grid, &mut tris, x, 0, Side::Top);
        add_brim_quad(grid, &mut tris, x, height - 1, Side::Bottom);
        proof {
            let prev = edge_walls(g.height, (x - 1) as nat);
            let t = top_wall(x as int, 0);
            let b = bottom_wall(x as int, height - 1);
            lemma_render_append(g, prev, t);
            lemma_render_append(g, prev + t, b);
            assert(edge_walls(g.height, x as nat) == prev + t + b);
        }
        x = x + 1;
    }
    add_bottom(grid, &mut tris);
    proof {
        let a = rows(g.width, (g.height - 1) as nat);
        let b = edge_walls(g.height, (g.width - 1) as nat);
        let c = floor_cap(g.width as int, g.height as int);
        lemma_render_append(g, a, b);
        lemma_render_append(g, a + b, c);
    }
    Mesh::new(tris)
}

} // verus!
