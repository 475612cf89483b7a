use vstd::prelude::*;
use crate::geo::{Mesh, Vec3};
use super::{base, lemma_render_append, quad, surface, Corner, Layer, VertexGrid, Winding};

verus! {

/// The outer-wall quad of row `y` whose right column is logical column `x`.
/// Logical column `w` is column `0`: the wall wraps around the axis.
pub open spec fn outer_quad(w: int, x: int, y: int) -> Seq<Corner> {
    quad(Winding::B, surface(x - 1, y - 1), surface(x - 1, y), surface(x % w, y - 1), surface(x % w, y))
}

/// The inner-wall quad matching `outer_quad(w, x, y)`, wound the other way.
pub open spec fn inner_quad(w: int, x: int, y: int) -> Seq<Corner> {
    quad(Winding::A, base(x - 1, y - 1), base(x - 1, y), base(x % w, y - 1), base(x % w, y))
}

/// The outer and inner quads of row `y` for logical columns `1..=k`.
pub open spec fn ring_row(w: int, y: int, k: nat) -> Seq<Corner>
    decreases k,
{
    if k == 0 {
        Seq::empty()
    } else {
        ring_row(w, y, (k - 1) as nat) + outer_quad(w, k as int, y) + inner_quad(w, k as int, y)
    }
}

/// Rows `1..=k`, each all the way round (logical columns `1..=w`).
pub open spec fn ring_rows(w: nat, k: nat) -> Seq<Corner>
    decreases k,
{
    if k == 0 {
        Seq::empty()
    } else {
        ring_rows(w, (k - 1) as nat) + ring_row(w as int, k as int, w)
    }
}

/// The two quads that join the outer wall to the inner wall between logical
/// columns `x - 1` and `x`: on the last row, then on the first.
pub open spec fn annulus_pair(w: int, h: int, x: int) -> Seq<Corner> {
    quad(Winding::A, base(x - 1, h - 1), surface(x - 1, h - 1), base(x % w, h - 1), surface(x % w, h - 1))
        + quad(Winding::A, surface(x - 1, 0), base(x - 1, 0), surface(x % w, 0), base(x % w, 0))
}

/// The annulus quads for logical columns `1..=k`.
pub open spec fn annuli(w: nat, h: nat, k: nat) -> Seq<Corner>
    decreases k,
{
    if k == 0 {
        Seq::empty()
    } else {
        annuli(w, h, (k - 1) as nat) + annulus_pair(w as int, h as int, k as int)
    }
}

/// The corners of a cylindrical lithophane's triangles, in order: the outer
/// and inner walls row by row, then the two annuli that close the ends.
pub open spec fn cylinder_corners(w: nat, h: nat) -> Seq<Corner> {
    ring_rows(w, (h - 1) as nat) + annuli(w, h, w)
}

proof fn lemma_ring_row_len(w: int, y: int, k: nat)
    ensures
        ring_row(w, y, k).len() == 12 * k,
    decreases k,
{
    if k > 0 {
        lemma_ring_row_len(w, y, (k - 1) as nat);
        assert(outer_quad(w, k as int, y).len() == 6);
        assert(inner_quad(w, k as int, y).len() == 6);
    }
}

proof fn lemma_ring_rows_len(w: nat, k: nat)
    ensures
        ring_rows(w, k).len() == 12 * w * k,
    decreases k,
{
    if k > 0 {
        lemma_ring_rows_len(w, (k - 1) as nat);
        lemma_ring_row_len(w as int, k as int, w);
        let km: int = k - 1;
        assert(12 * w * km + 12 * w == 12 * w * (km + 1)) by (nonlinear_arith);
        assert(ring_rows(w, k).len() == ring_rows(w, (k - 1) as nat).len() + ring_row(w as int, k as int, w).len());
    } else {
        assert(12 * w * k == 0) by (nonlinear_arith) requires k == 0;
    }
}

proof fn lemma_annuli_len(w: nat, h: nat, k: nat)
    ensures
        annuli(w, h, k).len() == 12 * k,
    decreases k,
{
    if k > 0 {
        lemma_annuli_len(w, h, (k - 1) as nat);
        assert(annulus_pair(w as int, h as int, k as int).len() == 12);
    }
}

/// A cylindrical lithophane lists whole triangles: four per grid position
/// (two on each wall for every row gap, two on each annulus for the ends).
pub proof fn lemma_cylinder_corners_len(w: nat, h: nat)
    requires
        w >= 1,
        h >= 1,
    ensures
        cylinder_corners(w, h).len() == 12 * w * h,
        cylinder_corners(w, h).len() % 3 == 0,
{
    lemma_ring_rows_len(w, (h - 1) as nat);
    lemma_annuli_len(w, h, w);
    let hm: int = h - 1;
    assert(12 * w * hm + 12 * w == 12 * w * (hm + 1)) by (nonlinear_arith);
    assert(12 * w * h == 3 * (4 * w * h)) by (nonlinear_arith);
}

/// The seam: the quads of a row that reach logical column `w` (a full turn)
/// use the vertices of column `0`, on the outer and on the inner wall, and so
/// do the annulus quads that cross it.
pub proof fn lemma_seam_wraps_to_column_zero(w: int, h: int, y: int)
    requires
        w >= 1,
    ensures
        outer_quad(w, w, y) == quad(
            Winding::B,
            surface(w - 1, y - 1),
            surface(w - 1, y),
            surface(0, y - 1),
            surface(0, y),
        ),
        inner_quad(w, w, y) == quad(
            Winding::A,
            base(w - 1, y - 1),
            base(w - 1, y),
            base(0, y - 1),
            base(0, y),
        ),
        annulus_pair(w, h, w) == quad(
            Winding::A,
            base(w - 1, h - 1),
            surface(w - 1, h - 1),
            base(0, h - 1),
            surface(0, h - 1),
        ) + quad(Winding::A, surface(w - 1, 0), base(w - 1, 0), surface(0, 0), base(0, 0)),
{
    vstd::arithmetic::div_mod::lemma_mod_self_0(w);
}

/// A corner moved to the backing sheet.
pub open spec fn to_base(c: Corner) -> Corner {
    Corner { col: c.col, row: c.row, layer: Layer::Base }
}

/// Each triangle of `s` with its corners listed backwards and moved to the
/// backing sheet.
pub open spec fn mirrored(s: Seq<Corner>) -> Seq<Corner> {
    Seq::new(s.len(), |i: int| to_base(s[i - i % 3 + 2 - i % 3]))
}

/// The inner wall is the outer wall wound the other way: each inner quad lists
/// the corners of the matching outer quad's triangles backwards, on the
/// backing sheet, so its normals face the axis where the outer ones face away.
pub proof fn lemma_inner_wall_mirrors_outer(w: int, x: int, y: int)
    ensures
        inner_quad(w, x, y) == mirrored(outer_quad(w, x, y)),
{
    let o = outer_quad(w, x, y);
    let m = mirrored(o);
    let i = inner_quad(w, x, y);
    assert forall|k: int| 0 <= k < 6 implies m[k] == i[k] by {
        if k == 0 {
        } else if k == 1 {
        } else if k == 2 {
        } else if k == 3 {
        } else if k == 4 {
        } else {
        }
    }
    assert(m =~= i);
}

fn corner(col: usize, row: usize, layer: Layer) -> (r: Corner)
    ensures
        r == (Corner { col, row, layer }),
{
    Corner { col, row, layer }
}

/// Append the outer-wall quad of row `y` between columns `left` and `right`.
fn add_quad(grid: &VertexGrid, out: &mut Vec<Vec3>, left: usize, right: usize, y: usize)
    requires
        grid@.wf(),
        left < grid@.width,
        right < grid@.width,
        1 <= y < grid@.height,
    ensures
        final(out)@ == old(out)@ + grid@.render(
            quad(
                Winding::B,
                surface(left as int, y - 1),
                surface(left as int, y as int),
                surface(right as int, y - 1),
                surface(right as int, y as int),
            ),
        ),
{
    let tl = corner(left, y - 1, Layer::Surface);
    let bl = corner(left, y, Layer::Surface);
    let tr = corner(right, y - 1, Layer::Surface);
    let br = corner(right, y, Layer::Surface);
    grid.emit_quad(out, Winding::B, tl, bl, tr, br);
}

/// Append the inner-wall quad of row `y` between columns `left` and `right`.
fn add_interior_quad(grid: &VertexGrid, out: &mut Vec<Vec3>, left: usize, right: usize, y: usize)
    requires
        grid@.wf(),
        left < grid@.width,
        right < grid@.width,
        1 <= y < grid@.height,
    ensures
        final(out)@ == old(out)@ + grid@.render(
            quad(
                Winding::A,
                base(left as int, y - 1),
                base(left as int, y as int),
                base(right as int, y - 1),
                base(right as int, y as int),
            ),
        ),
{
    let tl = corner(left, y - 1, Layer::Base);
    let bl = corner(left, y, Layer::Base);
    let tr = corner(right, y - 1, Layer::Base);
    let br = corner(right, y, Layer::Base);
    grid.emit_quad(out, Winding::A, tl, bl, tr, br);
}

/// Append the annulus quads between columns `left` and `right`.
fn add_annulus_pair(grid: &VertexGrid, out: &mut Vec<Vec3>, left: usize, right: usize)
    requires
        grid@.wf(),
        left < grid@.width,
        right < grid@.width,
    ensures
        final(out)@ == old(out)@ + grid@.render(
            quad(
                Winding::A,
                base(left as int, grid@.height - 1),
                surface(left as int, grid@.height - 1),
                base(right as int, grid@.height - 1),
                surface(right as int, grid@.height - 1),
            ) + quad(
                Winding::A,
                surface(left as int, 0),
                base(left as int, 0),
                surface(right as int, 0),
                base(right as int, 0),
            ),
        ),
{
    let last = grid.height() - 1;
    let ghost mid = out@;
    grid.emit_quad(
        out,
        Winding::A,
        corner(left, last, Layer::Base),
        corner(left, last, Layer::Surface),
        corner(right, last, Layer::Base),
        corner(right, last, Layer::Surface),
    );
    let ghost first = out@;
    grid.emit_quad(
        out,
        Winding::A,
        corner(left, 0, Layer::Surface),
        corner(left, 0, Layer::Base),
        corner(right, 0, Layer::Surface),
        corner(right, 0, Layer::Base),
    );
    proof {
        let g = grid@;
        let q1 = quad(
            Winding::A,
            base(left as int, g.height - 1),
            surface(left as int, g.height - 1),
            base(right as int, g.height - 1),
            surface(right as int, g.height - 1),
        );
        let q2 = quad(
            Winding::A,
            surface(left as int, 0),
            base(left as int, 0),
            surface(right as int, 0),
            base(right as int, 0),
        );
        lemma_render_append(g, q1, q2);
    }
}

/// Append the quads that close row `y` across the seam, from the last column
/// back to column `0`, on the outer and the inner wall.
fn bridge_edge_loop(grid: &VertexGrid, out: &mut Vec<Vec3>, y: usize)
    requires
        grid@.wf(),
        1 <= y < grid@.height,
    ensures
        final(out)@ == old(out)@ + grid@.render(
            outer_quad(grid@.width as int, grid@.width as int, y as int) + inner_quad(
                grid@.width as int,
                grid@.width as int,
                y as int,
            ),
        ),
{
    let last = grid.width() - 1;
    add_quad(grid, out, last, 0, y);
    add_interior_quad(grid, out, last, 0, y);
    proof {
        let w = grid@.width as int;
        vstd::arithmetic::div_mod::lemma_mod_self_0(w);
        lemma_render_append(grid@, outer_quad(w, w, y as int), inner_quad(w, w, y as int));
    }
}

/// Append the annulus quads between columns `x - 1` and `x`.
fn bridge_int_ext(grid: &VertexGrid, out: &mut Vec<Vec3>, x: usize)
    requires
        grid@.wf(),
        1 <= x < grid@.width,
    ensures
        final(out)@ == old(out)@ + grid@.render(
            annulus_pair(grid@.width as int, grid@.height as int, x as int),
        ),
{
    add_annulus_pair(grid, out, x - 1, x);
    proof {
        vstd::arithmetic::div_mod::lemma_small_mod(x as nat, grid@.width);
    }
}

/// Append the annulus quads that cross the seam, from the last column back to
/// column `0`.
fn bridge_int_ext_loop(grid: &VertexGrid, out: &mut Vec<Vec3>)
    requires
        grid@.wf(),
    ensures
        final(out)@ == old(out)@ + grid@.render(
            annulus_pair(grid@.width as int, grid@.height as int, grid@.width as int),
        ),
{
    add_annulus_pair(grid, out, grid.width() - 1, 0);
    proof {
        vstd::arithmetic::div_mod::lemma_mod_self_0(grid@.width as int);
    }
}

/// Triangulate a height field wrapped round a cylinder: column `x` sits at
/// angle `x / width` of a turn, the relief forms the outer wall and the
/// backing sheet the inner wall, and annuli close both ends.
pub fn generate_cylinder(grid: &VertexGrid) -> (r: Mesh)
    requires
        grid@.wf(),
    ensures
        r@ == grid@.render(cylinder_corners(grid@.width, grid@.height)),
        r@.len() == 12 * grid@.width * grid@.height,
        r@.len() % 3 == 0,
{
    proof {
        lemma_cylinder_corners_len(grid@.width, grid@.height);
    }
    let width = grid.width();
    let height = grid.height();
    let ghost g = grid@;
    let ghost w = g.width as int;
    let mut tris: Vec<Vec3> = Vec::new();
    let mut y: usize = 1;
    while y < height
        invariant
            g == grid@,
            g.wf(),
            w == g.width,
            width == g.width,
            height == g.height,
            1 <= y <= height,
            tris@ == g.render(ring_rows(g.width, (y - 1) as nat)),
        decreases height - y,
    {
        let ghost before = tris@;
        let mut x: usize = 1;
        while x < width
            invariant
                g == grid@,
                g.wf(),
                w == g.width,
                width == g.width,
                height == g.height,
                1 <= y < height,
                1 <= x <= width,
                tris@ == before + g.render(ring_row(w, y as int, (x - 1) as nat)),
            decreases width - x,
        {
            add_quad(grid, &mut tris, x - 1, x, y);
            add_interior_quad(grid, &mut tris, x - 1, x, y);
            proof {
                vstd::arithmetic::div_mod::lemma_small_mod(x as nat, g.width);
                let prev = ring_row(w, y as int, (x - 1) as nat);
                let o = outer_quad(w, x as int, y as int);
                let i = inner_quad(w, x as int, y as int);
                lemma_render_append(g, prev, o);
                lemma_render_append(g, prev + o, i);
            }
            x = x + 1;
        }
        bridge_edge_loop(grid, &mut tris, y);
        proof {
            let prev = ring_row(w, y as int, (w - 1) as nat);
            let o = outer_quad(w, w, y as int);
            let i = inner_quad(w, w, y as int);
            lemma_render_append(g, o, i);
            lemma_render_append(g, prev, o + i);
            assert(ring_row(w, y as int, g.width) == prev + o + i);
            assert(prev + (o + i) == prev + o + i);
            lemma_render_append(g, ring_rows(g.width, (y - 1) as nat), ring_row(w, y as int, g.width));
        }
        y = y + 1;
    }
    let ghost body = tris@;
    let mut x: usize = 1;
    while x < width
        invariant
            g == grid@,
            g.wf(),
            w == g.width,
            width == g.width,
            height == g.height,
            1 <= x <= width,
            tris@ == body + g.render(annuli(g.width, g.height, (x - 1) as nat)),
        decreases width - x,
    {
        bridge_int_ext(grid, &mut tris, x);
        proof {
            lemma_render_append(
                g,
                annuli(g.width, g.height, (x - 1) as nat),
                annulus_pair(w, g.height as int, x as int),
            );
        }
        x = x + 1;
    }
    bridge_int_ext_loop(grid, &mut tris);
    proof {
        lemma_render_append(
            g,
            annuli(g.width, g.height, (g.width - 1) as nat),
            annulus_pair(w, g.height as int, w),
        );
        lemma_render_append(g, ring_rows(g.width, (g.height - 1) as nat), annuli(g.width, g.height, g.width));
    }
    Mesh::new(tris)
}

} // verus!
