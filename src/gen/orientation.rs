use vstd::prelude::*;
use super::{Corner, Layer};
use super::flat_mesh::{
    bottom_wall, edge_walls, flat_corners, floor_cap, left_wall, quad_row, right_wall, rows,
    top_quad, top_wall,
};

verus! {

/// A point with exact integer coordinates.
pub ghost struct Point {
    pub x: int,
    pub y: int,
    pub z: int,
}

pub open spec fn minus(a: Point, b: Point) -> Point {
    Point { x: a.x - b.x, y: a.y - b.y, z: a.z - b.z }
}

pub open spec fn cross(u: Point, v: Point) -> Point {
    Point { x: u.y * v.z - u.z * v.y, y: u.z * v.x - u.x * v.z, z: u.x * v.y - u.y * v.x }
}

pub open spec fn dot(u: Point, v: Point) -> int {
    u.x * v.x + u.y * v.y + u.z * v.z
}

/// The (unnormalised) normal of triangle `a, b, c`: `(b - a) × (c - a)`.
pub open spec fn normal(a: Point, b: Point, c: Point) -> Point {
    cross(minus(b, a), minus(c, a))
}

/// Where a flat lithophane puts a corner: at `(col, row)`, at the relief's
/// height on the surface and at the floor height on the backing sheet.
pub open spec fn place(c: Corner, relief: spec_fn(int, int) -> int, floor: int) -> Point {
    Point {
        x: c.col as int,
        y: c.row as int,
        z: if c.layer == Layer::Surface {
            relief(c.col as int, c.row as int)
        } else {
            floor
        },
    }
}

/// The outward direction of the face of a `w` by `h` slab that a triangle
/// bounds: a side wall if all its corners share that side's column or row,
/// the floor if all lie on the backing sheet, the relief otherwise.
pub open spec fn face_direction(a: Corner, b: Corner, c: Corner, w: int, h: int) -> Point {
    if a.col == 0 && b.col == 0 && c.col == 0 {
        Point { x: -1, y: 0, z: 0 }
    } else if a.col == w - 1 && b.col == w - 1 && c.col == w - 1 {
        Point { x: 1, y: 0, z: 0 }
    } else if a.row == 0 && b.row == 0 && c.row == 0 {
        Point { x: 0, y: -1, z: 0 }
    } else if a.row == h - 1 && b.row == h - 1 && c.row == h - 1 {
        Point { x: 0, y: 1, z: 0 }
    } else if a.layer == Layer::Base && b.layer == Layer::Base && c.layer == Layer::Base {
        Point { x: 0, y: 0, z: -1 }
    } else {
        Point { x: 0, y: 0, z: 1 }
    }
}

/// Triangle `t` of the corner list `s` has a normal on the outer side of its
/// face (or no normal at all, where the relief touches the floor).
pub open spec fn faces_out(
    s: Seq<Corner>,
    t: int,
    w: int,
    h: int,
    relief: spec_fn(int, int) -> int,
    floor: int,
) -> bool {
    let (a, b, c) = (s[3 * t], s[3 * t + 1], s[3 * t + 2]);
    dot(
        normal(place(a, relief, floor), place(b, relief, floor), place(c, relief, floor)),
        face_direction(a, b, c, w, h),
    ) >= 0
}

pub open spec fn all_face_out(
    s: Seq<Corner>,
    w: int,
    h: int,
    relief: spec_fn(int, int) -> int,
    floor: int,
) -> bool {
    forall|t: int| 0 <= t < s.len() / 3 ==> #[trigger] faces_out(s, t, w, h, relief, floor)
}

/// The relief never dips below the floor.
pub open spec fn above_floor(w: int, h: int, relief: spec_fn(int, int) -> int, floor: int) -> bool {
    forall|x: int, y: int| 0 <= x < w && 0 <= y < h ==> #[trigger] relief(x, y) >= floor
}

proof fn lemma_dot_axes(n: Point)
    ensures
        dot(n, Point { x: -1, y: 0, z: 0 }) == -n.x,
        dot(n, Point { x: 1, y: 0, z: 0 }) == n.x,
        dot(n, Point { x: 0, y: -1, z: 0 }) == -n.y,
        dot(n, Point { x: 0, y: 1, z: 0 }) == n.y,
        dot(n, Point { x: 0, y: 0, z: -1 }) == -n.z,
        dot(n, Point { x: 0, y: 0, z: 1 }) == n.z,
{
}

proof fn lemma_append(
    s1: Seq<Corner>,
    s2: Seq<Corner>,
    w: int,
    h: int,
    relief: spec_fn(int, int) -> int,
    floor: int,
)
    requires
        s1.len() % 3 == 0,
        s2.len() % 3 == 0,
        all_face_out(s1, w, h, relief, floor),
        all_face_out(s2, w, h, relief, floor),
    ensures
        all_face_out(s1 + s2, w, h, relief, floor),
        (s1 + s2).len() % 3 == 0,
{
    let s = s1 + s2;
    let n1 = s1.len() / 3;
    assert forall|t: int| 0 <= t < s.len() / 3 implies #[trigger] faces_out(
        s,
        t,
        w,
        h,
        relief,
        floor,
    ) by {
        if t < n1 {
            assert(faces_out(s1, t, w, h, relief, floor));
            assert(s[3 * t] == s1[3 * t] && s[3 * t + 1] == s1[3 * t + 1] && s[3 * t + 2] == s1[3 * t + 2]);
        } else {
            let t2 = t - n1;
            assert(faces_out(s2, t2, w, h, relief, floor));
            assert(3 * t == s1.len() + 3 * t2);
            assert(s[3 * t] == s2[3 * t2] && s[3 * t + 1] == s2[3 * t2 + 1] && s[3 * t + 2] == s2[3 * t2 + 2]);
        }
    }
}

/// A six-corner block faces out when both of its triangles do.
proof fn lemma_block(s: Seq<Corner>, w: int, h: int, relief: spec_fn(int, int) -> int, floor: int)
    requires
        s.len() == 6,
        faces_out(s, 0, w, h, relief, floor),
        faces_out(s, 1, w, h, relief, floor),
    ensures
        all_face_out(s, w, h, relief, floor),
{
}

proof fn lemma_top_quad(
    x: int,
    y: int,
    w: int,
    h: int,
    relief: spec_fn(int, int) -> int,
    floor: int,
)
    requires
        1 <= x < w <= usize::MAX,
        1 <= y < h <= usize::MAX,
    ensures
        all_face_out(top_quad(x, y), w, h, relief, floor),
{
    let s = top_quad(x, y);
    let p = |c: Corner| place(c, relief, floor);
    // first triangle: br, bl, tl
    let u = minus(p(s[1]), p(s[0]));
    let v = minus(p(s[2]), p(s[0]));
    assert(u.x == -1 && u.y == 0 && v.x == -1 && v.y == -1);
    lemma_dot_axes(normal(p(s[0]), p(s[1]), p(s[2])));
    assert(normal(p(s[0]), p(s[1]), p(s[2])).z == 1);
    assert(face_direction(s[0], s[1], s[2], w, h) == Point { x: 0, y: 0, z: 1 });
    assert(faces_out(s, 0, w, h, relief, floor));
    // second triangle: tr, br, tl
    let u = minus(p(s[4]), p(s[3]));
    let v = minus(p(s[5]), p(s[3]));
    assert(u.x == 0 && u.y == 1 && v.x == -1 && v.y == 0);
    lemma_dot_axes(normal(p(s[3]), p(s[4]), p(s[5])));
    assert(normal(p(s[3]), p(s[4]), p(s[5])).z == 1);
    assert(face_direction(s[3], s[4], s[5], w, h) == Point { x: 0, y: 0, z: 1 });
    assert(faces_out(s, 1, w, h, relief, floor));
    lemma_block(s, w, h, relief, floor);
}

proof fn lemma_left_wall(y: int, w: int, h: int, relief: spec_fn(int, int) -> int, floor: int)
    requires
        2 <= w <= usize::MAX,
        1 <= y < h <= usize::MAX,
        above_floor(w, h, relief, floor),
    ensures
        all_face_out(left_wall(0, y), w, h, relief, floor),
{
    let s = left_wall(0, y);
    let p = |c: Corner| place(c, relief, floor);
    assert(relief(0, y - 1) >= floor && relief(0, y) >= floor);
    let u = minus(p(s[1]), p(s[0]));
    let v = minus(p(s[2]), p(s[0]));
    assert(u.y == -1 && u.z == 0 && v.y == -1 && v.z == relief(0, y - 1) - floor);
    lemma_dot_axes(normal(p(s[0]), p(s[1]), p(s[2])));
    assert(normal(p(s[0]), p(s[1]), p(s[2])).x == floor - relief(0, y - 1));
    assert(faces_out(s, 0, w, h, relief, floor));
    let u = minus(p(s[4]), p(s[3]));
    let v = minus(p(s[5]), p(s[3]));
    assert(u.y == -1 && v.y == 0 && v.z == relief(0, y) - floor);
    lemma_dot_axes(normal(p(s[3]), p(s[4]), p(s[5])));
    assert(normal(p(s[3]), p(s[4]), p(s[5])).x == floor - relief(0, y));
    assert(faces_out(s, 1, w, h, relief, floor));
    lemma_block(s, w, h, relief, floor);
}

proof fn lemma_right_wall(y: int, w: int, h: int, relief: spec_fn(int, int) -> int, floor: int)
    requires
        2 <= w <= usize::MAX,
        1 <= y < h <= usize::MAX,
        above_floor(w, h, relief, floor),
    ensures
        all_face_out(right_wall(w - 1, y), w, h, relief, floor),
{
    let x = w - 1;
    let s = right_wall(x, y);
    let p = |c: Corner| place(c, relief, floor);
    assert(relief(x, y - 1) >= floor && relief(x, y) >= floor);
    let u = minus(p(s[1]), p(s[0]));
    let v = minus(p(s[2]), p(s[0]));
    assert(u.y == 0 && u.z == floor - relief(x, y - 1) && v.y == 1);
    lemma_dot_axes(normal(p(s[0]), p(s[1]), p(s[2])));
    assert(normal(p(s[0]), p(s[1]), p(s[2])).x == relief(x, y - 1) - floor);
    assert(faces_out(s, 0, w, h, relief, floor));
    let u = minus(p(s[4]), p(s[3]));
    let v = minus(p(s[5]), p(s[3]));
    assert(u.y == -1 && v.y == 0 && v.z == floor - relief(x, y));
    lemma_dot_axes(normal(p(s[3]), p(s[4]), p(s[5])));
    assert(normal(p(s[3]), p(s[4]), p(s[5])).x == relief(x, y) - floor);
    assert(faces_out(s, 1, w, h, relief, floor));
    lemma_block(s, w, h, relief, floor);
}

proof fn lemma_top_wall(x: int, w: int, h: int, relief: spec_fn(int, int) -> int, floor: int)
    requires
        1 <= x < w <= usize::MAX,
        2 <= h <= usize::MAX,
        above_floor(w, h, relief, floor),
    ensures
        all_face_out(top_wall(x, 0), w, h, relief, floor),
{
    let s = top_wall(x, 0);
    let p = |c: Corner| place(c, relief, floor);
    assert(relief(x - 1, 0) >= floor && relief(x, 0) >= floor);
    let u = minus(p(s[1]), p(s[0]));
    let v = minus(p(s[2]), p(s[0]));
    assert(u.x == 0 && u.z == floor - relief(x - 1, 0) && v.x == 1);
    lemma_dot_axes(normal(p(s[0]), p(s[1]), p(s[2])));
    assert(normal(p(s[0]), p(s[1]), p(s[2])).y == floor - relief(x - 1, 0));
    assert(faces_out(s, 0, w, h, relief, floor));
    let u = minus(p(s[4]), p(s[3]));
    let v = minus(p(s[5]), p(s[3]));
    assert(u.x == -1 && v.x == 0 && v.z == floor - relief(x, 0));
    lemma_dot_axes(normal(p(s[3]), p(s[4]), p(s[5])));
    assert(normal(p(s[3]), p(s[4]), p(s[5])).y == floor - relief(x, 0));
    assert(faces_out(s, 1, w, h, relief, floor));
    lemma_block(s, w, h, relief, floor);
}

proof fn lemma_bottom_wall(x: int, w: int, h: int, relief: spec_fn(int, int) -> int, floor: int)
    requires
        1 <= x < w <= usize::MAX,
        2 <= h <= usize::MAX,
        above_floor(w, h, relief, floor),
    ensures
        all_face_out(bottom_wall(x, h - 1), w, h, relief, floor),
{
    let y = h - 1;
    let s = bottom_wall(x, y);
    let p = |c: Corner| place(c, relief, floor);
    assert(relief(x - 1, y) >= floor && relief(x, y) >= floor);
    let u = minus(p(s[1]), p(s[0]));
    let v = minus(p(s[2]), p(s[0]));
    assert(u.x == -1 && u.z == 0 && v.z == relief(x - 1, y) - floor);
    lemma_dot_axes(normal(p(s[0]), p(s[1]), p(s[2])));
    assert(normal(p(s[0]), p(s[1]), p(s[2])).y == relief(x - 1, y) - floor);
    assert(faces_out(s, 0, w, h, relief, floor));
    let u = minus(p(s[4]), p(s[3]));
    let v = minus(p(s[5]), p(s[3]));
    assert(u.x == -1 && v.x == 0 && v.z == relief(x, y) - floor);
    lemma_dot_axes(normal(p(s[3]), p(s[4]), p(s[5])));
    assert(normal(p(s[3]), p(s[4]), p(s[5])).y == relief(x, y) - floor);
    assert(faces_out(s, 1, w, h, relief, floor));
    lemma_block(s, w, h, relief, floor);
}

proof fn lemma_floor_cap(w: int, h: int, relief: spec_fn(int, int) -> int, floor: int)
    requires
        2 <= w <= usize::MAX,
        2 <= h <= usize::MAX,
    ensures
        all_face_out(floor_cap(w, h), w, h, relief, floor),
{
    let s = floor_cap(w, h);
    let p = |c: Corner| place(c, relief, floor);
    assert((w - 1) * (h - 1) >= 0) by (nonlinear_arith)
        requires
            w >= 2,
            h >= 2,
    ;
    let u = minus(p(s[1]), p(s[0]));
    let v = minus(p(s[2]), p(s[0]));
    assert(u.x == 0 && u.y == h - 1 && v.x == w - 1);
    lemma_dot_axes(normal(p(s[0]), p(s[1]), p(s[2])));
    assert(normal(p(s[0]), p(s[1]), p(s[2])).z == -((h - 1) * (w - 1))) by (nonlinear_arith)
        requires
            u.x == 0,
            u.y == h - 1,
            v.x == w - 1,
            normal(p(s[0]), p(s[1]), p(s[2])).z == u.x * v.y - u.y * v.x,
    ;
    assert(faces_out(s, 0, w, h, relief, floor));
    let u = minus(p(s[4]), p(s[3]));
    let v = minus(p(s[5]), p(s[3]));
    assert(u.x == -(w - 1) && u.y == 0 && v.y == h - 1);
    lemma_dot_axes(normal(p(s[3]), p(s[4]), p(s[5])));
    assert(normal(p(s[3]), p(s[4]), p(s[5])).z == -((w - 1) * (h - 1))) by (nonlinear_arith)
        requires
            u.x == -(w - 1),
            u.y == 0,
            v.y == h - 1,
            normal(p(s[3]), p(s[4]), p(s[5])).z == u.x * v.y - u.y * v.x,
    ;
    assert(faces_out(s, 1, w, h, relief, floor));
    lemma_block(s, w, h, relief, floor);
}

proof fn lemma_empty(w: int, h: int, relief: spec_fn(int, int) -> int, floor: int)
    ensures
        all_face_out(Seq::<Corner>::empty(), w, h, relief, floor),
{
}

proof fn lemma_quad_row(y: int, k: nat, w: int, h: int, relief: spec_fn(int, int) -> int, floor: int)
    requires
        k < w <= usize::MAX,
        1 <= y < h <= usize::MAX,
    ensures
        all_face_out(quad_row(y, k), w, h, relief, floor),
        quad_row(y, k).len() % 3 == 0,
    decreases k,
{
    if k == 0 {
        lemma_empty(w, h, relief, floor);
    } else {
        lemma_quad_row(y, (k - 1) as nat, w, h, relief, floor);
        lemma_top_quad(k as int, y, w, h, relief, floor);
        lemma_append(quad_row(y, (k - 1) as nat), top_quad(k as int, y), w, h, relief, floor);
    }
}

proof fn lemma_rows(k: nat, w: nat, h: int, relief: spec_fn(int, int) -> int, floor: int)
    requires
        2 <= w <= usize::MAX,
        k < h <= usize::MAX,
        above_floor(w as int, h, relief, floor),
    ensures
        all_face_out(rows(w, k), w as int, h, relief, floor),
        rows(w, k).len() % 3 == 0,
    decreases k,
{
    let wi = w as int;
    if k == 0 {
        lemma_empty(wi, h, relief, floor);
    } else {
        let prev = rows(w, (k - 1) as nat);
        let q = quad_row(k as int, (w - 1) as nat);
        let l = left_wall(0, k as int);
        let r = right_wall(wi - 1, k as int);
        lemma_rows((k - 1) as nat, w, h, relief, floor);
        lemma_quad_row(k as int, (w - 1) as nat, wi, h, relief, floor);
        lemma_left_wall(k as int, wi, h, relief, floor);
        lemma_right_wall(k as int, wi, h, relief, floor);
        lemma_append(prev, q, wi, h, relief, floor);
        lemma_append(prev + q, l, wi, h, relief, floor);
        lemma_append(prev + q + l, r, wi, h, relief, floor);
    }
}

proof fn lemma_edge_walls(k: nat, w: int, h: nat, relief: spec_fn(int, int) -> int, floor: int)
    requires
        k < w <= usize::MAX,
        2 <= h <= usize::MAX,
        above_floor(w, h as int, relief, floor),
    ensures
        all_face_out(edge_walls(h, k), w, h as int, relief, floor),
        edge_walls(h, k).len() % 3 == 0,
    decreases k,
{
    let hi = h as int;
    if k == 0 {
        lemma_empty(w, hi, relief, floor);
    } else {
        let prev = edge_walls(h, (k - 1) as nat);
        let t = top_wall(k as int, 0);
        let b = bottom_wall(k as int, hi - 1);
        lemma_edge_walls((k - 1) as nat, w, h, relief, floor);
        lemma_top_wall(k as int, w, hi, relief, floor);
        lemma_bottom_wall(k as int, w, hi, relief, floor);
        lemma_append(prev, t, w, hi, relief, floor);
        lemma_append(prev + t, b, w, hi, relief, floor);
    }
}

/// Every triangle of a flat lithophane faces out of the solid. Placing each
/// corner at `(col, row)` and at the relief's height (surface) or the floor
/// height (backing sheet), in exact arithmetic, the normal `(b - a) × (c - a)`
/// of every triangle points out through the face it bounds: up from the
/// relief, down from the floor cap, and away from the slab on each of the four
/// side walls. It holds whenever the relief nowhere dips below the floor, on
/// any grid at least two positions wide and high (narrower slabs have no
/// inside).
pub proof fn lemma_flat_normals_face_out(
    w: nat,
    h: nat,
    relief: spec_fn(int, int) -> int,
    floor: int,
)
    requires
        2 <= w <= usize::MAX,
        2 <= h <= usize::MAX,
        above_floor(w as int, h as int, relief, floor),
    ensures
        forall|t: int|
            0 <= t < flat_corners(w, h).len() / 3 ==> #[trigger] faces_out(
                flat_corners(w, h),
                t,
                w as int,
                h as int,
                relief,
                floor,
            ),
{
    let (wi, hi) = (w as int, h as int);
    let a = rows(w, (h - 1) as nat);
    let b = edge_walls(h, (w - 1) as nat);
    let c = floor_cap(wi, hi);
    lemma_rows((h - 1) as nat, w, hi, relief, floor);
    lemma_edge_walls((w - 1) as nat, wi, h, relief, floor);
    lemma_floor_cap(wi, hi, relief, floor);
    lemma_append(a, b, wi, hi, relief, floor);
    lemma_append(a + b, c, wi, hi, relief, floor);
    assert(flat_corners(w, h) == a + b + c);
}

} // verus!
