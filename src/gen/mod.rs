use vstd::prelude::*;
use crate::geo::{Mesh, Vec3};
use self::cylinder_mesh::{cylinder_corners, generate_cylinder};
use self::flat_mesh::{flat_corners, generate_flat};

/// Cylindrical lithophane generator
pub mod cylinder_mesh;
/// Image preprocessor with a chosen resampling filter
pub mod filter_image;
/// Flat lithophane generator that resizes its own source image
pub mod flat_image;
/// Flat lithophane generator, shared by the grid and image variants
pub mod flat_mesh;
/// Exact-arithmetic model of a flat lithophane's geometry and the outward
/// orientation of its triangles
pub mod orientation;
/// Standard image preprocessor
pub mod standard_image;

verus! {

/// Which of the two sheets of a height field a vertex lies on.
#[derive(Clone, Copy, Debug, PartialEq, Eq, Structural)]
pub enum Layer {
    /// The relief surface: the height field itself (the outer wall of a cylinder).
    Surface,
    /// The backing sheet at the floor height (the inner wall of a cylinder).
    Base,
}

/// A vertex named by its grid position and its sheet.
#[derive(Clone, Copy, Debug, PartialEq, Eq, Structural)]
pub struct Corner {
    pub col: usize,
    pub row: usize,
    pub layer: Layer,
}

/// The relief-surface corner at `(col, row)`.
pub open spec fn surface(col: int, row: int) -> Corner {
    Corner { col: col as usize, row: row as usize, layer: Layer::Surface }
}

/// The backing-sheet corner at `(col, row)`.
pub open spec fn base(col: int, row: int) -> Corner {
    Corner { col: col as usize, row: row as usize, layer: Layer::Base }
}

/// The order in which the two triangles of a quad list its corners. Every
/// quad is split along its `tl`–`br` diagonal.
#[derive(Clone, Copy, Debug, PartialEq, Eq, Structural)]
pub enum Winding {
    /// `br, bl, tl` then `tr, br, tl`
    A,
    /// `tl, bl, br` then `tl, br, tr`
    B,
    /// `br, bl, tl` then `br, tl, tr`
    C,
    /// `tl, bl, br` then `tr, tl, br`
    D,
}

/// The six corners of a quad's two triangles, in the given winding.
pub open spec fn quad(w: Winding, tl: Corner, bl: Corner, tr: Corner, br: Corner) -> Seq<Corner> {
    match w {
        Winding::A => seq![br, bl, tl, tr, br, tl],
        Winding::B => seq![tl, bl, br, tl, br, tr],
        Winding::C => seq![br, bl, tl, br, tl, tr],
        Winding::D => seq![tl, bl, br, tr, tl, br],
    }
}

/// The vertex values of a height field: for each grid position, row-major,
/// its vertex on the relief surface and its vertex on the backing sheet.
pub struct VertexGrid {
    width: usize,
    height: usize,
    surface: Vec<Vec3>,
    base: Vec<Vec3>,
}

/// What a `VertexGrid` holds.
pub ghost struct GridModel {
    pub width: nat,
    pub height: nat,
    pub surface: Seq<Vec3>,
    pub base: Seq<Vec3>,
}

impl GridModel {
    /// Non-degenerate dimensions, and one vertex per position on each sheet.
    pub open spec fn wf(self) -> bool {
        &&& self.width >= 1
        &&& self.height >= 1
        &&& self.surface.len() == self.width * self.height
        &&& self.base.len() == self.width * self.height
    }

    pub open spec fn contains(self, c: Corner) -> bool {
        c.col < self.width && c.row < self.height
    }

    /// The vertex value that a corner names.
    pub open spec fn vertex(self, c: Corner) -> Vec3 {
        match c.layer {
            Layer::Surface => self.surface[c.row * self.width + c.col],
            Layer::Base => self.base[c.row * self.width + c.col],
        }
    }

    /// The vertex values of a list of corners.
    pub open spec fn render(self, corners: Seq<Corner>) -> Seq<Vec3> {
        corners.map_values(|c: Corner| self.vertex(c))
    }
}

pub proof fn lemma_render_append(g: GridModel, a: Seq<Corner>, b: Seq<Corner>)
    ensures
        g.render(a + b) == g.render(a) + g.render(b),
{
    assert(g.render(a + b) =~= g.render(a) + g.render(b));
}

/// Why a generator refused its input.
#[derive(Clone, Copy, Debug, PartialEq, Eq, Structural)]
pub enum GenError {
    /// A dimension is zero.
    Degenerate,
    /// A sheet does not hold exactly `width * height` vertices, or a grid does
    /// not have the dimensions the generator was set up for.
    SizeMismatch,
    /// A dimension does not fit the 32 bits that images are measured in.
    TooLarge,
}

/// The vertex that `c` names in sheets laid out row-major, `width` to a row.
pub open spec fn sheet_vertex(width: nat, surface: Seq<Vec3>, base: Seq<Vec3>, c: Corner) -> Vec3 {
    match c.layer {
        Layer::Surface => surface[c.row * width + c.col],
        Layer::Base => base[c.row * width + c.col],
    }
}

proof fn lemma_row_major_before(r1: int, c1: int, r2: int, c2: int, w: int)
    requires
        0 <= c1 < w,
        0 <= c2 <= w,
        0 <= r1,
        r1 < r2 || (r1 == r2 && c1 < c2),
    ensures
        0 <= r1 * w + c1 < r2 * w + c2,
{
    assert(0 <= r1 * w + c1 < r2 * w + c2) by (nonlinear_arith)
        requires
            0 <= c1 < w,
            0 <= c2 <= w,
            0 <= r1,
            r1 < r2 || (r1 == r2 && c1 < c2),
    ;
}

impl View for VertexGrid {
    type V = GridModel;

    closed spec fn view(&self) -> GridModel {
        GridModel {
            width: self.width as nat,
            height: self.height as nat,
            surface: self.surface@,
            base: self.base@,
        }
    }
}

impl VertexGrid {
    /// A grid of `width` by `height` positions with the given sheets, each
    /// row-major.
    pub fn new(width: usize, height: usize, surface: Vec<Vec3>, base: Vec<Vec3>) -> (r: Result<
        VertexGrid,
        GenError,
    >)
        ensures
            (width == 0 || height == 0) ==> r == Err::<VertexGrid, GenError>(GenError::Degenerate),
            (width > 0 && height > 0 && (surface@.len() != width * height || base@.len() != width
                * height)) ==> r == Err::<VertexGrid, GenError>(GenError::SizeMismatch),
            (width > 0 && height > 0 && surface@.len() == width * height && base@.len() == width
                * height) ==> (r matches Ok(g) && g@ == (GridModel {
                width: width as nat,
                height: height as nat,
                surface: surface@,
                base: base@,
            })),
            r matches Ok(g) ==> g@.wf(),
    {
        if width == 0 || height == 0 {
            return Err(GenError::Degenerate);
        }
        if surface.len() / width != height || surface.len() % width != 0 || base.len()
            != surface.len() {
            proof {
                vstd::arithmetic::div_mod::lemma_fundamental_div_mod(surface@.len() as int, width as int);
                if surface@.len() == width * height {
                    vstd::arithmetic::div_mod::lemma_div_multiples_vanish(height as int, width as int);
                    vstd::arithmetic::div_mod::lemma_mod_multiples_basic(height as int, width as int);
                    assert(width * height == height * width) by (nonlinear_arith);
                }
            }
            return Err(GenError::SizeMismatch);
        }
        proof {
            vstd::arithmetic::div_mod::lemma_fundamental_div_mod(surface@.len() as int, width as int);
            assert(width * height == height * width) by (nonlinear_arith);
        }
        Ok(VertexGrid { width, height, surface, base })
    }

    /// The grid of `width` by `height` positions whose vertices `place` gives:
    /// `place(col, row, layer)` for every position on each sheet.
    pub fn build<F: Fn(usize, usize, Layer) -> Vec3>(width: usize, height: usize, place: F) -> (r:
        Result<VertexGrid, GenError>)
        requires
            forall|col: usize, row: usize, layer: Layer|
                col < width && row < height ==> call_requires(place, (col, row, layer)),
        ensures
            (width == 0 || height == 0) ==> r == Err::<VertexGrid, GenError>(GenError::Degenerate),
            (width > 0 && height > 0 && width * height > usize::MAX) ==> r == Err::<
                VertexGrid,
                GenError,
            >(GenError::TooLarge),
            (width > 0 && height > 0 && width * height <= usize::MAX) ==> (r matches Ok(g) && g@.wf()
                && g@.width == width && g@.height == height && forall|c: Corner|
                g@.contains(c) ==> call_ensures(place, (c.col, c.row, c.layer), #[trigger] g@.vertex(c))),
    {
        if width == 0 || height == 0 {
            return Err(GenError::Degenerate);
        }
        let n = match width.checked_mul(height) {
            Some(n) => n,
            None => {
                return Err(GenError::TooLarge);
            },
        };
        let mut surface: Vec<Vec3> = Vec::new();
        let mut base: Vec<Vec3> = Vec::new();
        let mut row: usize = 0;
        while row < height
            invariant
                0 < width,
                0 < height,
                n == width * height,
                row <= height,
                surface@.len() == row * width,
                base@.len() == row * width,
                forall|col: usize, row: usize, layer: Layer|
                    col < width && row < height ==> call_requires(place, (col, row, layer)),
                forall|c: Corner|
                    c.row < row && c.col < width ==> call_ensures(
                        place,
                        (c.col, c.row, c.layer),
                        #[trigger] sheet_vertex(width as nat, surface@, base@, c),
                    ),
            decreases height - row,
        {
            proof {
                assert(row * width + width <= n) by (nonlinear_arith)
                    requires
                        row < height,
                        n == width * height,
                ;
            }
            let mut col: usize = 0;
            while col < width
                invariant
                    0 < width,
                    0 < height,
                    n == width * height,
                    row < height,
                    col <= width,
                    row * width + width <= n,
                    surface@.len() == row * width + col,
                    base@.len() == row * width + col,
                    forall|col: usize, row: usize, layer: Layer|
                        col < width && row < height ==> call_requires(place, (col, row, layer)),
                    forall|c: Corner|
                        (c.row < row || (c.row == row && c.col < col)) && c.col < width
                            ==> call_ensures(
                            place,
                            (c.col, c.row, c.layer),
                            #[trigger] sheet_vertex(width as nat, surface@, base@, c),
                        ),
                decreases width - col,
            {
                let s = place(col, row, Layer::Surface);
                let b = place(col, row, Layer::Base);
                let ghost (old_s, old_b) = (surface@, base@);
                surface.push(s);
                base.push(b);
                proof {
                    assert forall|c: Corner|
                        (c.row < row || (c.row == row && c.col < col + 1)) && c.col < width
                            implies call_ensures(
                            place,
                            (c.col, c.row, c.layer),
                            #[trigger] sheet_vertex(width as nat, surface@, base@, c),
                        ) by {
                        if c.row == row && c.col == col {
                            assert(sheet_vertex(width as nat, surface@, base@, c) == if c.layer
                                == Layer::Surface {
                                s
                            } else {
                                b
                            });
                        } else {
                            lemma_row_major_before(
                                c.row as int,
                                c.col as int,
                                row as int,
                                col as int,
                                width as int,
                            );
                            assert(sheet_vertex(width as nat, surface@, base@, c) == sheet_vertex(
                                width as nat,
                                old_s,
                                old_b,
                                c,
                            ));
                        }
                    }
                }
                col = col + 1;
            }
            proof {
                assert((row + 1) * width == row * width + width) by (nonlinear_arith);
            }
            row = row + 1;
        }
        let grid = VertexGrid { width, height, surface, base };
        proof {
            assert(height * width == width * height) by (nonlinear_arith);
            assert forall|c: Corner| grid@.contains(c) implies call_ensures(
                place,
                (c.col, c.row, c.layer),
                #[trigger] grid@.vertex(c),
            ) by {
                assert(grid@.vertex(c) == sheet_vertex(width as nat, grid.surface@, grid.base@, c));
            }
        }
        Ok(grid)
    }

    pub fn width(&self) -> (r: usize)
        ensures
            r == self@.width,
    {
        self.width
    }

    pub fn height(&self) -> (r: usize)
        ensures
            r == self@.height,
    {
        self.height
    }

    /// The vertex value that `c` names.
    pub fn vertex(&self, c: Corner) -> (r: Vec3)
        requires
            self@.wf(),
            self@.contains(c),
        ensures
            r == self@.vertex(c),
    {
        let n = self.surface.len();
        proof {
            assert(c.row * self.width + c.col < self.width * self.height) by (nonlinear_arith)
                requires
                    c.row < self.height,
                    c.col < self.width,
            ;
            assert(c.row * self.width <= c.row * self.width + c.col);
            assert(n == self.width * self.height);
        }
        let i = c.row * self.width + c.col;
        match c.layer {
            Layer::Surface => self.surface[i],
            Layer::Base => self.base[i],
        }
    }

    /// Append the six vertices of the quad `tl, bl, tr, br` in the given winding.
    pub(crate) fn emit_quad(
        &self,
        out: &mut Vec<Vec3>,
        w: Winding,
        tl: Corner,
        bl: Corner,
        tr: Corner,
        br: Corner,
    )
        requires
            self@.wf(),
            self@.contains(tl),
            self@.contains(bl),
            self@.contains(tr),
            self@.contains(br),
        ensures
            final(out)@ == old(out)@ + self@.render(quad(w, tl, bl, tr, br)),
    {
        let (a, b, c, d, e, f) = match w {
            Winding::A => (br, bl, tl, tr, br, tl),
            Winding::B => (tl, bl, br, tl, br, tr),
            Winding::C => (br, bl, tl, br, tl, tr),
            Winding::D => (tl, bl, br, tr, tl, br),
        };
        out.push(self.vertex(a));
        out.push(self.vertex(b));
        out.push(self.vertex(c));
        out.push(self.vertex(d));
        out.push(self.vertex(e));
        out.push(self.vertex(f));
        assert(final(out)@ =~= old(out)@ + self@.render(quad(w, tl, bl, tr, br)));
    }
}

/// The kinds of lithophane. The two flat kinds differ only in where the
/// source image is resized; they share one triangulation.
#[derive(Clone, Copy, Debug, PartialEq, Eq, Structural)]
pub enum Topology {
    /// A flat slab from an already resized lightness map
    FlatGrid,
    /// A flat slab from an image that the generator resized itself
    FlatImage,
    /// A relief wrapped round a cylinder
    Cylinder,
}

/// The corners of the triangles that a topology lists for a `w` by `h` grid.
pub open spec fn topology_corners(t: Topology, w: nat, h: nat) -> Seq<Corner> {
    match t {
        Topology::FlatGrid | Topology::FlatImage => flat_corners(w, h),
        Topology::Cylinder => cylinder_corners(w, h),
    }
}

/// Triangulate a vertex grid with the given topology.
pub fn generate(topology: Topology, grid: &VertexGrid) -> (r: Mesh)
    requires
        grid@.wf(),
    ensures
        r@ == grid@.render(topology_corners(topology, grid@.width, grid@.height)),
        r@.len() % 3 == 0,
{
    match topology {
        Topology::FlatGrid | Topology::FlatImage => generate_flat(grid),
        Topology::Cylinder => generate_cylinder(grid),
    }
}

} // verus!
