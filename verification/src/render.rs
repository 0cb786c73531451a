//! The picture buffer and the raster loop: one camera ray per pixel.

use crate::color::Color;
use crate::fixed::fx_div;
use crate::fixed::fx_mul;
use crate::fixed::fx_sub;
use crate::fixed::spec_fx_div;
use crate::fixed::spec_fx_mul;
use crate::fixed::spec_fx_sub;
use crate::fixed::FX_ONE;
use crate::scene::spec_black;
use crate::scene::spec_bounce;
use crate::scene::spec_calculate;
use crate::scene::Object;
use crate::scene::Scene;
use crate::vector::Point;
use vstd::prelude::*;

verus! {

/// The fixed camera position: just short of 200 world units behind the
/// plane `z == 0`, on the axis through the scene's center.
pub const CAMERA_Z: i64 = -199 * FX_ONE;

/// A 2D grid of colors with a camera position. `data` is indexed
/// `[row][column]`: `size.0` is the width (number of columns), `size.1`
/// the height (number of rows). Row 0 is the top of the image.
pub struct Picture {
    pub position: Point,
    pub size: (u32, u32),
    pub data: Vec<Vec<Color>>,
}

impl Picture {
    /// The buffer has exactly `size.1` rows of exactly `size.0` cells.
    pub open spec fn wf(self) -> bool {
        &&& self.data@.len() == self.size.1 as int
        &&& forall|r: int|
            0 <= r < self.data@.len() ==> (#[trigger] self.data@[r])@.len() == self.size.0 as int
    }

    /// The grid as a sequence of rows of colors.
    pub open spec fn grid(self) -> Seq<Seq<Color>> {
        self.data@.map(|i: int, row: Vec<Color>| row@)
    }

    /// A black picture of the given size (width, height), with the
    /// camera at its fixed position.
    pub fn new(size: (u32, u32)) -> (r: Picture)
        ensures
            r.wf(),
            r.size == size,
            r.position == Point(0i64, 0i64, CAMERA_Z),
            forall|row: int, col: int|
                0 <= row < size.1 as int && 0 <= col < size.0 as int ==> #[trigger] r.grid()[row][col]
                    == spec_black(),
    {
        let mut data: Vec<Vec<Color>> = Vec::new();
        let mut row: u32 = 0;
        while row < size.1
            invariant
                row <= size.1,
                data@.len() == row as int,
                forall|r: int|
                    0 <= r < row as int ==> (#[trigger] data@[r])@.len() == size.0 as int,
                forall|r: int, c: int|
                    0 <= r < row as int && 0 <= c < size.0 as int ==> #[trigger] data@[r]@[c]
                        == spec_black(),
            decreases size.1 - row,
        {
            let mut line: Vec<Color> = Vec::new();
            let mut col: u32 = 0;
            while col < size.0
                invariant
                    col <= size.0,
                    line@.len() == col as int,
                    forall|c: int| 0 <= c < col as int ==> #[trigger] line@[c] == spec_black(),
                decreases size.0 - col,
            {
                line.push(Color::new());
                col = col + 1;
            }
            data.push(line);
            row = row + 1;
        }
        Picture { position: Point::new(0, 0, CAMERA_Z), size, data }
    }
}

/// The camera ray for pixel (column `xi`, row `yi`) of a `xsize` by
/// `ysize` picture: columns interpolate the ray's x-slope linearly from
/// -1 (leftmost) to +1 (rightmost), rows interpolate the y-slope the
/// same way but downward (row 0 is the top), and the forward z-component
/// is fixed at one.
pub open spec fn spec_pixel_ray(xsize: int, ysize: int, xi: int, yi: int) -> Point
    recommends
        xsize >= 2,
{
    let xrange = (xsize - 1) * FX_ONE / 2;
    let yrange = (ysize - 1) * FX_ONE / 2;
    let step = spec_fx_div(FX_ONE as int, xrange);
    let x = spec_fx_mul(step, spec_fx_sub(xi * FX_ONE, xrange));
    let y = spec_fx_mul(step, spec_fx_sub(yrange, yi * FX_ONE));
    Point(x as i64, y as i64, FX_ONE)
}

/// The rendered color of pixel (column `xi`, row `yi`): the camera ray
/// is traced through the scene and shaded with `depth` bounces of
/// budget.
pub open spec fn spec_pixel(
    objects: Seq<Object>,
    origin: Point,
    xsize: int,
    ysize: int,
    depth: nat,
    xi: int,
    yi: int,
) -> Color
    recommends
        xsize >= 2,
{
    spec_bounce(
        objects,
        spec_calculate(objects, spec_pixel_ray(xsize, ysize, xi, yi), origin),
        depth,
    )
}

/// `grid` is exactly the render of `objects` from camera `origin` at
/// `size` (width, height) with bounce budget `depth`.
pub open spec fn is_render(
    objects: Seq<Object>,
    origin: Point,
    size: (u32, u32),
    depth: nat,
    grid: Seq<Seq<Color>>,
) -> bool {
    &&& grid.len() == size.1 as int
    &&& forall|r: int| 0 <= r < grid.len() ==> (#[trigger] grid[r]).len() == size.0 as int
    &&& forall|r: int, c: int|
        0 <= r < size.1 as int && 0 <= c < size.0 as int ==> #[trigger] grid[r][c] == spec_pixel(
            objects,
            origin,
            size.0 as int,
            size.1 as int,
            depth,
            c,
            r,
        )
}

impl Scene {
    /// Overwrite every cell of `picture` with the rendered image of this
    /// scene, seen from the picture's camera position, with `depth`
    /// bounces of budget per pixel. Every pixel is computed
    /// independently; nothing but the cells changes.
    pub fn generate_picture(&self, picture: &mut Picture, depth: u32)
        requires
            old(picture).wf(),
            old(picture).size.0 >= 2,
            old(picture).size.1 >= 1,
        ensures
            final(picture).wf(),
            final(picture).size == old(picture).size,
            final(picture).position == old(picture).position,
            is_render(
                self.objects@,
                old(picture).position,
                old(picture).size,
                depth as nat,
                final(picture).grid(),
            ),
    {
        let origin = picture.position;
        let (xsize, ysize) = picture.size;
        let xrange = (((xsize - 1) as u64) * 65536 / 2) as i64;
        let yrange = (((ysize - 1) as u64) * 65536 / 2) as i64;
        let step = fx_div(FX_ONE, xrange);
        let mut rows: Vec<Vec<Color>> = Vec::new();
        let mut yi: u32 = 0;
        while yi < ysize
            invariant
                yi <= ysize,
                xsize == old(picture).size.0,
                ysize == old(picture).size.1,
                xsize >= 2,
                origin == old(picture).position,
                xrange as int == (xsize as int - 1) * FX_ONE / 2,
                yrange as int == (ysize as int - 1) * FX_ONE / 2,
                xrange >= 1,
                step as int == spec_fx_div(FX_ONE as int, xrange as int),
                rows@.len() == yi as int,
                forall|r: int|
                    0 <= r < yi as int ==> (#[trigger] rows@[r])@.len() == xsize as int,
                forall|r: int, c: int|
                    0 <= r < yi as int && 0 <= c < xsize as int ==> #[trigger] rows@[r]@[c]
                        == spec_pixel(
                        self.objects@,
                        origin,
                        xsize as int,
                        ysize as int,
                        depth as nat,
                        c,
                        r,
                    ),
            decreases ysize - yi,
        {
            let mut line: Vec<Color> = Vec::new();
            let mut xi: u32 = 0;
            while xi < xsize
                invariant
                    xi <= xsize,
                    xsize >= 2,
                    xrange as int == (xsize as int - 1) * FX_ONE / 2,
                    yrange as int == (ysize as int - 1) * FX_ONE / 2,
                    xrange >= 1,
                    step as int == spec_fx_div(FX_ONE as int, xrange as int),
                    line@.len() == xi as int,
                    forall|c: int|
                        0 <= c < xi as int ==> #[trigger] line@[c] == spec_pixel(
                            self.objects@,
                            origin,
                            xsize as int,
                            ysize as int,
                            depth as nat,
                            c,
                            yi as int,
                        ),
                decreases xsize - xi,
            {
                let x = fx_mul(step, fx_sub((xi as i64) * 65536, xrange));
                let y = fx_mul(step, fx_sub(yrange, (yi as i64) * 65536));
                let ray = Point(x, y, FX_ONE);
                proof {
                    assert(ray == spec_pixel_ray(xsize as int, ysize as int, xi as int, yi as int));
                }
                line.push(self.bounce(self.calculate(&ray, &origin), depth));
                xi = xi + 1;
            }
            rows.push(line);
            yi = yi + 1;
        }
        picture.data = rows;
    }
}

/// Render one picture per time step in the half-open range `trange`,
/// each of the given size (width at least two, height at least one) with
/// the given bounce budget: the picture for step `t` shows the
/// demonstration scene at time `t`. An empty or reversed range yields no
/// pictures.
pub fn thread_function(trange: (i32, i32), size: (u32, u32), depth: u32) -> (r: Vec<Picture>)
    requires
        size.0 >= 2,
        size.1 >= 1,
    ensures
        r@.len() == if trange.0 <= trange.1 {
            trange.1 - trange.0
        } else {
            0
        },
        forall|i: int|
            0 <= i < r@.len() ==> {
                &&& (#[trigger] r@[i]).wf()
                &&& r@[i].size == size
                &&& r@[i].position == Point(0i64, 0i64, CAMERA_Z)
                &&& is_render(
                    crate::builder::spec_scene_objects(trange.0 + i),
                    Point(0i64, 0i64, CAMERA_Z),
                    size,
                    depth as nat,
                    r@[i].grid(),
                )
            },
{
    let mut out: Vec<Picture> = Vec::new();
    let mut t = trange.0;
    while t < trange.1
        invariant
            size.0 >= 2,
            size.1 >= 1,
            trange.0 <= t,
            t <= trange.1 || t == trange.0,
            out@.len() == t - trange.0,
            forall|i: int|
                0 <= i < out@.len() ==> {
                    &&& (#[trigger] out@[i]).wf()
                    &&& out@[i].size == size
                    &&& out@[i].position == Point(0i64, 0i64, CAMERA_Z)
                    &&& is_render(
                        crate::builder::spec_scene_objects(trange.0 + i),
                        Point(0i64, 0i64, CAMERA_Z),
                        size,
                        depth as nat,
                        out@[i].grid(),
                    )
                },
        decreases trange.1 - t,
    {
        let mut picture = Picture::new(size);
        let scene = Scene::new(t);
        scene.generate_picture(&mut picture, depth);
        out.push(picture);
        t = t + 1;
    }
    out
}

} // verus!
