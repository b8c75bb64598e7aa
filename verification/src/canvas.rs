//! The canvas: a pixel grid with a depth buffer.
//!
//! The canvas stores packed colors and answers for the exact part of
//! drawing: addressing pixels row-major, translating centered coordinates,
//! ignoring points that fall off the grid, running the depth test, and
//! laying the image out as the byte sequence an encoder expects. Inverse
//! depths are compared, never combined, so the depth buffer holds them as
//! order-preserving integer keys; a fresh canvas holds the key of zero,
//! the "nothing drawn yet" mark, everywhere.

use vstd::prelude::*;

use crate::color::ColorPack;

verus! {

/// The mathematical content of a canvas.
pub struct CanvasView {
    pub width: int,
    pub height: int,
    pub pixels: Seq<ColorPack>,
    pub depths: Seq<i64>,
}

impl CanvasView {
    /// Positive dimensions small enough for the centered `i32` drawing
    /// coordinates, a pixel and a depth entry for every cell, and room to
    /// hand the image out as three bytes per pixel.
    pub open spec fn wf(self) -> bool {
        &&& 0 < self.width <= i32::MAX
        &&& 0 < self.height <= i32::MAX
        &&& self.width * self.height * 3 <= usize::MAX
        &&& self.pixels.len() == self.width * self.height
        &&& self.depths.len() == self.width * self.height
    }

    /// The row-major position of the cell in column `x` of row `y`.
    pub open spec fn pixel_index(self, x: int, y: int) -> int {
        y * self.width + x
    }

    /// Drawing coordinates are centered: their origin is the middle of the
    /// canvas, with `x` growing to the right and `y` growing upward.
    pub open spec fn center_x(self, x: int) -> int {
        x + self.width / 2
    }

    /// The row that centered coordinate `y` lands on.
    pub open spec fn center_y(self, y: int) -> int {
        self.height / 2 - y
    }

    /// Whether the centered point `(x, y)` lands on the grid at all.
    pub open spec fn centered_in_bounds(self, x: int, y: int) -> bool {
        &&& 0 <= self.center_x(x) < self.width
        &&& 0 <= self.center_y(y) < self.height
    }

    /// The color of the cell in column `cx` of row `cy`.
    pub open spec fn pixel_at(self, cx: int, cy: int) -> ColorPack {
        self.pixels[self.pixel_index(cx, cy)]
    }

    /// The stored depth key of the cell in column `cx` of row `cy`.
    pub open spec fn depth_at(self, cx: int, cy: int) -> i64 {
        self.depths[self.pixel_index(cx, cy)]
    }

    /// The dimensions and both buffer lengths agree with `other`.
    pub open spec fn same_shape(self, other: CanvasView) -> bool {
        &&& self.width == other.width
        &&& self.height == other.height
        &&& self.pixels.len() == other.pixels.len()
        &&& self.depths.len() == other.depths.len()
    }
}

/// Distinct cells have distinct row-major positions.
pub proof fn lemma_pixel_index_injective(w: int, cx1: int, cy1: int, cx2: int, cy2: int)
    requires
        0 <= cx1 < w,
        0 <= cx2 < w,
        !(cx1 == cx2 && cy1 == cy2),
    ensures
        cy1 * w + cx1 != cy2 * w + cx2,
{
    assert(cy1 * w + cx1 != cy2 * w + cx2) by (nonlinear_arith)
        requires
            0 <= cx1 < w,
            0 <= cx2 < w,
            !(cx1 == cx2 && cy1 == cy2),
    ;
}

/// A row-major position within the grid names exactly one cell.
pub proof fn lemma_pixel_index_in_range(v: CanvasView, cx: int, cy: int)
    requires
        v.wf(),
        0 <= cx < v.width,
        0 <= cy < v.height,
    ensures
        0 <= v.pixel_index(cx, cy) < v.width * v.height,
{
    assert(0 <= cy * v.width + cx < v.width * v.height) by (nonlinear_arith)
        requires
            0 <= cx < v.width,
            0 <= cy < v.height,
    ;
}

/// After a scan-line fill over centered columns `xl ..= xr` of centered row
/// `y`, every cell off that span keeps its color and its depth.
pub open spec fn scan_keeps_rest(
    pre: CanvasView,
    post: CanvasView,
    y: int,
    xl: int,
    xr: int,
) -> bool {
    forall|cx: int, cy: int|
        #![trigger post.pixel_at(cx, cy)]
        #![trigger post.depth_at(cx, cy)]
        0 <= cx < pre.width && 0 <= cy < pre.height && !(cy == pre.center_y(y) && xl <= cx
            - pre.width / 2 <= xr) ==> post.pixel_at(cx, cy) == pre.pixel_at(cx, cy)
            && post.depth_at(cx, cy) == pre.depth_at(cx, cy)
}

/// After a scan-line fill over centered columns `xl ..= xr` of centered row
/// `y`, every cell on the span took the fill color and its inverse-depth
/// key exactly where the key beat the stored depth, and kept its color and
/// depth where it did not.
pub open spec fn scan_paints(
    pre: CanvasView,
    post: CanvasView,
    y: int,
    xl: int,
    xr: int,
    izs: Seq<i64>,
    color: ColorPack,
) -> bool {
    forall|x: int|
        #![trigger pre.center_x(x)]
        xl <= x <= xr && pre.centered_in_bounds(x, y) ==> ({
            let cx = pre.center_x(x);
            let cy = pre.center_y(y);
            let iz = izs[x - xl];
            &&& (pre.depth_at(cx, cy) < iz ==> post.pixel_at(cx, cy) == color && post.depth_at(
                cx,
                cy,
            ) == iz)
            &&& (pre.depth_at(cx, cy) >= iz ==> post.pixel_at(cx, cy) == pre.pixel_at(cx, cy)
                && post.depth_at(cx, cy) == pre.depth_at(cx, cy))
        })
}

/// The pixel grid, with one depth key per pixel.
pub struct Canvas {
    width: u32,
    height: u32,
    image_data: Vec<ColorPack>,
    depth_buffer: Vec<i64>,
}

impl View for Canvas {
    type V = CanvasView;

    closed spec fn view(&self) -> CanvasView {
        CanvasView {
            width: self.width as int,
            height: self.height as int,
            pixels: self.image_data@,
            depths: self.depth_buffer@,
        }
    }
}

impl Canvas {
    /// A canvas of the given dimensions, every pixel the background color
    /// and every depth key the "nothing drawn yet" zero.
    pub fn new(width: u32, height: u32, background: ColorPack) -> (r: Canvas)
        requires
            0 < width <= i32::MAX,
            0 < height <= i32::MAX,
            width * height * 3 <= usize::MAX,
        ensures
            r@.wf(),
            r@.width == width,
            r@.height == height,
            forall|i: int| 0 <= i < r@.pixels.len() ==> r@.pixels[i] == background,
            forall|i: int| 0 <= i < r@.depths.len() ==> r@.depths[i] == 0i64,
    {
        let n: usize = (width as usize) * (height as usize);
        let mut image_data: Vec<ColorPack> = Vec::new();
        let mut depth_buffer: Vec<i64> = Vec::new();
        while image_data.len() < n
            invariant
                image_data@.len() <= n,
                depth_buffer@.len() == image_data@.len(),
                forall|i: int| 0 <= i < image_data@.len() ==> image_data@[i] == background,
                forall|i: int| 0 <= i < depth_buffer@.len() ==> depth_buffer@[i] == 0i64,
            decreases n - image_data@.len(),
        {
            image_data.push(background);
            depth_buffer.push(0);
        }
        Canvas { width, height, image_data, depth_buffer }
    }

    /// The canvas width in pixels.
    pub fn get_width(&self) -> (r: u32)
        ensures
            r as int == self@.width,
    {
        self.width
    }

    /// The canvas height in pixels.
    pub fn get_height(&self) -> (r: u32)
        ensures
            r as int == self@.height,
    {
        self.height
    }

    /// The row-major position of the pixel in column `x` of row `y`.
    fn index(&self, x: u32, y: u32) -> (r: usize)
        requires
            self@.wf(),
            x < self@.width,
            y < self@.height,
        ensures
            r == self@.pixel_index(x as int, y as int),
            r < self@.pixels.len(),
    {
        proof {
            lemma_pixel_index_in_range(self@, x as int, y as int);
        }
        y as usize * self.width as usize + x as usize
    }

    /// Paints the pixel in column `x` of row `y`; every other pixel and the
    /// whole depth buffer stay as they were.
    pub fn set_pixel(&mut self, x: u32, y: u32, color: ColorPack)
        requires
            old(self)@.wf(),
            x < old(self)@.width,
            y < old(self)@.height,
        ensures
            final(self)@.wf(),
            final(self)@.same_shape(old(self)@),
            final(self)@.depths == old(self)@.depths,
            final(self)@.pixels == old(self)@.pixels.update(
                old(self)@.pixel_index(x as int, y as int),
                color,
            ),
    {
        let index = self.index(x, y);
        self.image_data[index] = color;
    }

    /// Paints the centered point `(x, y)` if it lands on the grid and
    /// leaves the canvas untouched if it does not.
    pub fn put_pixel(&mut self, x: i32, y: i32, color: ColorPack)
        requires
            old(self)@.wf(),
        ensures
            final(self)@.wf(),
            final(self)@.same_shape(old(self)@),
            final(self)@.depths == old(self)@.depths,
            old(self)@.centered_in_bounds(x as int, y as int) ==> final(self)@.pixels == old(
                self,
            )@.pixels.update(
                old(self)@.pixel_index(
                    old(self)@.center_x(x as int),
                    old(self)@.center_y(y as int),
                ),
                color,
            ),
            !old(self)@.centered_in_bounds(x as int, y as int) ==> final(self)@.pixels == old(
                self,
            )@.pixels,
    {
        let cx: i64 = x as i64 + (self.width / 2) as i64;
        let cy: i64 = (self.height / 2) as i64 - (y as i64);
        if cx < 0 || cx >= self.width as i64 || cy < 0 || cy >= self.height as i64 {
            return ;
        }
        self.set_pixel(cx as u32, cy as u32, color);
    }

    /// The depth test at the centered point `(x, y)`: when the point lands
    /// on the grid and `iz` is nearer (a larger inverse-depth key) than what
    /// the cell holds, stores `iz` there and reports that the pixel is to be
    /// painted; otherwise changes nothing and reports false.
    pub fn update_depth_buffer(&mut self, x: i32, y: i32, iz: i64) -> (r: bool)
        requires
            old(self)@.wf(),
        ensures
            final(self)@.wf(),
            final(self)@.same_shape(old(self)@),
            final(self)@.pixels == old(self)@.pixels,
            r == (old(self)@.centered_in_bounds(x as int, y as int) && old(self)@.depth_at(
                old(self)@.center_x(x as int),
                old(self)@.center_y(y as int),
            ) < iz),
            r ==> final(self)@.depths == old(self)@.depths.update(
                old(self)@.pixel_index(
                    old(self)@.center_x(x as int),
                    old(self)@.center_y(y as int),
                ),
                iz,
            ),
            !r ==> final(self)@.depths == old(self)@.depths,
    {
        let cx: i64 = x as i64 + (self.width / 2) as i64;
        let cy: i64 = (self.height / 2) as i64 - (y as i64);
        if cx < 0 || cx >= self.width as i64 || cy < 0 || cy >= self.height as i64 {
            return false;
        }
        let index = self.index(cx as u32, cy as u32);
        if self.depth_buffer[index] < iz {
            self.depth_buffer[index] = iz;
            true
        } else {
            false
        }
    }

    /// One scan line of a filled triangle: walks the centered columns
    /// `x_left ..= x_right` of centered row `y` and paints each pixel that
    /// passes the depth test against its inverse-depth key in `izs` (one
    /// key per column, left to right). Pixels off this scan line, and
    /// pixels on it whose stored depth wins, stay as they were.
    pub fn fill_scanline(
        &mut self,
        y: i32,
        x_left: i32,
        x_right: i32,
        izs: &Vec<i64>,
        color: ColorPack,
    )
        requires
            old(self)@.wf(),
            x_left <= x_right ==> izs@.len() == x_right - x_left + 1,
        ensures
            final(self)@.wf(),
            final(self)@.same_shape(old(self)@),
            scan_keeps_rest(old(self)@, final(self)@, y as int, x_left as int, x_right as int),
            scan_paints(
                old(self)@,
                final(self)@,
                y as int,
                x_left as int,
                x_right as int,
                izs@,
                color,
            ),
    {
        let mut x: i64 = x_left as i64;
        while x <= x_right as i64
            invariant
                old(self)@.wf(),
                self@.wf(),
                self@.same_shape(old(self)@),
                x_left <= x,
                x <= x_right as i64 + 1 || x == x_left as i64,
                x_left <= x_right ==> izs@.len() == x_right - x_left + 1,
                scan_keeps_rest(old(self)@, self@, y as int, x_left as int, x as int - 1),
                scan_paints(old(self)@, self@, y as int, x_left as int, x as int - 1, izs@, color),
            decreases x_right as int + 1 - x,
        {
            let ghost pre = old(self)@;
            let ghost s0 = self@;
            let xi: i32 = x as i32;
            let iz: i64 = izs[(x - x_left as i64) as usize];
            let ghost cx0 = s0.center_x(xi as int);
            let ghost cy0 = s0.center_y(y as int);
            proof {
                if s0.centered_in_bounds(xi as int, y as int) {
                    lemma_pixel_index_in_range(s0, cx0, cy0);
                }
            }
            let painted = self.update_depth_buffer(xi, y, iz);
            let ghost s1 = self@;
            if painted {
                self.put_pixel(xi, y, color);
            }
            proof {
                let v = self@;
                let idx0 = s0.pixel_index(cx0, cy0);
                assert(scan_keeps_rest(pre, v, y as int, x_left as int, x as int)) by {
                    assert forall|cx: int, cy: int|
                        #![trigger v.pixel_at(cx, cy)]
                        #![trigger v.depth_at(cx, cy)]
                        0 <= cx < pre.width && 0 <= cy < pre.height && !(cy == pre.center_y(
                            y as int,
                        ) && x_left <= cx - pre.width / 2 <= x as int) implies v.pixel_at(cx, cy)
                        == pre.pixel_at(cx, cy) && v.depth_at(cx, cy) == pre.depth_at(cx, cy) by {
                        let k = s0.pixel_index(cx, cy);
                        lemma_pixel_index_in_range(s0, cx, cy);
                        assert(!(cx == cx0 && cy == cy0));
                        if painted {
                            lemma_pixel_index_injective(s0.width, cx, cy, cx0, cy0);
                            assert(v.pixels == s1.pixels.update(idx0, color));
                            assert(v.pixels[k] == s0.pixels[k]);
                            assert(v.depths[k] == s0.depths[k]);
                        }
                        assert(s0.pixel_at(cx, cy) == pre.pixel_at(cx, cy) && s0.depth_at(cx, cy)
                            == pre.depth_at(cx, cy));
                    }
                }
                assert(scan_paints(pre, v, y as int, x_left as int, x as int, izs@, color)) by {
                    assert forall|xx: int|
                        #![trigger pre.center_x(xx)]
                        x_left <= xx <= x as int && pre.centered_in_bounds(
                            xx,
                            y as int,
                        ) implies ({
                        let cx = pre.center_x(xx);
                        let cy = pre.center_y(y as int);
                        let izz = izs@[xx - x_left];
                        &&& (pre.depth_at(cx, cy) < izz ==> v.pixel_at(cx, cy) == color
                            && v.depth_at(cx, cy) == izz)
                        &&& (pre.depth_at(cx, cy) >= izz ==> v.pixel_at(cx, cy) == pre.pixel_at(
                            cx,
                            cy,
                        ) && v.depth_at(cx, cy) == pre.depth_at(cx, cy))
                    }) by {
                        let cx = pre.center_x(xx);
                        let cy = pre.center_y(y as int);
                        let k = s0.pixel_index(cx, cy);
                        lemma_pixel_index_in_range(s0, cx, cy);
                        if xx < x as int {
                            assert(!(cx == cx0 && cy == cy0));
                            if painted {
                                lemma_pixel_index_injective(s0.width, cx, cy, cx0, cy0);
                                assert(v.pixels[k] == s0.pixels[k]);
                                assert(v.depths[k] == s0.depths[k]);
                            }
                            assert(v.pixel_at(cx, cy) == s0.pixel_at(cx, cy) && v.depth_at(cx, cy)
                                == s0.depth_at(cx, cy));
                        } else {
                            // this very column: the stored depth was still the
                            // starting one, so the test's outcome is decisive
                            assert(s0.depth_at(cx0, cy0) == pre.depth_at(cx0, cy0));
                            assert(s0.pixel_at(cx0, cy0) == pre.pixel_at(cx0, cy0));
                            if painted {
                                assert(v.depths[k] == iz);
                                assert(v.pixels[k] == color);
                            }
                        }
                    }
                }
            }
            x = x + 1;
        }
    }

    /// The image as the byte sequence an encoder expects: three bytes per
    /// pixel, red then green then blue, pixels in row-major order.
    pub fn data(&self) -> (r: Vec<u8>)
        requires
            self@.wf(),
        ensures
            r@.len() == 3 * self@.pixels.len(),
            forall|i: int|
                0 <= i < self@.pixels.len() ==> r@[3 * i] == (#[trigger] self@.pixels[i]).r && r@[3
                    * i + 1] == self@.pixels[i].g && r@[3 * i + 2] == self@.pixels[i].b,
    {
        let mut r: Vec<u8> = Vec::new();
        let mut i: usize = 0;
        while i < self.image_data.len()
            invariant
                self@.wf(),
                i <= self@.pixels.len(),
                r@.len() == 3 * i,
                forall|j: int|
                    0 <= j < i ==> r@[3 * j] == (#[trigger] self@.pixels[j]).r && r@[3 * j + 1]
                        == self@.pixels[j].g && r@[3 * j + 2] == self@.pixels[j].b,
            decreases self@.pixels.len() - i,
        {
            let c = self.image_data[i];
            r.push(c.r);
            r.push(c.g);
            r.push(c.b);
            i = i + 1;
        }
        r
    }
}

} // verus!
