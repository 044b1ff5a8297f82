//! The 8x8 LED matrix frame buffer: pixel placement, full-frame writes,
//! Bresenham line drawing, and 5x7 character rendering, all verified
//! against a byte-exact model of the buffer.
//!
//! The buffer holds two bytes per pixel (a packed 16-bit color, low byte
//! first) at an index fixed by the mounting orientation. Flushing the
//! buffer to the display device is left to the caller; this module only
//! computes its contents.

use crate::color::Color;
use crate::glcdfont::FONT;
use crate::numeric::div_floor_i64;
use vstd::prelude::*;

verus! {

/// Drawing failure: a coordinate outside the 8x8 display.
#[derive(Clone, Copy, Debug, PartialEq, Eq, Structural)]
pub enum DrawError {
    OutOfBounds,
}

/// How the display is mounted, in steps of a quarter turn clockwise.
#[derive(Clone, Copy, Debug, PartialEq, Eq, Structural)]
pub enum Orientation {
    Cw0,
    Cw90,
    Cw180,
    Cw270,
}

/// The low byte of a pixel cell: green's low bits and blue.
pub open spec fn spec_color_lsb(c: Color) -> u8 {
    ((c.1 << 5) & 0xE0) | (c.2 & 0x1F)
}

/// The high byte of a pixel cell: red and green's high bits.
pub open spec fn spec_color_msb(c: Color) -> u8 {
    ((c.0 << 3) & 0xF8) | ((c.1 >> 3) & 0x07)
}

/// The buffer index of a pixel's low byte under an orientation.
pub open spec fn spec_fb_index(o: Orientation, x: int, y: int) -> int {
    match o {
        Orientation::Cw0 => 2 * (y * 8 + x),
        Orientation::Cw90 => 2 * ((7 - y) * 8 + x),
        Orientation::Cw180 => 2 * ((7 - y) * 8 + (7 - x)),
        Orientation::Cw270 => 2 * (y * 8 + (7 - x)),
    }
}

/// A pixel's two buffer bytes lie within the pixel area of the buffer.
pub proof fn lemma_fb_index_range(o: Orientation, x: int, y: int)
    requires
        0 <= x < 8,
        0 <= y < 8,
    ensures
        0 <= spec_fb_index(o, x, y),
        spec_fb_index(o, x, y) + 1 < 128,
{
}

/// Distinct pixels occupy disjoint byte pairs: their low-byte indices,
/// both even, differ by at least two.
pub proof fn lemma_fb_index_distinct(o: Orientation, x: int, y: int, x2: int, y2: int)
    requires
        0 <= x < 8,
        0 <= y < 8,
        0 <= x2 < 8,
        0 <= y2 < 8,
        x != x2 || y != y2,
    ensures
        spec_fb_index(o, x, y) + 2 <= spec_fb_index(o, x2, y2) || spec_fb_index(o, x2, y2) + 2
            <= spec_fb_index(o, x, y),
{
}

/// The cells the Bresenham walk visits from `(cx, cy)` toward `(x1, y1)`
/// with error term `err`: the current cell, then the cells after one
/// error-driven step. `fuel` bounds the recursion; the walk needs at most
/// `dx + dy + 1` cells, so the algorithm never exhausts it.
pub open spec fn spec_line_cells(
    cx: int,
    cy: int,
    x1: int,
    y1: int,
    dx: int,
    dy: int,
    sx: int,
    sy: int,
    err: int,
    fuel: nat,
) -> Set<(int, int)>
    decreases fuel,
{
    if cx == x1 && cy == y1 {
        Set::empty().insert((cx, cy))
    } else if fuel == 0 {
        Set::empty()
    } else {
        let err2 = 2 * err;
        let cx2 = if err2 > -dx {
            cx + sx
        } else {
            cx
        };
        let err3 = if err2 > -dx {
            err - dy
        } else {
            err
        };
        let cy2 = if err2 < dy {
            cy + sy
        } else {
            cy
        };
        let err4 = if err2 < dy {
            err3 + dx
        } else {
            err3
        };
        spec_line_cells(cx2, cy2, x1, y1, dx, dy, sx, sy, err4, (fuel - 1) as nat).insert((cx, cy))
    }
}

/// The cells of the Bresenham rasterization of the segment from `(x0, y0)`
/// to `(x1, y1)`: the walk started with the documented error seed.
pub open spec fn spec_bresenham_cells(x0: int, y0: int, x1: int, y1: int) -> Set<(int, int)> {
    let dx = if x0 > x1 {
        x0 - x1
    } else {
        x1 - x0
    };
    let dy = if y0 > y1 {
        y0 - y1
    } else {
        y1 - y0
    };
    let sx: int = if x0 < x1 {
        1
    } else {
        -1
    };
    let sy: int = if y0 < y1 {
        1
    } else {
        -1
    };
    let err0 = if dx > dy {
        dx / 2
    } else {
        -(dy / 2)
    };
    spec_line_cells(x0, y0, x1, y1, dx, dy, sx, sy, err0, (dx + dy + 1) as nat)
}

/// The frame buffer for one 8x8 display: 384 device bytes, of which the
/// first 128 hold the 64 pixel cells, plus the device path the caller
/// flushes it to and the mounting orientation.
pub struct Matrix {
    /// The device bytes, two per pixel; always 384 of them.
    pub framebuffer: Vec<u8>,
    /// The display device path this buffer is meant to be flushed to.
    pub file_name: String,
    /// The mounting orientation used to place pixels.
    pub orientation: Orientation,
}

impl Matrix {
    /// The structural invariant: the buffer holds exactly 384 bytes.
    pub open spec fn wf(self) -> bool {
        self.framebuffer@.len() == 384
    }

    /// Pixel `(x, y)` holds color `c`.
    pub open spec fn spec_pixel_is(self, x: int, y: int, c: Color) -> bool {
        &&& self.framebuffer@[spec_fb_index(self.orientation, x, y)] == spec_color_lsb(c)
        &&& self.framebuffer@[spec_fb_index(self.orientation, x, y) + 1] == spec_color_msb(c)
    }

    /// Pixel `(x, y)` holds the same bytes in `self` as in `prev`.
    pub open spec fn spec_pixel_same(self, prev: Matrix, x: int, y: int) -> bool {
        &&& self.framebuffer@[spec_fb_index(self.orientation, x, y)] == prev.framebuffer@[
            spec_fb_index(self.orientation, x, y)]
        &&& self.framebuffer@[spec_fb_index(self.orientation, x, y) + 1] == prev.framebuffer@[
            spec_fb_index(self.orientation, x, y) + 1]
    }

    /// An all-dark buffer for the given device path and orientation.
    pub fn new(f: String, or: Orientation) -> (r: Matrix)
        ensures
            r.wf(),
            r.file_name@ == f@,
            r.orientation == or,
            forall|i: int| 0 <= i < 384 ==> r.framebuffer@[i] == 0u8,
    {
        let mut fb: Vec<u8> = Vec::new();
        let mut i: usize = 0;
        while i < 384
            invariant
                i <= 384,
                fb@.len() == i,
                forall|k: int| 0 <= k < i ==> fb@[k] == 0u8,
            decreases 384 - i,
        {
            fb.push(0);
            i = i + 1;
        }
        Matrix { framebuffer: fb, file_name: f, orientation: or }
    }

    /// Sets one pixel, or reports `OutOfBounds` and leaves the buffer
    /// untouched. In bounds, exactly the pixel's two bytes change, to the
    /// packed color.
    pub fn set_pixel(&mut self, x: usize, y: usize, c: Color) -> (r: Result<(), DrawError>)
        requires
            old(self).wf(),
        ensures
            final(self).wf(),
            final(self).orientation == old(self).orientation,
            final(self).file_name == old(self).file_name,
            x <= 7 && y <= 7 ==> r == Ok::<(), DrawError>(()) && final(self).framebuffer@ == old(
                self,
            ).framebuffer@.update(
                spec_fb_index(old(self).orientation, x as int, y as int),
                spec_color_lsb(c),
            ).update(
                spec_fb_index(old(self).orientation, x as int, y as int) + 1,
                spec_color_msb(c),
            ),
            x > 7 || y > 7 ==> r == Err::<(), DrawError>(DrawError::OutOfBounds) && *final(self)
                == *old(self),
    {
        if x > 7 || y > 7 {
            return Err(DrawError::OutOfBounds);
        }
        let color_lsb: u8 = ((c.1 << 5) & 0xE0) | (c.2 & 0x1F);
        let color_msb: u8 = ((c.0 << 3) & 0xF8) | ((c.1 >> 3) & 0x07);
        let fb_idx: usize = match self.orientation {
            Orientation::Cw0 => 2 * (y * 8 + x),
            Orientation::Cw90 => 2 * ((7 - y) * 8 + x),
            Orientation::Cw180 => 2 * ((7 - y) * 8 + (7 - x)),
            Orientation::Cw270 => 2 * (y * 8 + (7 - x)),
        };
        self.framebuffer.set(fb_idx, color_lsb);
        self.framebuffer.set(fb_idx + 1, color_msb);
        Ok(())
    }

    /// Copies a full 64-pixel frame, row-major, into the buffer: pixel
    /// `(x, y)` takes `frame[y * 8 + x]`, entries beyond the first 64 are
    /// ignored, and the bytes beyond the pixel area keep their values.
    pub fn set_frame(&mut self, frame: &[Color]) -> (r: Result<(), DrawError>)
        requires
            old(self).wf(),
            frame@.len() >= 64,
        ensures
            final(self).wf(),
            final(self).orientation == old(self).orientation,
            final(self).file_name == old(self).file_name,
            r == Ok::<(), DrawError>(()),
            forall|xx: int, yy: int|
                0 <= xx < 8 && 0 <= yy < 8 ==> #[trigger] final(self).spec_pixel_is(
                    xx,
                    yy,
                    frame@[yy * 8 + xx],
                ),
            forall|i: int| 128 <= i < 384 ==> final(self).framebuffer@[i] == old(
                self,
            ).framebuffer@[i],
    {
        let mut x: usize = 0;
        while x < 8
            invariant
                x <= 8,
                frame@.len() >= 64,
                self.wf(),
                self.orientation == old(self).orientation,
                self.file_name == old(self).file_name,
                forall|xx: int, yy: int|
                    0 <= xx < x && 0 <= yy < 8 ==> #[trigger] self.spec_pixel_is(
                        xx,
                        yy,
                        frame@[yy * 8 + xx],
                    ),
                forall|i: int| 128 <= i < 384 ==> self.framebuffer@[i] == old(self).framebuffer@[i],
            decreases 8 - x,
        {
            let mut y: usize = 0;
            while y < 8
                invariant
                    x < 8,
                    y <= 8,
                    frame@.len() >= 64,
                    self.wf(),
                    self.orientation == old(self).orientation,
                    self.file_name == old(self).file_name,
                    forall|xx: int, yy: int|
                        0 <= xx < x && 0 <= yy < 8 ==> #[trigger] self.spec_pixel_is(
                            xx,
                            yy,
                            frame@[yy * 8 + xx],
                        ),
                    forall|yy: int|
                        0 <= yy < y ==> #[trigger] self.spec_pixel_is(
                            x as int,
                            yy,
                            frame@[yy * 8 + x],
                        ),
                    forall|i: int|
                        128 <= i < 384 ==> self.framebuffer@[i] == old(self).framebuffer@[i],
                decreases 8 - y,
            {
                let ghost prev = *self;
                let res = self.set_pixel(x, y, frame[y * 8 + x]);
                proof {
                    lemma_fb_index_range(prev.orientation, x as int, y as int);
                    assert(res == Ok::<(), DrawError>(()));
                    assert(self.spec_pixel_is(x as int, y as int, frame@[y as int * 8 + x as int]));
                    assert forall|xx: int, yy: int|
                        0 <= xx < 8 && 0 <= yy < 8 && (xx != x || yy != y) && prev.spec_pixel_is(
                            xx,
                            yy,
                            frame@[yy * 8 + xx],
                        ) implies #[trigger] self.spec_pixel_is(xx, yy, frame@[yy * 8 + xx]) by {
                        lemma_fb_index_distinct(
                            prev.orientation,
                            xx,
                            yy,
                            x as int,
                            y as int,
                        );
                        lemma_fb_index_range(prev.orientation, xx, yy);
                        assert(self.spec_pixel_same(prev, xx, yy));
                    }
                }
                y = y + 1;
            }
            x = x + 1;
        }
        Ok(())
    }

    /// Draws the Bresenham line from `(x0, y0)` to `(x1, y1)`: both
    /// endpoints take the color, every changed pixel takes the color, and
    /// every changed pixel lies on the rasterization
    /// ([`spec_bresenham_cells`]), so any pixel off the line keeps its
    /// bytes. Coordinates outside the display report `OutOfBounds` and
    /// leave the buffer untouched.
    #[verifier::rlimit(60)]
    pub fn draw_line(&mut self, x0: i8, x1: i8, y0: i8, y1: i8, c: Color) -> (r: Result<
        (),
        DrawError,
    >)
        requires
            old(self).wf(),
        ensures
            final(self).wf(),
            final(self).orientation == old(self).orientation,
            final(self).file_name == old(self).file_name,
            (x0 > 7 || y0 > 7 || x1 > 7 || y1 > 7 || x0 < 0 || y0 < 0 || x1 < 0 || y1 < 0) ==> r
                == Err::<(), DrawError>(DrawError::OutOfBounds) && *final(self) == *old(self),
            !(x0 > 7 || y0 > 7 || x1 > 7 || y1 > 7 || x0 < 0 || y0 < 0 || x1 < 0 || y1 < 0) ==> (r
                == Ok::<(), DrawError>(()) && final(self).spec_pixel_is(x0 as int, y0 as int, c)
                && final(self).spec_pixel_is(x1 as int, y1 as int, c) && forall|xx: int, yy: int|
                0 <= xx < 8 && 0 <= yy < 8 ==> (#[trigger] final(self).spec_pixel_is(xx, yy, c)
                    || final(self).spec_pixel_same(*old(self), xx, yy))),
            !(x0 > 7 || y0 > 7 || x1 > 7 || y1 > 7 || x0 < 0 || y0 < 0 || x1 < 0 || y1 < 0)
                ==> forall|xx: int, yy: int|
                0 <= xx < 8 && 0 <= yy < 8 && !(#[trigger] final(self).spec_pixel_same(
                    *old(self),
                    xx,
                    yy,
                )) ==> spec_bresenham_cells(x0 as int, y0 as int, x1 as int, y1 as int).contains(
                    (xx, yy),
                ),
    {
        if x0 > 7 || y0 > 7 || x1 > 7 || y1 > 7 || x0 < 0 || y0 < 0 || x1 < 0 || y1 < 0 {
            return Err(DrawError::OutOfBounds);
        }
        let gx1: i64 = x1 as i64;
        let gy1: i64 = y1 as i64;
        let mut cx: i64 = x0 as i64;
        let mut cy: i64 = y0 as i64;
        let dx: i64 = if cx > gx1 {
            cx - gx1
        } else {
            gx1 - cx
        };
        let dy: i64 = if cy > gy1 {
            cy - gy1
        } else {
            gy1 - cy
        };
        let sx: i64 = if cx < gx1 {
            1
        } else {
            -1
        };
        let sy: i64 = if cy < gy1 {
            1
        } else {
            -1
        };
        let err0: i64 = if dx > dy {
            div_floor_i64(dx, 2)
        } else {
            -div_floor_i64(dy, 2)
        };
        let mut err: i64 = err0;
        let ghost mut nx: int = 0;
        let ghost mut ny: int = 0;
        let ghost mut it: int = 0;
        let ghost lineset = spec_bresenham_cells(x0 as int, y0 as int, x1 as int, y1 as int);
        proof {
            assert(lineset == spec_line_cells(
                cx as int,
                cy as int,
                gx1 as int,
                gy1 as int,
                dx as int,
                dy as int,
                sx as int,
                sy as int,
                err as int,
                (dx + dy + 1) as nat,
            ));
            assert(2 * err0 <= dx && -dy <= 2 * err0) by {
                vstd::arithmetic::div_mod::lemma_fundamental_div_mod(dx as int, 2);
                vstd::arithmetic::div_mod::lemma_mod_division_less_than_divisor(dx as int, 2);
                vstd::arithmetic::div_mod::lemma_fundamental_div_mod(dy as int, 2);
                vstd::arithmetic::div_mod::lemma_mod_division_less_than_divisor(dy as int, 2);
            }
        }
        loop
            invariant
                self.wf(),
                self.orientation == old(self).orientation,
                self.file_name == old(self).file_name,
                0 <= dx <= 7,
                0 <= dy <= 7,
                sx == 1 || sx == -1,
                sy == 1 || sy == -1,
                gx1 == x1 as int,
                gy1 == y1 as int,
                0 <= gx1 <= 7,
                0 <= gy1 <= 7,
                0 <= x0 <= 7,
                0 <= y0 <= 7,
                0 <= nx <= dx,
                0 <= ny <= dy,
                cx == x0 + sx * nx,
                cy == y0 + sy * ny,
                gx1 == x0 + sx * dx,
                gy1 == y0 + sy * dy,
                0 <= cx <= 7,
                0 <= cy <= 7,
                err == err0 + dx * ny - dy * nx,
                2 * err0 <= dx,
                -dy <= 2 * err0,
                -120 <= err <= 120,
                nx > 0 || ny > 0 ==> self.spec_pixel_is(x0 as int, y0 as int, c),
                forall|xx: int, yy: int|
                    0 <= xx < 8 && 0 <= yy < 8 ==> (#[trigger] self.spec_pixel_is(xx, yy, c)
                        || self.spec_pixel_same(*old(self), xx, yy)),
                0 <= it <= nx + ny,
                lineset == spec_bresenham_cells(x0 as int, y0 as int, x1 as int, y1 as int),
                spec_line_cells(
                    cx as int,
                    cy as int,
                    gx1 as int,
                    gy1 as int,
                    dx as int,
                    dy as int,
                    sx as int,
                    sy as int,
                    err as int,
                    (dx + dy + 1 - it) as nat,
                ).subset_of(lineset),
                forall|xx: int, yy: int|
                    0 <= xx < 8 && 0 <= yy < 8 && !(#[trigger] self.spec_pixel_same(
                        *old(self),
                        xx,
                        yy,
                    )) ==> lineset.contains((xx, yy)),
            decreases (dx - nx) + (dy - ny),
        {
            let ghost prev = *self;
            let ghost gcx = cx as int;
            let ghost gcy = cy as int;
            let ghost gerr = err as int;
            let ghost gfuel = (dx + dy + 1 - it) as nat;
            let res = self.set_pixel(cx as usize, cy as usize, c);
            proof {
                lemma_fb_index_range(prev.orientation, gcx, gcy);
                assert(res == Ok::<(), DrawError>(()));
                assert(self.spec_pixel_is(gcx, gcy, c));
                assert(it <= dx + dy && gfuel >= 1);
                assert(spec_line_cells(
                    gcx,
                    gcy,
                    gx1 as int,
                    gy1 as int,
                    dx as int,
                    dy as int,
                    sx as int,
                    sy as int,
                    gerr,
                    gfuel,
                ).contains((gcx, gcy)));
                assert(lineset.contains((gcx, gcy)));
                assert forall|xx: int, yy: int|
                    0 <= xx < 8 && 0 <= yy < 8 && !(#[trigger] self.spec_pixel_same(
                        *old(self),
                        xx,
                        yy,
                    )) implies lineset.contains((xx, yy)) by {
                    if xx == gcx && yy == gcy {
                    } else {
                        lemma_fb_index_range(prev.orientation, xx, yy);
                        lemma_fb_index_distinct(prev.orientation, xx, yy, gcx, gcy);
                        assert(self.spec_pixel_same(prev, xx, yy));
                        if prev.spec_pixel_same(*old(self), xx, yy) {
                            assert(self.spec_pixel_same(*old(self), xx, yy));
                        }
                    }
                }
                assert forall|xx: int, yy: int| 0 <= xx < 8 && 0 <= yy < 8 implies (
                    #[trigger] self.spec_pixel_is(xx, yy, c) || self.spec_pixel_same(
                        *old(self),
                        xx,
                        yy,
                    )) by {
                    lemma_fb_index_range(prev.orientation, xx, yy);
                    if xx == gcx && yy == gcy {
                        assert(self.spec_pixel_is(xx, yy, c));
                    } else {
                        lemma_fb_index_distinct(prev.orientation, xx, yy, gcx, gcy);
                        assert(self.spec_pixel_same(prev, xx, yy));
                        if prev.spec_pixel_is(xx, yy, c) {
                            assert(self.spec_pixel_is(xx, yy, c));
                        } else {
                            assert(prev.spec_pixel_same(*old(self), xx, yy));
                            assert(self.spec_pixel_same(*old(self), xx, yy));
                        }
                    }
                }
            }
            if cx == gx1 && cy == gy1 {
                proof {
                    assert(self.spec_pixel_is(x1 as int, y1 as int, c));
                    if nx == 0 && ny == 0 {
                        assert(cx == x0 + sx * 0 && cy == y0 + sy * 0);
                        assert(cx == x0 as int && cy == y0 as int);
                    } else {
                        if x0 as int != gcx || y0 as int != gcy {
                            lemma_fb_index_distinct(
                                prev.orientation,
                                x0 as int,
                                y0 as int,
                                gcx,
                                gcy,
                            );
                            assert(self.spec_pixel_same(prev, x0 as int, y0 as int));
                        }
                    }
                    assert(self.spec_pixel_is(x0 as int, y0 as int, c));
                    assert(sx * nx == sx * dx && sy * ny == sy * dy);
                    assert(nx == dx && ny == dy) by (nonlinear_arith)
                        requires
                            sx * nx == sx * dx,
                            sy * ny == sy * dy,
                            (sx == 1 || sx == -1),
                            (sy == 1 || sy == -1),
                    {}
                    assert(x0 as int == x0 + sx * 0);
                }
                return Ok(());
            }
            let err2: i64 = 2 * err;
            proof {
                if nx == dx && ny == dy {
                    assert(cx == gx1 && cy == gy1) by (nonlinear_arith)
                        requires
                            cx == x0 + sx * nx,
                            cy == y0 + sy * ny,
                            gx1 == x0 + sx * dx,
                            gy1 == y0 + sy * dy,
                            nx == dx,
                            ny == dy,
                    {}
                }
                if nx == dx {
                    assert(err2 <= -dx) by (nonlinear_arith)
                        requires
                            err2 == 2 * (err0 + dx * ny - dy * nx),
                            nx == dx,
                            ny <= dy - 1,
                            2 * err0 <= dx,
                            0 <= dx,
                            0 <= dy,
                    {}
                }
                if ny == dy {
                    assert(err2 >= dy) by (nonlinear_arith)
                        requires
                            err2 == 2 * (err0 + dx * ny - dy * nx),
                            ny == dy,
                            nx <= dx - 1,
                            -dy <= 2 * err0,
                            0 <= dx,
                            0 <= dy,
                    {}
                }
            }
            let mut stepped = false;
            if err2 > -dx {
                proof {
                    assert(dy * (nx + 1) == dy * nx + dy) by (nonlinear_arith);
                    assert(sx * (nx + 1) == sx * nx + sx) by (nonlinear_arith);
                    nx = nx + 1;
                }
                err = err - dy;
                cx = cx + sx;
                stepped = true;
            }
            if err2 < dy {
                proof {
                    assert(dx * (ny + 1) == dx * ny + dx) by (nonlinear_arith);
                    assert(sy * (ny + 1) == sy * ny + sy) by (nonlinear_arith);
                    ny = ny + 1;
                }
                err = err + dx;
                cy = cy + sy;
                stepped = true;
            }
            proof {
                assert(stepped);
                it = it + 1;
                assert(spec_line_cells(
                    gcx,
                    gcy,
                    gx1 as int,
                    gy1 as int,
                    dx as int,
                    dy as int,
                    sx as int,
                    sy as int,
                    gerr,
                    gfuel,
                ) == spec_line_cells(
                    cx as int,
                    cy as int,
                    gx1 as int,
                    gy1 as int,
                    dx as int,
                    dy as int,
                    sx as int,
                    sy as int,
                    err as int,
                    (gfuel - 1) as nat,
                ).insert((gcx, gcy)));
                assert((dx + dy + 1 - it) as nat == (gfuel - 1) as nat);
                assert forall|p: (int, int)|
                    spec_line_cells(
                        cx as int,
                        cy as int,
                        gx1 as int,
                        gy1 as int,
                        dx as int,
                        dy as int,
                        sx as int,
                        sy as int,
                        err as int,
                        (dx + dy + 1 - it) as nat,
                    ).contains(p) implies lineset.contains(p) by {}
                assert(-120 <= err0 + dx * ny - dy * nx <= 120) by (nonlinear_arith)
                    requires
                        0 <= dx <= 7,
                        0 <= dy <= 7,
                        0 <= nx <= dx,
                        0 <= ny <= dy,
                        -4 <= err0 <= 4,
                {}
                assert(0 <= cx <= 7 && 0 <= cy <= 7) by (nonlinear_arith)
                    requires
                        cx == x0 + sx * nx,
                        cy == y0 + sy * ny,
                        gx1 == x0 + sx * dx,
                        gy1 == y0 + sy * dy,
                        0 <= nx <= dx,
                        0 <= ny <= dy,
                        (sx == 1 || sx == -1),
                        (sy == 1 || sy == -1),
                        0 <= x0 <= 7,
                        0 <= y0 <= 7,
                        0 <= gx1 <= 7,
                        0 <= gy1 <= 7,
                {}
            }
        }
    }
    /// Renders the 5x7 glyph of `ch` at the display origin: columns 0..5
    /// take the glyph's column bytes, column 5 is blank spacing. A set
    /// font bit draws `fg`; a clear one draws `bg` unless the two colors
    /// are equal, in which case the pixel keeps its bytes.
    pub fn draw_char(&mut self, ch: char, fg: Color, bg: Color) -> (r: Result<(), DrawError>)
        requires
            old(self).wf(),
            32 <= (ch as u32) && (ch as u32) < 128,
        ensures
            final(self).wf(),
            final(self).orientation == old(self).orientation,
            final(self).file_name == old(self).file_name,
            r == Ok::<(), DrawError>(()),
            forall|i: int, j: int|
                0 <= i < 6 && 0 <= j < 8 ==> #[trigger] spec_char_pixel_ok(
                    *final(self),
                    *old(self),
                    ch,
                    fg,
                    bg,
                    i,
                    j,
                ),
            forall|xx: int, yy: int|
                6 <= xx < 8 && 0 <= yy < 8 ==> #[trigger] final(self).spec_pixel_same(
                    *old(self),
                    xx,
                    yy,
                ),
    {
        let mut i: usize = 0;
        while i < 6
            invariant
                i <= 6,
                32 <= (ch as u32) && (ch as u32) < 128,
                self.wf(),
                self.orientation == old(self).orientation,
                self.file_name == old(self).file_name,
                forall|ii: int, jj: int|
                    0 <= ii < i && 0 <= jj < 8 ==> #[trigger] spec_char_pixel_ok(
                        *self,
                        *old(self),
                        ch,
                        fg,
                        bg,
                        ii,
                        jj,
                    ),
                forall|xx: int, yy: int|
                    0 <= xx < 8 && 0 <= yy < 8 && xx >= i ==> #[trigger] self.spec_pixel_same(
                        *old(self),
                        xx,
                        yy,
                    ),
            decreases 6 - i,
        {
            let mut line: u8 = if i == 5 {
                0
            } else {
                FONT[(ch as usize - 32) * 5 + i]
            };
            proof {
                let l = spec_font_line(ch, i as int);
                assert(l >> 0 == l) by (bit_vector);
            }
            let mut j: usize = 0;
            while j < 8
                invariant
                    i < 6,
                    j <= 8,
                    32 <= (ch as u32) && (ch as u32) < 128,
                    self.wf(),
                    self.orientation == old(self).orientation,
                    self.file_name == old(self).file_name,
                    line == spec_font_line(ch, i as int) >> (j as int),
                    forall|ii: int, jj: int|
                        0 <= ii < i && 0 <= jj < 8 ==> #[trigger] spec_char_pixel_ok(
                            *self,
                            *old(self),
                            ch,
                            fg,
                            bg,
                            ii,
                            jj,
                        ),
                    forall|jj: int|
                        0 <= jj < j ==> #[trigger] spec_char_pixel_ok(
                            *self,
                            *old(self),
                            ch,
                            fg,
                            bg,
                            i as int,
                            jj,
                        ),
                    forall|xx: int, yy: int|
                        0 <= xx < 8 && 0 <= yy < 8 && (xx > i || (xx == i && yy >= j))
                            ==> #[trigger] self.spec_pixel_same(*old(self), xx, yy),
                decreases 8 - j,
            {
                let ghost prev = *self;
                let bit_set = line & 0x01 != 0;
                proof {
                    let l = spec_font_line(ch, i as int);
                    let jv = j as u8;
                    assert((l >> jv) & 0x01 == (l >> (jv as int)) & 0x01);
                }
                if bit_set {
                    let res = self.set_pixel(i, j, fg);
                    proof {
                        assert(res == Ok::<(), DrawError>(()));
                    }
                } else if bg != fg {
                    let res = self.set_pixel(i, j, bg);
                    proof {
                        assert(res == Ok::<(), DrawError>(()));
                    }
                }
                proof {
                    lemma_fb_index_range(prev.orientation, i as int, j as int);
                    assert(spec_char_pixel_ok(*self, *old(self), ch, fg, bg, i as int, j as int));
                    assert forall|xx: int, yy: int|
                        0 <= xx < 8 && 0 <= yy < 8 && (xx != i || yy != j) implies self
                        .spec_pixel_same(prev, xx, yy) by {
                        lemma_fb_index_distinct(prev.orientation, xx, yy, i as int, j as int);
                        lemma_fb_index_range(prev.orientation, xx, yy);
                    }
                    assert forall|xx: int, yy: int|
                        0 <= xx < 8 && 0 <= yy < 8 && (xx != i || yy != j) && prev.spec_pixel_same(
                            *old(self),
                            xx,
                            yy,
                        ) implies #[trigger] self.spec_pixel_same(*old(self), xx, yy) by {
                        assert(self.spec_pixel_same(prev, xx, yy));
                    }
                    assert forall|ii: int, jj: int|
                        0 <= ii < 6 && 0 <= jj < 8 && (ii != i || jj != j) && spec_char_pixel_ok(
                            prev,
                            *old(self),
                            ch,
                            fg,
                            bg,
                            ii,
                            jj,
                        ) implies #[trigger] spec_char_pixel_ok(
                        *self,
                        *old(self),
                        ch,
                        fg,
                        bg,
                        ii,
                        jj,
                    ) by {
                        assert(self.spec_pixel_same(prev, ii, jj));
                    }
                    let l = spec_font_line(ch, i as int);
                    let jv = j as u8;
                    assert((l >> jv) >> 1 == l >> ((jv + 1) as u8)) by (bit_vector)
                        requires
                            jv < 8,
                    ;
                }
                line = line >> 1;
                j = j + 1;
            }
            i = i + 1;
        }
        Ok(())
    }
}

/// The font column byte for column `i` of a character: the glyph column
/// for the first five, and zero for the spacing column.
pub open spec fn spec_font_line(ch: char, i: int) -> u8 {
    if i == 5 {
        0u8
    } else {
        FONT@[(ch as int - 32) * 5 + i]
    }
}

/// Whether row `j` of font column `i` is set for character `ch`.
pub open spec fn spec_font_bit(ch: char, i: int, j: int) -> bool {
    (spec_font_line(ch, i) >> j) & 0x01 != 0
}

/// What `draw_char` guarantees for glyph pixel `(i, j)`: the foreground
/// color on a set font bit, the background color on a clear one, and the
/// previous bytes when the two colors coincide on a clear bit.
pub open spec fn spec_char_pixel_ok(
    m: Matrix,
    orig: Matrix,
    ch: char,
    fg: Color,
    bg: Color,
    i: int,
    j: int,
) -> bool {
    if spec_font_bit(ch, i, j) {
        m.spec_pixel_is(i, j, fg)
    } else if fg != bg {
        m.spec_pixel_is(i, j, bg)
    } else {
        m.spec_pixel_same(orig, i, j)
    }
}

} // verus!
