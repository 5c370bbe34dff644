//! Line drawing on the framebuffer's pixel grid.
//!
//! The framebuffer is modelled as its grid of 32-bit pixels, `stride` wide
//! per row with `width` of them visible. The integer line algorithm steps
//! from one endpoint toward the other, painting every visited point that
//! lies on the visible grid white, and its whole visited trace is pinned
//! down point by point. Endpoints off the grid are allowed; only in-bounds
//! points are written.

use vstd::prelude::*;

verus! {

/// The color every line is drawn in: opaque white.
pub const WHITE_PIXEL: u32 = 0xffff_ffff;

/// Coordinates no larger than this keep the stepping arithmetic inside a
/// 64-bit signed range.
pub const MAX_COORD: usize = 0xffff_ffff;

/// A framebuffer's pixel grid.
pub struct PixelBuffer {
    /// The pixels, row after row, `stride` per row.
    pub pixels: Vec<u32>,
    /// Visible pixels per row.
    pub width: usize,
    /// Number of rows.
    pub height: usize,
    /// Pixels per row in memory, at least `width`.
    pub stride: usize,
}

impl PixelBuffer {
    /// A grid whose rows really hold `stride` pixels each.
    pub open spec fn wf(self) -> bool {
        &&& self.width <= self.stride
        &&& self.pixels.len() == self.stride * self.height
    }
}

/// One step of the line walk: where the walk stands next, given where it
/// stands and the line's fixed slopes, signs and error term.
pub open spec fn spec_line_trace(
    x0: int,
    y0: int,
    x1: int,
    y1: int,
    dx: int,
    dy: int,
    sx: int,
    sy: int,
    err: int,
    fuel: nat,
) -> Seq<(int, int)>
    decreases fuel,
{
    if fuel == 0 {
        Seq::empty()
    } else {
        let rest = if x0 == x1 && y0 == y1 {
            Seq::<(int, int)>::empty()
        } else {
            let e2 = 2 * err;
            let xstep = e2 >= dy;
            let ystep = e2 <= dx;
            spec_line_trace(
                if xstep {
                    x0 + sx
                } else {
                    x0
                },
                if ystep {
                    y0 + sy
                } else {
                    y0
                },
                x1,
                y1,
                dx,
                dy,
                sx,
                sy,
                err + (if xstep {
                    dy
                } else {
                    0
                }) + (if ystep {
                    dx
                } else {
                    0
                }),
                (fuel - 1) as nat,
            )
        };
        seq![(x0, y0)] + rest
    }
}

/// Every point the line walk from `(x0, y0)` toward `(x1, y1)` visits, in
/// order, the start first. The walk carries the classic integer error
/// term and is cut off after one step per axis unit, which a completed
/// walk never reaches.
pub open spec fn spec_bresenham_trace(x0: int, y0: int, x1: int, y1: int) -> Seq<(int, int)> {
    let dx = if x1 >= x0 {
        x1 - x0
    } else {
        x0 - x1
    };
    let dy = if y1 >= y0 {
        y0 - y1
    } else {
        y1 - y0
    };
    let sx: int = if x0 < x1 {
        1
    } else {
        -1
    };
    let sy: int = if y0 < y1 {
        1
    } else {
        -1
    };
    spec_line_trace(x0, y0, x1, y1, dx, dy, sx, sy, dx + dy, (dx - dy + 1) as nat)
}

/// Whether some visited point lies on the visible grid at flat pixel
/// index `i`.
pub open spec fn trace_hits_index(
    pts: Seq<(int, int)>,
    width: int,
    height: int,
    stride: int,
    i: int,
) -> bool {
    exists|k: int|
        0 <= k < pts.len() && 0 <= #[trigger] pts[k].0 < width && 0 <= pts[k].1 < height
            && pts[k].1 * stride + pts[k].0 == i
}

/// Draws the line from `(x0, y0)` to `(x1, y1)`: every visited point on
/// the visible grid becomes white, every other pixel keeps its value.
pub fn draw_bresenham(x0: usize, y0: usize, x1: usize, y1: usize, fb: &mut PixelBuffer)
    requires
        old(fb).wf(),
        x0 <= MAX_COORD,
        y0 <= MAX_COORD,
        x1 <= MAX_COORD,
        y1 <= MAX_COORD,
    ensures
        final(fb).wf(),
        final(fb).width == old(fb).width,
        final(fb).height == old(fb).height,
        final(fb).stride == old(fb).stride,
        final(fb).pixels.len() == old(fb).pixels.len(),
        forall|i: int|
            0 <= i < final(fb).pixels.len() ==> final(fb).pixels[i] == (if trace_hits_index(
                spec_bresenham_trace(x0 as int, y0 as int, x1 as int, y1 as int),
                old(fb).width as int,
                old(fb).height as int,
                old(fb).stride as int,
                i,
            ) {
                WHITE_PIXEL
            } else {
                old(fb).pixels[i]
            }),
{
    let ghost trace = spec_bresenham_trace(x0 as int, y0 as int, x1 as int, y1 as int);
    let ghost w = old(fb).width as int;
    let ghost h = old(fb).height as int;
    let ghost s = old(fb).stride as int;
    let xe: i64 = x1 as i64;
    let ye: i64 = y1 as i64;
    let mut cx: i64 = x0 as i64;
    let mut cy: i64 = y0 as i64;
    let dx: i64 = if x1 >= x0 {
        (x1 - x0) as i64
    } else {
        (x0 - x1) as i64
    };
    let dy: i64 = if y1 >= y0 {
        -((y1 - y0) as i64)
    } else {
        -((y0 - y1) as i64)
    };
    let sx: i64 = if x0 < x1 {
        1
    } else {
        -1
    };
    let sy: i64 = if y0 < y1 {
        1
    } else {
        -1
    };
    let mut err: i64 = dx + dy;
    let mut fuel: i64 = dx - dy + 1;
    let ghost mut painted: Seq<(int, int)> = Seq::empty();
    proof {
        assert(trace == painted + spec_line_trace(
            cx as int,
            cy as int,
            xe as int,
            ye as int,
            dx as int,
            dy as int,
            sx as int,
            sy as int,
            err as int,
            fuel as nat,
        ));
    }
    while fuel > 0
        invariant_except_break
            trace == painted + spec_line_trace(
                cx as int,
                cy as int,
                xe as int,
                ye as int,
                dx as int,
                dy as int,
                sx as int,
                sy as int,
                err as int,
                fuel as nat,
            ),
            forall|i: int|
                0 <= i < fb.pixels.len() ==> fb.pixels[i] == (if trace_hits_index(
                    painted,
                    w,
                    h,
                    s,
                    i,
                ) {
                    WHITE_PIXEL
                } else {
                    old(fb).pixels[i]
                }),
        invariant
            fb.wf(),
            w == old(fb).width as int,
            h == old(fb).height as int,
            s == old(fb).stride as int,
            trace == spec_bresenham_trace(x0 as int, y0 as int, x1 as int, y1 as int),
            fb.width == old(fb).width,
            fb.height == old(fb).height,
            fb.stride == old(fb).stride,
            fb.pixels.len() == old(fb).pixels.len(),
            0 <= dx <= MAX_COORD,
            -(MAX_COORD as int) <= dy <= 0,
            sx == 1 || sx == -1,
            sy == 1 || sy == -1,
            2 * dy <= err <= 2 * dx,
            0 <= fuel <= dx - dy + 1,
            (x0 as int) - (dx - dy + 1 - fuel) <= cx <= (x0 as int) + (dx - dy + 1 - fuel),
            (y0 as int) - (dx - dy + 1 - fuel) <= cy <= (y0 as int) + (dx - dy + 1 - fuel),
            x0 <= MAX_COORD,
            y0 <= MAX_COORD,
            xe <= MAX_COORD,
            ye <= MAX_COORD,
        ensures
            fb.wf(),
            fb.width == old(fb).width,
            fb.height == old(fb).height,
            fb.stride == old(fb).stride,
            fb.pixels.len() == old(fb).pixels.len(),
            forall|i: int|
                0 <= i < fb.pixels.len() ==> fb.pixels[i] == (if trace_hits_index(trace, w, h, s, i) {
                    WHITE_PIXEL
                } else {
                    old(fb).pixels[i]
                }),
        decreases fuel,
    {
        let ghost painted_pre = painted;
        let ghost pix_pre = fb.pixels@;
        if cx >= 0 && cy >= 0 && (cx as u64) < (fb.width as u64) && (cy as u64) < (
        fb.height as u64) {
            proof {
                assert(0 <= cx < fb.width as int);
                assert(0 <= cy < fb.height as int);
            }
            let ux = cx as usize;
            let uy = cy as usize;
            proof {
                assert(0 <= uy < h && 0 <= ux < w && w <= s);
                assert(uy * s + ux < s * h) by (nonlinear_arith)
                    requires
                        0 <= uy < h,
                        0 <= ux < w,
                        w <= s,
                ;
            }
            let idx = uy * fb.stride + ux;
            fb.pixels.set(idx, WHITE_PIXEL);
        }
        proof {
            painted = painted.push((cx as int, cy as int));
            lemma_paint_step(pix_pre, fb.pixels@, old(fb).pixels@, painted_pre, (cx as int, cy as int), w, h, s);
        }
        if cx == xe && cy == ye {
            proof {
                assert(spec_line_trace(
                    cx as int,
                    cy as int,
                    xe as int,
                    ye as int,
                    dx as int,
                    dy as int,
                    sx as int,
                    sy as int,
                    err as int,
                    fuel as nat,
                ) =~= seq![(cx as int, cy as int)]);
                assert(trace =~= painted);
            }
            break ;
        }
        proof {
            assert(spec_line_trace(
                cx as int,
                cy as int,
                xe as int,
                ye as int,
                dx as int,
                dy as int,
                sx as int,
                sy as int,
                err as int,
                fuel as nat,
            ) =~= seq![(cx as int, cy as int)] + spec_line_trace(
                if 2 * err >= dy {
                    cx + sx
                } else {
                    cx as int
                },
                if 2 * err <= dx {
                    cy + sy
                } else {
                    cy as int
                },
                xe as int,
                ye as int,
                dx as int,
                dy as int,
                sx as int,
                sy as int,
                err + (if 2 * err >= dy {
                    dy as int
                } else {
                    0
                }) + (if 2 * err <= dx {
                    dx as int
                } else {
                    0
                }),
                (fuel - 1) as nat,
            ));
        }
        let e2 = 2 * err;
        if e2 >= dy {
            err += dy;
            cx += sx;
        }
        if e2 <= dx {
            err += dx;
            cy += sy;
        }
        fuel -= 1;
    }
}

/// After one point is painted — written white when it lies on the visible
/// grid, left alone otherwise — the pixels match the extended trace.
proof fn lemma_paint_step(
    pre: Seq<u32>,
    post: Seq<u32>,
    base: Seq<u32>,
    painted: Seq<(int, int)>,
    pt: (int, int),
    w: int,
    h: int,
    s: int,
)
    requires
        pre.len() == post.len(),
        pre.len() == base.len(),
        w <= s,
        pre.len() == s * h,
        forall|i: int|
            0 <= i < pre.len() ==> pre[i] == (if trace_hits_index(painted, w, h, s, i) {
                WHITE_PIXEL
            } else {
                base[i]
            }),
        (0 <= pt.0 < w && 0 <= pt.1 < h) ==> post == pre.update(pt.1 * s + pt.0, WHITE_PIXEL),
        !(0 <= pt.0 < w && 0 <= pt.1 < h) ==> post == pre,
    ensures
        forall|i: int|
            0 <= i < post.len() ==> post[i] == (if trace_hits_index(painted.push(pt), w, h, s, i) {
                WHITE_PIXEL
            } else {
                base[i]
            }),
{
    let bigger = painted.push(pt);
    let inb0 = 0 <= pt.0 < w && 0 <= pt.1 < h;
    if inb0 {
        lemma_index_in_range(pt.1, pt.0, w, h, s);
    }
    assert forall|i: int| 0 <= i < post.len() implies post[i] == (if trace_hits_index(
        bigger,
        w,
        h,
        s,
        i,
    ) {
        WHITE_PIXEL
    } else {
        base[i]
    }) by {
        let inb = 0 <= pt.0 < w && 0 <= pt.1 < h;
        if inb && i == pt.1 * s + pt.0 {
            assert(bigger[painted.len() as int] == pt);
            assert(trace_hits_index(bigger, w, h, s, i));
            assert(post[i] == WHITE_PIXEL);
        } else {
            assert(post[i] == pre[i]);
            if trace_hits_index(bigger, w, h, s, i) {
                let k = choose|k: int|
                    0 <= k < bigger.len() && 0 <= #[trigger] bigger[k].0 < w && 0 <= bigger[k].1
                        < h && bigger[k].1 * s + bigger[k].0 == i;
                if k < painted.len() {
                    assert(painted[k] == bigger[k]);
                    assert(trace_hits_index(painted, w, h, s, i));
                } else {
                    assert(bigger[k] == pt);
                    assert(inb && i == pt.1 * s + pt.0);
                }
            } else {
                if trace_hits_index(painted, w, h, s, i) {
                    let k = choose|k: int|
                        0 <= k < painted.len() && 0 <= #[trigger] painted[k].0 < w && 0
                            <= painted[k].1 < h && painted[k].1 * s + painted[k].0 == i;
                    assert(bigger[k] == painted[k]);
                    assert(trace_hits_index(bigger, w, h, s, i));
                }
            }
        }
    }
}

/// A visible grid point's flat index lies inside the pixel storage.
proof fn lemma_index_in_range(y: int, x: int, w: int, h: int, s: int)
    requires
        0 <= x < w,
        0 <= y < h,
        w <= s,
    ensures
        0 <= y * s + x < s * h,
{
    assert(y * s + x < s * h) by (nonlinear_arith)
        requires
            0 <= x < w,
            0 <= y < h,
            w <= s,
    ;
    assert(0 <= y * s) by (nonlinear_arith)
        requires
            0 <= y,
            0 <= s,
    ;
}

/// Draws an X across the whole framebuffer: the two corner-to-corner
/// diagonals, each with the integer line walk. A pixel becomes white
/// exactly when one of the diagonals visits it; everything else is kept.
pub fn framebuffer_x_demo(fb: &mut PixelBuffer)
    requires
        old(fb).wf(),
        old(fb).width <= MAX_COORD,
        old(fb).height <= MAX_COORD,
    ensures
        final(fb).wf(),
        final(fb).width == old(fb).width,
        final(fb).height == old(fb).height,
        final(fb).stride == old(fb).stride,
        final(fb).pixels.len() == old(fb).pixels.len(),
        forall|i: int|
            0 <= i < final(fb).pixels.len() ==> final(fb).pixels[i] == (if trace_hits_index(
                spec_bresenham_trace(
                    0,
                    0,
                    spec_sub_one(old(fb).width),
                    spec_sub_one(old(fb).height),
                ),
                old(fb).width as int,
                old(fb).height as int,
                old(fb).stride as int,
                i,
            ) || trace_hits_index(
                spec_bresenham_trace(
                    spec_sub_one(old(fb).width),
                    0,
                    0,
                    spec_sub_one(old(fb).height),
                ),
                old(fb).width as int,
                old(fb).height as int,
                old(fb).stride as int,
                i,
            ) {
                WHITE_PIXEL
            } else {
                old(fb).pixels[i]
            }),
{
    let right = if fb.width > 0 {
        fb.width - 1
    } else {
        0
    };
    let bottom = if fb.height > 0 {
        fb.height - 1
    } else {
        0
    };
    draw_bresenham(0, 0, right, bottom, fb);
    draw_bresenham(right, 0, 0, bottom, fb);
}

/// A dimension's last coordinate: one less than the size, floored at zero.
pub open spec fn spec_sub_one(n: usize) -> int {
    if n > 0 {
        n - 1
    } else {
        0
    }
}

} // verus!
