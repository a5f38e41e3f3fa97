//! Pixel lines, the integer walk that draws a line one pixel box at a time, and the window
//! requests that scripts queue up.
use vstd::prelude::*;
use crate::script::{Input, WindowSet};

verus! {

/// Whether stepping by `step` from `from` moves toward `to` (or `from` is there already).
pub open spec fn toward(from: int, to: int, step: int) -> bool {
    (step == 1 && from <= to) || (step == -1 && from >= to)
}

pub open spec fn distance(a: int, b: int) -> int {
    if a <= b {
        b - a
    } else {
        a - b
    }
}

/// The pixels that the line walk visits from `(x, y)` with error term `e`, toward
/// `(fx, fy)`, for the step sizes `dx >= 0` and `dy <= 0` and the directions `sx` and `sy`.
/// Each round visits the current pixel; it stops there when that is the end pixel. Else it
/// steps in x when `2e >= dy` and in y when `2e <= dx`, adding `dy` or `dx` to `e`; a step
/// that would leave the end column or row stops the walk instead.
pub open spec fn line_walk(
    dx: int,
    dy: int,
    sx: int,
    sy: int,
    fx: int,
    fy: int,
    x: int,
    y: int,
    e: int,
) -> Seq<(int, int)>
    decreases distance(x, fx) + distance(y, fy),
{
    if !(dx >= 0 && dy <= 0 && toward(x, fx, sx) && toward(y, fy, sy)) {
        seq![(x, y)]
    } else if x == fx && y == fy {
        seq![(x, y)]
    } else {
        let e2 = 2 * e;
        let x_step = e2 >= dy;
        let y_step = e2 <= dx;
        if x_step && x == fx {
            seq![(x, y)]
        } else if y_step && y == fy {
            seq![(x, y)]
        } else {
            let x1 = if x_step {
                x + sx
            } else {
                x
            };
            let y1 = if y_step {
                y + sy
            } else {
                y
            };
            let e1 = e + (if x_step {
                dy
            } else {
                0
            }) + (if y_step {
                dx
            } else {
                0
            });
            seq![(x, y)] + line_walk(dx, dy, sx, sy, fx, fy, x1, y1, e1)
        }
    }
}

/// What the line walk needs of its arguments: `dx >= 0`, `dy <= 0`, unit directions that lead
/// from the start toward the end.
pub open spec fn line_arguments(
    start: (i32, i32),
    end: (i32, i32),
    dx: i32,
    dy: i32,
    sx: i32,
    sy: i32,
) -> bool {
    &&& dx >= 0
    &&& dy <= 0
    &&& toward(start.0 as int, end.0 as int, sx as int)
    &&& toward(start.1 as int, end.1 as int, sy as int)
}

pub open spec fn as_int_points(points: Seq<(i32, i32)>) -> Seq<(int, int)> {
    points.map_values(|p: (i32, i32)| (p.0 as int, p.1 as int))
}

pub open spec fn between(v: int, a: int, b: int) -> bool {
    (a <= v <= b) || (b <= v <= a)
}

/// The pixels of a line from `start` toward `end`, given the step sizes `dx` (the width,
/// `>= 0`) and `dy` (minus the height, `<= 0`), and the directions `sx` and `sy` (each 1 or
/// -1). Each pixel stands for one box that the line draws, in order.
pub fn line_points(start: (i32, i32), end: (i32, i32), dx: i32, dy: i32, sx: i32, sy: i32) -> (points: Vec<(i32, i32)>)
    requires
        line_arguments(start, end, dx, dy, sx, sy),
    ensures
        as_int_points(points@) == line_walk(
            dx as int,
            dy as int,
            sx as int,
            sy as int,
            end.0 as int,
            end.1 as int,
            start.0 as int,
            start.1 as int,
            dx + dy,
        ),
{
    let (f_x, f_y) = end;
    let mut x = start.0;
    let mut y = start.1;
    let mut e_1: i64 = dx as i64 + dy as i64;
    let mut points: Vec<(i32, i32)> = Vec::new();
    let ghost whole = line_walk(dx as int, dy as int, sx as int, sy as int, f_x as int, f_y as int, x as int, y as int, e_1 as int);
    loop
        invariant_except_break
            whole == as_int_points(points@) + line_walk(
                dx as int,
                dy as int,
                sx as int,
                sy as int,
                f_x as int,
                f_y as int,
                x as int,
                y as int,
                e_1 as int,
            ),
        invariant
            dx >= 0,
            dy <= 0,
            toward(x as int, f_x as int, sx as int),
            toward(y as int, f_y as int, sy as int),
            between(x as int, start.0 as int, f_x as int),
            between(y as int, start.1 as int, f_y as int),
            -2 * (dx - dy) <= e_1 <= 2 * (dx - dy),
        ensures
            whole == as_int_points(points@),
        decreases distance(x as int, f_x as int) + distance(y as int, f_y as int),
    {
        let ghost rest = line_walk(dx as int, dy as int, sx as int, sy as int, f_x as int, f_y as int, x as int, y as int, e_1 as int);
        let ghost before = points@;
        points.push((x, y));
        proof {
            assert(as_int_points(points@) =~= as_int_points(before).push((x as int, y as int)));
        }

        if x == f_x && y == f_y {
            proof {
                assert(rest =~= seq![(x as int, y as int)]);
                assert(whole =~= as_int_points(points@));
            }
            break;
        }

        let e_2 = e_1 * 2;
        let x_step = e_2 >= dy as i64;
        let y_step = e_2 <= dx as i64;

        if x_step {
            if x == f_x {
                proof {
                    assert(rest =~= seq![(x as int, y as int)]);
                    assert(whole =~= as_int_points(points@));
                }
                break;
            }
        }
        if y_step {
            if y == f_y {
                proof {
                    assert(rest =~= seq![(x as int, y as int)]);
                    assert(whole =~= as_int_points(points@));
                }
                break;
            }
        }
        let ghost x0 = x;
        let ghost y0 = y;
        if x_step {
            e_1 = e_1 + dy as i64;
            x = x + sx;
        }
        if y_step {
            e_1 = e_1 + dx as i64;
            y = y + sy;
        }
        proof {
            let next = line_walk(dx as int, dy as int, sx as int, sy as int, f_x as int, f_y as int, x as int, y as int, e_1 as int);
            assert(rest == seq![(x0 as int, y0 as int)] + next);
            assert(whole =~= as_int_points(points@) + next);
        }
    }
    points
}

//================================================================
// Laws of the line walk.

pub open spec fn adjacent(a: (int, int), b: (int, int)) -> bool {
    &&& distance(a.0, b.0) <= 1
    &&& distance(a.1, b.1) <= 1
    &&& a != b
}

/// A line starts at its start pixel, stays within the box spanned by its start and end
/// pixels, and moves from each pixel to a neighbouring one.
pub proof fn lemma_line_shape(
    dx: int,
    dy: int,
    sx: int,
    sy: int,
    fx: int,
    fy: int,
    x: int,
    y: int,
    e: int,
)
    requires
        dx >= 0,
        dy <= 0,
        toward(x, fx, sx),
        toward(y, fy, sy),
    ensures
        ({
            let w = line_walk(dx, dy, sx, sy, fx, fy, x, y, e);
            &&& w.len() >= 1
            &&& w[0] == (x, y)
            &&& forall|k: int|
                0 <= k < w.len() ==> between(#[trigger] w[k].0, x, fx) && between(w[k].1, y, fy)
            &&& forall|k: int| 0 <= k < w.len() - 1 ==> adjacent(#[trigger] w[k], w[k + 1])
        }),
    decreases distance(x, fx) + distance(y, fy),
{
    let w = line_walk(dx, dy, sx, sy, fx, fy, x, y, e);
    if x == fx && y == fy {
    } else {
        let e2 = 2 * e;
        let x_step = e2 >= dy;
        let y_step = e2 <= dx;
        if x_step && x == fx {
        } else if y_step && y == fy {
        } else {
            let x1 = if x_step { x + sx } else { x };
            let y1 = if y_step { y + sy } else { y };
            let e1 = e + (if x_step { dy } else { 0 }) + (if y_step { dx } else { 0 });
            lemma_line_shape(dx, dy, sx, sy, fx, fy, x1, y1, e1);
            let rest = line_walk(dx, dy, sx, sy, fx, fy, x1, y1, e1);
            assert(w == seq![(x, y)] + rest);
            assert forall|k: int| 0 <= k < w.len() implies between(#[trigger] w[k].0, x, fx)
                && between(w[k].1, y, fy) by {
                if k > 0 {
                    assert(w[k] == rest[k - 1]);
                }
            }
            assert forall|k: int| 0 <= k < w.len() - 1 implies adjacent(#[trigger] w[k], w[k + 1]) by {
                if k > 0 {
                    assert(w[k] == rest[k - 1]);
                    assert(w[k + 1] == rest[k]);
                } else {
                    assert(w[1] == rest[0]);
                }
            }
        }
    }
}

proof fn lemma_line_end_from(
    dx: int,
    dy: int,
    sx: int,
    sy: int,
    fx: int,
    fy: int,
    x: int,
    y: int,
    e: int,
)
    requires
        dx >= 0,
        dy <= 0,
        toward(x, fx, sx),
        toward(y, fy, sy),
        distance(x, fx) <= dx,
        distance(y, fy) <= -dy,
        e == dx + dy - dx * distance(y, fy) - dy * distance(x, fx),
    ensures
        line_walk(dx, dy, sx, sy, fx, fy, x, y, e).last() == (fx, fy),
    decreases distance(x, fx) + distance(y, fy),
{
    let rx = distance(x, fx);
    let ry = distance(y, fy);
    if x == fx && y == fy {
    } else {
        let e2 = 2 * e;
        let x_step = e2 >= dy;
        let y_step = e2 <= dx;
        if x == fx {
            assert(rx == 0);
            assert(dy * rx == 0) by (nonlinear_arith)
                requires
                    rx == 0,
            ;
            assert(ry >= 1);
            assert(e <= dy) by (nonlinear_arith)
                requires
                    ry >= 1,
                    dx >= 0,
                    dy * rx == 0,
                    e == dx + dy - dx * ry - dy * rx,
            ;
            assert(!x_step);
        }
        if y == fy {
            assert(ry == 0);
            assert(dx * ry == 0) by (nonlinear_arith)
                requires
                    ry == 0,
            ;
            assert(rx >= 1);
            assert(e >= dx) by (nonlinear_arith)
                requires
                    rx >= 1,
                    dy <= 0,
                    dx * ry == 0,
                    e == dx + dy - dx * ry - dy * rx,
            ;
            assert(!y_step);
        }
        let x1 = if x_step { x + sx } else { x };
        let y1 = if y_step { y + sy } else { y };
        let e1 = e + (if x_step { dy } else { 0 }) + (if y_step { dx } else { 0 });
        let rx1 = distance(x1, fx);
        let ry1 = distance(y1, fy);
        assert(rx1 == rx - (if x_step { 1int } else { 0 }));
        assert(ry1 == ry - (if y_step { 1int } else { 0 }));
        assert(e1 == dx + dy - dx * ry1 - dy * rx1) by (nonlinear_arith)
            requires
                e == dx + dy - dx * ry - dy * rx,
                e1 == e + (if x_step { dy } else { 0 }) + (if y_step { dx } else { 0 }),
                rx1 == rx - (if x_step { 1int } else { 0 }),
                ry1 == ry - (if y_step { 1int } else { 0 }),
        ;
        lemma_line_end_from(dx, dy, sx, sy, fx, fy, x1, y1, e1);
        lemma_line_shape(dx, dy, sx, sy, fx, fy, x1, y1, e1);
    }
}

/// A line whose steps are the exact width and height between its start and end pixels ends
/// at its end pixel.
pub proof fn lemma_line_reaches_end(x0: int, y0: int, fx: int, fy: int, sx: int, sy: int)
    requires
        toward(x0, fx, sx),
        toward(y0, fy, sy),
    ensures
        ({
            let dx = distance(x0, fx);
            let dy = -distance(y0, fy);
            line_walk(dx, dy, sx, sy, fx, fy, x0, y0, dx + dy).last() == (fx, fy)
        }),
{
    let dx = distance(x0, fx);
    let dy = -distance(y0, fy);
    assert(dx + dy == dx + dy - dx * distance(y0, fy) - dy * distance(x0, fx)) by (nonlinear_arith)
        requires
            dy == -distance(y0, fy),
            dx == distance(x0, fx),
    ;
    lemma_line_end_from(dx, dy, sx, sy, fx, fy, x0, y0, dx + dy);
}

proof fn lemma_line_len_x(dx: int, dy: int, sx: int, sy: int, fx: int, fy: int, x: int, y: int, e: int)
    requires
        dx >= 0,
        dy <= 0,
        dx + dy >= 0,
        toward(x, fx, sx),
        toward(y, fy, sy),
        distance(x, fx) <= dx,
        distance(y, fy) <= -dy,
        e == dx + dy - dx * distance(y, fy) - dy * distance(x, fx),
        2 * e >= dy,
    ensures
        line_walk(dx, dy, sx, sy, fx, fy, x, y, e).len() == distance(x, fx) + 1,
    decreases distance(x, fx) + distance(y, fy),
{
    let rx = distance(x, fx);
    let ry = distance(y, fy);
    if x == fx && y == fy {
    } else {
        let e2 = 2 * e;
        let x_step = e2 >= dy;
        let y_step = e2 <= dx;
        if x == fx {
        } else {
            if y == fy {
                assert(dx * ry == 0) by (nonlinear_arith)
                    requires
                        ry == 0,
                ;
                assert(e >= dx) by (nonlinear_arith)
                    requires
                        rx >= 1,
                        dy <= 0,
                        dx * ry == 0,
                        e == dx + dy - dx * ry - dy * rx,
                ;
                assert(!y_step);
            }
            let x1 = x + sx;
            let y1 = if y_step { y + sy } else { y };
            let e1 = e + dy + (if y_step { dx } else { 0 });
            let rx1 = distance(x1, fx);
            let ry1 = distance(y1, fy);
            assert(rx1 == rx - 1);
            assert(ry1 == ry - (if y_step { 1int } else { 0 }));
            assert(e1 == dx + dy - dx * ry1 - dy * rx1) by (nonlinear_arith)
                requires
                    e == dx + dy - dx * ry - dy * rx,
                    e1 == e + dy + (if y_step { dx } else { 0 }),
                    rx1 == rx - 1,
                    ry1 == ry - (if y_step { 1int } else { 0 }),
            ;
            lemma_line_len_x(dx, dy, sx, sy, fx, fy, x1, y1, e1);
        }
    }
}

proof fn lemma_line_len_y(dx: int, dy: int, sx: int, sy: int, fx: int, fy: int, x: int, y: int, e: int)
    requires
        dx >= 0,
        dy <= 0,
        dx + dy <= 0,
        toward(x, fx, sx),
        toward(y, fy, sy),
        distance(x, fx) <= dx,
        distance(y, fy) <= -dy,
        e == dx + dy - dx * distance(y, fy) - dy * distance(x, fx),
        2 * e <= dx,
    ensures
        line_walk(dx, dy, sx, sy, fx, fy, x, y, e).len() == distance(y, fy) + 1,
    decreases distance(x, fx) + distance(y, fy),
{
    let rx = distance(x, fx);
    let ry = distance(y, fy);
    if x == fx && y == fy {
    } else {
        let e2 = 2 * e;
        let x_step = e2 >= dy;
        let y_step = e2 <= dx;
        if y == fy {
        } else {
            if x == fx {
                assert(dy * rx == 0) by (nonlinear_arith)
                    requires
                        rx == 0,
                ;
                assert(e <= dy) by (nonlinear_arith)
                    requires
                        ry >= 1,
                        dx >= 0,
                        dy * rx == 0,
                        e == dx + dy - dx * ry - dy * rx,
                ;
                assert(!x_step);
            }
            let x1 = if x_step { x + sx } else { x };
            let y1 = y + sy;
            let e1 = e + dx + (if x_step { dy } else { 0 });
            let rx1 = distance(x1, fx);
            let ry1 = distance(y1, fy);
            assert(ry1 == ry - 1);
            assert(rx1 == rx - (if x_step { 1int } else { 0 }));
            assert(e1 == dx + dy - dx * ry1 - dy * rx1) by (nonlinear_arith)
                requires
                    e == dx + dy - dx * ry - dy * rx,
                    e1 == e + dx + (if x_step { dy } else { 0 }),
                    ry1 == ry - 1,
                    rx1 == rx - (if x_step { 1int } else { 0 }),
            ;
            lemma_line_len_y(dx, dy, sx, sy, fx, fy, x1, y1, e1);
        }
    }
}

pub open spec fn larger(a: int, b: int) -> int {
    if a >= b {
        a
    } else {
        b
    }
}

/// A line whose steps are the exact width and height between its start and end pixels draws
/// one pixel more than the larger of the two.
pub proof fn lemma_line_pixel_count(x0: int, y0: int, fx: int, fy: int, sx: int, sy: int)
    requires
        toward(x0, fx, sx),
        toward(y0, fy, sy),
    ensures
        ({
            let dx = distance(x0, fx);
            let dy = -distance(y0, fy);
            line_walk(dx, dy, sx, sy, fx, fy, x0, y0, dx + dy).len() == larger(dx, -dy) + 1
        }),
{
    let dx = distance(x0, fx);
    let dy = -distance(y0, fy);
    assert(dx + dy == dx + dy - dx * distance(y0, fy) - dy * distance(x0, fx)) by (nonlinear_arith)
        requires
            dy == -distance(y0, fy),
            dx == distance(x0, fx),
    ;
    if dx + dy >= 0 {
        lemma_line_len_x(dx, dy, sx, sy, fx, fy, x0, y0, dx + dy);
    } else {
        lemma_line_len_y(dx, dy, sx, sy, fx, fy, x0, y0, dx + dy);
    }
}

/// The direction in which a coordinate steps from `a` toward `b`: 1 when `a < b`, else -1.
pub open spec fn step_toward(a: int, b: int) -> int {
    if a < b {
        1
    } else {
        -1
    }
}

/// The pixels of the line from `start` to `end`: its steps are the width and height between
/// the two pixels and its directions lead from `start` to `end`. It starts at `start`, ends at
/// `end`, moves to a neighbouring pixel each time, and draws one pixel more than the larger of
/// the width and the height.
pub fn line_between(start: (i32, i32), end: (i32, i32)) -> (points: Vec<(i32, i32)>)
    requires
        distance(start.0 as int, end.0 as int) <= i32::MAX,
        distance(start.1 as int, end.1 as int) <= i32::MAX,
    ensures
        ({
            let dx = distance(start.0 as int, end.0 as int);
            let dy = -distance(start.1 as int, end.1 as int);
            let w = line_walk(
                dx,
                dy,
                step_toward(start.0 as int, end.0 as int),
                step_toward(start.1 as int, end.1 as int),
                end.0 as int,
                end.1 as int,
                start.0 as int,
                start.1 as int,
                dx + dy,
            );
            &&& as_int_points(points@) == w
            &&& points@.len() == larger(dx, -dy) + 1
            &&& points@[0] == start
            &&& points@.last() == end
            &&& forall|k: int| 0 <= k < w.len() - 1 ==> adjacent(#[trigger] w[k], w[k + 1])
        }),
{
    let dx: i32 = if start.0 <= end.0 {
        (end.0 as i64 - start.0 as i64) as i32
    } else {
        (start.0 as i64 - end.0 as i64) as i32
    };
    let dy: i32 = if start.1 <= end.1 {
        (start.1 as i64 - end.1 as i64) as i32
    } else {
        (end.1 as i64 - start.1 as i64) as i32
    };
    let sx: i32 = if start.0 < end.0 { 1 } else { -1 };
    let sy: i32 = if start.1 < end.1 { 1 } else { -1 };
    let points = line_points(start, end, dx, dy, sx, sy);
    proof {
        let (x0, y0, fx, fy) = (start.0 as int, start.1 as int, end.0 as int, end.1 as int);
        lemma_line_reaches_end(x0, y0, fx, fy, sx as int, sy as int);
        lemma_line_pixel_count(x0, y0, fx, fy, sx as int, sy as int);
        lemma_line_shape(dx as int, dy as int, sx as int, sy as int, fx, fy, x0, y0, dx + dy);
        let w = as_int_points(points@);
        assert(w.len() == points@.len());
        assert(w[0] == (points@[0].0 as int, points@[0].1 as int));
        assert(w[w.len() - 1] == (points@.last().0 as int, points@.last().1 as int));
    }
    points
}

//================================================================
// Glyph atlases.

/// The width of an atlas that holds glyphs of the given (width, height) sizes side by side,
/// each followed by 4 pixels of padding.
pub open spec fn atlas_width(sizes: Seq<(usize, usize)>) -> nat
    decreases sizes.len(),
{
    if sizes.len() == 0 {
        0
    } else {
        atlas_width(sizes.drop_last()) + sizes.last().0 as nat + 4
    }
}

/// The height of such an atlas: that of its tallest glyph, 0 with no glyph.
pub open spec fn atlas_height(sizes: Seq<(usize, usize)>) -> nat
    decreases sizes.len(),
{
    if sizes.len() == 0 {
        0
    } else {
        let h = atlas_height(sizes.drop_last());
        if sizes.last().1 > h {
            sizes.last().1 as nat
        } else {
            h
        }
    }
}

proof fn lemma_atlas_width_grows(sizes: Seq<(usize, usize)>, i: int)
    requires
        0 <= i <= sizes.len(),
    ensures
        atlas_width(sizes.take(i)) <= atlas_width(sizes),
    decreases sizes.len() - i,
{
    if i < sizes.len() {
        lemma_atlas_width_grows(sizes, i + 1);
        assert(sizes.take(i + 1).drop_last() =~= sizes.take(i));
    } else {
        assert(sizes.take(i) =~= sizes);
    }
}

/// The atlas is exactly as tall as its tallest glyph: no glyph is taller than the atlas, and
/// the atlas height is that of one of its glyphs (0 with no glyph).
pub proof fn lemma_atlas_height_tallest(sizes: Seq<(usize, usize)>)
    ensures
        forall|i: int| 0 <= i < sizes.len() ==> #[trigger] sizes[i].1 <= atlas_height(sizes),
        sizes.len() == 0 ==> atlas_height(sizes) == 0,
        sizes.len() > 0 ==> exists|i: int| 0 <= i < sizes.len() && #[trigger] sizes[i].1 == atlas_height(sizes),
    decreases sizes.len(),
{
    if sizes.len() > 0 {
        let rest = sizes.drop_last();
        lemma_atlas_height_tallest(rest);
        assert forall|i: int| 0 <= i < sizes.len() implies #[trigger] sizes[i].1 <= atlas_height(sizes) by {
            if i < rest.len() {
                assert(rest[i] == sizes[i]);
            }
        }
        if sizes.last().1 > atlas_height(rest) {
            assert(sizes[sizes.len() - 1].1 == atlas_height(sizes));
        } else if rest.len() == 0 {
            assert(sizes[0].1 == atlas_height(sizes));
        } else {
            let j = choose|j: int| 0 <= j < rest.len() && #[trigger] rest[j].1 == atlas_height(rest);
            assert(sizes[j] == rest[j]);
            assert(sizes[j].1 == atlas_height(sizes));
        }
    }
}

/// Glyphs laid side by side do not overlap and all fit: each glyph, with its 4 pixels of
/// padding, ends no later than the next glyph starts and than the atlas ends, and the first
/// glyph starts at column 0.
pub proof fn lemma_atlas_columns(sizes: Seq<(usize, usize)>)
    ensures
        atlas_width(sizes.take(0)) == 0,
        forall|i: int, j: int|
            0 <= i < j <= sizes.len() ==> atlas_width(#[trigger] sizes.take(i)) + sizes[i].0 + 4
                <= atlas_width(#[trigger] sizes.take(j)),
        forall|i: int|
            0 <= i < sizes.len() ==> atlas_width(#[trigger] sizes.take(i)) + sizes[i].0 + 4
                <= atlas_width(sizes),
{
    assert(sizes.take(0) =~= Seq::<(usize, usize)>::empty());
    assert forall|i: int, j: int|
        0 <= i < j <= sizes.len() implies atlas_width(#[trigger] sizes.take(i)) + sizes[i].0 + 4
        <= atlas_width(#[trigger] sizes.take(j)) by {
        lemma_atlas_width_step(sizes, i);
        lemma_atlas_width_grows(sizes.take(j), i + 1);
        assert(sizes.take(j).take(i + 1) =~= sizes.take(i + 1));
    }
    assert forall|i: int| 0 <= i < sizes.len() implies atlas_width(#[trigger] sizes.take(i))
        + sizes[i].0 + 4 <= atlas_width(sizes) by {
        lemma_atlas_width_step(sizes, i);
        lemma_atlas_width_grows(sizes, i + 1);
    }
}

proof fn lemma_atlas_width_step(sizes: Seq<(usize, usize)>, i: int)
    requires
        0 <= i < sizes.len(),
    ensures
        atlas_width(sizes.take(i + 1)) == atlas_width(sizes.take(i)) + sizes[i].0 + 4,
{
    assert(sizes.take(i + 1).drop_last() =~= sizes.take(i));
    assert(sizes.take(i + 1).last() == sizes[i]);
}

/// The layout of a glyph atlas: where each glyph starts (the widths and paddings of the
/// glyphs before it), and the atlas's width and height.
pub fn glyph_atlas(sizes: &Vec<(usize, usize)>) -> (layout: (Vec<usize>, (usize, usize)))
    requires
        atlas_width(sizes@) <= usize::MAX,
    ensures
        layout.0@.len() == sizes@.len(),
        forall|i: int| 0 <= i < sizes@.len() ==> #[trigger] layout.0@[i] == atlas_width(sizes@.take(i)),
        layout.1 == (atlas_width(sizes@) as usize, atlas_height(sizes@) as usize),
{
    let mut shifts: Vec<usize> = Vec::new();
    let mut width: usize = 0;
    let mut height: usize = 0;
    let mut i: usize = 0;
    while i < sizes.len()
        invariant
            i <= sizes@.len(),
            atlas_width(sizes@) <= usize::MAX,
            shifts@.len() == i,
            forall|j: int| 0 <= j < i ==> #[trigger] shifts@[j] == atlas_width(sizes@.take(j)),
            width == atlas_width(sizes@.take(i as int)),
            height == atlas_height(sizes@.take(i as int)),
        decreases sizes@.len() - i,
    {
        let (w, h) = sizes[i];
        proof {
            lemma_atlas_width_grows(sizes@, i + 1);
            assert(sizes@.take(i + 1).drop_last() =~= sizes@.take(i as int));
            assert(sizes@.take(i + 1).last() == sizes@[i as int]);
        }
        shifts.push(width);
        width = width + w + 4;
        if h > height {
            height = h;
        }
        i = i + 1;
    }
    assert(sizes@.take(sizes@.len() as int) =~= sizes@);
    (shifts, (width, height))
}

/// Where pixel `i` of a glyph raster `width` pixels wide lands in an atlas `atlas_width` pixels
/// wide, when the glyph starts at column `push`.
pub open spec fn atlas_index(atlas_width: int, push: int, width: int, i: int) -> int {
    push + i % width + atlas_width * (i / width)
}

/// The atlas `atlas` after the first `n` pixels of a glyph raster were copied into it.
pub open spec fn blit_prefix(
    atlas: Seq<u8>,
    atlas_width: int,
    push: int,
    width: int,
    raster: Seq<u8>,
    n: int,
) -> Seq<u8>
    decreases n,
{
    if n <= 0 {
        atlas
    } else {
        blit_prefix(atlas, atlas_width, push, width, raster, n - 1).update(
            atlas_index(atlas_width, push, width, n - 1),
            raster[n - 1],
        )
    }
}

/// The column where the glyph after `glyphs` starts: the raster widths of `glyphs`, each
/// followed by 4 pixels of padding.
pub open spec fn glyph_push(glyphs: Seq<(usize, Vec<u8>)>) -> nat
    decreases glyphs.len(),
{
    if glyphs.len() == 0 {
        0
    } else {
        glyph_push(glyphs.drop_last()) + glyphs.last().0 as nat + 4
    }
}

/// Whether every pixel of a raster `width` wide, starting at column `push`, lands inside an
/// atlas `atlas_width` by `atlas_height`.
pub open spec fn glyph_fits(atlas_width: int, atlas_height: int, push: int, width: int, len: int) -> bool {
    forall|i: int|
        #![trigger atlas_index(atlas_width, push, width, i)]
        0 <= i < len ==> width > 0 && atlas_index(atlas_width, push, width, i) < atlas_width
            * atlas_height
}

/// Whether every glyph raster lands inside the atlas.
pub open spec fn glyphs_fit(glyphs: Seq<(usize, Vec<u8>)>, atlas_width: int, atlas_height: int) -> bool {
    forall|k: int|
        0 <= k < glyphs.len() ==> glyph_fits(
            atlas_width,
            atlas_height,
            glyph_push(#[trigger] glyphs.take(k)) as int,
            glyphs[k].0 as int,
            glyphs[k].1@.len() as int,
        )
}

/// The atlas pixels: all zero, then each glyph raster (given with its width) copied in turn,
/// row by row, at its column.
pub open spec fn atlas_pixels(glyphs: Seq<(usize, Vec<u8>)>, atlas_width: int, atlas_height: int) -> Seq<u8>
    decreases glyphs.len(),
{
    if glyphs.len() == 0 {
        Seq::new((atlas_width * atlas_height) as nat, |i: int| 0u8)
    } else {
        blit_prefix(
            atlas_pixels(glyphs.drop_last(), atlas_width, atlas_height),
            atlas_width,
            glyph_push(glyphs.drop_last()) as int,
            glyphs.last().0 as int,
            glyphs.last().1@,
            glyphs.last().1@.len() as int,
        )
    }
}

proof fn lemma_glyph_push_grows(glyphs: Seq<(usize, Vec<u8>)>, k: int)
    requires
        0 <= k <= glyphs.len(),
    ensures
        glyph_push(glyphs.take(k)) <= glyph_push(glyphs),
    decreases glyphs.len() - k,
{
    if k < glyphs.len() {
        lemma_glyph_push_grows(glyphs, k + 1);
        assert(glyphs.take(k + 1).drop_last() =~= glyphs.take(k));
    } else {
        assert(glyphs.take(k) =~= glyphs);
    }
}

/// The pixels of a glyph atlas `size.0` by `size.1`: each glyph's raster (row by row, `width`
/// pixels a row) copied at its column, the glyphs side by side with 4 pixels of padding.
pub fn glyph_atlas_pixels(glyphs: &Vec<(usize, Vec<u8>)>, size: (usize, usize)) -> (pixels: Vec<u8>)
    requires
        size.0 * size.1 <= usize::MAX,
        glyph_push(glyphs@) <= usize::MAX,
        glyphs_fit(glyphs@, size.0 as int, size.1 as int),
    ensures
        pixels@ == atlas_pixels(glyphs@, size.0 as int, size.1 as int),
{
    let (atlas_width, atlas_height) = size;
    let total = atlas_width * atlas_height;
    let mut pixels: Vec<u8> = Vec::new();
    let mut j: usize = 0;
    while j < total
        invariant
            j <= total,
            pixels@ == Seq::new(j as nat, |i: int| 0u8),
        decreases total - j,
    {
        pixels.push(0);
        assert(pixels@ =~= Seq::new((j + 1) as nat, |i: int| 0u8));
        j = j + 1;
    }
    assert(pixels@ =~= atlas_pixels(glyphs@.take(0), atlas_width as int, atlas_height as int));
    let mut push: usize = 0;
    let mut k: usize = 0;
    while k < glyphs.len()
        invariant
            k <= glyphs@.len(),
            total == atlas_width * atlas_height,
            glyph_push(glyphs@) <= usize::MAX,
            glyphs_fit(glyphs@, atlas_width as int, atlas_height as int),
            push == glyph_push(glyphs@.take(k as int)),
            pixels@ == atlas_pixels(glyphs@.take(k as int), atlas_width as int, atlas_height as int),
            pixels@.len() == total,
        decreases glyphs@.len() - k,
    {
        let width = glyphs[k].0;
        let raster = &glyphs[k].1;
        let ghost start = pixels@;
        proof {
            assert(glyph_fits(
                atlas_width as int,
                atlas_height as int,
                push as int,
                width as int,
                raster@.len() as int,
            ));
        }
        let mut i: usize = 0;
        while i < raster.len()
            invariant
                i <= raster@.len(),
                total == atlas_width * atlas_height,
                start.len() == total,
                glyph_fits(atlas_width as int, atlas_height as int, push as int, width as int, raster@.len() as int),
                pixels@ == blit_prefix(start, atlas_width as int, push as int, width as int, raster@, i as int),
                pixels@.len() == total,
            decreases raster@.len() - i,
        {
            proof {
                let ii = i as int;
                assert(0 <= ii < raster@.len());
                assert(glyph_fits(atlas_width as int, atlas_height as int, push as int, width as int, raster@.len() as int));
                let w: int = atlas_width as int;
                let h: int = atlas_height as int;
                assert(forall|j: int| #![trigger atlas_index(w, push as int, width as int, j)] 0 <= j < raster@.len() ==> width > 0 && atlas_index(w, push as int, width as int, j) < w * h);
                assert(atlas_index(w, push as int, width as int, ii) < w * h);
                assert(width > 0);
            }
            let p_x = i % width;
            let p_y = i / width;
            proof {
                assert(atlas_width * p_y <= atlas_index(atlas_width as int, push as int, width as int, i as int)) by (nonlinear_arith)
                    requires
                        p_x >= 0,
                        atlas_index(atlas_width as int, push as int, width as int, i as int) == push + p_x + atlas_width * p_y,
                ;
            }
            let row = atlas_width * p_y;
            let index = push + p_x + row;
            pixels.set(index, raster[i]);
            i = i + 1;
        }
        proof {
            lemma_glyph_push_grows(glyphs@, k + 1);
            let taken = glyphs@.take(k + 1);
            assert(taken.drop_last() =~= glyphs@.take(k as int));
            assert(taken.last() == glyphs@[k as int]);
        }
        push = push + width + 4;
        k = k + 1;
    }
    assert(glyphs@.take(glyphs@.len() as int) =~= glyphs@);
    pixels
}

//================================================================
// Window requests.

/// Accessor for the window.
pub struct Window {}

impl Window {
    /// Whether the window is full-screen, as the window layer last reported it.
    pub fn get_full(input: &Input) -> (full: bool)
        ensures
            full == input.window_get.full,
    {
        input.window_get.full
    }

    /// Queue minimizing the window.
    pub fn set_minimize(input: &mut Input)
        ensures
            *final(input) == (Input {
                window_set: WindowSet { minimize: Some(()), ..old(input).window_set },
                ..*old(input)
            }),
    {
        input.window_set.minimize = Some(());
    }

    /// Queue maximizing the window.
    pub fn set_maximize(input: &mut Input)
        ensures
            *final(input) == (Input {
                window_set: WindowSet { maximize: Some(()), ..old(input).window_set },
                ..*old(input)
            }),
    {
        input.window_set.maximize = Some(());
    }

    /// Queue focusing the window.
    pub fn set_focus(input: &mut Input)
        ensures
            *final(input) == (Input {
                window_set: WindowSet { focus: Some(()), ..old(input).window_set },
                ..*old(input)
            }),
    {
        input.window_set.focus = Some(());
    }

    /// Queue a new window title.
    pub fn set_name(input: &mut Input, name: &str)
        ensures
            final(input).window_set.name matches Some(n) && n@ == name@,
            *final(input) == (Input {
                window_set: WindowSet { name: final(input).window_set.name, ..old(input).window_set },
                ..*old(input)
            }),
    {
        input.window_set.name = Some(name.to_owned());
    }

    /// Queue a new window icon, by its path.
    pub fn set_icon(input: &mut Input, icon: &str)
        ensures
            final(input).window_set.icon matches Some(i) && i@ == icon@,
            *final(input) == (Input {
                window_set: WindowSet { icon: final(input).window_set.icon, ..old(input).window_set },
                ..*old(input)
            }),
    {
        input.window_set.icon = Some(icon.to_owned());
    }

    /// Queue going full-screen (`true`) or back to window mode.
    pub fn set_full(input: &mut Input, window: bool)
        ensures
            *final(input) == (Input {
                window_set: WindowSet { full: Some(window), ..old(input).window_set },
                ..*old(input)
            }),
    {
        input.window_set.full = Some(window);
    }
}

} // verus!
