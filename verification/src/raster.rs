//! The rasterizer.
//!
//! A grid of cell colors, per-axis replication factors and a gridline
//! policy produce a flat, top-left-origin RGB pixel buffer: grid rows are
//! emitted from the highest Y index down to zero (the grid's origin is
//! bottom-left, the video's is top-left), each cell's color is replicated
//! into a block, and 2-pixel separators are inserted between adjacent
//! cells when gridlines are shown. Every byte of the buffer is pinned by
//! [`frame_bytes`].

use vstd::prelude::*;

use crate::grid::{grid_height, grid_ok, grid_width};
use crate::plan::{spec_frame_h, spec_frame_w, Gridlines};
use crate::Rgb;

verus! {

/// The three bytes of one pixel.
pub open spec fn rgb_bytes(c: Rgb) -> Seq<u8> {
    seq![c.0, c.1, c.2]
}

/// `n` pixels of the color `c`, as bytes.
pub open spec fn px_run(c: Rgb, n: int) -> Seq<u8>
    decreases n,
{
    if n <= 0 {
        Seq::empty()
    } else {
        px_run(c, n - 1) + rgb_bytes(c)
    }
}

/// The gridline color; meaningful only when gridlines are shown.
pub open spec fn sep_color(gl: Gridlines) -> Rgb {
    match gl {
        Gridlines::Show(c) => c,
        Gridlines::Hide => (0u8, 0u8, 0u8),
    }
}

/// The bytes of the first `up_to` columns of one logical pixel row for
/// grid row `y`: each cell's color replicated `sx` times, a 2-pixel
/// separator after every column but the last when gridlines are shown.
pub open spec fn row_prefix(
    colors: Seq<Seq<Rgb>>,
    y: int,
    sx: int,
    gl: Gridlines,
    up_to: int,
) -> Seq<u8>
    decreases up_to,
{
    if up_to <= 0 {
        Seq::empty()
    } else {
        row_prefix(colors, y, sx, gl, up_to - 1) + px_run(colors[up_to - 1][y], sx) + (if gl
            is Show && up_to - 1 < colors.len() - 1 {
            px_run(sep_color(gl), 2)
        } else {
            Seq::empty()
        })
    }
}

/// One complete logical pixel row for grid row `y`.
pub open spec fn row_bytes(colors: Seq<Seq<Rgb>>, y: int, sx: int, gl: Gridlines) -> Seq<u8> {
    row_prefix(colors, y, sx, gl, colors.len() as int)
}

/// `s` repeated `n` times.
pub open spec fn repeated(s: Seq<u8>, n: int) -> Seq<u8>
    decreases n,
{
    if n <= 0 {
        Seq::empty()
    } else {
        repeated(s, n - 1) + s
    }
}

/// The frame bytes of grid rows `remaining - 1` down to `0`, top first:
/// each logical row emitted `sy` times, a full-width 2-pixel-tall
/// separator after every grid row but the bottommost when gridlines are
/// shown.
pub open spec fn rows_from(
    colors: Seq<Seq<Rgb>>,
    remaining: int,
    sx: int,
    sy: int,
    gl: Gridlines,
) -> Seq<u8>
    decreases remaining,
{
    if remaining <= 0 {
        Seq::empty()
    } else {
        repeated(row_bytes(colors, remaining - 1, sx, gl), sy) + (if gl is Show && remaining - 1
            > 0 {
            px_run(sep_color(gl), 2 * spec_frame_w(sx, gl, colors.len() as int))
        } else {
            Seq::empty()
        }) + rows_from(colors, remaining - 1, sx, sy, gl)
    }
}

/// The full frame: every grid row, flipped so that the highest Y index
/// comes first.
pub open spec fn frame_bytes(colors: Seq<Seq<Rgb>>, sx: int, sy: int, gl: Gridlines) -> Seq<u8> {
    let h = if colors.len() > 0 {
        colors[0].len() as int
    } else {
        0
    };
    rows_from(colors, h, sx, sy, gl)
}

/// A grid of cell colors as a sequence of columns of pixels.
pub open spec fn color_view(g: Seq<Vec<Rgb>>) -> Seq<Seq<Rgb>> {
    g.map_values(|v: Vec<Rgb>| v@)
}

pub proof fn lemma_px_run_len(c: Rgb, n: int)
    requires
        n >= 0,
    ensures
        px_run(c, n).len() == 3 * n,
    decreases n,
{
    if n > 0 {
        lemma_px_run_len(c, n - 1);
    }
}

proof fn lemma_row_prefix_len(colors: Seq<Seq<Rgb>>, y: int, sx: int, gl: Gridlines, up_to: int)
    requires
        0 <= up_to <= colors.len(),
        sx >= 0,
    ensures
        row_prefix(colors, y, sx, gl, up_to).len() == 3 * sx * up_to + (if gl is Show {
            6 * (if up_to == colors.len() && up_to > 0 {
                up_to - 1
            } else {
                up_to
            })
        } else {
            0
        }),
    decreases up_to,
{
    if up_to > 0 {
        lemma_row_prefix_len(colors, y, sx, gl, up_to - 1);
        lemma_px_run_len(colors[up_to - 1][y], sx);
        if gl is Show {
            lemma_px_run_len(sep_color(gl), 2);
        }
        assert(3 * sx * (up_to - 1) + 3 * sx == 3 * sx * up_to) by (nonlinear_arith);
    } else {
        assert(3 * sx * up_to == 0) by (nonlinear_arith)
            requires
                up_to == 0,
        ;
    }
}

/// The length of one logical pixel row is three bytes per frame-width
/// pixel.
pub proof fn lemma_row_bytes_len(colors: Seq<Seq<Rgb>>, y: int, sx: int, gl: Gridlines)
    requires
        colors.len() >= 1,
        sx >= 0,
    ensures
        row_bytes(colors, y, sx, gl).len() == 3 * spec_frame_w(sx, gl, colors.len() as int),
{
    lemma_row_prefix_len(colors, y, sx, gl, colors.len() as int);
    assert(3 * sx * colors.len() == 3 * (colors.len() * sx)) by (nonlinear_arith);
}

pub proof fn lemma_repeated_len(s: Seq<u8>, n: int)
    requires
        n >= 0,
    ensures
        repeated(s, n).len() == n * s.len(),
    decreases n,
{
    if n > 0 {
        lemma_repeated_len(s, n - 1);
        assert(repeated(s, n) == repeated(s, n - 1) + s);
        assert(repeated(s, n).len() == repeated(s, n - 1).len() + s.len());
        assert((n - 1) * s.len() + s.len() == n * s.len()) by (nonlinear_arith);
    } else {
        assert(repeated(s, 0) == Seq::<u8>::empty());
        assert(n * s.len() == 0) by (nonlinear_arith)
            requires
                n == 0,
        ;
    }
}

proof fn lemma_rows_from_len(colors: Seq<Seq<Rgb>>, remaining: int, sx: int, sy: int, gl: Gridlines)
    requires
        colors.len() >= 1,
        0 <= remaining,
        sx >= 0,
        sy >= 0,
    ensures
        rows_from(colors, remaining, sx, sy, gl).len() == 3 * spec_frame_w(
            sx,
            gl,
            colors.len() as int,
        ) * (remaining * sy + (if gl is Show && remaining > 0 {
            (remaining - 1) * 2
        } else {
            0
        })),
    decreases remaining,
{
    let fw = spec_frame_w(sx, gl, colors.len() as int);
    if remaining > 0 {
        lemma_rows_from_len(colors, remaining - 1, sx, sy, gl);
        lemma_row_bytes_len(colors, remaining - 1, sx, gl);
        lemma_repeated_len(row_bytes(colors, remaining - 1, sx, gl), sy);
        if gl is Show {
            if remaining - 1 > 0 {
                lemma_px_run_len(sep_color(gl), 2 * fw);
                assert(sy * (3 * fw) + 3 * (2 * fw) + 3 * fw * ((remaining - 1) * sy + (remaining
                    - 2) * 2) == 3 * fw * (remaining * sy + (remaining - 1) * 2))
                    by (nonlinear_arith);
            } else {
                assert(sy * (3 * fw) + 3 * fw * ((remaining - 1) * sy) == 3 * fw * (remaining * sy
                    + (remaining - 1) * 2)) by (nonlinear_arith)
                    requires
                        remaining == 1,
                ;
            }
        } else {
            assert(sy * (3 * fw) + 3 * fw * ((remaining - 1) * sy) == 3 * fw * (remaining * sy))
                by (nonlinear_arith);
        }
    } else {
        assert(3 * fw * (remaining * sy + 0) == 0 && 3 * fw * (remaining * sy) == 0)
            by (nonlinear_arith)
            requires
                remaining == 0,
        ;
    }
}

/// Law: a rasterized frame holds exactly `frameWidth × frameHeight × 3`
/// bytes, three per pixel.
pub proof fn lemma_frame_len(colors: Seq<Seq<Rgb>>, sx: int, sy: int, gl: Gridlines)
    requires
        colors.len() >= 1,
        colors[0].len() >= 1,
        sx >= 0,
        sy >= 0,
    ensures
        frame_bytes(colors, sx, sy, gl).len() == spec_frame_w(sx, gl, colors.len() as int)
            * spec_frame_h(sy, gl, colors[0].len() as int) * 3,
{
    let h = colors[0].len() as int;
    let fw = spec_frame_w(sx, gl, colors.len() as int);
    let fh = spec_frame_h(sy, gl, h);
    lemma_rows_from_len(colors, h, sx, sy, gl);
    assert(3 * fw * (h * sy + (if gl is Show {
        (h - 1) * 2
    } else {
        0
    })) == fw * fh * 3) by (nonlinear_arith)
        requires
            fh == h * sy + (if gl is Show {
                (h - 1) * 2
            } else {
                0
            }),
    ;
}

proof fn lemma_px_run_index(c: Rgb, n: int, i: int, k: int)
    requires
        0 <= i < n,
        0 <= k < 3,
    ensures
        px_run(c, n)[3 * i + k] == rgb_bytes(c)[k],
    decreases n,
{
    lemma_px_run_len(c, n - 1);
    if i < n - 1 {
        lemma_px_run_index(c, n - 1, i, k);
        assert(3 * i + k < 3 * (n - 1));
    }
}

proof fn lemma_row_hide_index(colors: Seq<Seq<Rgb>>, y: int, sx: int, up_to: int, i: int, o: int)
    requires
        0 <= i < up_to <= colors.len(),
        sx >= 1,
        0 <= o < 3 * sx,
    ensures
        row_prefix(colors, y, sx, Gridlines::Hide, up_to)[3 * sx * i + o] == px_run(
            colors[i][y],
            sx,
        )[o],
    decreases up_to,
{
    let gl = Gridlines::Hide;
    lemma_row_prefix_len(colors, y, sx, gl, up_to - 1);
    lemma_px_run_len(colors[up_to - 1][y], sx);
    if i < up_to - 1 {
        lemma_row_hide_index(colors, y, sx, up_to - 1, i, o);
        assert(3 * sx * i + o < 3 * sx * (up_to - 1)) by (nonlinear_arith)
            requires
                0 <= i,
                i + 1 <= up_to - 1,
                1 <= sx,
                0 <= o < 3 * sx,
        ;
    }
}

proof fn lemma_repeated_index(s: Seq<u8>, n: int, q: int, o: int)
    requires
        0 <= q < n,
        0 <= o < s.len(),
    ensures
        repeated(s, n)[q * s.len() + o] == s[o],
    decreases n,
{
    lemma_repeated_len(s, n - 1);
    if q < n - 1 {
        lemma_repeated_index(s, n - 1, q, o);
        assert(q * s.len() + o < (n - 1) * s.len()) by (nonlinear_arith)
            requires
                0 <= q,
                q + 1 <= n - 1,
                0 <= o < s.len(),
        ;
    }
}

proof fn lemma_rows_hide_index(
    colors: Seq<Seq<Rgb>>,
    remaining: int,
    sx: int,
    sy: int,
    t: int,
    o: int,
)
    requires
        colors.len() >= 1,
        sx >= 0,
        sy >= 0,
        0 <= t < remaining,
        0 <= o < sy * (3 * spec_frame_w(sx, Gridlines::Hide, colors.len() as int)),
    ensures
        ({
            let gl = Gridlines::Hide;
            let block = sy * (3 * spec_frame_w(sx, gl, colors.len() as int));
            rows_from(colors, remaining, sx, sy, gl)[t * block + o] == repeated(
                row_bytes(colors, remaining - 1 - t, sx, gl),
                sy,
            )[o]
        }),
    decreases remaining,
{
    let gl = Gridlines::Hide;
    let fw = spec_frame_w(sx, gl, colors.len() as int);
    let block = sy * (3 * fw);
    lemma_row_bytes_len(colors, remaining - 1, sx, gl);
    lemma_repeated_len(row_bytes(colors, remaining - 1, sx, gl), sy);
    lemma_rows_from_len(colors, remaining, sx, sy, gl);
    lemma_rows_from_len(colors, remaining - 1, sx, sy, gl);
    assert(t * block + o < 3 * fw * (remaining * sy) && (t - 1) * block + o < 3 * fw * ((remaining
        - 1) * sy) + block && block + ((t - 1) * block + o) == t * block + o) by (nonlinear_arith)
        requires
            0 <= o < block,
            block == sy * (3 * fw),
            0 <= t,
            t + 1 <= remaining,
            fw >= 0,
            sy >= 0,
    ;
    if t == 0 {
        assert(t * block == 0) by (nonlinear_arith)
            requires
                t == 0,
        ;
        assert(rows_from(colors, remaining, sx, sy, gl)[o] == repeated(
            row_bytes(colors, remaining - 1, sx, gl),
            sy,
        )[o]);
    } else {
        lemma_rows_hide_index(colors, remaining - 1, sx, sy, t - 1, o);
        assert(block <= t * block && t * block + o - block == (t - 1) * block + o)
            by (nonlinear_arith)
            requires
                1 <= t,
                0 <= block,
        ;
    }
}

/// Law: with gridlines hidden, every pixel of the rasterized frame is an
/// exact copy of its source cell's color. Pixel `(px, py)` of the frame
/// shows cell `(px / sx, H - 1 - py / sy)`: each cell becomes an
/// `sx`-wide, `sy`-tall uniform block, and the grid's rows are flipped
/// so that its highest row comes first. `k` selects the R, G or B byte.
pub proof fn lemma_hidden_gridlines_pixel(
    colors: Seq<Seq<Rgb>>,
    sx: int,
    sy: int,
    px: int,
    py: int,
    k: int,
)
    requires
        colors.len() >= 1,
        colors[0].len() >= 1,
        forall|i: int| 0 <= i < colors.len() ==> (#[trigger] colors[i]).len() == colors[0].len(),
        sx >= 1,
        sy >= 1,
        0 <= px < colors.len() * sx,
        0 <= py < colors[0].len() * sy,
        0 <= k < 3,
    ensures
        ({
            let fw = colors.len() * sx;
            let h = colors[0].len() as int;
            let c = colors[px / sx][h - 1 - py / sy];
            frame_bytes(colors, sx, sy, Gridlines::Hide)[(py * fw + px) * 3 + k] == rgb_bytes(c)[k]
        }),
{
    let gl = Gridlines::Hide;
    let w = colors.len() as int;
    let h = colors[0].len() as int;
    let fw = w * sx;
    assert(spec_frame_w(sx, gl, w) == fw);
    let t = py / sy;
    let q = py % sy;
    let i = px / sx;
    let u = px % sx;
    vstd::arithmetic::div_mod::lemma_fundamental_div_mod(py, sy);
    vstd::arithmetic::div_mod::lemma_mod_division_less_than_divisor(py, sy);
    vstd::arithmetic::div_mod::lemma_fundamental_div_mod(px, sx);
    vstd::arithmetic::div_mod::lemma_mod_division_less_than_divisor(px, sx);
    assert(0 <= q < sy && 0 <= u < sx);
    assert(py == sy * t + q && px == sx * i + u);
    assert(0 <= t < h && 0 <= i < w) by (nonlinear_arith)
        requires
            0 <= py < h * sy,
            0 <= px < w * sx,
            sy >= 1,
            sx >= 1,
            py == sy * t + q,
            px == sx * i + u,
            0 <= q < sy,
            0 <= u < sx,
    ;
    let o_row = 3 * px + k;
    let o_block = q * (3 * fw) + o_row;
    assert(0 <= o_row < 3 * fw && 0 <= o_block < sy * (3 * fw) && t * (sy * (3 * fw)) + o_block
        == (py * fw + px) * 3 + k) by (nonlinear_arith)
        requires
            o_row == 3 * px + k,
            o_block == q * (3 * fw) + o_row,
            py == sy * t + q,
            0 <= q < sy,
            0 <= k < 3,
            0 <= px < fw,
            fw >= 1,
            t >= 0,
    ;
    lemma_rows_hide_index(colors, h, sx, sy, t, o_block);
    let row = row_bytes(colors, h - 1 - t, sx, gl);
    lemma_row_bytes_len(colors, h - 1 - t, sx, gl);
    lemma_repeated_index(row, sy, q, o_row);
    assert(3 * sx * i + (3 * u + k) == o_row) by (nonlinear_arith)
        requires
            o_row == 3 * px + k,
            px == sx * i + u,
    ;
    lemma_row_hide_index(colors, h - 1 - t, sx, w, i, 3 * u + k);
    lemma_px_run_index(colors[i][h - 1 - t], sx, u, k);
}

/// Appends `n` pixels of the color `c`.
fn push_pixels(buf: &mut Vec<u8>, c: Rgb, n: usize)
    ensures
        final(buf)@ == old(buf)@ + px_run(c, n as int),
{
    let mut k: usize = 0;
    proof {
        assert(buf@ =~= buf@ + px_run(c, 0));
    }
    while k < n
        invariant
            k <= n,
            buf@ == old(buf)@ + px_run(c, k as int),
        decreases n - k,
    {
        buf.push(c.0);
        buf.push(c.1);
        buf.push(c.2);
        proof {
            assert(buf@ =~= old(buf)@ + px_run(c, k + 1));
        }
        k += 1;
    }
}

/// Appends a copy of `src`.
fn push_bytes(buf: &mut Vec<u8>, src: &Vec<u8>)
    ensures
        final(buf)@ == old(buf)@ + src@,
{
    let mut j: usize = 0;
    proof {
        assert(buf@ =~= buf@ + src@.subrange(0, 0));
    }
    while j < src.len()
        invariant
            j <= src@.len(),
            buf@ == old(buf)@ + src@.subrange(0, j as int),
        decreases src@.len() - j,
    {
        let b = src[j];
        buf.push(b);
        proof {
            assert(buf@ =~= old(buf)@ + src@.subrange(0, j + 1));
        }
        j += 1;
    }
    proof {
        assert(src@.subrange(0, src@.len() as int) =~= src@);
    }
}

/// Rasterizes a grid of cell colors into a frame buffer.
///
/// The result is byte-exact: it equals [`frame_bytes`] of the color grid
/// under the given replication factors and gridline policy.
pub fn render(colors: &Vec<Vec<Rgb>>, scale_x: usize, scale_y: usize, gridlines: &Gridlines) -> (out:
    Vec<u8>)
    requires
        colors@.len() >= 1,
        colors@[0]@.len() >= 1,
        forall|i: int|
            0 <= i < colors@.len() ==> (#[trigger] colors@[i])@.len() == colors@[0]@.len(),
        spec_frame_w(scale_x as int, *gridlines, colors@.len() as int) * 3 <= usize::MAX,
    ensures
        out@ == frame_bytes(color_view(colors@), scale_x as int, scale_y as int, *gridlines),
{
    let ghost cv = color_view(colors@);
    let ghost sxi = scale_x as int;
    let ghost syi = scale_y as int;
    let ghost gl = *gridlines;
    let width = colors.len();
    let height = colors[0].len();
    let pad_x: usize = match gridlines {
        Gridlines::Show(_) => (width - 1) * 2,
        Gridlines::Hide => 0,
    };
    let frame_width = width * scale_x + pad_x;
    proof {
        assert(frame_width as int == spec_frame_w(sxi, gl, width as int));
    }
    let mut out: Vec<u8> = Vec::new();
    let mut rows_left = height;
    proof {
        assert(out@ =~= out@ + Seq::<u8>::empty());
        assert(out@ + rows_from(cv, rows_left as int, sxi, syi, gl) == frame_bytes(
            cv,
            sxi,
            syi,
            gl,
        ));
    }
    while rows_left > 0
        invariant
            rows_left <= height,
            width == colors@.len(),
            width >= 1,
            height == colors@[0]@.len(),
            cv == color_view(colors@),
            sxi == scale_x as int,
            syi == scale_y as int,
            gl == *gridlines,
            forall|i: int|
                0 <= i < colors@.len() ==> (#[trigger] colors@[i])@.len() == colors@[0]@.len(),
            frame_width as int == spec_frame_w(sxi, gl, width as int),
            frame_width * 3 <= usize::MAX,
            out@ + rows_from(cv, rows_left as int, sxi, syi, gl) == frame_bytes(cv, sxi, syi, gl),
        decreases rows_left,
    {
        let ghost out_pre = out@;
        let y = rows_left - 1;
        let mut row: Vec<u8> = Vec::new();
        let mut x: usize = 0;
        proof {
            assert(row@ =~= row_prefix(cv, y as int, sxi, gl, 0));
        }
        while x < width
            invariant
                x <= width,
                width == colors@.len(),
                width >= 1,
                y < colors@[0]@.len(),
                cv == color_view(colors@),
                sxi == scale_x as int,
                gl == *gridlines,
                forall|i: int|
                    0 <= i < colors@.len() ==> (#[trigger] colors@[i])@.len() == colors@[0]@.len(),
                row@ == row_prefix(cv, y as int, sxi, gl, x as int),
            decreases width - x,
        {
            let ghost row_pre = row@;
            let column = &colors[x];
            let c = column[y];
            push_pixels(&mut row, c, scale_x);
            if let Gridlines::Show(sep) = gridlines {
                if x + 1 != width {
                    push_pixels(&mut row, *sep, 2);
                    proof {
                        assert(row@ =~= row_pre + px_run(c, sxi) + px_run(sep_color(gl), 2));
                    }
                }
            }
            proof {
                assert(c == cv[x as int][y as int]);
                assert(row@ =~= row_prefix(cv, y as int, sxi, gl, x as int + 1));
            }
            x += 1;
        }
        proof {
            assert(row@ == row_bytes(cv, y as int, sxi, gl));
        }
        let mut k: usize = 0;
        let ghost rep_base = out@;
        proof {
            assert(out@ =~= rep_base + repeated(row@, 0));
        }
        while k < scale_y
            invariant
                k <= scale_y,
                out@ == rep_base + repeated(row@, k as int),
            decreases scale_y - k,
        {
            push_bytes(&mut out, &row);
            proof {
                assert(out@ =~= rep_base + repeated(row@, k + 1));
            }
            k += 1;
        }
        if let Gridlines::Show(sep) = gridlines {
            if y != 0 {
                push_pixels(&mut out, *sep, 2 * frame_width);
            }
        }
        proof {
            let chunk = repeated(row_bytes(cv, y as int, sxi, gl), syi) + (if gl is Show && y
                as int > 0 {
                px_run(sep_color(gl), 2 * spec_frame_w(sxi, gl, cv.len() as int))
            } else {
                Seq::<u8>::empty()
            });
            assert(rows_from(cv, rows_left as int, sxi, syi, gl) == chunk + rows_from(
                cv,
                rows_left as int - 1,
                sxi,
                syi,
                gl,
            ));
            assert(out@ =~= out_pre + chunk);
            assert(out@ + rows_from(cv, rows_left as int - 1, sxi, syi, gl) =~= out_pre
                + rows_from(cv, rows_left as int, sxi, syi, gl));
        }
        rows_left -= 1;
    }
    proof {
        assert(out@ =~= out@ + rows_from(cv, 0, sxi, syi, gl));
    }
    out
}

/// The colors a conversion step may legitimately have produced for a
/// grid: one color per cell, each a possible output of the converter on
/// that cell.
pub open spec fn converted_colors<T, F: Fn(&T) -> Rgb>(
    g: Seq<Vec<T>>,
    convert: F,
    colors: Seq<Seq<Rgb>>,
) -> bool {
    &&& colors.len() == g.len()
    &&& (forall|x: int| 0 <= x < g.len() ==> (#[trigger] colors[x]).len() == g[x]@.len())
    &&& (forall|x: int, y: int|
        0 <= x < g.len() && 0 <= y < g[x]@.len() ==> call_ensures(
            convert,
            (&g[x]@[y],),
            (#[trigger] colors[x][y]),
        ))
}

/// Converts every cell of a grid to its color.
fn convert_grid<T, F: Fn(&T) -> Rgb>(grid: &[Vec<T>], convert: &F) -> (colors: Vec<Vec<Rgb>>)
    requires
        forall|t: &T| #[trigger] call_requires(*convert, (t,)),
    ensures
        converted_colors(grid@, *convert, color_view(colors@)),
        colors@.len() == grid@.len(),
        forall|x: int| 0 <= x < grid@.len() ==> (#[trigger] colors@[x])@.len() == grid@[x]@.len(),
{
    let mut colors: Vec<Vec<Rgb>> = Vec::new();
    let mut x: usize = 0;
    while x < grid.len()
        invariant
            x <= grid@.len(),
            colors@.len() == x,
            forall|t: &T| #[trigger] call_requires(*convert, (t,)),
            forall|i: int| 0 <= i < x ==> (#[trigger] colors@[i])@.len() == grid@[i]@.len(),
            forall|i: int, j: int|
                0 <= i < x && 0 <= j < grid@[i]@.len() ==> call_ensures(
                    *convert,
                    (&grid@[i]@[j],),
                    (#[trigger] colors@[i]@[j]),
                ),
        decreases grid@.len() - x,
    {
        let column = &grid[x];
        let mut col: Vec<Rgb> = Vec::new();
        let mut y: usize = 0;
        while y < column.len()
            invariant
                y <= column@.len(),
                col@.len() == y,
                forall|t: &T| #[trigger] call_requires(*convert, (t,)),
                forall|j: int|
                    0 <= j < y ==> call_ensures(*convert, (&column@[j],), (#[trigger] col@[j])),
            decreases column@.len() - y,
        {
            let cell = &column[y];
            let c = (*convert)(cell);
            col.push(c);
            y += 1;
        }
        colors.push(col);
        x += 1;
    }
    colors
}

/// Converts, transposes and flattens a grid into a frame buffer.
///
/// The buffer holds exactly `frameWidth × frameHeight × 3` bytes and
/// equals [`frame_bytes`] of a color grid the converter may have produced
/// for these cells; a deterministic converter therefore pins every byte.
pub fn format<T, F: Fn(&T) -> Rgb>(
    grid: &[Vec<T>],
    scale_width: usize,
    scale_height: usize,
    convert: &F,
    gridlines: &Gridlines,
) -> (out: Vec<u8>)
    requires
        grid_ok(grid@),
        forall|t: &T| #[trigger] call_requires(*convert, (t,)),
        spec_frame_w(scale_width as int, *gridlines, grid_width(grid@)) * 3 <= usize::MAX,
    ensures
        out@.len() == spec_frame_w(scale_width as int, *gridlines, grid_width(grid@))
            * spec_frame_h(scale_height as int, *gridlines, grid_height(grid@)) * 3,
        exists|colors: Seq<Seq<Rgb>>|
            #[trigger] converted_colors(grid@, *convert, colors) && out@ == frame_bytes(
                colors,
                scale_width as int,
                scale_height as int,
                *gridlines,
            ),
{
    let colors = convert_grid(grid, convert);
    let out = render(&colors, scale_width, scale_height, gridlines);
    proof {
        let cv = color_view(colors@);
        assert(converted_colors(grid@, *convert, cv));
        lemma_frame_len(cv, scale_width as int, scale_height as int, *gridlines);
    }
    out
}

} // verus!
