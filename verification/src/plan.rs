//! The scale planner.
//!
//! A declarative scaling policy plus the grid's shape (and the gridline
//! policy's padding) is resolved into concrete per-axis pixel-replication
//! factors, and from those into the final frame resolution, which is then
//! validated against the codec's dimensional invariants.

use vstd::prelude::*;

use crate::error::{Error, OPENH264_MAX_SIZE};
use crate::Rgb;

verus! {

/// Options for upscaling the video.
///
/// Gridvid does not do any resampling or image interpolation. If the grid
/// dimensions do not evenly divide the target resolution, Gridvid scales
/// to the nearest resolution that does.
#[derive(Clone, Copy, PartialEq, Eq, Structural, Debug)]
pub enum Scaling {
    /// Upscales the video by a constant factor: each grid element becomes
    /// a square block of that many pixels per side.
    Uniform(u16),
    /// Scales the video to fit within a width×height frame, keeping the
    /// original aspect ratio. After the first frame the policy is frozen
    /// to the resolved `Uniform` factor for the rest of the session.
    MaxSize(u16, u16),
    /// Stretches the video to fit the specified width and height,
    /// ignoring the original aspect ratio; re-resolved on every frame.
    Stretch(u16, u16),
}

/// Options for showing or hiding gridlines. Gridlines are 2 pixels wide
/// for all scaling options.
#[derive(Clone, Copy, Debug)]
pub enum Gridlines {
    /// Insert gridlines of the wrapped color between elements.
    Show(Rgb),
    /// Hide gridlines.
    Hide,
}

/// Pixel padding an axis of `n` cells gains from gridlines: one 2-pixel
/// separator between each pair of adjacent cells, none on the border.
pub open spec fn spec_padding(gl: Gridlines, n: int) -> int {
    if gl is Show {
        (n - 1) * 2
    } else {
        0
    }
}

/// Subtraction on naturals, clamped at zero.
pub open spec fn sub_sat(a: int, b: int) -> int {
    if a >= b {
        a - b
    } else {
        0
    }
}

/// The horizontal replication factor a policy resolves to.
pub open spec fn spec_scale_x(sc: Scaling, gl: Gridlines, gw: int, gh: int) -> int
    recommends
        gw >= 1,
        gh >= 1,
{
    match sc {
        Scaling::Uniform(s) => s as int,
        Scaling::MaxSize(mw, mh) => {
            let sx = sub_sat(mw as int, spec_padding(gl, gw)) / gw;
            let sy = sub_sat(mh as int, spec_padding(gl, gh)) / gh;
            if sx <= sy {
                sx
            } else {
                sy
            }
        },
        Scaling::Stretch(mw, _) => sub_sat(mw as int, spec_padding(gl, gw)) / gw,
    }
}

/// The vertical replication factor a policy resolves to.
pub open spec fn spec_scale_y(sc: Scaling, gl: Gridlines, gw: int, gh: int) -> int
    recommends
        gw >= 1,
        gh >= 1,
{
    match sc {
        Scaling::Uniform(s) => s as int,
        Scaling::MaxSize(_, _) => spec_scale_x(sc, gl, gw, gh),
        Scaling::Stretch(_, mh) => sub_sat(mh as int, spec_padding(gl, gh)) / gh,
    }
}

/// The policy the session keeps after resolving against a grid shape:
/// `MaxSize` freezes to the resolved `Uniform` factor, the others stand.
pub open spec fn spec_resolved(sc: Scaling, gl: Gridlines, gw: int, gh: int) -> Scaling
    recommends
        gw >= 1,
        gh >= 1,
{
    match sc {
        Scaling::MaxSize(_, _) => Scaling::Uniform(spec_scale_x(sc, gl, gw, gh) as u16),
        _ => sc,
    }
}

/// Frame width from a resolved horizontal factor.
pub open spec fn spec_frame_w(sx: int, gl: Gridlines, gw: int) -> int {
    gw * sx + spec_padding(gl, gw)
}

/// Frame height from a resolved vertical factor.
pub open spec fn spec_frame_h(sy: int, gl: Gridlines, gh: int) -> int {
    gh * sy + spec_padding(gl, gh)
}

/// Dimensions the codec accepts: positive, even, and within its maximum
/// pixel area.
pub open spec fn frame_dims_ok(fw: int, fh: int) -> bool {
    &&& fw * fh <= OPENH264_MAX_SIZE as int
    &&& fw > 0
    &&& fh > 0
    &&& fw % 2 == 0
    &&& fh % 2 == 0
}

/// A dimension clamped into `usize` for an error payload; exact whenever
/// the value fits the machine word.
pub open spec fn clamp_usize(n: int) -> usize {
    if n > usize::MAX as int {
        usize::MAX
    } else {
        n as usize
    }
}

/// The concrete geometry of one frame: replication factors, gridline
/// padding, and the resulting resolution.
pub struct FramePlan {
    /// Horizontal pixel-replication factor.
    pub scale_x: u16,
    /// Vertical pixel-replication factor.
    pub scale_y: u16,
    /// Total horizontal gridline padding in pixels.
    pub padding_x: usize,
    /// Total vertical gridline padding in pixels.
    pub padding_y: usize,
    /// Final frame width in pixels.
    pub frame_width: usize,
    /// Final frame height in pixels.
    pub frame_height: usize,
}

/// Resolves a scaling policy against a grid shape.
///
/// Returns the per-axis replication factors together with the policy the
/// session keeps afterwards: `MaxSize` memoizes to `Uniform`, `Uniform`
/// and `Stretch` are returned unchanged.
pub fn resolve(scale: Scaling, gridlines: &Gridlines, grid_width: usize, grid_height: usize) -> (r:
    (u16, u16, Scaling))
    requires
        1 <= grid_width,
        1 <= grid_height,
    ensures
        r.0 as int == spec_scale_x(scale, *gridlines, grid_width as int, grid_height as int),
        r.1 as int == spec_scale_y(scale, *gridlines, grid_width as int, grid_height as int),
        r.2 == spec_resolved(scale, *gridlines, grid_width as int, grid_height as int),
{
    match scale {
        Scaling::Uniform(s) => (s, s, scale),
        Scaling::MaxSize(mw, mh) => {
            let sx = axis_scale(mw, gridlines, grid_width);
            let sy = axis_scale(mh, gridlines, grid_height);
            let s = if sx <= sy {
                sx
            } else {
                sy
            };
            (s, s, Scaling::Uniform(s))
        },
        Scaling::Stretch(mw, mh) => {
            let sx = axis_scale(mw, gridlines, grid_width);
            let sy = axis_scale(mh, gridlines, grid_height);
            (sx, sy, scale)
        },
    }
}

/// The largest factor such that `cells` cells plus gridline padding fit
/// within `target` pixels on one axis.
fn axis_scale(target: u16, gridlines: &Gridlines, cells: usize) -> (s: u16)
    requires
        1 <= cells,
    ensures
        s as int == sub_sat(target as int, spec_padding(*gridlines, cells as int)) / (
        cells as int),
{
    let pad: u128 = match gridlines {
        Gridlines::Show(_) => (cells as u128 - 1) * 2,
        Gridlines::Hide => 0,
    };
    let t = target as u128;
    let room: u128 = if t >= pad {
        t - pad
    } else {
        0
    };
    let s = room / (cells as u128);
    proof {
        assert(room <= t < 0x1_0000);
        assert(room / (cells as u128) <= room) by (nonlinear_arith)
            requires
                cells >= 1,
        ;
    }
    s as u16
}

/// Computes padding and frame resolution from resolved factors and
/// validates them against the codec's invariants.
///
/// Fails with `OversizedFrame` when the pixel area exceeds
/// [`OPENH264_MAX_SIZE`], else with `InvalidFrameDimensions` when either
/// dimension is zero or odd; otherwise the concrete plan is returned.
pub fn plan_frame(
    scale_x: u16,
    scale_y: u16,
    gridlines: &Gridlines,
    grid_width: usize,
    grid_height: usize,
) -> (r: Result<FramePlan, Error>)
    requires
        1 <= grid_width,
        1 <= grid_height,
    ensures
        ({
            let fw = spec_frame_w(scale_x as int, *gridlines, grid_width as int);
            let fh = spec_frame_h(scale_y as int, *gridlines, grid_height as int);
            &&& (r is Ok <==> frame_dims_ok(fw, fh))
            &&& (r matches Ok(plan) ==> plan.scale_x == scale_x && plan.scale_y == scale_y
                && plan.padding_x as int == spec_padding(*gridlines, grid_width as int)
                && plan.padding_y as int == spec_padding(*gridlines, grid_height as int)
                && plan.frame_width as int == fw && plan.frame_height as int == fh)
            &&& (r matches Err(e) ==> if fw * fh > OPENH264_MAX_SIZE as int {
                e matches Error::OversizedFrame(p) && p.0 == clamp_usize(fw) && p.1 == clamp_usize(
                    fh,
                )
            } else {
                e matches Error::InvalidFrameDimensions(p) && p.0 == clamp_usize(fw) && p.1
                    == clamp_usize(fh)
            })
        }),
{
    let ghost fw_spec = spec_frame_w(scale_x as int, *gridlines, grid_width as int);
    let ghost fh_spec = spec_frame_h(scale_y as int, *gridlines, grid_height as int);
    let (pad_x, pad_y): (u128, u128) = match gridlines {
        Gridlines::Show(_) => ((grid_width as u128 - 1) * 2, (grid_height as u128 - 1) * 2),
        Gridlines::Hide => (0, 0),
    };
    proof {
        assert((grid_width as u128) * (scale_x as u128) < 0x1_0000_0000_0000_0000_0000)
            by (nonlinear_arith)
            requires
                (grid_width as u128) < 0x1_0000_0000_0000_0000,
                (scale_x as u128) < 0x1_0000,
        ;
        assert((grid_height as u128) * (scale_y as u128) < 0x1_0000_0000_0000_0000_0000)
            by (nonlinear_arith)
            requires
                (grid_height as u128) < 0x1_0000_0000_0000_0000,
                (scale_y as u128) < 0x1_0000,
        ;
    }
    let fw: u128 = grid_width as u128 * scale_x as u128 + pad_x;
    let fh: u128 = grid_height as u128 * scale_y as u128 + pad_y;
    proof {
        assert(fw == fw_spec && fh == fh_spec);
    }
    let max: u128 = OPENH264_MAX_SIZE as u128;
    let oversized: bool;
    if fw == 0 || fh == 0 {
        oversized = false;
        proof {
            assert(fw_spec * fh_spec == 0) by (nonlinear_arith)
                requires
                    fw_spec == 0 || fh_spec == 0,
            ;
        }
    } else if fw > max || fh > max {
        oversized = true;
        proof {
            assert(fw_spec * fh_spec > max) by (nonlinear_arith)
                requires
                    fw_spec >= 1,
                    fh_spec >= 1,
                    fw_spec > max || fh_spec > max,
                    max >= 1,
            ;
        }
    } else {
        proof {
            assert(fw * fh <= max * max) by (nonlinear_arith)
                requires
                    fw <= max,
                    fh <= max,
            ;
        }
        oversized = fw * fh > max;
    }
    assert(oversized <==> fw_spec * fh_spec > OPENH264_MAX_SIZE as int);
    if oversized {
        return Err(Error::OversizedFrame((clamp_exec(fw), clamp_exec(fh))));
    }
    if fw == 0 || fh == 0 || fw % 2 == 1 || fh % 2 == 1 {
        return Err(Error::InvalidFrameDimensions((clamp_exec(fw), clamp_exec(fh))));
    }
    proof {
        assert(fw <= max && fh <= max) by (nonlinear_arith)
            requires
                (fw as int) * (fh as int) <= max,
                0 < fw,
                0 < fh,
                max > 0,
        ;
        assert(pad_x <= fw && pad_y <= fh) by (nonlinear_arith)
            requires
                fw == (grid_width as u128) * (scale_x as u128) + pad_x,
                fh == (grid_height as u128) * (scale_y as u128) + pad_y,
                grid_width >= 1,
                grid_height >= 1,
        ;
    }
    Ok(
        FramePlan {
            scale_x,
            scale_y,
            padding_x: pad_x as usize,
            padding_y: pad_y as usize,
            frame_width: fw as usize,
            frame_height: fh as usize,
        },
    )
}

/// Clamps a computed dimension into `usize` for an error payload.
fn clamp_exec(n: u128) -> (r: usize)
    ensures
        r == clamp_usize(n as int),
{
    if n > usize::MAX as u128 {
        usize::MAX
    } else {
        n as usize
    }
}

/// Law: resolving `MaxSize` scaling twice on the same first-frame shape
/// yields the same locked resolution as resolving it once. The frozen
/// policy is already `Uniform`, freezing it again changes nothing, and it
/// reproduces the same replication factors and frame resolution.
pub proof fn lemma_max_size_idempotent(sc: Scaling, gl: Gridlines, gw: int, gh: int)
    requires
        sc is MaxSize,
        gw >= 1,
        gh >= 1,
    ensures
        ({
            let frozen = spec_resolved(sc, gl, gw, gh);
            &&& spec_resolved(frozen, gl, gw, gh) == frozen
            &&& spec_scale_x(frozen, gl, gw, gh) == spec_scale_x(sc, gl, gw, gh)
            &&& spec_scale_y(frozen, gl, gw, gh) == spec_scale_y(sc, gl, gw, gh)
            &&& spec_frame_w(spec_scale_x(frozen, gl, gw, gh), gl, gw) == spec_frame_w(
                spec_scale_x(sc, gl, gw, gh),
                gl,
                gw,
            )
            &&& spec_frame_h(spec_scale_y(frozen, gl, gw, gh), gl, gh) == spec_frame_h(
                spec_scale_y(sc, gl, gw, gh),
                gl,
                gh,
            )
        }),
{
    let m = spec_scale_x(sc, gl, gw, gh);
    match sc {
        Scaling::MaxSize(mw, mh) => {
            let ax = sub_sat(mw as int, spec_padding(gl, gw));
            let ay = sub_sat(mh as int, spec_padding(gl, gh));
            assert(ax / gw <= ax && ax / gw >= 0) by (nonlinear_arith)
                requires
                    ax >= 0,
                    gw >= 1,
            ;
            assert(ay / gh <= ay && ay / gh >= 0) by (nonlinear_arith)
                requires
                    ay >= 0,
                    gh >= 1,
            ;
            assert(0 <= m <= 0xFFFF);
        },
        _ => {},
    }
}

} // verus!
