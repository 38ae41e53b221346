//! The encoding session.
//!
//! A session is created by a builder, lazily binds its resolution on the
//! first accepted frame, enforces resolution constancy thereafter,
//! accumulates the codec's bitstream, and on close hands the bitstream
//! with the locked resolution and frame rate to the caller for muxing.

use core::marker::PhantomData;

use openh264::encoder::Encoder as H264Encoder;
use vstd::prelude::*;

use crate::codec::{codec_new, encode_rgb};
use crate::error::{Error, OPENH264_MAX_SIZE};
use crate::grid::{grid_height, grid_ok, grid_uniform, grid_width, validate};
use crate::plan::{
    clamp_usize, frame_dims_ok, plan_frame, resolve, spec_frame_h, spec_frame_w, spec_resolved,
    spec_scale_x, spec_scale_y, Gridlines, Scaling,
};
use crate::Rgb;

verus! {

/// Default video frame rate in frames per second.
pub const DEFAULT_FPS: u16 = 4;

/// Default bound of the default `MaxSize` scaling policy.
pub const DEFAULT_SCALE_MAX_SIZE: u16 = 720;

/// A video encoder session. Converts grids to encoded video frames.
///
/// Defaults: frame rate 4 fps, black gridlines between elements, video
/// scaled to fit 720×720 pixels.
pub struct Encoder<T, F> where F: Fn(&T) -> Rgb {
    /// The destination file path the caller will write to.
    pub filepath: String,
    /// The locked video width; absent until the first accepted frame.
    pub width: Option<usize>,
    /// The locked video height; absent until the first accepted frame.
    pub height: Option<usize>,
    /// The scaling policy; `MaxSize` is rewritten to `Uniform` in place
    /// when first resolved.
    pub scale: Scaling,
    /// The codec handle; absent until the first accepted frame.
    pub encoder: Option<H264Encoder>,
    /// The accumulated encoded bitstream.
    pub buffer: Vec<u8>,
    /// Frame rate in frames per second.
    pub fps: u32,
    /// The number of frames accepted so far.
    pub frame_count: usize,
    /// The gridline policy.
    pub gridlines: Gridlines,
    /// Maps a grid cell to its color.
    pub converter: F,
    /// Carries the cell type.
    pub marker: PhantomData<T>,
}

/// EncoderBuilder allows for flexible customization of the video
/// [Encoder].
pub struct EncoderBuilder<T, F> where F: Fn(&T) -> Rgb {
    /// The destination file path.
    pub filepath: String,
    /// Maps a grid cell to its color.
    pub converter: F,
    /// The scaling policy.
    pub scale: Scaling,
    /// The frame rate, if one was set.
    pub fps: Option<u16>,
    /// The gridline policy, if one was set.
    pub gridlines: Option<Gridlines>,
    /// Carries the cell type.
    pub marker: PhantomData<T>,
}

/// A closed session's product: everything an MP4 muxer needs.
pub struct EncodedVideo {
    /// The destination file path.
    pub filepath: String,
    /// The accumulated encoded bitstream.
    pub data: Vec<u8>,
    /// The locked video width.
    pub width: usize,
    /// The locked video height.
    pub height: usize,
    /// Frame rate in frames per second.
    pub fps: u32,
}

/// How a session judges one submitted grid, in the order the checks run:
/// grid axes, column uniformity, frame area, frame parity, and resolution
/// constancy.
pub enum FrameCheck {
    /// A grid axis is zero.
    BadAxes,
    /// A column's height differs from the first column's.
    Ragged,
    /// The computed pixel area exceeds the codec's maximum.
    Oversized,
    /// A computed dimension is zero or odd.
    BadDims,
    /// The computed resolution differs from the locked one.
    Mismatch,
    /// The frame is accepted and handed to the codec.
    Accept,
}

impl<T, F> EncoderBuilder<T, F> where F: Fn(&T) -> Rgb {
    /// The converter can be applied to any cell.
    pub open spec fn wf(&self) -> bool {
        forall|t: &T| #[trigger] call_requires(self.converter, (t,))
    }

    /// Sets the video [Scaling] option.
    ///
    /// Default: `Scaling::MaxSize(720, 720)`
    pub fn scale(self, scale: Scaling) -> (b: Self)
        ensures
            b == (EncoderBuilder { scale, ..self }),
    {
        EncoderBuilder { scale, ..self }
    }

    /// Sets the video frame rate.
    ///
    /// If unset, or set to zero, defaults to 4 fps.
    pub fn fps(self, fps: u16) -> (b: Self)
        ensures
            b == (EncoderBuilder {
                fps: if fps > 0 {
                    Some(fps)
                } else {
                    None
                },
                ..self
            }),
    {
        EncoderBuilder {
            fps: if fps > 0 {
                Some(fps)
            } else {
                None
            },
            ..self
        }
    }

    /// Indicates whether or not to show [Gridlines] and if so picks a
    /// color.
    ///
    /// If unset, defaults to showing black gridlines.
    pub fn gridlines(self, gridlines: Gridlines) -> (b: Self)
        ensures
            b == (EncoderBuilder { gridlines: Some(gridlines), ..self }),
    {
        EncoderBuilder { gridlines: Some(gridlines), ..self }
    }

    /// Returns the configured video [Encoder], unbound and empty.
    ///
    /// The caller is responsible for the destination file itself; the
    /// session only carries the path.
    pub fn build(self) -> (enc: Encoder<T, F>)
        requires
            self.wf(),
        ensures
            enc.wf(),
            enc.filepath == self.filepath,
            enc.converter == self.converter,
            enc.scale == self.scale,
            enc.fps as int == (match self.fps {
                Some(f) => f as int,
                None => DEFAULT_FPS as int,
            }),
            enc.gridlines == (match self.gridlines {
                Some(g) => g,
                None => Gridlines::Show((0u8, 0u8, 0u8)),
            }),
            enc.buffer@ == Seq::<u8>::empty(),
            enc.frame_count == 0,
            enc.width is None,
            enc.height is None,
            enc.encoder is None,
    {
        let fps: u16 = match self.fps {
            Some(f) => f,
            None => DEFAULT_FPS,
        };
        let gridlines = match self.gridlines {
            Some(g) => g,
            None => Gridlines::Show((0, 0, 0)),
        };
        Encoder {
            filepath: self.filepath,
            width: None,
            height: None,
            scale: self.scale,
            encoder: None,
            buffer: Vec::new(),
            fps: fps as u32,
            frame_count: 0,
            gridlines,
            converter: self.converter,
            marker: PhantomData,
        }
    }
}

/// What one call of `add_frame` must decide for the session `s` and the
/// submitted grid `g`, following the session's check order.
pub open spec fn spec_frame_check<T, F: Fn(&T) -> Rgb>(s: Encoder<T, F>, g: Seq<Vec<T>>) -> FrameCheck {
    let gw = grid_width(g);
    let gh = grid_height(g);
    if gw == 0 || gh == 0 {
        FrameCheck::BadAxes
    } else if !grid_uniform(g) {
        FrameCheck::Ragged
    } else {
        let gl = s.gridlines;
        let sx = spec_scale_x(s.scale, gl, gw, gh);
        let sy = spec_scale_y(s.scale, gl, gw, gh);
        let fw = spec_frame_w(sx, gl, gw);
        let fh = spec_frame_h(sy, gl, gh);
        if fw * fh > OPENH264_MAX_SIZE as int {
            FrameCheck::Oversized
        } else if !frame_dims_ok(fw, fh) {
            FrameCheck::BadDims
        } else if s.width is Some && (fw != s.width.unwrap() as int || fh != s.height.unwrap()
            as int) {
            FrameCheck::Mismatch
        } else {
            FrameCheck::Accept
        }
    }
}

impl<T, F> Encoder<T, F> where F: Fn(&T) -> Rgb {
    /// The session's invariant: the converter is total, resolution and
    /// codec are bound together, frames imply binding, and a bound
    /// resolution satisfies the codec's dimensional invariants.
    pub open spec fn wf(&self) -> bool {
        &&& (forall|t: &T| #[trigger] call_requires(self.converter, (t,)))
        &&& (self.width is Some <==> self.encoder is Some)
        &&& (self.height is Some <==> self.width is Some)
        &&& (self.frame_count > 0 ==> self.width is Some)
        &&& (self.width is Some ==> frame_dims_ok(
            self.width.unwrap() as int,
            self.height.unwrap() as int,
        ))
    }

    /// Returns a new [EncoderBuilder] for the given destination path and
    /// cell-to-color converter.
    pub fn new(filepath: String, converter: F) -> (b: EncoderBuilder<T, F>)
        requires
            forall|t: &T| #[trigger] call_requires(converter, (t,)),
        ensures
            b.wf(),
            b.filepath == filepath,
            b.converter == converter,
            b.scale == Scaling::MaxSize(DEFAULT_SCALE_MAX_SIZE, DEFAULT_SCALE_MAX_SIZE),
            b.fps is None,
            b.gridlines is None,
    {
        EncoderBuilder {
            filepath,
            converter,
            fps: None,
            scale: Scaling::MaxSize(DEFAULT_SCALE_MAX_SIZE, DEFAULT_SCALE_MAX_SIZE),
            gridlines: None,
            marker: PhantomData,
        }
    }

    /// Adds a grid as a frame to the video. Returns the new frame count,
    /// or the error the frame was rejected with.
    ///
    /// The contract follows [`spec_frame_check`]: shape errors and
    /// resolution errors are classified exactly and leave the session
    /// unchanged, except that resolving the scaling policy is memoized
    /// even when the frame then fails. Only the codec itself may reject
    /// an accepted frame; what holds of the session afterwards is stated
    /// for every outcome of that call.
    pub fn add_frame(&mut self, grid: &[Vec<T>]) -> (r: Result<usize, Error>)
        requires
            old(self).wf(),
            old(self).frame_count < usize::MAX,
        ensures
            final(self).wf(),
            final(self).filepath == old(self).filepath,
            final(self).fps == old(self).fps,
            final(self).gridlines == old(self).gridlines,
            final(self).converter == old(self).converter,
            ({
                let s0 = *old(self);
                let s1 = *final(self);
                let g = grid@;
                let gw = grid_width(g);
                let gh = grid_height(g);
                let gl = s0.gridlines;
                let sx = spec_scale_x(s0.scale, gl, gw, gh);
                let sy = spec_scale_y(s0.scale, gl, gw, gh);
                let fw = spec_frame_w(sx, gl, gw);
                let fh = spec_frame_h(sy, gl, gh);
                let resolved = spec_resolved(s0.scale, gl, gw, gh);
                match spec_frame_check(s0, g) {
                    FrameCheck::BadAxes => r matches Err(Error::InvalidFrameDimensions(p)) && p.0
                        as int == gw && p.1 as int == gh && s1 == s0,
                    FrameCheck::Ragged => r matches Err(Error::InconsistentGridHeight(i)) && i
                        == s0.frame_count && s1 == s0,
                    FrameCheck::Oversized => r matches Err(Error::OversizedFrame(p)) && p.0
                        == clamp_usize(fw) && p.1 == clamp_usize(fh) && s1 == (Encoder {
                        scale: resolved,
                        ..s0
                    }),
                    FrameCheck::BadDims => r matches Err(Error::InvalidFrameDimensions(p)) && p.0
                        == clamp_usize(fw) && p.1 == clamp_usize(fh) && s1 == (Encoder {
                        scale: resolved,
                        ..s0
                    }),
                    FrameCheck::Mismatch => r matches Err(Error::FrameSizeMismatch(i, got, want))
                        && i == s0.frame_count && got.0 as int == fw && got.1 as int == fh && want
                        == (s0.width.unwrap(), s0.height.unwrap()) && s1 == (Encoder {
                        scale: resolved,
                        ..s0
                    }),
                    FrameCheck::Accept => {
                        ||| (r matches Ok(n) && n == s0.frame_count + 1 && s1.frame_count
                            == s0.frame_count + 1 && s1.width == Some(fw as usize) && s1.height
                            == Some(fh as usize) && s1.scale == resolved && s1.encoder is Some
                            && s1.buffer@.len() >= s0.buffer@.len() && s1.buffer@.subrange(
                            0,
                            s0.buffer@.len() as int,
                        ) == s0.buffer@)
                        ||| (r matches Err(Error::Openh264Error(e)) && s1.frame_count
                            == s0.frame_count && s1.buffer == s0.buffer && s1.scale == resolved && (
                        (s1.width == s0.width && s1.height == s0.height && (s1.encoder is Some
                            <==> s0.encoder is Some)) || (s0.width is None && s1.width == Some(
                            fw as usize,
                        ) && s1.height == Some(fh as usize) && s1.encoder is Some)))
                    },
                }
            }),
    {
        match validate(grid, self.frame_count) {
            Ok(_) => (),
            Err(e) => {
                return Err(e);
            },
        }
        let grid_width = grid.len();
        let grid_height = grid[0].len();
        let (scale_x, scale_y, resolved) = resolve(
            self.scale,
            &self.gridlines,
            grid_width,
            grid_height,
        );
        self.scale = resolved;
        let plan = match plan_frame(scale_x, scale_y, &self.gridlines, grid_width, grid_height) {
            Ok(p) => p,
            Err(e) => {
                return Err(e);
            },
        };
        proof {
            assert(plan.frame_width <= OPENH264_MAX_SIZE && plan.frame_height
                <= OPENH264_MAX_SIZE) by (nonlinear_arith)
                requires
                    (plan.frame_width as int) * (plan.frame_height as int) <= OPENH264_MAX_SIZE
                        as int,
                    plan.frame_width > 0,
                    plan.frame_height > 0,
            ;
        }
        if self.encoder.is_none() {
            let codec = match codec_new() {
                Ok(c) => c,
                Err(e) => {
                    return Err(Error::Openh264Error(e));
                },
            };
            self.width = Some(plan.frame_width);
            self.height = Some(plan.frame_height);
            self.encoder = Some(codec);
        }
        let video_width = self.width.unwrap();
        let video_height = self.height.unwrap();
        if plan.frame_width != video_width || plan.frame_height != video_height {
            return Err(
                Error::FrameSizeMismatch(
                    self.frame_count,
                    (plan.frame_width, plan.frame_height),
                    (video_width, video_height),
                ),
            );
        }
        let rgb = crate::raster::format(
            grid,
            plan.scale_x as usize,
            plan.scale_y as usize,
            &self.converter,
            &self.gridlines,
        );
        let bits_res = match self.encoder.as_mut() {
            Some(codec) => encode_rgb(codec, &rgb, video_width, video_height),
            None => vstd::pervasive::unreached(),
        };
        match bits_res {
            Ok(mut bits) => {
                self.buffer.append(&mut bits);
                proof {
                    assert(self.buffer@.subrange(0, old(self).buffer@.len() as int) =~= old(
                        self,
                    ).buffer@);
                }
                self.frame_count = self.frame_count + 1;
                Ok(self.frame_count)
            },
            Err(e) => Err(Error::Openh264Error(e)),
        }
    }

    /// Closes the session, yielding the accumulated bitstream with the
    /// locked resolution and frame rate for the muxer.
    ///
    /// Fails with `NoFrames` exactly when no frame was ever accepted.
    /// The session is consumed either way: it cannot be closed twice.
    pub fn close(self) -> (r: Result<EncodedVideo, Error>)
        requires
            self.wf(),
        ensures
            r is Ok <==> self.frame_count >= 1,
            (r matches Err(e) ==> e is NoFrames),
            (r matches Ok(v) ==> v.filepath == self.filepath && v.data == self.buffer && v.width
                == self.width.unwrap() && v.height == self.height.unwrap() && v.fps == self.fps),
    {
        if self.frame_count == 0 {
            return Err(Error::NoFrames);
        }
        let width = self.width.unwrap();
        let height = self.height.unwrap();
        Ok(
            EncodedVideo {
                filepath: self.filepath,
                data: self.buffer,
                width,
                height,
                fps: self.fps,
            },
        )
    }

    /// Returns the current number of frames.
    pub fn frame_count(&self) -> (r: &usize)
        ensures
            *r == self.frame_count,
    {
        &self.frame_count
    }
}

/// Law: how a session judges a frame depends on the grid only through
/// its shape. In particular, once a `MaxSize` policy has been frozen to
/// `Uniform`, a grid of the shape that bound the session is always
/// accepted again: the recomputed resolution equals the locked one.
pub proof fn lemma_same_shape_same_check<T, F: Fn(&T) -> Rgb>(
    s: Encoder<T, F>,
    g1: Seq<Vec<T>>,
    g2: Seq<Vec<T>>,
)
    requires
        grid_ok(g1),
        grid_ok(g2),
        grid_width(g2) == grid_width(g1),
        grid_height(g2) == grid_height(g1),
    ensures
        spec_frame_check(s, g1) == spec_frame_check(s, g2),
{
}

/// Law: resolution constancy. Once the session is bound, a grid whose
/// computed frame resolution is valid for the codec but differs from the
/// locked resolution is judged `Mismatch`, which `add_frame`'s contract
/// turns into `FrameSizeMismatch`. Under the `Stretch` policy this is
/// how a grid of different shape is caught.
pub proof fn lemma_bound_mismatch<T, F: Fn(&T) -> Rgb>(s: Encoder<T, F>, g: Seq<Vec<T>>)
    requires
        s.width is Some,
        grid_ok(g),
        ({
            let gl = s.gridlines;
            let gw = grid_width(g);
            let gh = grid_height(g);
            let fw = spec_frame_w(spec_scale_x(s.scale, gl, gw, gh), gl, gw);
            let fh = spec_frame_h(spec_scale_y(s.scale, gl, gw, gh), gl, gh);
            frame_dims_ok(fw, fh) && (fw != s.width.unwrap() as int || fh != s.height.unwrap()
                as int)
        }),
    ensures
        spec_frame_check(s, g) == FrameCheck::Mismatch,
{
}

} // verus!
