//! Gridvid renders MP4 videos from sequences of 2-D cell grids.
//!
//! Each grid becomes one video frame: the grid's shape is validated, a
//! scaling policy turns it into concrete pixel dimensions, the cells are
//! rasterized into an RGB pixel buffer with optional gridlines, and each
//! frame is handed to an H.264 codec. Closing the session yields the
//! accumulated bitstream together with the locked resolution and frame
//! rate, ready for an MP4 muxer.
//!
//! The outer vector of a grid translates to the X-axis and the inner
//! vectors translate to the Y-axis.

use vstd::prelude::*;

mod codec;
mod error;
mod grid;
mod plan;
pub mod raster;
mod session;

pub use error::{Error, OPENH264_MAX_SIZE};
pub use grid::{grid_height, grid_ok, grid_uniform, grid_width, validate};
pub use plan::{
    clamp_usize, frame_dims_ok, lemma_max_size_idempotent, plan_frame, resolve, spec_frame_h,
    spec_frame_w, spec_padding, spec_resolved, spec_scale_x, spec_scale_y, FramePlan, Gridlines,
    Scaling,
};
pub use raster::{
    color_view, converted_colors, frame_bytes, lemma_frame_len, lemma_hidden_gridlines_pixel,
    px_run, render, repeated, rgb_bytes, row_bytes, rows_from, sep_color,
};
pub use session::{
    lemma_bound_mismatch, lemma_same_shape_same_check, spec_frame_check, EncodedVideo, Encoder,
    EncoderBuilder, FrameCheck,
};

verus! {

/// A tuple containing Red, Green and Blue color intensities.
pub type Rgb = (u8, u8, u8);

} // verus!
