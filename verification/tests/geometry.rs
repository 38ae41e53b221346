//! Checks of grid validation, scale planning and rasterization.

use gridvid::{plan_frame, resolve, validate, Error, Gridlines, Scaling};

fn blue_or_black(b: &bool) -> (u8, u8, u8) {
    if *b {
        (0, 0, 255)
    } else {
        (0, 0, 0)
    }
}

#[test]
fn validate_accepts_uniform_grid() {
    let grid: Vec<Vec<bool>> = vec![vec![false; 7]; 5];
    assert!(validate(&grid, 0).is_ok());
}

#[test]
fn validate_rejects_empty_grid() {
    let grid: Vec<Vec<bool>> = Vec::new();
    match validate(&grid, 0) {
        Err(Error::InvalidFrameDimensions(p)) => assert_eq!(p, (0, 0)),
        _ => panic!("empty grid passed validation"),
    }
}

#[test]
fn validate_rejects_empty_columns() {
    let grid: Vec<Vec<bool>> = vec![Vec::new(); 4];
    match validate(&grid, 0) {
        Err(Error::InvalidFrameDimensions(p)) => assert_eq!(p, (4, 0)),
        _ => panic!("grid of empty columns passed validation"),
    }
}

#[test]
fn validate_rejects_ragged_grid_with_frame_index() {
    let mut grid: Vec<Vec<bool>> = vec![vec![false; 7]; 5];
    grid[3] = vec![false; 6];
    match validate(&grid, 11) {
        Err(Error::InconsistentGridHeight(i)) => assert_eq!(i, 11),
        _ => panic!("ragged grid passed validation"),
    }
}

#[test]
fn resolve_uniform_keeps_factor() {
    let (sx, sy, kept) = resolve(Scaling::Uniform(8), &Gridlines::Hide, 10, 10);
    assert_eq!((sx, sy), (8, 8));
    assert_eq!(kept, Scaling::Uniform(8));
}

#[test]
fn resolve_max_size_freezes_to_uniform() {
    let (sx, sy, kept) = resolve(Scaling::MaxSize(720, 720), &Gridlines::Hide, 50, 50);
    assert_eq!((sx, sy), (14, 14));
    assert_eq!(kept, Scaling::Uniform(14));
}

#[test]
fn resolve_max_size_accounts_for_padding() {
    let black = Gridlines::Show((0, 0, 0));
    let (sx, sy, kept) = resolve(Scaling::MaxSize(720, 720), &black, 10, 10);
    assert_eq!((sx, sy), (70, 70));
    assert_eq!(kept, Scaling::Uniform(70));
}

#[test]
fn resolve_stretch_scales_axes_independently() {
    let (sx, sy, kept) = resolve(Scaling::Stretch(720, 480), &Gridlines::Hide, 10, 10);
    assert_eq!((sx, sy), (72, 48));
    assert_eq!(kept, Scaling::Stretch(720, 480));
}

#[test]
fn plan_padding_and_resolution_with_gridlines() {
    let black = Gridlines::Show((0, 0, 0));
    let plan = plan_frame(8, 8, &black, 10, 10).unwrap();
    assert_eq!((plan.padding_x, plan.padding_y), (18, 18));
    assert_eq!((plan.frame_width, plan.frame_height), (98, 98));
}

#[test]
fn plan_area_at_codec_maximum_succeeds() {
    let plan = plan_frame(1, 1, &Gridlines::Hide, 3072, 3072).unwrap();
    assert_eq!((plan.frame_width, plan.frame_height), (3072, 3072));
    assert_eq!(plan.frame_width * plan.frame_height, gridvid::OPENH264_MAX_SIZE);
}

#[test]
fn plan_area_above_codec_maximum_fails() {
    match plan_frame(1, 1, &Gridlines::Hide, 3072, 3073) {
        Err(Error::OversizedFrame(p)) => assert_eq!(p, (3072, 3073)),
        _ => panic!("oversized frame passed constraints"),
    }
}

#[test]
fn plan_odd_dimension_fails() {
    match plan_frame(1, 1, &Gridlines::Hide, 3, 4) {
        Err(Error::InvalidFrameDimensions(p)) => assert_eq!(p, (3, 4)),
        _ => panic!("odd frame width passed constraints"),
    }
}

#[test]
fn plan_zero_scale_fails() {
    match plan_frame(0, 0, &Gridlines::Hide, 10, 10) {
        Err(Error::InvalidFrameDimensions(p)) => assert_eq!(p, (0, 0)),
        _ => panic!("zero-sized frame passed constraints"),
    }
}

#[test]
fn format_uniform8_hidden_gridlines_block_exact() {
    let mut grid: Vec<Vec<bool>> = vec![vec![false; 10]; 10];
    grid[3][9] = true;
    let out = gridvid::raster::format(&grid, 8, 8, &blue_or_black, &Gridlines::Hide);
    assert_eq!(out.len(), 80 * 80 * 3);
    // The grid's top row (y = 9) is the first pixel row; cell (3, 9) is
    // the 8x8 block at pixel columns 24..32 of pixel rows 0..8.
    for py in 0..80usize {
        for px in 0..80usize {
            let base = (py * 80 + px) * 3;
            let expected = if py < 8 && (24..32).contains(&px) {
                (0, 0, 255)
            } else {
                (0, 0, 0)
            };
            assert_eq!((out[base], out[base + 1], out[base + 2]), expected);
        }
    }
}

#[test]
fn format_shown_gridlines_insert_separators() {
    let grid: Vec<Vec<bool>> = vec![vec![false; 10]; 10];
    let red = Gridlines::Show((255, 0, 0));
    let out = gridvid::raster::format(&grid, 8, 8, &blue_or_black, &red);
    assert_eq!(out.len(), 98 * 98 * 3);
    // Pixel columns 8 and 9 belong to the first vertical separator,
    // pixel rows 8 and 9 to the first horizontal one.
    for (px, py, expected) in [
        (0usize, 0usize, (0, 0, 0)),
        (8, 0, (255, 0, 0)),
        (9, 0, (255, 0, 0)),
        (10, 0, (0, 0, 0)),
        (0, 8, (255, 0, 0)),
        (5, 9, (255, 0, 0)),
        (3, 10, (0, 0, 0)),
        (97, 97, (0, 0, 0)),
    ] {
        let base = (py * 98 + px) * 3;
        assert_eq!((out[base], out[base + 1], out[base + 2]), expected);
    }
}
