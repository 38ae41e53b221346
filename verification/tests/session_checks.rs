//! Checks of the session lifecycle, with the real codec linked.

use gridvid::{Error, Gridlines, Scaling};

fn blue_or_black(b: &bool) -> (u8, u8, u8) {
    if *b {
        (0, 0, 255)
    } else {
        (0, 0, 0)
    }
}

#[test]
fn builder_defaults() {
    let video = gridvid::Encoder::new(String::from("defaults.mp4"), blue_or_black).build();
    assert_eq!(video.fps, 4);
    assert_eq!(video.scale, Scaling::MaxSize(720, 720));
    assert!(matches!(video.gridlines, Gridlines::Show((0, 0, 0))));
    assert_eq!(*video.frame_count(), 0);
    assert!(video.width.is_none());
    assert!(video.height.is_none());
}

#[test]
fn builder_options() {
    let video = gridvid::Encoder::new(String::from("options.mp4"), blue_or_black)
        .fps(20)
        .scale(Scaling::Uniform(16))
        .gridlines(Gridlines::Show((255, 255, 255)))
        .build();
    assert_eq!(video.fps, 20);
    assert_eq!(video.scale, Scaling::Uniform(16));
    assert!(matches!(video.gridlines, Gridlines::Show((255, 255, 255))));
}

#[test]
fn builder_zero_fps_reverts_to_default() {
    let video = gridvid::Encoder::new(String::from("fps0.mp4"), blue_or_black)
        .fps(0)
        .build();
    assert_eq!(video.fps, 4);
}

#[test]
fn add_frame_rejects_empty_grid() {
    let grid: Vec<Vec<bool>> = Vec::new();
    let mut video = gridvid::Encoder::new(String::from("empty.mp4"), blue_or_black).build();
    match video.add_frame(&grid) {
        Err(Error::InvalidFrameDimensions(p)) => assert_eq!(p, (0, 0)),
        _ => panic!("empty grid was accepted"),
    }
    assert_eq!(*video.frame_count(), 0);
}

#[test]
fn add_frame_rejects_ragged_grid() {
    let mut grid: Vec<Vec<bool>> = vec![vec![false; 10]; 10];
    grid[7] = vec![false; 9];
    let mut video = gridvid::Encoder::new(String::from("ragged.mp4"), blue_or_black).build();
    match video.add_frame(&grid) {
        Err(Error::InconsistentGridHeight(i)) => assert_eq!(i, 0),
        _ => panic!("ragged grid was accepted"),
    }
}

#[test]
fn add_frame_rejects_oversized_grid() {
    let grid: Vec<Vec<bool>> = vec![vec![false; 3073]; 3072];
    let mut video = gridvid::Encoder::new(String::from("oversized.mp4"), blue_or_black)
        .scale(Scaling::Uniform(1))
        .gridlines(Gridlines::Hide)
        .build();
    match video.add_frame(&grid) {
        Err(Error::OversizedFrame(p)) => assert_eq!(p, (3072, 3073)),
        _ => panic!("oversized frame passed constraints"),
    }
}

#[test]
fn max_size_resolution_is_idempotent() {
    let grid: Vec<Vec<bool>> = vec![vec![false; 10]; 10];
    let mut video = gridvid::Encoder::new(String::from("idem.mp4"), blue_or_black)
        .scale(Scaling::MaxSize(720, 720))
        .gridlines(Gridlines::Hide)
        .build();
    assert_eq!(video.add_frame(&grid).unwrap(), 1);
    assert_eq!(video.scale, Scaling::Uniform(72));
    assert_eq!((video.width, video.height), (Some(720), Some(720)));
    // Resolving the now-frozen policy again must reproduce the locked
    // resolution, so the same grid shape is accepted again.
    assert_eq!(video.add_frame(&grid).unwrap(), 2);
    assert_eq!(video.scale, Scaling::Uniform(72));
    assert_eq!((video.width, video.height), (Some(720), Some(720)));
}

#[test]
fn stretch_detects_resolution_mismatch() {
    let mut video = gridvid::Encoder::new(String::from("stretch.mp4"), blue_or_black)
        .scale(Scaling::Stretch(720, 720))
        .gridlines(Gridlines::Hide)
        .build();
    let first: Vec<Vec<bool>> = vec![vec![false; 10]; 10];
    assert_eq!(video.add_frame(&first).unwrap(), 1);
    assert_eq!((video.width, video.height), (Some(720), Some(720)));
    // A 7-column grid under Stretch(720, 720) resolves to 714x720.
    let second: Vec<Vec<bool>> = vec![vec![false; 10]; 7];
    match video.add_frame(&second) {
        Err(Error::FrameSizeMismatch(i, got, want)) => {
            assert_eq!(i, 1);
            assert_eq!(got, (714, 720));
            assert_eq!(want, (720, 720));
        },
        _ => panic!("frame of different resolution was accepted"),
    }
    assert_eq!(*video.frame_count(), 1);
    // A failed frame leaves the session usable: the original shape is
    // still accepted.
    assert_eq!(video.add_frame(&first).unwrap(), 2);
}

#[test]
fn rejected_frame_leaves_session_usable() {
    let mut video = gridvid::Encoder::new(String::from("recover.mp4"), blue_or_black)
        .scale(Scaling::Uniform(8))
        .gridlines(Gridlines::Hide)
        .build();
    let mut grid: Vec<Vec<bool>> = vec![vec![false; 10]; 10];
    grid[2] = vec![false; 4];
    assert!(matches!(
        video.add_frame(&grid),
        Err(Error::InconsistentGridHeight(0))
    ));
    grid[2] = vec![false; 10];
    assert_eq!(video.add_frame(&grid).unwrap(), 1);
}

#[test]
fn close_with_zero_frames_fails() {
    let video = gridvid::Encoder::new(String::from("zero.mp4"), blue_or_black).build();
    match video.close() {
        Err(Error::NoFrames) => (),
        _ => panic!("closing an empty session succeeded"),
    }
}

#[test]
fn close_after_frames_yields_the_video() {
    let mut grid: Vec<Vec<bool>> = vec![vec![false; 10]; 10];
    let mut video = gridvid::Encoder::new(String::from("closed.mp4"), blue_or_black)
        .fps(2)
        .scale(Scaling::Uniform(8))
        .gridlines(Gridlines::Hide)
        .build();
    for i in 0..grid.len() {
        grid[i][i] = true;
        video.add_frame(&grid).unwrap();
    }
    assert_eq!(*video.frame_count(), 10);
    let closed = video.close().unwrap();
    assert_eq!(closed.filepath, "closed.mp4");
    assert_eq!((closed.width, closed.height), (80, 80));
    assert_eq!(closed.fps, 2);
    assert!(!closed.data.is_empty());
}
