use render_to_video::encode::{EncodeSettings, FFmpegCliEncoder, VideoEncodeCodec};
use render_to_video::error::RenderError;
use render_to_video::readback::{padded_bytes_per_row, strip_row_padding, FrameCapture};

#[test]
fn rows_are_padded_to_the_copy_alignment() {
    assert_eq!(padded_bytes_per_row(0), 0);
    assert_eq!(padded_bytes_per_row(1), 256);
    assert_eq!(padded_bytes_per_row(64), 256);
    assert_eq!(padded_bytes_per_row(65), 512);
    assert_eq!(padded_bytes_per_row(1920), 7680);
    assert_eq!(padded_bytes_per_row(1000), 4096);
}

#[test]
fn padding_is_stripped() {
    // Two rows of two pixels, ten bytes apart.
    let data: Vec<u8> = (0..20).collect();
    let pixels = strip_row_padding(&data, 2, 10);
    assert_eq!(pixels, [0, 1, 2, 3, 4, 5, 6, 7, 10, 11, 12, 13, 14, 15, 16, 17]);
    // A row that is cut off is ignored.
    assert_eq!(strip_row_padding(&data[..19], 2, 10).len(), 8);
    assert!(strip_row_padding(&[], 2, 10).is_empty());
    // Without padding nothing is lost.
    assert_eq!(strip_row_padding(&data, 5, 20), data);
}

#[test]
fn a_stripped_frame_suits_the_encoder() {
    for (width, height) in [(1u32, 1u32), (65, 3), (64, 2), (100, 7)] {
        let stride = padded_bytes_per_row(width);
        let data = vec![9u8; stride as usize * height as usize];
        let pixels = strip_row_padding(&data, width, stride);
        let settings = EncodeSettings {
            width,
            height,
            fps: "30".to_owned(),
            codec: VideoEncodeCodec::H264,
            crf: 23,
            ffmpeg_path: None,
        };
        let mut encoder = FFmpegCliEncoder::new(&settings, Ok(true)).ok().unwrap();
        assert!(encoder.write_frame(&pixels).is_ok());
    }
}

#[test]
fn readback_is_one_frame_behind() {
    let mut capture = FrameCapture::new();
    assert_eq!(capture.last_dims(), (0, 0));

    let first = capture.begin_capture(100, 50).unwrap_or_else(|_| panic!());
    assert!(first.new_texture && first.new_buffer);
    assert_eq!(first.buffer_size, 512 * 50);
    assert!(capture.take_ready(1).is_none());

    let second = capture.begin_capture(100, 50).unwrap_or_else(|_| panic!());
    assert!(!second.new_texture && second.new_buffer);
    assert_ne!(second.frame.buffer, first.frame.buffer);
    assert_eq!(capture.take_ready(1), Some(first.frame));
    assert!(capture.delivered());
    assert_eq!(capture.last_dims(), (100, 50));
    assert!(capture.take_ready(1).is_none());

    let third = capture.begin_capture(100, 50).unwrap_or_else(|_| panic!());
    assert!(!third.new_texture && !third.new_buffer);
    assert_eq!(third.frame.buffer, first.frame.buffer);

    assert_eq!(capture.take_ready(0), Some(second.frame));
    assert!(capture.delivered());
    assert_eq!(capture.take_ready(0), Some(third.frame));
    assert!(capture.delivered());
    assert!(capture.take_ready(0).is_none());
}

#[test]
fn buffers_of_another_size_are_not_used_again() {
    let mut capture = FrameCapture::new();
    let small = capture.begin_capture(10, 10).unwrap_or_else(|_| panic!());
    let large = capture.begin_capture(20, 20).unwrap_or_else(|_| panic!());
    assert!(large.new_texture && large.new_buffer);
    assert_eq!(capture.take_ready(0), Some(small.frame));
    assert!(!capture.delivered());
    assert_eq!(capture.take_ready(0), Some(large.frame));
    assert!(capture.delivered());
    let next = capture.begin_capture(20, 20).unwrap_or_else(|_| panic!());
    assert!(!next.new_buffer);
    assert_eq!(next.frame.buffer, large.frame.buffer);
    let back = capture.begin_capture(10, 10).unwrap_or_else(|_| panic!());
    assert!(back.new_texture && back.new_buffer);
    assert_ne!(back.frame.buffer, small.frame.buffer);
}

#[test]
fn an_empty_surface_is_not_captured() {
    let mut capture = FrameCapture::new();
    assert!(matches!(capture.begin_capture(0, 10), Err(RenderError::EmptySurface)));
    assert!(matches!(capture.begin_capture(10, 0), Err(RenderError::EmptySurface)));
    assert!(capture.take_ready(0).is_none());
}

#[test]
fn a_discarded_frame_does_not_stop_the_pipeline() {
    let mut capture = FrameCapture::new();
    let first = capture.begin_capture(10, 10).unwrap_or_else(|_| panic!());
    let second = capture.begin_capture(10, 10).unwrap_or_else(|_| panic!());
    assert_eq!(capture.take_ready(0), Some(first.frame));
    capture.discard();
    assert_eq!(capture.last_dims(), (0, 0));
    assert_eq!(capture.take_ready(0), Some(second.frame));
    assert!(capture.delivered());
    assert_eq!(capture.last_dims(), (10, 10));
    // Only the buffer of the frame that was delivered is used again.
    let third = capture.begin_capture(10, 10).unwrap_or_else(|_| panic!());
    assert_eq!(third.frame.buffer, second.frame.buffer);
    let fourth = capture.begin_capture(10, 10).unwrap_or_else(|_| panic!());
    assert!(fourth.new_buffer);
}
