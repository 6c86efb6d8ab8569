use ffmpeg_sidecar::command::FfmpegCommand;
use render_to_video::encode::ffmpeg_cli::{ExitReport, StderrTail, KEEP_LAST_LINES};
use render_to_video::encode::{EncodeError, EncodeSettings, FFmpegCliEncoder, VideoEncodeCodec};

fn settings(width: u32, height: u32) -> EncodeSettings {
    EncodeSettings {
        width,
        height,
        fps: "30".to_owned(),
        codec: VideoEncodeCodec::H264,
        crf: 23,
        ffmpeg_path: None,
    }
}

fn arguments(command: &FfmpegCommand) -> Vec<String> {
    command.get_args().map(|arg| arg.to_str().unwrap().to_owned()).collect()
}

#[test]
fn codecs_name_their_encoders() {
    assert_eq!(VideoEncodeCodec::default(), VideoEncodeCodec::H264);
    assert_eq!(VideoEncodeCodec::H264.ffmpeg_encoder_name(), "libx264");
    assert_eq!(VideoEncodeCodec::H265.ffmpeg_encoder_name(), "libx265");
}

#[test]
fn configured_command_line() {
    let mut command = FfmpegCommand::new_with_path("ffmpeg");
    let before = arguments(&command);
    let settings = EncodeSettings {
        width: 1921,
        height: 1080,
        fps: "29.97".to_owned(),
        codec: VideoEncodeCodec::H265,
        crf: 18,
        ffmpeg_path: Some("/opt/bin/ffmpeg".to_owned()),
    };
    settings.configure(&mut command, "out dir/out.mp4").unwrap();
    let added = arguments(&command)[before.len()..].to_vec();
    assert_eq!(
        added,
        [
            "-hide_banner",
            "-f",
            "rawvideo",
            "-pix_fmt",
            "rgba",
            "-s",
            "1921x1080",
            "-r",
            "29.97",
            "-i",
            "-",
            "-vf",
            "crop=trunc(iw/2)*2:trunc(ih/2)*2",
            "-c:v",
            "libx265",
            "-pix_fmt",
            "yuv420p",
            "-crf:v",
            "18",
            "-an",
            "-y",
            "out dir/out.mp4",
        ]
    );
    assert_eq!(arguments(&command)[..before.len()], before[..]);

    let mut whole = settings.command("out dir/out.mp4").unwrap();
    assert_eq!(arguments(&whole)[..2], ["-loglevel", "level+info"]);
    assert_eq!(arguments(&whole)[2..], added);
    assert_eq!(whole.as_inner().get_program(), "/opt/bin/ffmpeg");
}

#[test]
fn without_a_path_ffmpeg_is_looked_up() {
    let mut command = settings(2, 2).command("o.mp4").unwrap();
    assert_eq!(arguments(&command)[..3], ["-loglevel", "level+info", "-hide_banner"]);
    assert!(command.as_inner().get_program().to_str().unwrap().ends_with("ffmpeg"));
    assert_eq!(settings(2, 2).clone().ffmpeg_path, None);
}

#[test]
fn a_size_without_pixels_is_refused() {
    for (width, height) in [(0, 4), (4, 0), (0, 0)] {
        let mut command = FfmpegCommand::new_with_path("ffmpeg");
        let before = arguments(&command);
        let err = settings(width, height).configure(&mut command, "o.mp4").unwrap_err();
        assert_eq!(
            err.message(),
            format!("Video dimensions must be nonzero, got {width}x{height}")
        );
        assert_eq!(arguments(&command), before);
        assert!(matches!(
            settings(width, height).command("o.mp4"),
            Err(EncodeError::ZeroSize { .. })
        ));
        assert!(matches!(
            FFmpegCliEncoder::new(&settings(width, height), Ok(true)),
            Err(EncodeError::ZeroSize { .. })
        ));
    }
}

#[test]
fn starting_can_fail() {
    let err = FFmpegCliEncoder::new(&settings(2, 2), Err("not found".to_owned())).err().unwrap();
    assert_eq!(err.message(), "Failed to start FFmpeg: not found");
    let err = FFmpegCliEncoder::new(&settings(2, 2), Ok(false)).err().unwrap();
    assert_eq!(err.message(), "FFmpeg did not provide a stdin pipe");
}

#[test]
fn frames_are_checked_and_counted() {
    let mut encoder = FFmpegCliEncoder::new(&settings(3, 2), Ok(true)).ok().unwrap();
    assert_eq!((encoder.width(), encoder.height()), (3, 2));
    assert_eq!(encoder.num_frames_written(), 0);

    assert!(encoder.write_frame(&[7; 24]).is_ok());
    assert!(encoder.frame_written(Ok(())).is_ok());
    assert_eq!(encoder.num_frames_written(), 1);

    let err = encoder.write_frame(&[7; 23]).unwrap_err();
    assert_eq!(err.message(), "Frame size mismatch: expected 24 bytes (3x2 RGBA), got 23");

    assert!(encoder.write_frame(&[8; 24]).is_ok());
    let err = encoder.frame_written(Err("broken pipe".to_owned())).unwrap_err();
    assert_eq!(err.message(), "Failed to write frame to FFmpeg: broken pipe");
    assert_eq!(encoder.num_frames_written(), 1);

    assert!(encoder.close());
    assert!(!encoder.close());
    assert!(matches!(encoder.write_frame(&[7; 24]), Err(EncodeError::NoStdin)));
    assert!(matches!(encoder.write_frame(&[7; 1]), Err(EncodeError::BadFrameSize { .. })));
}

fn encoder() -> FFmpegCliEncoder {
    let mut encoder = FFmpegCliEncoder::new(&settings(2, 2), Ok(true)).ok().unwrap();
    assert!(encoder.close());
    encoder
}

#[test]
fn finishing_reports_how_ffmpeg_ended() {
    let good = ExitReport { success: true, status: "exit status: 0".to_owned() };
    assert!(encoder().finish(Ok(good), None).is_ok());

    let bad = ExitReport { success: false, status: "exit status: 1".to_owned() };
    let lines = vec!["one".to_owned(), "two".to_owned(), "three".to_owned()];
    let err = encoder().finish(Ok(bad), Some(lines)).unwrap_err();
    assert_eq!(
        err.message(),
        "FFmpeg exited with exit status: 1. Last output:\none\ntwo\nthree"
    );

    let bad = ExitReport { success: false, status: "signal: 9".to_owned() };
    let err = encoder().finish(Ok(bad), None).unwrap_err();
    assert_eq!(err.message(), "FFmpeg exited with signal: 9. Last output:\n");

    let err = encoder().finish(Err("no child".to_owned()), None).unwrap_err();
    assert_eq!(err.message(), "Failed to wait for FFmpeg to exit: no child");
}

#[test]
fn only_the_last_lines_are_kept() {
    let mut tail = StderrTail::new();
    for i in 0..5 {
        tail.push(format!("line {i}"));
    }
    let few = tail.into_lines();
    assert_eq!(few, ["line 0", "line 1", "line 2", "line 3", "line 4"]);

    let mut tail = StderrTail::new();
    for i in 0..100 {
        tail.push(format!("line {i}"));
    }
    let kept = tail.into_lines();
    assert_eq!(kept.len(), KEEP_LAST_LINES);
    assert_eq!(kept[0], "line 70");
    assert_eq!(kept[29], "line 99");
}
