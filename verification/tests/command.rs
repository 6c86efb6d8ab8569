use render_to_video::clock::TimeLimit;
use render_to_video::command::{
    conclude, finish_encoding, parse_size, ArgumentError, CodecArg, EncoderSession, FrameStep,
    RenderCommand, RenderSource, RunFailure,
};
use render_to_video::encode::ffmpeg_cli::{size_label, ExitReport};
use render_to_video::encode::{EncodeError, VideoEncodeCodec};

#[test]
fn parse_size_accepts_wxh() {
    assert_eq!(parse_size("1920x1080").unwrap(), (1920, 1080));
    assert_eq!(parse_size("640X480").unwrap(), (640, 480));
    assert!(parse_size("1920").is_err());
    assert!(parse_size("0x100").is_err());
    assert!(parse_size("axb").is_err());
}

#[test]
fn parse_size_trims_and_accepts_a_plus_sign() {
    assert_eq!(parse_size(" 640 x\t+480\n").unwrap(), (640, 480));
    assert_eq!(parse_size("\u{2003}7\u{3000}X\u{a0}8").unwrap(), (7, 8));
    assert_eq!(parse_size("007x08").unwrap(), (7, 8));
}

#[test]
fn parse_size_bounds() {
    assert_eq!(parse_size("4294967295x1").unwrap(), (4294967295, 1));
    assert!(parse_size("4294967296x1").is_err());
    assert!(parse_size("1x99999999999999999999999999").is_err());
    assert!(parse_size("-1x1").is_err());
    assert!(parse_size("1x").is_err());
    assert!(parse_size("x1").is_err());
    assert!(parse_size("+x+").is_err());
    assert!(parse_size("1x2x3").is_err());
    assert!(parse_size("1_0x1").is_err());
    assert!(parse_size("").is_err());
}

#[test]
fn size_errors_in_words() {
    let invalid = parse_size("a\"b").unwrap_err();
    assert!(matches!(&invalid, ArgumentError::InvalidSize { size } if size == "a\"b"));
    assert_eq!(
        invalid.message(),
        "Invalid --size \"a\\\"b\": expected <width>x<height>, e.g. 1920x1080"
    );
    let zero = parse_size("1x0").unwrap_err();
    assert!(matches!(zero, ArgumentError::ZeroSize));
    assert_eq!(zero.message(), "--size must be nonzero");
}

#[test]
fn written_sizes_read_back() {
    for (w, h) in [(1u32, 1u32), (9, 10), (1920, 1080), (4294967295, 4294967295)] {
        assert_eq!(parse_size(&size_label(w, h)).unwrap(), (w, h));
    }
    assert_eq!(size_label(1920, 1080), "1920x1080");
}

fn arguments() -> RenderCommand {
    RenderCommand {
        url_or_path: Some("recording.rrd".to_owned()),
        listen: false,
        output: "out.mp4".to_owned(),
        fps: "29.97".to_owned(),
        fps_positive: true,
        connect_timeout_positive: true,
        connect_timeout: Ok(TimeLimit::new(60, 0)),
        size: "640x480".to_owned(),
        timeline: Some("frame".to_owned()),
        codec: CodecArg::H265,
        crf: 18,
        deterministic: true,
        min_settle_steps: 3,
        max_settle_steps: 30,
        ffmpeg_path: Some("/opt/ffmpeg".to_owned()),
    }
}

fn settings_of(step: FrameStep) -> render_to_video::encode::EncodeSettings {
    match step {
        FrameStep::Start(settings) => settings,
        FrameStep::Write => panic!("the encoder has to be started first"),
    }
}

#[test]
fn a_plan_follows_the_arguments() {
    let mut plan = arguments().run().unwrap_or_else(|err| panic!("{}", err.message()));
    assert!(matches!(&plan.source, RenderSource::File(input) if input == "recording.rrd"));
    assert_eq!((plan.options.width, plan.options.height), (640, 480));
    assert_eq!(plan.options.timeline.as_deref(), Some("frame"));
    assert!(plan.options.deterministic);
    assert_eq!(plan.options.min_settle_steps, 3);
    assert_eq!(plan.options.max_settle_steps, 30);
    assert_eq!(plan.options.connect_timeout.nanos(), 60_000_000_000);
    assert_eq!(plan.options.load_timeout.nanos(), 300_000_000_000);
    assert_eq!(plan.options.settle_sleep.nanos(), 5_000_000);
    let settings = settings_of(plan.session.receive(4, 2, &[0; 32]).unwrap());
    assert_eq!((settings.width, settings.height), (4, 2));
    assert_eq!(settings.fps, "29.97");
    assert_eq!(settings.codec, VideoEncodeCodec::H265);
    assert_eq!(settings.crf, 18);
    assert_eq!(settings.ffmpeg_path.as_deref(), Some("/opt/ffmpeg"));
    let mut command = plan.session.command().unwrap();
    assert_eq!(command.get_args().last().unwrap(), "out.mp4");
    assert_eq!(command.as_inner().get_program(), "/opt/ffmpeg");

    let mut live = arguments();
    live.url_or_path = None;
    live.listen = true;
    live.codec = CodecArg::H264;
    let mut plan = live.run().unwrap_or_else(|err| panic!("{}", err.message()));
    assert!(matches!(plan.source, RenderSource::Live));
    let settings = settings_of(plan.session.receive(2, 2, &[0; 16]).unwrap());
    assert_eq!(settings.codec, VideoEncodeCodec::H264);
}

#[test]
fn the_first_faulty_argument_counts() {
    let mut command = arguments();
    command.fps_positive = false;
    command.connect_timeout_positive = false;
    command.size = "none".to_owned();
    let err = command.run().err().unwrap();
    assert_eq!(err.message(), "--fps must be positive");

    let mut command = arguments();
    command.connect_timeout_positive = false;
    command.size = "none".to_owned();
    let err = command.run().err().unwrap();
    assert_eq!(err.message(), "--connect-timeout must be positive");

    let mut command = arguments();
    command.size = "none".to_owned();
    command.connect_timeout = Err("too large".to_owned());
    assert!(matches!(command.run(), Err(ArgumentError::InvalidSize { .. })));

    let mut command = arguments();
    command.connect_timeout = Err("too large".to_owned());
    let err = command.run().err().unwrap();
    assert_eq!(err.message(), "Bad --connect-timeout: too large");
}

fn session() -> EncoderSession {
    EncoderSession::new("30".to_owned(), VideoEncodeCodec::H264, 23, None, "o.mp4".to_owned())
}

#[test]
fn every_frame_is_written_by_one_encoder() {
    let mut session = session();
    let settings = settings_of(session.receive(4, 2, &[1; 32]).unwrap());
    assert_eq!((settings.width, settings.height), (4, 2));
    assert!(settings.ffmpeg_path.is_none());
    assert!(session.started(&[1; 32], Ok(true)).is_ok());
    assert!(session.frame_written(Ok(())).is_ok());
    assert!(matches!(session.receive(4, 2, &[2; 32]), Ok(FrameStep::Write)));
    assert!(session.frame_written(Ok(())).is_ok());
    // The length counts, not the size that comes with a later frame.
    assert!(matches!(session.receive(8, 1, &[3; 32]), Ok(FrameStep::Write)));
    assert!(session.frame_written(Ok(())).is_ok());

    let mut encoder = session.close("\"o.mp4\"").ok().unwrap();
    assert_eq!((encoder.width(), encoder.height()), (4, 2));
    assert_eq!(encoder.num_frames_written(), 3);
    assert!(encoder.close());
    let exit = ExitReport { success: true, status: "exit status: 0".to_owned() };
    assert_eq!(finish_encoding(encoder, Ok(exit), None).unwrap(), 3);
}

#[test]
fn a_session_can_fail_at_each_step() {
    let mut failed = session();
    failed.receive(0, 2, &[]).unwrap();
    assert!(matches!(failed.command(), Err(EncodeError::ZeroSize { width: 0, height: 2 })));
    assert!(matches!(failed.started(&[], Ok(true)), Err(EncodeError::ZeroSize { .. })));

    let mut failed = session();
    failed.receive(2, 2, &[0; 16]).unwrap();
    assert!(matches!(
        failed.started(&[0; 16], Err("not found".to_owned())),
        Err(EncodeError::FailedToStartFfmpeg(cause)) if cause == "not found"
    ));

    let mut failed = session();
    failed.receive(2, 2, &[0; 16]).unwrap();
    assert!(matches!(failed.started(&[0; 16], Ok(false)), Err(EncodeError::NoStdin)));

    let mut failed = session();
    failed.receive(2, 2, &[0; 15]).unwrap();
    assert!(matches!(
        failed.started(&[0; 15], Ok(true)),
        Err(EncodeError::BadFrameSize { expected: 16, got: 15, width: 2, height: 2 })
    ));

    let mut failed = session();
    failed.receive(2, 2, &[0; 16]).unwrap();
    failed.started(&[0; 16], Ok(true)).unwrap();
    failed.frame_written(Ok(())).unwrap();
    assert!(matches!(
        failed.receive(2, 2, &[0; 17]),
        Err(EncodeError::BadFrameSize { expected: 16, got: 17, width: 2, height: 2 })
    ));

    let mut failed = session();
    failed.receive(2, 2, &[0; 16]).unwrap();
    failed.started(&[0; 16], Ok(true)).unwrap();
    assert!(matches!(
        failed.frame_written(Err("broken pipe".to_owned())),
        Err(EncodeError::WriteFailed(cause)) if cause == "broken pipe"
    ));
}

#[test]
fn a_session_without_frames_ends_in_an_error() {
    let err = session().close("\"o.mp4\"").err().unwrap();
    assert_eq!(
        err.message(),
        "No frames were rendered — nothing written to \"o.mp4\""
    );
}

#[test]
fn a_failed_rendering_counts_first() {
    assert!(matches!(conclude::<u8, &str>(Ok(1), Some(Ok(5))), Ok((1, 5))));
    assert!(matches!(
        conclude::<u8, &str>(Err("render"), Some(Err("encode"))),
        Err(RunFailure::Failed("render"))
    ));
    assert!(matches!(
        conclude::<u8, &str>(Ok(1), Some(Err("encode"))),
        Err(RunFailure::Failed("encode"))
    ));
    assert!(matches!(
        conclude::<u8, &str>(Err("render"), None),
        Err(RunFailure::EncoderPanicked)
    ));
}
