use render_to_video::capture::{
    file_progress_due, live_progress_due, CaptureAction, CaptureLoop, RenderVideoOptions,
};
use render_to_video::clock::TimeLimit;
use render_to_video::error::RenderError;
use render_to_video::live::{LiveAction, LiveEvent, LiveLoop};
use render_to_video::producer::ProducerStatus;
use render_to_video::recorder::Recorder;
use render_to_video::run::{
    run_render_app, run_render_listen_app, FileAction, FileEvent, ListenAction, ListenEvent,
};
use render_to_video::settle::{PassVerdict, SeekVerdict};
use render_to_video::timeline::{TickRange, TimelineName};
use render_to_video::wait::LoadLook;

fn range(min: i64, max: i64) -> Option<TickRange> {
    Some(TickRange { min, max })
}

#[test]
fn default_options() {
    let options = RenderVideoOptions::default();
    assert_eq!((options.width, options.height), (1920, 1080));
    assert!(options.timeline.is_none());
    assert!(!options.deterministic);
    assert_eq!(options.min_settle_steps, 6);
    assert_eq!(options.max_settle_steps, 240);
    assert_eq!(options.settle_sleep.nanos(), 5_000_000);
    assert_eq!(options.load_timeout.nanos(), 300_000_000_000);
    assert_eq!(options.connect_timeout.nanos(), 60_000_000_000);
}

#[test]
fn a_streaming_capture_warms_up_and_drains() {
    let mut capture = CaptureLoop::new(false, 3);
    let mut actions = Vec::new();
    for _ in 0..14 {
        actions.push(capture.next());
    }
    let mut expected = vec![CaptureAction::WarmUp; 8];
    expected.extend([
        CaptureAction::Frame(0),
        CaptureAction::Frame(1),
        CaptureAction::Frame(2),
        CaptureAction::Drain,
        CaptureAction::Finish,
        CaptureAction::Finish,
    ]);
    assert_eq!(actions, expected);
}

#[test]
fn a_deterministic_capture_only_captures() {
    let mut capture = CaptureLoop::new(true, 2);
    assert_eq!(capture.next(), CaptureAction::Frame(0));
    assert_eq!(capture.next(), CaptureAction::Frame(1));
    assert_eq!(capture.next(), CaptureAction::Finish);
}

#[test]
fn progress_once_per_output_second() {
    let due: Vec<u64> = (0..7).filter(|i| file_progress_due(*i, 7, 3)).collect();
    assert_eq!(due, [2, 5, 6]);
    let due: Vec<u64> = (1..8).filter(|n| live_progress_due(*n, 3)).collect();
    assert_eq!(due, [3, 6]);
}

#[test]
fn complete_ticks_render_and_the_newest_waits() {
    let mut live = LiveLoop::new(10);
    assert_eq!(live.next(LiveEvent::Pumped(range(10, 10))), LiveAction::AskStatus);
    assert_eq!(
        live.next(LiveEvent::Status(ProducerStatus::Connected)),
        LiveAction::Sleep
    );
    assert_eq!(live.next(LiveEvent::Slept), LiveAction::Pump);
    assert_eq!(live.next(LiveEvent::Pumped(None)), LiveAction::AskStatus);
    assert_eq!(
        live.next(LiveEvent::Status(ProducerStatus::Connected)),
        LiveAction::Sleep
    );
    assert_eq!(live.next(LiveEvent::Slept), LiveAction::Pump);
    // Sparse ticks: 11 and 12 are rendered too.
    assert_eq!(live.next(LiveEvent::Pumped(range(10, 13))), LiveAction::Render(10));
    assert_eq!(live.next(LiveEvent::Rendered), LiveAction::Render(11));
    assert_eq!(live.next(LiveEvent::Rendered), LiveAction::Render(12));
    assert_eq!(live.next(LiveEvent::Rendered), LiveAction::AskStatus);
    assert_eq!(
        live.next(LiveEvent::Status(ProducerStatus::Connected)),
        LiveAction::Pump
    );
    assert_eq!(live.next(LiveEvent::Pumped(range(10, 13))), LiveAction::AskStatus);
    assert_eq!(
        live.next(LiveEvent::Status(ProducerStatus::Disconnected)),
        LiveAction::Drain
    );
    assert_eq!(live.next(LiveEvent::Drained(range(10, 14))), LiveAction::Render(13));
    assert_eq!(live.next(LiveEvent::Rendered), LiveAction::Render(14));
    assert_eq!(live.next(LiveEvent::Rendered), LiveAction::Finish);
}

#[test]
fn a_single_tick_gives_one_frame() {
    let mut live = LiveLoop::new(-1);
    assert_eq!(live.next(LiveEvent::Pumped(range(-1, -1))), LiveAction::AskStatus);
    assert_eq!(
        live.next(LiveEvent::Status(ProducerStatus::Disconnected)),
        LiveAction::Drain
    );
    assert_eq!(live.next(LiveEvent::Drained(range(-1, -1))), LiveAction::Render(-1));
    assert_eq!(live.next(LiveEvent::Rendered), LiveAction::Finish);
}

#[test]
fn a_vanished_timeline_ends_a_live_render() {
    let mut live = LiveLoop::new(0);
    assert_eq!(live.next(LiveEvent::Pumped(None)), LiveAction::AskStatus);
    assert_eq!(
        live.next(LiveEvent::Status(ProducerStatus::NeverConnected)),
        LiveAction::Drain
    );
    assert_eq!(live.next(LiveEvent::Drained(None)), LiveAction::Finish);
}

fn options(deterministic: bool, load_timeout: TimeLimit) -> RenderVideoOptions {
    let mut options = RenderVideoOptions::default();
    options.deterministic = deterministic;
    options.load_timeout = load_timeout;
    options
}

fn listen_options(connect_timeout: TimeLimit) -> RenderVideoOptions {
    let mut options = RenderVideoOptions::default();
    options.connect_timeout = connect_timeout;
    options
}

fn loaded() -> FileEvent {
    FileEvent::Looked(LoadLook { receivers_empty: true, recording_active: true }, 2)
}

fn loading() -> FileEvent {
    FileEvent::Looked(LoadLook { receivers_empty: false, recording_active: true }, 1)
}

/// Renders passes of the frame that was asked for until its videos are up to date.
fn settle_in(recorder: &mut Recorder, count: u64) {
    let mut passes = recorder.frame_passes();
    for _ in 1..count {
        assert_eq!(passes.judge(false), PassVerdict::Again);
    }
    assert_eq!(passes.judge(true), PassVerdict::Fresh);
    recorder.passes_ended(passes);
}

/// Steps after a seek until nothing has been buffering for long enough.
fn settle_seek(recorder: &mut Recorder) -> u32 {
    let mut settle = recorder.seek_settle();
    let mut steps = 0;
    while settle.verdict() == SeekVerdict::Step {
        settle.stepped(false, false);
        steps += 1;
    }
    recorder.seek_ended(settle);
    steps
}

/// Captures the frame that was asked for, and collects those that are ready.
fn capture(recorder: &mut Recorder, max_in_flight: usize) -> usize {
    recorder.begin_capture(4, 2).unwrap_or_else(|_| panic!());
    collect(recorder, max_in_flight)
}

fn collect(recorder: &mut Recorder, max_in_flight: usize) -> usize {
    let mut count = 0;
    while recorder.take_ready(max_in_flight).is_some() {
        recorder.delivered();
        count += 1;
    }
    count
}

#[test]
fn a_deterministic_file_render_takes_time_before_it_captures() {
    let options = options(true, TimeLimit::new(300, 0));
    let mut recorder = Recorder::for_file(&options);
    let mut run = run_render_app(&options);
    let mut next = |event, recorder: &mut Recorder| {
        run.next(event, recorder).unwrap_or_else(|err| panic!("{}", err.message()))
    };
    assert_eq!(next(loading(), &mut recorder), FileAction::Pause);
    assert_eq!(next(FileEvent::Done, &mut recorder), FileAction::StepAndLook);
    assert_eq!(next(loaded(), &mut recorder), FileAction::Step);
    assert_eq!(next(FileEvent::Done, &mut recorder), FileAction::Resolve);
    assert_eq!(next(FileEvent::Scheduled(1), &mut recorder), FileAction::TakeTime);
    assert_eq!(next(FileEvent::Done, &mut recorder), FileAction::Step);
    assert_eq!(
        next(FileEvent::Done, &mut recorder),
        FileAction::Capture(CaptureAction::Frame(0))
    );
    assert_eq!(recorder.num_recorded(), 0);
    assert_eq!(settle_seek(&mut recorder), 6);
    recorder.rendered(640, 480, true);
    assert_eq!(
        next(FileEvent::Done, &mut recorder),
        FileAction::Capture(CaptureAction::Finish)
    );
    let stats = recorder.into_stats(TimelineName::log_tick());
    assert_eq!(stats.num_frames, 1);
    assert_eq!((stats.width, stats.height), (640, 480));
    assert_eq!(stats.timeline.as_str(), "log_tick");
}

#[test]
fn a_streaming_file_render_hands_on_every_frame() {
    let options = options(false, TimeLimit::new(300, 0));
    let mut recorder = Recorder::for_file(&options);
    let mut run = run_render_app(&options);
    let mut event = loading();
    let mut handed_on = 0;
    let mut captured = Vec::new();
    loop {
        let action = run
            .next(event, &mut recorder)
            .unwrap_or_else(|err| panic!("{}", err.message()));
        event = match action {
            FileAction::StepAndLook => loaded(),
            FileAction::Resolve => FileEvent::Scheduled(3),
            FileAction::TakeRenderState => FileEvent::RenderState(true),
            FileAction::Capture(CaptureAction::Frame(frame)) => {
                captured.push(frame);
                settle_in(&mut recorder, frame + 1);
                handed_on += capture(&mut recorder, 1);
                FileEvent::Done
            }
            FileAction::Capture(CaptureAction::Drain) => {
                assert_eq!(handed_on, 2);
                handed_on += collect(&mut recorder, 0);
                FileEvent::Done
            }
            FileAction::Capture(CaptureAction::Finish) => break,
            _ => FileEvent::Done,
        };
    }
    assert_eq!(captured, [0, 1, 2]);
    assert_eq!(handed_on, 3);
    let stats = recorder.into_stats(TimelineName::log_tick());
    assert_eq!(stats.num_frames, 3);
    assert_eq!((stats.width, stats.height), (4, 2));
    assert_eq!((stats.extra_passes, stats.frames_with_extra_passes), (3, 2));
}

#[test]
fn a_streaming_file_render_needs_a_render_state() {
    let options = options(false, TimeLimit::new(300, 0));
    let mut recorder = Recorder::for_file(&options);
    let mut run = run_render_app(&options);
    for event in [
        loading(),
        FileEvent::Done,
        loaded(),
        FileEvent::Done,
        FileEvent::Scheduled(2),
        FileEvent::Done,
    ] {
        run.next(event, &mut recorder).unwrap_or_else(|_| panic!());
    }
    assert_eq!(
        run.next(FileEvent::Done, &mut recorder).ok(),
        Some(FileAction::TakeRenderState)
    );
    assert!(matches!(
        run.next(FileEvent::RenderState(false), &mut recorder),
        Err(RenderError::NoRenderState)
    ));
}

#[test]
fn a_file_render_can_time_out() {
    let options = options(false, TimeLimit::new(0, 0));
    let mut run = run_render_app(&options);
    assert!(matches!(
        run.next(loading(), &mut Recorder::for_file(&options)),
        Err(RenderError::LoadTimeout { .. })
    ));
}

#[test]
fn the_largest_dimensions_count_while_streaming() {
    let options = options(false, TimeLimit::new(300, 0));
    let mut recorder = Recorder::for_file(&options);
    let mut run = run_render_app(&options);
    for event in [
        loading(),
        FileEvent::Done,
        loaded(),
        FileEvent::Done,
        FileEvent::Scheduled(2),
        FileEvent::Done,
        FileEvent::Done,
        FileEvent::RenderState(true),
        FileEvent::Done,
        FileEvent::Done,
        FileEvent::Done,
        FileEvent::Done,
        FileEvent::Done,
        FileEvent::Done,
        FileEvent::Done,
        FileEvent::Done,
    ] {
        run.next(event, &mut recorder).unwrap_or_else(|_| panic!());
    }
    settle_in(&mut recorder, 1);
    assert!(matches!(recorder.begin_capture(0, 2), Err(RenderError::EmptySurface)));
    recorder.begin_capture(640, 480).unwrap_or_else(|_| panic!());
    assert_eq!(collect(&mut recorder, 1), 0);
    run.next(FileEvent::Done, &mut recorder).unwrap_or_else(|_| panic!());
    settle_in(&mut recorder, 1);
    recorder.begin_capture(320, 600).unwrap_or_else(|_| panic!());
    assert_eq!(collect(&mut recorder, 1), 1);
    assert_eq!(collect(&mut recorder, 0), 1);
    let stats = recorder.into_stats(TimelineName::log_tick());
    assert_eq!((stats.width, stats.height), (640, 600));
}

#[test]
fn a_frame_is_captured_anyway_when_no_more_passes_are_allowed() {
    let mut options = options(false, TimeLimit::new(300, 0));
    options.max_settle_steps = 3;
    let mut recorder = Recorder::for_file(&options);
    let mut run = run_render_app(&options);
    let mut events = vec![
        loaded(),
        FileEvent::Done,
        FileEvent::Scheduled(1),
        FileEvent::Done,
        FileEvent::Done,
        FileEvent::RenderState(true),
    ];
    events.extend([FileEvent::Done; 8]);
    for event in events {
        run.next(event, &mut recorder).unwrap_or_else(|_| panic!());
    }
    let mut passes = recorder.frame_passes();
    assert_eq!(passes.judge(false), PassVerdict::Again);
    assert_eq!(passes.judge(false), PassVerdict::Again);
    assert_eq!(passes.judge(false), PassVerdict::Stale);
    recorder.passes_ended(passes);
    assert_eq!(capture(&mut recorder, 1), 0);
    assert_eq!(collect(&mut recorder, 0), 1);
    let stats = recorder.into_stats(TimelineName::log_tick());
    assert_eq!((stats.width, stats.height), (4, 2));
    assert_eq!((stats.extra_passes, stats.frames_with_extra_passes), (2, 1));
}

fn nothing_yet(status: ProducerStatus, now: u128) -> ListenEvent {
    ListenEvent::Looked { recording_active: false, status, now }
}

/// Runs a live render of ticks 5 to 6.
fn live_render(options: &RenderVideoOptions) -> (Vec<ListenAction>, u64) {
    let live = |event| ListenEvent::Live(event);
    let mut events = vec![
        nothing_yet(ProducerStatus::NeverConnected, 1),
        ListenEvent::Done,
        ListenEvent::Looked {
            recording_active: true,
            status: ProducerStatus::Connected,
            now: 2,
        },
        ListenEvent::Done,
        ListenEvent::Resolved(5),
        ListenEvent::Done,
        ListenEvent::Done,
    ];
    events.extend([ListenEvent::Done; 8]);
    events.extend([
        ListenEvent::RenderState(true),
        live(LiveEvent::Pumped(range(5, 6))),
        live(LiveEvent::Rendered),
        live(LiveEvent::Status(ProducerStatus::Disconnected)),
        live(LiveEvent::Drained(range(5, 6))),
        live(LiveEvent::Rendered),
        ListenEvent::Done,
    ]);
    let mut recorder = Recorder::for_live(options);
    let mut run = run_render_listen_app(options);
    let mut actions = Vec::new();
    for event in events {
        let action = run
            .next(event, &mut recorder)
            .unwrap_or_else(|err| panic!("{}", err.message()));
        match action {
            ListenAction::Live(LiveAction::Render(_)) => {
                settle_in(&mut recorder, 1);
                capture(&mut recorder, 1);
            }
            ListenAction::CollectRest => {
                assert_eq!(collect(&mut recorder, 0), 1);
            }
            _ => {}
        }
        actions.push(action);
    }
    (actions, recorder.into_stats(TimelineName::log_tick()).num_frames)
}

#[test]
fn a_live_render_from_start_to_end() {
    let (actions, num_frames) = live_render(&listen_options(TimeLimit::new(60, 0)));
    let mut expected = vec![
        ListenAction::Pause,
        ListenAction::StepAndLook,
        ListenAction::Step,
        ListenAction::ResolveTimeline,
        ListenAction::TakeTime(5),
        ListenAction::Step,
    ];
    expected.extend([ListenAction::WarmUp; 8]);
    expected.extend([
        ListenAction::TakeRenderState,
        ListenAction::Live(LiveAction::Pump),
        ListenAction::Live(LiveAction::Render(5)),
        ListenAction::Live(LiveAction::AskStatus),
        ListenAction::Live(LiveAction::Drain),
        ListenAction::Live(LiveAction::Render(6)),
        ListenAction::CollectRest,
        ListenAction::Finish,
    ]);
    assert_eq!(actions, expected);
    assert_eq!(num_frames, 2);
}

#[test]
fn other_options_do_not_change_a_live_render() {
    let mut other = listen_options(TimeLimit::new(60, 0));
    other.deterministic = true;
    other.min_settle_steps = 1;
    other.load_timeout = TimeLimit::new(0, 0);
    assert_eq!(live_render(&other), live_render(&listen_options(TimeLimit::new(60, 0))));
}

#[test]
fn a_live_render_can_fail_before_it_begins() {
    let options = listen_options(TimeLimit::new(1, 0));
    let late = 1_000_000_001;
    let mut recorder = Recorder::for_live(&options);

    let mut run = run_render_listen_app(&options);
    let never = ProducerStatus::NeverConnected;
    assert_eq!(
        run.next(nothing_yet(never, late), &mut recorder).ok(),
        Some(ListenAction::AskStatus)
    );
    assert!(matches!(
        run.next(ListenEvent::Status(never), &mut recorder),
        Err(RenderError::ConnectTimeout { .. })
    ));

    let mut run = run_render_listen_app(&options);
    assert_eq!(
        run.next(nothing_yet(never, late), &mut recorder).ok(),
        Some(ListenAction::AskStatus)
    );
    assert!(matches!(
        run.next(ListenEvent::Status(ProducerStatus::Connected), &mut recorder),
        Err(RenderError::DataTimeout { .. })
    ));

    let mut run = run_render_listen_app(&listen_options(TimeLimit::new(60, 0)));
    let gone = ProducerStatus::Disconnected;
    assert_eq!(
        run.next(nothing_yet(gone, 0), &mut recorder).ok(),
        Some(ListenAction::Pause)
    );
    assert_eq!(
        run.next(ListenEvent::Done, &mut recorder).ok(),
        Some(ListenAction::StepAndLook)
    );
    assert!(matches!(
        run.next(nothing_yet(gone, 10_000_000_001), &mut recorder),
        Err(RenderError::DisconnectedWithoutData)
    ));
}
