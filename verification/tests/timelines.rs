use render_to_video::clock::TimeLimit;
use render_to_video::error::RenderError;
use render_to_video::live::{data_tick_range, first_live_tick};
use render_to_video::live_timeline::{
    conclude_live_timeline, no_sequence_timeline_error, pick_sequence_timeline, poll_live_timeline,
    requested_timeline, TimelinePoll, TIMELINE_WAIT_NANOS,
};
use render_to_video::producer::ProducerStatus;
use render_to_video::schedule::{resolve_frame_schedule, resolve_timeline};
use render_to_video::timeline::{TickRange, TimeType, Timeline, TimelineName, TimelineTable};

fn name(text: &str) -> TimelineName {
    TimelineName::try_new(text).unwrap()
}

fn table(entries: &[(&str, TimeType, Option<(i64, i64)>)]) -> TimelineTable {
    let mut table = TimelineTable::new();
    for (text, typ, range) in entries {
        table.insert(Timeline {
            name: name(text),
            typ: *typ,
            range: range.map(|(min, max)| TickRange { min, max }),
        });
    }
    table
}

fn picked(table: &TimelineTable, requested: Option<&str>) -> Option<String> {
    let requested = requested.map(name);
    pick_sequence_timeline(table, requested.as_ref())
        .unwrap()
        .map(|found| found.as_str().to_owned())
}

#[test]
fn names_are_not_empty() {
    assert!(matches!(TimelineName::try_new(""), Err(RenderError::EmptyTimelineName)));
    assert_eq!(name("frame").as_str(), "frame");
    assert_eq!(TimelineName::log_tick().as_str(), "log_tick");
    assert!(requested_timeline(None).unwrap().is_none());
    assert_eq!(requested_timeline(Some("x")).unwrap().unwrap().as_str(), "x");
    assert!(matches!(requested_timeline(Some("")), Err(RenderError::EmptyTimelineName)));
}

#[test]
fn a_table_holds_each_name_once_and_in_order() {
    let mut table = table(&[
        ("b", TimeType::DurationNs, Some((1, 2))),
        ("ab", TimeType::Sequence, None),
        ("a", TimeType::Sequence, None),
        ("\u{e9}", TimeType::Sequence, None),
        ("B", TimeType::Sequence, None),
    ]);
    table.insert(Timeline {
        name: name("a"),
        typ: TimeType::TimestampNs,
        range: Some(TickRange { min: 3, max: 4 }),
    });
    let names: Vec<String> = table.names().iter().map(|n| n.as_str().to_owned()).collect();
    assert_eq!(names, ["B", "a", "ab", "b", "\u{e9}"]);
    assert_eq!(table.get(&name("a")).unwrap().typ, TimeType::TimestampNs);
    assert_eq!(table.get(&name("a")).unwrap().range, Some(TickRange { min: 3, max: 4 }));
    assert_eq!(table.get(&name("b")).unwrap().range, Some(TickRange { min: 1, max: 2 }));
    assert_eq!(table.get(&name("ab")).unwrap().typ, TimeType::Sequence);
    assert!(table.get(&name("c")).is_none());
}

#[test]
fn the_only_sequence_is_picked() {
    let both = table(&[
        ("log_tick", TimeType::Sequence, None),
        ("log_time", TimeType::TimestampNs, None),
        ("frame", TimeType::Sequence, None),
    ]);
    assert_eq!(picked(&both, None).as_deref(), Some("frame"));
    assert_eq!(picked(&both, Some("log_tick")).as_deref(), Some("log_tick"));
    assert_eq!(picked(&both, Some("later")), None);
}

#[test]
fn log_tick_is_never_picked_by_itself() {
    let builtin = table(&[
        ("log_tick", TimeType::Sequence, None),
        ("log_time", TimeType::TimestampNs, None),
    ]);
    assert_eq!(picked(&builtin, None), None);
    assert_eq!(picked(&TimelineTable::new(), None), None);
}

#[test]
fn several_sequences_are_ambiguous() {
    let several = table(&[
        ("c", TimeType::Sequence, None),
        ("t", TimeType::DurationNs, None),
        ("a", TimeType::Sequence, None),
        ("b", TimeType::Sequence, None),
    ]);
    let err = pick_sequence_timeline(&several, None).unwrap_err();
    assert_eq!(
        err.message(),
        "Multiple sequence timelines found (\"a\", \"b\", \"c\"); pass --timeline to pick one."
    );
    assert_eq!(picked(&several, Some("b")).as_deref(), Some("b"));
}

#[test]
fn a_temporal_timeline_is_refused() {
    let temporal = table(&[("t", TimeType::DurationNs, None)]);
    let err = pick_sequence_timeline(&temporal, Some(&name("t"))).unwrap_err();
    assert_eq!(
        err.message(),
        "Timeline \"t\" is a temporal (DurationNs) timeline; listen mode steps an integer \
         (sequence) timeline — log ticks with e.g. `rr.set_time_sequence(…)`."
    );
}

#[test]
fn the_final_error_lists_what_was_logged() {
    let logged = table(&[
        ("log_tick", TimeType::Sequence, None),
        ("log_time", TimeType::TimestampNs, None),
    ]);
    assert_eq!(
        no_sequence_timeline_error(&logged, Some(&name("frame"))).message(),
        "Timeline \"frame\" never appeared in the live stream. Available timelines: \
         \"log_tick\" (Sequence), \"log_time\" (TimestampNs)"
    );
    assert_eq!(
        no_sequence_timeline_error(&logged, None).message(),
        "No producer-defined sequence (integer) timeline appeared in the live stream \
         (the SDK-builtin `log_tick` is never auto-picked; it advances per log call, \
         not per frame). Timelines seen: \"log_tick\" (Sequence), \"log_time\" (TimestampNs). \
         Log integer ticks with e.g. `rr.set_time_sequence(\"frame\", n)`, pass --timeline \
         explicitly (e.g. --timeline log_tick), or render from a file instead."
    );
}

#[test]
fn a_live_timeline_is_waited_for() {
    let none = TimelineTable::new();
    let some = table(&[("frame", TimeType::Sequence, None)]);
    let connected = ProducerStatus::Connected;
    let gone = ProducerStatus::Disconnected;

    assert!(matches!(
        poll_live_timeline(&some, None, connected, 0),
        Ok(TimelinePoll::Found(found)) if found.as_str() == "frame"
    ));
    assert!(matches!(
        poll_live_timeline(&none, None, connected, TIMELINE_WAIT_NANOS),
        Ok(TimelinePoll::Wait)
    ));
    assert!(matches!(
        poll_live_timeline(&none, None, connected, TIMELINE_WAIT_NANOS + 1),
        Err(RenderError::NoSequenceTimeline { .. })
    ));
    assert!(matches!(
        poll_live_timeline(&none, None, gone, TIMELINE_WAIT_NANOS + 1),
        Ok(TimelinePoll::Drain)
    ));
    let temporal = table(&[("t", TimeType::DurationNs, None)]);
    assert!(matches!(
        poll_live_timeline(&temporal, Some(&name("t")), connected, 0),
        Err(RenderError::NotASequence { .. })
    ));

    assert_eq!(conclude_live_timeline(&some, None).unwrap().as_str(), "frame");
    assert!(matches!(
        conclude_live_timeline(&none, Some(&name("x"))),
        Err(RenderError::TimelineNeverAppeared { .. })
    ));
}

#[test]
fn the_first_live_tick_is_the_lowest() {
    let live = table(&[("frame", TimeType::Sequence, Some((-3, 9))), ("e", TimeType::Sequence, None)]);
    assert_eq!(
        data_tick_range(Some(&live), &name("frame")),
        Some(TickRange { min: -3, max: 9 })
    );
    assert_eq!(data_tick_range(Some(&live), &name("e")), None);
    assert_eq!(data_tick_range(Some(&live), &name("x")), None);
    assert_eq!(data_tick_range(None, &name("frame")), None);
    assert_eq!(first_live_tick(Some(&live), &name("frame")).unwrap(), -3);
    assert_eq!(
        first_live_tick(Some(&live), &name("e")).unwrap_err().message(),
        "Timeline \"e\" disappeared after resolving"
    );
}

#[test]
fn a_file_timeline_is_resolved() {
    let file = table(&[
        ("frame", TimeType::Sequence, Some((2, 8))),
        ("empty", TimeType::DurationNs, None),
    ]);
    let frame = name("frame");
    let found = resolve_timeline(Some(&file), "rec", Some("frame"), None).unwrap();
    assert_eq!(found.name.as_str(), "frame");
    assert_eq!(found.typ, TimeType::Sequence);
    assert_eq!(found.range, TickRange { min: 2, max: 8 });
    let shown = resolve_timeline(Some(&file), "rec", None, Some(&frame)).unwrap();
    assert_eq!(shown.name.as_str(), "frame");

    let message = |res: Result<_, RenderError>| -> String {
        let res: Result<render_to_video::schedule::ResolvedTimeline, RenderError> = res;
        res.unwrap_err().message()
    };
    assert_eq!(
        message(resolve_timeline(None, "\"rec\"", None, Some(&frame))),
        "Recording \"rec\" disappeared after loading"
    );
    assert_eq!(
        message(resolve_timeline(Some(&file), "rec", Some(""), None)),
        "Timeline names must not be empty"
    );
    assert_eq!(
        message(resolve_timeline(Some(&file), "rec", Some("x"), Some(&frame))),
        "Timeline \"x\" not found in recording. Available timelines: \"empty\", \"frame\""
    );
    assert_eq!(
        message(resolve_timeline(Some(&file), "\"rec\"", None, None)),
        "No time control for recording \"rec\" — no timeline to render"
    );
    assert_eq!(
        message(resolve_timeline(Some(&file), "rec", None, Some(&name("x")))),
        "Timeline \"x\" has no type"
    );
    assert_eq!(
        message(resolve_timeline(Some(&file), "rec", Some("empty"), None)),
        "Timeline \"empty\" contains no data"
    );
}

#[test]
fn the_schedule_follows_start_and_end() {
    let range = TickRange { min: 100, max: 110 };
    let all = resolve_frame_schedule(TimeType::Sequence, range, None, None).unwrap();
    assert_eq!((all.first_frame_time, all.last_frame_time), (100, 110));
    assert_eq!(all.exact_num_frames(), Some(11));
    let times: Vec<i64> = (0..11).map(|i| all.exact_frame_time(i)).collect();
    assert_eq!(times, (100..=110).collect::<Vec<i64>>());

    let part = resolve_frame_schedule(TimeType::Sequence, range, Some(3), Some(5)).unwrap();
    assert_eq!((part.first_frame_time, part.last_frame_time), (103, 105));
    assert_eq!(part.exact_num_frames(), Some(3));

    let one = resolve_frame_schedule(TimeType::Sequence, range, Some(10), None).unwrap();
    assert_eq!(one.exact_num_frames(), Some(1));

    let beyond = resolve_frame_schedule(TimeType::Sequence, range, Some(-5), Some(50)).unwrap();
    assert_eq!((beyond.first_frame_time, beyond.last_frame_time), (95, 150));

    let temporal = resolve_frame_schedule(TimeType::DurationNs, range, None, None).unwrap();
    assert_eq!(temporal.exact_num_frames(), None);
    assert_eq!(temporal.num_frames(4), 5);
    assert_eq!(temporal.frame_time(7), 107);
}

#[test]
fn a_schedule_has_to_touch_the_data() {
    let range = TickRange { min: -5, max: 5 };
    let err = resolve_frame_schedule(TimeType::Sequence, range, Some(4), Some(3)).unwrap_err();
    assert_eq!(err.message(), "--end must be at or after --start");
    let err = resolve_frame_schedule(TimeType::Sequence, range, Some(11), Some(12)).unwrap_err();
    assert_eq!(
        err.message(),
        "Requested time span is entirely outside the recording's data range (-5..=5)"
    );
    let err = resolve_frame_schedule(TimeType::Sequence, range, Some(-9), Some(-1)).unwrap_err();
    assert!(matches!(err, RenderError::OutsideData { min: -5, max: 5 }));
}

#[test]
fn a_span_too_long_for_a_double_is_not_exact() {
    let limit = 9_007_199_254_740_992i64;
    let longest = TickRange { min: 0, max: limit };
    let schedule = resolve_frame_schedule(TimeType::Sequence, longest, None, None).unwrap();
    assert_eq!(schedule.exact_num_frames(), Some(limit as u64 + 1));
    let longer = TickRange { min: -1, max: limit };
    let schedule = resolve_frame_schedule(TimeType::Sequence, longer, None, None).unwrap();
    assert_eq!(schedule.exact_num_frames(), None);
}

#[test]
fn offsets_count_in_seconds_or_ticks() {
    assert_eq!(TimeType::Sequence.offset_unit(), 1);
    assert_eq!(TimeType::DurationNs.offset_unit(), 1_000_000_000);
    assert_eq!(TimeType::TimestampNs.offset_unit(), 1_000_000_000);
    assert_eq!(TimeType::TimestampNs.label(), "TimestampNs");
}

#[test]
fn time_limits_in_words() {
    let timeouts = [
        RenderError::LoadTimeout { limit: TimeLimit::new(300, 0) },
        RenderError::ConnectTimeout { limit: TimeLimit::new(1, 500_000_000) },
        RenderError::DataTimeout { limit: TimeLimit::new(0, 2_000_000) },
    ];
    let words: Vec<String> = timeouts.iter().map(|err| err.message()).collect();
    assert_eq!(
        words,
        [
            "Timed out after 300s waiting for the recording to load. Did the file open correctly?",
            "Timed out after 1.5s waiting for an SDK client to connect. \
             Is the producer pointed at this address?",
            "Timed out after 2ms: an SDK client connected, but no data arrived.",
        ]
    );
    assert_eq!(
        RenderError::DisconnectedWithoutData.message(),
        "The SDK client disconnected without logging any data."
    );
    assert_eq!(RenderError::NoRenderState.message(), "Headless viewer has no wgpu render state");
    assert_eq!(RenderError::EmptySurface.message(), "Cannot capture an empty surface");
}
