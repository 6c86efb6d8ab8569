//! Which times of a recording become frames.
use vstd::prelude::*;
use crate::error::RenderError;
use crate::live_timeline::opt_text;
use crate::timeline::{
    lookup, lookup_finds_exactly_the_named_entry, name_texts, names_of, TickRange, TimelineName,
    TimelineTable, TimelineView, TimeType,
};

verus! {

/// The timeline to march along, and the range of its data.
#[derive(Debug)]
pub struct ResolvedTimeline {
    pub name: TimelineName,
    pub typ: TimeType,
    pub range: TickRange,
}

/// What the timelines of a recording say about the one to render.
pub enum ResolveView {
    /// The recording is gone.
    Gone,
    /// A timeline without a name was asked for.
    EmptyName,
    /// The timeline asked for is not there.
    NotFound(Seq<char>),
    /// None was asked for, and the viewer picked none.
    NoChoice,
    /// The timeline that the viewer picked is not there.
    NoType(Seq<char>),
    /// Nothing was logged on the timeline.
    NoData(Seq<char>),
    /// This one.
    Resolved(Seq<char>, TimeType, TickRange),
}

/// What is known of the timeline called `name`.
pub open spec fn resolve_named(timelines: Seq<TimelineView>, name: Seq<char>) -> ResolveView {
    match lookup(timelines, name) {
        None => ResolveView::NoType(name),
        Some(timeline) => match timeline.range {
            None => ResolveView::NoData(name),
            Some(range) => ResolveView::Resolved(name, timeline.typ, range),
        },
    }
}

/// The timeline asked for has to be in the recording; if none was asked for it is the one that the
/// viewer shows. Either way it has to hold data.
pub open spec fn resolve(
    recording: Option<Seq<TimelineView>>,
    requested: Option<Seq<char>>,
    shown: Option<Seq<char>>,
) -> ResolveView {
    match recording {
        None => ResolveView::Gone,
        Some(timelines) => match requested {
            Some(name) => if name.len() == 0 {
                ResolveView::EmptyName
            } else if lookup(timelines, name) is None {
                ResolveView::NotFound(name)
            } else {
                resolve_named(timelines, name)
            },
            None => match shown {
                None => ResolveView::NoChoice,
                Some(name) => resolve_named(timelines, name),
            },
        },
    }
}

/// The contents of an optional table.
pub open spec fn opt_view(recording: Option<&TimelineTable>) -> Option<Seq<TimelineView>> {
    match recording {
        Some(timelines) => Some(timelines@),
        None => None,
    }
}

/// The characters of an optional string.
pub open spec fn opt_chars(text: Option<&str>) -> Option<Seq<char>> {
    match text {
        Some(text) => Some(text@),
        None => None,
    }
}

/// The names of all timelines of the recording.
pub open spec fn known_names(recording: Option<Seq<TimelineView>>) -> Seq<Seq<char>> {
    match recording {
        Some(timelines) => names_of(timelines),
        None => Seq::empty(),
    }
}

/// Is this the outcome that [`resolve`] asks for?
pub open spec fn reports_resolve(
    res: Result<ResolvedTimeline, RenderError>,
    verdict: ResolveView,
    known: Seq<Seq<char>>,
    recording_id: Seq<char>,
) -> bool {
    match verdict {
        ResolveView::Gone => res matches Err(RenderError::RecordingDisappeared { recording })
            && recording@ == recording_id,
        ResolveView::EmptyName => res matches Err(RenderError::EmptyTimelineName),
        ResolveView::NotFound(name) => {
            &&& res matches Err(RenderError::TimelineNotFound { requested, known: listed })
            &&& requested@ == name
            &&& name_texts(listed@) == known
        },
        ResolveView::NoChoice => res matches Err(RenderError::NoTimeControl { recording })
            && recording@ == recording_id,
        ResolveView::NoType(name) => res matches Err(RenderError::TimelineWithoutType { timeline })
            && timeline@ == name,
        ResolveView::NoData(name) => res matches Err(RenderError::TimelineWithoutData { timeline })
            && timeline@ == name,
        ResolveView::Resolved(name, typ, range) => {
            &&& res matches Ok(timeline)
            &&& timeline.name@ == name
            &&& timeline.typ == typ
            &&& timeline.range == range
        },
    }
}

/// Finds the timeline to march along: `requested` if given, and otherwise the one that the viewer
/// shows. `recording` is `None` if the recording called `recording_id` is gone.
pub fn resolve_timeline(
    recording: Option<&TimelineTable>,
    recording_id: &str,
    requested: Option<&str>,
    shown: Option<&TimelineName>,
) -> (res: Result<ResolvedTimeline, RenderError>)
    requires
        recording matches Some(timelines) ==> timelines.well_formed(),
    ensures
        reports_resolve(
            res,
            resolve(opt_view(recording), opt_chars(requested), opt_text(shown)),
            known_names(opt_view(recording)),
            recording_id@,
        ),
{
    let timelines = match recording {
        Some(timelines) => timelines,
        None => return Err(
            RenderError::RecordingDisappeared { recording: recording_id.to_owned() },
        ),
    };
    let name = match requested {
        Some(requested) => match TimelineName::try_new(requested) {
            Err(err) => return Err(err),
            Ok(name) => {
                if timelines.get(&name).is_none() {
                    return Err(
                        RenderError::TimelineNotFound {
                            requested: name,
                            known: timelines.names(),
                        },
                    );
                }
                name
            },
        },
        None => match shown {
            Some(shown) => shown.clone(),
            None => return Err(
                RenderError::NoTimeControl { recording: recording_id.to_owned() },
            ),
        },
    };
    let (typ, range) = match timelines.get(&name) {
        None => return Err(RenderError::TimelineWithoutType { timeline: name }),
        Some(timeline) => (timeline.typ, timeline.range),
    };
    match range {
        None => Err(RenderError::TimelineWithoutData { timeline: name }),
        Some(range) => Ok(ResolvedTimeline { name, typ, range }),
    }
}

/// The largest number up to which every whole number has an exact double-precision value.
pub const EXACT_LIMIT: u64 = 9_007_199_254_740_992;

/// The times to render: from the first frame to the last possible one, in units of the timeline.
#[derive(Debug, Clone, Copy, PartialEq, Eq, Structural)]
pub struct FrameSchedule {
    pub typ: TimeType,
    pub first_frame_time: i64,
    pub last_frame_time: i64,
}

/// The absolute time that an optional offset from `start` stands for; `fallback` without one.
pub open spec fn absolute(start: i64, offset: Option<i64>, fallback: i64) -> int {
    match offset {
        Some(offset) => start + offset,
        None => fallback as int,
    }
}

/// What a range of data and optional offsets from its beginning say about the time to render.
pub enum SpanView {
    /// The span would end before it starts.
    EndBeforeStart,
    /// The span does not touch the data.
    OutsideData,
    /// From the first to the last of these times.
    Span(int, int),
}

/// The time span to render. Without an offset it reaches to that end of the data.
pub open spec fn time_span(range: TickRange, start: Option<i64>, end: Option<i64>) -> SpanView {
    let first = absolute(range.min, start, range.min);
    let last = absolute(range.min, end, range.max);
    if last < first {
        SpanView::EndBeforeStart
    } else if first > range.max || last < range.min {
        SpanView::OutsideData
    } else {
        SpanView::Span(first, last)
    }
}

/// Does the absolute time that the offset stands for fit in 64 bits?
pub open spec fn offset_fits(start: i64, offset: Option<i64>) -> bool {
    offset matches Some(offset) ==> i64::MIN <= start + offset <= i64::MAX
}

/// The time span to render, from the range of the data and optional offsets from its beginning, in
/// units of the timeline. Without an offset it reaches to that end of the data.
pub fn resolve_frame_schedule(
    typ: TimeType,
    range: TickRange,
    start: Option<i64>,
    end: Option<i64>,
) -> (res: Result<FrameSchedule, RenderError>)
    requires
        offset_fits(range.min, start),
        offset_fits(range.min, end),
    ensures
        match time_span(range, start, end) {
            SpanView::EndBeforeStart => res matches Err(RenderError::EndBeforeStart),
            SpanView::OutsideData => res == Err::<FrameSchedule, RenderError>(
                RenderError::OutsideData { min: range.min, max: range.max },
            ),
            SpanView::Span(first, last) => {
                &&& res matches Ok(schedule)
                &&& schedule.typ == typ
                &&& schedule.first_frame_time == first
                &&& schedule.last_frame_time == last
                &&& schedule.well_formed()
            },
        },
{
    let first: i64 = match start {
        Some(offset) => range.min + offset,
        None => range.min,
    };
    let last: i64 = match end {
        Some(offset) => range.min + offset,
        None => range.max,
    };
    if last < first {
        return Err(RenderError::EndBeforeStart);
    }
    if first > range.max || last < range.min {
        return Err(RenderError::OutsideData { min: range.min, max: range.max });
    }
    Ok(FrameSchedule { typ, first_frame_time: first, last_frame_time: last })
}

impl FrameSchedule {
    /// The span does not end before it starts.
    pub open spec fn well_formed(&self) -> bool {
        self.first_frame_time <= self.last_frame_time
    }

    /// How much time lies between the first and the last possible frame.
    pub open spec fn span(&self) -> int {
        self.last_frame_time - self.first_frame_time
    }

    /// One time for each tick of the span, in order.
    pub open spec fn tick_times(&self) -> Seq<int> {
        Seq::new((self.span() + 1) as nat, |i: int| self.first_frame_time + i)
    }

    /// Can the frames be counted without rounding? On a sequence timeline every frame is one tick
    /// on, so they can, unless the span is too long for a double-precision number.
    pub open spec fn is_exact(&self) -> bool {
        self.typ == TimeType::Sequence && self.span() <= EXACT_LIMIT
    }

    /// The number of frames where they can be counted without rounding: one for each tick.
    pub fn exact_num_frames(&self) -> (count: Option<u64>)
        requires
            self.well_formed(),
        ensures
            count == if self.is_exact() {
                Some(self.tick_times().len() as u64)
            } else {
                None
            },
    {
        let span: i128 = self.last_frame_time as i128 - self.first_frame_time as i128;
        if self.typ == TimeType::Sequence && span <= EXACT_LIMIT as i128 {
            Some(span as u64 + 1)
        } else {
            None
        }
    }

    /// The time of a frame on a sequence timeline: computed from its index, not from the frame
    /// before it.
    pub fn exact_frame_time(&self, frame_idx: u64) -> (time: i64)
        requires
            self.well_formed(),
            self.is_exact(),
            frame_idx <= self.span(),
        ensures
            time == self.tick_times()[frame_idx as int],
    {
        (self.first_frame_time as i128 + frame_idx as i128) as i64
    }

    /// The number of frames on a temporal timeline, given how many whole time steps fit in the
    /// span: one more, for the first frame.
    pub fn num_frames(&self, whole_steps: u64) -> (count: u64)
        requires
            whole_steps < u64::MAX,
        ensures
            count == whole_steps + 1,
    {
        1 + whole_steps
    }

    /// The time of a frame, given its distance from the first frame.
    pub fn frame_time(&self, offset: i64) -> (time: i64)
        requires
            i64::MIN <= self.first_frame_time + offset <= i64::MAX,
        ensures
            time == self.first_frame_time + offset,
    {
        self.first_frame_time + offset
    }
}

/// Without `--start` and `--end` the whole range of the data is rendered.
pub proof fn whole_range_by_default(range: TickRange)
    requires
        range.min <= range.max,
    ensures
        time_span(range, None, None) == SpanView::Span(range.min as int, range.max as int),
{
}

/// Every frame of a sequence timeline is one tick on from the frame before it, and together they
/// are all the ticks of the span: the first, the last, and each one between.
pub proof fn frames_cover_every_tick(schedule: FrameSchedule)
    requires
        schedule.well_formed(),
    ensures
        schedule.tick_times().len() == schedule.span() + 1,
        schedule.tick_times().first() == schedule.first_frame_time,
        schedule.tick_times().last() == schedule.last_frame_time,
        forall|i: int|
            0 <= i < schedule.tick_times().len() - 1 ==> schedule.tick_times()[i + 1]
                == #[trigger] schedule.tick_times()[i] + 1,
        forall|tick: int|
            schedule.first_frame_time <= tick <= schedule.last_frame_time
                ==> schedule.tick_times().contains(tick),
{
    assert forall|tick: int|
        schedule.first_frame_time <= tick
            <= schedule.last_frame_time implies schedule.tick_times().contains(tick) by {
        assert(schedule.tick_times()[tick - schedule.first_frame_time] == tick);
    }
}

/// Each end of the span depends on its own offset alone: it lies as far after the beginning of the data
/// as the offset says, and without one it is that end of the data, whatever the other offset is.
pub proof fn each_end_depends_on_its_own_offset(
    typ: TimeType,
    range: TickRange,
    start: Option<i64>,
    end: Option<i64>,
    res: Result<FrameSchedule, RenderError>,
)
    requires
        offset_fits(range.min, start),
        offset_fits(range.min, end),
        call_ensures(resolve_frame_schedule, (typ, range, start, end), res),
    ensures
        res matches Ok(schedule) ==> {
            &&& schedule.typ == typ
            &&& start matches Some(offset) ==> schedule.first_frame_time == range.min + offset
            &&& start is None ==> schedule.first_frame_time == range.min
            &&& end matches Some(offset) ==> schedule.last_frame_time == range.min + offset
            &&& end is None ==> schedule.last_frame_time == range.max
        },
{
}

/// A span is refused exactly if it would end before it starts or if it does not touch the data; only
/// the former is said of a span for which both hold.
pub proof fn only_spans_without_data_are_refused(
    typ: TimeType,
    range: TickRange,
    start: Option<i64>,
    end: Option<i64>,
    res: Result<FrameSchedule, RenderError>,
)
    requires
        offset_fits(range.min, start),
        offset_fits(range.min, end),
        call_ensures(resolve_frame_schedule, (typ, range, start, end), res),
    ensures
        ({
            let first = range.min + (if start is Some {
                start->0 as int
            } else {
                0
            });
            let last = if end is Some {
                range.min + end->0
            } else {
                range.max as int
            };
            &&& (res matches Err(RenderError::EndBeforeStart)) <==> last < first
            &&& (res matches Err(RenderError::OutsideData { .. })) <==> first <= last && (first
                > range.max || last < range.min)
            &&& res is Ok <==> first <= last && first <= range.max && range.min <= last
            &&& res matches Err(RenderError::OutsideData { min, max }) ==> min == range.min && max
                == range.max
        }),
{
}

/// An offset fits exactly if the time that it stands for is a 64-bit number.
pub proof fn offsets_fit_if_their_time_does(start: i64, offset: i64)
    ensures
        offset_fits(start, None),
        offset_fits(start, Some(offset)) <==> i64::MIN <= start + offset && start + offset
            <= i64::MAX,
{
}

/// The same data with the same offset gives the same end, whatever is asked of the other end.
pub proof fn one_offset_does_not_move_the_other_end(
    typ: TimeType,
    range: TickRange,
    start: Option<i64>,
    end: Option<i64>,
    other_start: Option<i64>,
    other_end: Option<i64>,
    res: Result<FrameSchedule, RenderError>,
    same_end: Result<FrameSchedule, RenderError>,
    same_start: Result<FrameSchedule, RenderError>,
)
    requires
        call_ensures(resolve_frame_schedule, (typ, range, start, end), res),
        call_ensures(resolve_frame_schedule, (typ, range, other_start, end), same_end),
        call_ensures(resolve_frame_schedule, (typ, range, start, other_end), same_start),
    ensures
        res is Ok && same_end is Ok ==> res->Ok_0.last_frame_time == same_end->Ok_0.last_frame_time,
        res is Ok && same_start is Ok ==> res->Ok_0.first_frame_time
            == same_start->Ok_0.first_frame_time,
{
}

/// If a timeline is asked for, that one is resolved or none: a resolved timeline has exactly the name
/// that was asked for, or, only if none was asked for, the name of the one that is shown. Its type and
/// range are those that the recording holds for that name.
pub proof fn requested_timeline_is_the_one_resolved(
    recording: Option<&TimelineTable>,
    recording_id: &str,
    requested: Option<&str>,
    shown: Option<&TimelineName>,
    res: Result<ResolvedTimeline, RenderError>,
)
    requires
        recording matches Some(table) ==> table.well_formed(),
        call_ensures(resolve_timeline, (recording, recording_id, requested, shown), res),
    ensures
        res matches Ok(timeline) ==> {
            &&& requested matches Some(name) ==> timeline.name@ == name@
            &&& requested is None ==> shown is Some && timeline.name@ == shown->0@
            &&& recording is Some
            &&& exists|i: int|
                0 <= i < recording->0@.len() && {
                    &&& (#[trigger] recording->0@[i]).name == timeline.name@
                    &&& recording->0@[i].typ == timeline.typ
                    &&& recording->0@[i].range == Some(timeline.range)
                }
        },
{
    if let Some(table) = recording {
        table.names_are_in_order();
        if let Ok(timeline) = res {
            lookup_finds_exactly_the_named_entry(table@, timeline.name@);
            if forall|i: int| 0 <= i < table@.len() ==> (#[trigger] table@[i]).name != timeline.name@ {
            } else {
                let i = choose|i: int|
                    0 <= i < table@.len() && (#[trigger] table@[i]).name == timeline.name@;
                assert(table@[i].name == timeline.name@);
            }
        }
    }
}

/// A timeline in the recording that holds data is resolved if it is asked for, and if none is asked for
/// and it is the one that is shown. One without data is refused as such.
pub proof fn timelines_with_data_are_resolved(
    table: &TimelineTable,
    recording_id: &str,
    requested: Option<&str>,
    shown: Option<&TimelineName>,
    res: Result<ResolvedTimeline, RenderError>,
    i: int,
)
    requires
        table.well_formed(),
        0 <= i < table@.len(),
        match requested {
            Some(name) => name@.len() > 0 && table@[i].name == name@,
            None => shown is Some && table@[i].name == shown->0@,
        },
        call_ensures(resolve_timeline, (Some(table), recording_id, requested, shown), res),
    ensures
        match table@[i].range {
            Some(range) => {
                &&& res matches Ok(timeline)
                &&& timeline.name@ == table@[i].name
                &&& timeline.typ == table@[i].typ
                &&& timeline.range == range
            },
            None => res matches Err(RenderError::TimelineWithoutData { timeline }) && timeline@
                == table@[i].name,
        },
{
    table.names_are_in_order();
    lookup_finds_exactly_the_named_entry(table@, table@[i].name);
}

/// Whoever asks for a timeline gets the same answer whichever one is shown: the same timeline, or an
/// error with the same words.
pub proof fn a_request_overrules_what_is_shown(
    recording: Option<&TimelineTable>,
    recording_id: &str,
    requested: &str,
    shown: Option<&TimelineName>,
    other: Option<&TimelineName>,
    res: Result<ResolvedTimeline, RenderError>,
    also: Result<ResolvedTimeline, RenderError>,
)
    requires
        call_ensures(resolve_timeline, (recording, recording_id, Some(requested), shown), res),
        call_ensures(resolve_timeline, (recording, recording_id, Some(requested), other), also),
    ensures
        res is Ok <==> also is Ok,
        res is Ok ==> {
            &&& res->Ok_0.name@ == also->Ok_0.name@
            &&& res->Ok_0.typ == also->Ok_0.typ
            &&& res->Ok_0.range == also->Ok_0.range
        },
        res is Err ==> res->Err_0.words() == also->Err_0.words(),
{
}

/// Why no timeline is resolved: the recording is gone, an empty name is asked for, the one asked for is
/// not in the recording, which is told with all names that are, or none is asked for and none is shown
/// or the shown one is not in the recording.
pub proof fn refused_timelines_are_told_apart(
    recording: Option<&TimelineTable>,
    recording_id: &str,
    requested: Option<&str>,
    shown: Option<&TimelineName>,
    res: Result<ResolvedTimeline, RenderError>,
)
    requires
        recording matches Some(table) ==> table.well_formed(),
        call_ensures(resolve_timeline, (recording, recording_id, requested, shown), res),
    ensures
        recording is None ==> (res matches Err(RenderError::RecordingDisappeared { recording: gone })
            && gone@ == recording_id@),
        recording matches Some(table) ==> {
            &&& requested matches Some(name) ==> {
                &&& name@.len() == 0 ==> (res matches Err(RenderError::EmptyTimelineName))
                &&& name@.len() > 0 && (forall|i: int|
                    0 <= i < table@.len() ==> (#[trigger] table@[i]).name != name@) ==> {
                    &&& res matches Err(RenderError::TimelineNotFound { requested: asked, known })
                    &&& asked@ == name@
                    &&& known@.len() == table@.len()
                    &&& forall|i: int|
                        0 <= i < table@.len() ==> (#[trigger] known@[i])@ == table@[i].name
                }
            }
            &&& requested is None ==> match shown {
                None => res matches Err(RenderError::NoTimeControl { recording: id }) && id@
                    == recording_id@,
                Some(name) => (forall|i: int|
                    0 <= i < table@.len() ==> (#[trigger] table@[i]).name != name@) ==> (
                res matches Err(RenderError::TimelineWithoutType { timeline }) && timeline@
                    == name@),
            }
        },
{
    if let Some(table) = recording {
        table.names_are_in_order();
        if let Some(name) = requested {
            lookup_finds_exactly_the_named_entry(table@, name@);
            if let Err(RenderError::TimelineNotFound { requested: asked, known }) = res {
                assert(name_texts(known@).len() == known@.len());
                assert forall|i: int| 0 <= i < table@.len() implies (#[trigger] known@[i])@
                    == table@[i].name by {
                    assert(name_texts(known@)[i] == names_of(table@)[i]);
                }
            }
        } else if let Some(name) = shown {
            lookup_finds_exactly_the_named_entry(table@, name@);
        }
    }
}

/// On a sequence timeline there is one frame for each tick from the first to the last, and frame `i`
/// shows the `i`-th of them, as long as a double-precision number can count them. Other timelines are
/// not counted in this way.
pub proof fn sequence_frames_are_ticks(
    schedule: &FrameSchedule,
    count: Option<u64>,
    frame_idx: u64,
    time: i64,
)
    requires
        schedule.first_frame_time <= schedule.last_frame_time,
        frame_idx <= schedule.last_frame_time - schedule.first_frame_time,
        call_ensures(FrameSchedule::exact_num_frames, (schedule,), count),
        call_ensures(FrameSchedule::exact_frame_time, (schedule, frame_idx), time),
    ensures
        ({
            let span = schedule.last_frame_time - schedule.first_frame_time;
            &&& count is Some <==> schedule.typ == TimeType::Sequence && span
                <= 9_007_199_254_740_992
            &&& count matches Some(count) ==> count == span + 1
        }),
        time == schedule.first_frame_time + frame_idx,
{
}

/// On a temporal timeline there is a frame at the first time and one after each whole time step, each
/// as far after the first as its offset says.
pub proof fn temporal_frames_follow_their_offsets(
    schedule: &FrameSchedule,
    whole_steps: u64,
    count: u64,
    offset: i64,
    time: i64,
)
    requires
        call_ensures(FrameSchedule::num_frames, (schedule, whole_steps), count),
        call_ensures(FrameSchedule::frame_time, (schedule, offset), time),
    ensures
        count == whole_steps + 1,
        time == schedule.first_frame_time + offset,
{
}

} // verus!
