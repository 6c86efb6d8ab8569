//! What can go wrong while a recording is rendered.
use vstd::prelude::*;
use crate::clock::TimeLimit;
use crate::text;
use crate::timeline::{name_texts, views, Timeline, TimelineName, TimelineView, TimeType};

verus! {

/// Why a render run failed.
#[derive(Debug)]
pub enum RenderError {
    /// A timeline was asked for by an empty name.
    EmptyTimelineName,
    /// The recording that was loaded is not there any more.
    RecordingDisappeared { recording: String },
    /// The timeline asked for is not in the recording.
    TimelineNotFound { requested: TimelineName, known: Vec<TimelineName> },
    /// No timeline was asked for, and the viewer picked none.
    NoTimeControl { recording: String },
    /// The timeline that the viewer picked is not in the recording.
    TimelineWithoutType { timeline: TimelineName },
    /// Nothing was logged on the timeline.
    TimelineWithoutData { timeline: TimelineName },
    /// The time span to render ends before it starts.
    EndBeforeStart,
    /// The time span to render does not touch the data, which covers `min..=max`.
    OutsideData { min: i64, max: i64 },
    /// The timeline asked for in listen mode does not count ticks.
    NotASequence { requested: TimelineName, typ: TimeType },
    /// Several timelines count ticks, and none was asked for.
    SeveralSequences { names: Vec<TimelineName> },
    /// The timeline asked for did not show up in the live stream.
    TimelineNeverAppeared { requested: TimelineName, available: Vec<Timeline> },
    /// No timeline that counts ticks showed up in the live stream.
    NoSequenceTimeline { available: Vec<Timeline> },
    /// The timeline that was resolved has lost its data.
    TimelineDisappeared { timeline: TimelineName },
    /// The recording took too long to load.
    LoadTimeout { limit: TimeLimit },
    /// No SDK client connected in time.
    ConnectTimeout { limit: TimeLimit },
    /// An SDK client connected, but nothing came from it in time.
    DataTimeout { limit: TimeLimit },
    /// The SDK client left without logging anything.
    DisconnectedWithoutData,
    /// The viewer does not render.
    NoRenderState,
    /// There are no pixels to capture.
    EmptySurface,
}

/// Some names, quoted, with commas between them.
pub open spec fn quoted_list(names: Seq<Seq<char>>) -> Seq<char> {
    text::joined(names.map_values(|name: Seq<char>| text::debug_text(name)), ", "@)
}

/// A timeline as it is listed: its name, quoted, and its type.
pub open spec fn listed(timeline: TimelineView) -> Seq<char> {
    text::debug_text(timeline.name) + " ("@ + timeline.typ.label_text() + ")"@
}

/// Some timelines with their types, with commas between them.
pub open spec fn listing(timelines: Seq<TimelineView>) -> Seq<char> {
    text::joined(timelines.map_values(|timeline: TimelineView| listed(timeline)), ", "@)
}

fn quote_all(names: &Vec<TimelineName>) -> (list: String)
    ensures
        list@ == quoted_list(name_texts(names@)),
{
    let mut parts: Vec<String> = Vec::new();
    let ghost quoted = name_texts(names@).map_values(|name: Seq<char>| text::debug_text(name));
    let mut at: usize = 0;
    while at < names.len()
        invariant
            at <= names.len(),
            quoted == name_texts(names@).map_values(|name: Seq<char>| text::debug_text(name)),
            text::texts(parts@) == quoted.take(at as int),
        decreases names.len() - at,
    {
        let part = text::debug_quoted(names[at].as_str());
        assert(quoted.take(at + 1) == quoted.take(at as int).push(part@));
        parts.push(part);
        assert(text::texts(parts@) == quoted.take(at as int).push(part@));
        at = at + 1;
    }
    assert(quoted.take(quoted.len() as int) == quoted);
    text::join(&parts, ", ")
}

fn list_all(timelines: &Vec<Timeline>) -> (list: String)
    ensures
        list@ == listing(views(timelines@)),
{
    let mut parts: Vec<String> = Vec::new();
    let ghost items = views(timelines@).map_values(|timeline: TimelineView| listed(timeline));
    let mut at: usize = 0;
    while at < timelines.len()
        invariant
            at <= timelines.len(),
            items == views(timelines@).map_values(|timeline: TimelineView| listed(timeline)),
            text::texts(parts@) == items.take(at as int),
        decreases timelines.len() - at,
    {
        let timeline = &timelines[at];
        let mut part = text::debug_quoted(timeline.name.as_str());
        part.append(" (");
        part.append(timeline.typ.label());
        part.append(")");
        assert(part@ == items[at as int]);
        assert(items.take(at + 1) == items.take(at as int).push(part@));
        parts.push(part);
        assert(text::texts(parts@) == items.take(at as int).push(part@));
        at = at + 1;
    }
    assert(items.take(items.len() as int) == items);
    text::join(&parts, ", ")
}

impl RenderError {
    /// The error in words.
    pub open spec fn words(&self) -> Seq<char> {
        match self {
            RenderError::EmptyTimelineName => "Timeline names must not be empty"@,
            RenderError::RecordingDisappeared { recording } => {
                "Recording "@ + recording@ + " disappeared after loading"@
            },
            RenderError::TimelineNotFound { requested, known } => {
                "Timeline "@ + text::debug_text(requested@)
                    + " not found in recording. Available timelines: "@ + quoted_list(
                    name_texts(known@),
                )
            },
            RenderError::NoTimeControl { recording } => {
                "No time control for recording "@ + recording@ + " — no timeline to render"@
            },
            RenderError::TimelineWithoutType { timeline } => {
                "Timeline "@ + text::debug_text(timeline@) + " has no type"@
            },
            RenderError::TimelineWithoutData { timeline } => {
                "Timeline "@ + text::debug_text(timeline@) + " contains no data"@
            },
            RenderError::EndBeforeStart => "--end must be at or after --start"@,
            RenderError::OutsideData { min, max } => {
                "Requested time span is entirely outside the recording's data range ("@
                    + text::integer_text(*min as int) + "..="@ + text::integer_text(*max as int)
                    + ")"@
            },
            RenderError::NotASequence { requested, typ } => {
                "Timeline "@ + text::debug_text(requested@) + " is a temporal ("@
                    + typ.label_text()
                    + ") timeline; listen mode steps an integer (sequence) timeline — log ticks with e.g. `rr.set_time_sequence(…)`."@
            },
            RenderError::SeveralSequences { names } => {
                "Multiple sequence timelines found ("@ + quoted_list(name_texts(names@))
                    + "); pass --timeline to pick one."@
            },
            RenderError::TimelineNeverAppeared { requested, available } => {
                "Timeline "@ + text::debug_text(requested@)
                    + " never appeared in the live stream. Available timelines: "@ + listing(
                    views(available@),
                )
            },
            RenderError::NoSequenceTimeline { available } => {
                "No producer-defined sequence (integer) timeline appeared in the live stream (the SDK-builtin `log_tick` is never auto-picked; it advances per log call, not per frame). Timelines seen: "@
                    + listing(views(available@))
                    + ". Log integer ticks with e.g. `rr.set_time_sequence(\"frame\", n)`, pass --timeline explicitly (e.g. --timeline log_tick), or render from a file instead."@
            },
            RenderError::TimelineDisappeared { timeline } => {
                "Timeline "@ + text::debug_text(timeline@) + " disappeared after resolving"@
            },
            RenderError::LoadTimeout { limit } => {
                "Timed out after "@ + limit.words()
                    + " waiting for the recording to load. Did the file open correctly?"@
            },
            RenderError::ConnectTimeout { limit } => {
                "Timed out after "@ + limit.words()
                    + " waiting for an SDK client to connect. Is the producer pointed at this address?"@
            },
            RenderError::DataTimeout { limit } => {
                "Timed out after "@ + limit.words()
                    + ": an SDK client connected, but no data arrived."@
            },
            RenderError::DisconnectedWithoutData => {
                "The SDK client disconnected without logging any data."@
            },
            RenderError::NoRenderState => "Headless viewer has no wgpu render state"@,
            RenderError::EmptySurface => "Cannot capture an empty surface"@,
        }
    }

    /// Puts the error into words.
    pub fn message(&self) -> (message: String)
        ensures
            message@ == self.words(),
    {
        let mut m = String::new();
        match self {
            RenderError::EmptyTimelineName => {
                m.append("Timeline names must not be empty");
            },
            RenderError::RecordingDisappeared { recording } => {
                m.append("Recording ");
                m.append(recording.as_str());
                m.append(" disappeared after loading");
            },
            RenderError::TimelineNotFound { requested, known } => {
                m.append("Timeline ");
                m.append(text::debug_quoted(requested.as_str()).as_str());
                m.append(" not found in recording. Available timelines: ");
                m.append(quote_all(known).as_str());
            },
            RenderError::NoTimeControl { recording } => {
                m.append("No time control for recording ");
                m.append(recording.as_str());
                m.append(" — no timeline to render");
            },
            RenderError::TimelineWithoutType { timeline } => {
                m.append("Timeline ");
                m.append(text::debug_quoted(timeline.as_str()).as_str());
                m.append(" has no type");
            },
            RenderError::TimelineWithoutData { timeline } => {
                m.append("Timeline ");
                m.append(text::debug_quoted(timeline.as_str()).as_str());
                m.append(" contains no data");
            },
            RenderError::EndBeforeStart => {
                m.append("--end must be at or after --start");
            },
            RenderError::OutsideData { min, max } => {
                m.append("Requested time span is entirely outside the recording's data range (");
                m.append(text::integer(*min).as_str());
                m.append("..=");
                m.append(text::integer(*max).as_str());
                m.append(")");
            },
            RenderError::NotASequence { requested, typ } => {
                m.append("Timeline ");
                m.append(text::debug_quoted(requested.as_str()).as_str());
                m.append(" is a temporal (");
                m.append(typ.label());
                m.append(
                    ") timeline; listen mode steps an integer (sequence) timeline — log ticks with e.g. `rr.set_time_sequence(…)`.",
                );
            },
            RenderError::SeveralSequences { names } => {
                m.append("Multiple sequence timelines found (");
                m.append(quote_all(names).as_str());
                m.append("); pass --timeline to pick one.");
            },
            RenderError::TimelineNeverAppeared { requested, available } => {
                m.append("Timeline ");
                m.append(text::debug_quoted(requested.as_str()).as_str());
                m.append(" never appeared in the live stream. Available timelines: ");
                m.append(list_all(available).as_str());
            },
            RenderError::NoSequenceTimeline { available } => {
                m.append(
                    "No producer-defined sequence (integer) timeline appeared in the live stream (the SDK-builtin `log_tick` is never auto-picked; it advances per log call, not per frame). Timelines seen: ",
                );
                m.append(list_all(available).as_str());
                m.append(
                    ". Log integer ticks with e.g. `rr.set_time_sequence(\"frame\", n)`, pass --timeline explicitly (e.g. --timeline log_tick), or render from a file instead.",
                );
            },
            RenderError::TimelineDisappeared { timeline } => {
                m.append("Timeline ");
                m.append(text::debug_quoted(timeline.as_str()).as_str());
                m.append(" disappeared after resolving");
            },
            RenderError::LoadTimeout { limit } => {
                m.append("Timed out after ");
                m.append(limit.message().as_str());
                m.append(" waiting for the recording to load. Did the file open correctly?");
            },
            RenderError::ConnectTimeout { limit } => {
                m.append("Timed out after ");
                m.append(limit.message().as_str());
                m.append(
                    " waiting for an SDK client to connect. Is the producer pointed at this address?",
                );
            },
            RenderError::DataTimeout { limit } => {
                m.append("Timed out after ");
                m.append(limit.message().as_str());
                m.append(": an SDK client connected, but no data arrived.");
            },
            RenderError::DisconnectedWithoutData => {
                m.append("The SDK client disconnected without logging any data.");
            },
            RenderError::NoRenderState => {
                m.append("Headless viewer has no wgpu render state");
            },
            RenderError::EmptySurface => {
                m.append("Cannot capture an empty surface");
            },
        }
        assert(m@ == self.words());
        m
    }
}

/// A listing names each item once, in order: quoted, in lists of timelines with their types, and with a
/// comma and a space between each two.
pub proof fn listings_name_every_item(
    names: Seq<Seq<char>>,
    name: Seq<char>,
    timelines: Seq<TimelineView>,
    timeline: TimelineView,
)
    ensures
        quoted_list(Seq::<Seq<char>>::empty()).len() == 0,
        quoted_list(names.push(name)) == if names.len() == 0 {
            text::debug_text(name)
        } else {
            quoted_list(names) + ", "@ + text::debug_text(name)
        },
        listing(Seq::<TimelineView>::empty()).len() == 0,
        ({
            let item = text::debug_text(timeline.name) + " ("@ + match timeline.typ {
                TimeType::Sequence => "Sequence"@,
                TimeType::DurationNs => "DurationNs"@,
                TimeType::TimestampNs => "TimestampNs"@,
            } + ")"@;
            listing(timelines.push(timeline)) == if timelines.len() == 0 {
                item
            } else {
                listing(timelines) + ", "@ + item
            }
        }),
{
    let quoted = names.map_values(|name: Seq<char>| text::debug_text(name));
    assert(names.push(name).map_values(|name: Seq<char>| text::debug_text(name)) == quoted.push(
        text::debug_text(name),
    ));
    text::separators_stand_between_parts(quoted, text::debug_text(name), ", "@);
    let items = timelines.map_values(|timeline: TimelineView| listed(timeline));
    assert(timelines.push(timeline).map_values(|timeline: TimelineView| listed(timeline))
        == items.push(listed(timeline)));
    text::separators_stand_between_parts(items, listed(timeline), ", "@);
    assert(Seq::<Seq<char>>::empty().map_values(|name: Seq<char>| text::debug_text(name)).len()
        == 0);
    assert(Seq::<TimelineView>::empty().map_values(
        |timeline: TimelineView| listed(timeline),
    ).len() == 0);
}

/// The words of an error show what it is about: the recording, the timeline asked for and those that
/// are there, the ends of the data, or the time limit, each where it belongs.
pub proof fn errors_show_what_they_are_about(err: &RenderError, message: String)
    requires
        call_ensures(RenderError::message, (err,), message),
    ensures
        message@ == err.words(),
        err matches RenderError::RecordingDisappeared { recording } ==> message@ == "Recording "@
            + recording@ + " disappeared after loading"@,
        err matches RenderError::TimelineNotFound { requested, known } ==> message@ == "Timeline "@
            + text::debug_text(requested@) + " not found in recording. Available timelines: "@
            + quoted_list(known@.map_values(|name: TimelineName| name@)),
        err matches RenderError::NoTimeControl { recording } ==> message@
            == "No time control for recording "@ + recording@ + " — no timeline to render"@,
        err matches RenderError::TimelineWithoutType { timeline } ==> message@ == "Timeline "@
            + text::debug_text(timeline@) + " has no type"@,
        err matches RenderError::TimelineWithoutData { timeline } ==> message@ == "Timeline "@
            + text::debug_text(timeline@) + " contains no data"@,
        err matches RenderError::OutsideData { min, max } ==> message@
            == "Requested time span is entirely outside the recording's data range ("@
            + text::integer_text(*min as int) + "..="@ + text::integer_text(*max as int) + ")"@,
        err matches RenderError::NotASequence { requested, typ } ==> message@ == "Timeline "@
            + text::debug_text(requested@) + " is a temporal ("@ + typ.label_text()
            + ") timeline; listen mode steps an integer (sequence) timeline — log ticks with e.g. `rr.set_time_sequence(…)`."@,
        err matches RenderError::SeveralSequences { names } ==> message@
            == "Multiple sequence timelines found ("@ + quoted_list(
            names@.map_values(|name: TimelineName| name@),
        ) + "); pass --timeline to pick one."@,
        err matches RenderError::TimelineNeverAppeared { requested, available } ==> message@
            == "Timeline "@ + text::debug_text(requested@)
            + " never appeared in the live stream. Available timelines: "@ + listing(
            available@.map_values(|timeline: Timeline| timeline@),
        ),
        err matches RenderError::NoSequenceTimeline { available } ==> message@
            == "No producer-defined sequence (integer) timeline appeared in the live stream (the SDK-builtin `log_tick` is never auto-picked; it advances per log call, not per frame). Timelines seen: "@
            + listing(available@.map_values(|timeline: Timeline| timeline@))
            + ". Log integer ticks with e.g. `rr.set_time_sequence(\"frame\", n)`, pass --timeline explicitly (e.g. --timeline log_tick), or render from a file instead."@,
        err matches RenderError::TimelineDisappeared { timeline } ==> message@ == "Timeline "@
            + text::debug_text(timeline@) + " disappeared after resolving"@,
        err matches RenderError::LoadTimeout { limit } ==> message@ == "Timed out after "@
            + limit.words()
            + " waiting for the recording to load. Did the file open correctly?"@,
        err matches RenderError::ConnectTimeout { limit } ==> message@ == "Timed out after "@
            + limit.words()
            + " waiting for an SDK client to connect. Is the producer pointed at this address?"@,
        err matches RenderError::DataTimeout { limit } ==> message@ == "Timed out after "@
            + limit.words() + ": an SDK client connected, but no data arrived."@,
        err is EndBeforeStart ==> message@ == "--end must be at or after --start"@,
        err is EmptyTimelineName ==> message@ == "Timeline names must not be empty"@,
        err is DisconnectedWithoutData ==> message@
            == "The SDK client disconnected without logging any data."@,
        err is NoRenderState ==> message@ == "Headless viewer has no wgpu render state"@,
        err is EmptySurface ==> message@ == "Cannot capture an empty surface"@,
{
}

} // verus!
