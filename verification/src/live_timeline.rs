//! Which timeline a live render marches along.
//!
//! It has to count ticks. An explicitly requested timeline is waited for; otherwise the producer's
//! own sequence timeline is taken once it shows up.
use vstd::prelude::*;
use crate::error::RenderError;
use crate::producer::ProducerStatus;
use crate::text;
use crate::timeline::{
    in_name_order, lemma_lookup_at, lookup, lookup_finds_exactly_the_named_entry, name_texts,
    names_distinct, names_of, views, Timeline, TimelineName, TimelineTable, TimelineView, TimeType,
};

verus! {

/// After the first data arrives, how long to wait for a usable sequence timeline to show up before
/// giving up, in nanoseconds.
pub const TIMELINE_WAIT_NANOS: u128 = 10_000_000_000;

/// Can this timeline be picked without being asked for? It counts ticks, and it is not the
/// built-in `log_tick`, which advances with each log call, not with each frame of the producer.
pub open spec fn auto_pickable(timeline: TimelineView) -> bool {
    timeline.typ == TimeType::Sequence && timeline.name != "log_tick"@
}

/// The names of the timelines that can be picked without being asked for.
pub open spec fn candidates(timelines: Seq<TimelineView>) -> Seq<Seq<char>> {
    names_of(timelines.filter(|timeline: TimelineView| auto_pickable(timeline)))
}

/// What the timelines of a recording say about the one to render.
pub enum PickView {
    /// Nothing yet: more data may still change the answer.
    NoVerdict,
    /// This one.
    Picked(Seq<char>),
    /// The timeline asked for does not count ticks.
    NotASequence(Seq<char>, TimeType),
    /// These all could be meant.
    Several(Seq<Seq<char>>),
}

/// The selection rule, over a snapshot of the timelines.
pub open spec fn pick(timelines: Seq<TimelineView>, requested: Option<Seq<char>>) -> PickView {
    match requested {
        Some(name) => match lookup(timelines, name) {
            None => PickView::NoVerdict,
            Some(timeline) => if timeline.typ == TimeType::Sequence {
                PickView::Picked(name)
            } else {
                PickView::NotASequence(name, timeline.typ)
            },
        },
        None => {
            let names = candidates(timelines);
            if names.len() == 0 {
                PickView::NoVerdict
            } else if names.len() == 1 {
                PickView::Picked(names[0])
            } else {
                PickView::Several(names)
            }
        },
    }
}

/// Is this the outcome that the selection rule asks for?
pub open spec fn reports_pick(
    res: Result<Option<TimelineName>, RenderError>,
    verdict: PickView,
) -> bool {
    match verdict {
        PickView::NoVerdict => res matches Ok(None),
        PickView::Picked(name) => res matches Ok(Some(picked)) && picked@ == name,
        PickView::NotASequence(name, time_type) => {
            &&& res matches Err(RenderError::NotASequence { requested, typ })
            &&& requested@ == name
            &&& typ == time_type
        },
        PickView::Several(found) => {
            &&& res matches Err(RenderError::SeveralSequences { names })
            &&& name_texts(names@) == found
        },
    }
}

/// The characters of an optional name.
pub open spec fn opt_text(name: Option<&TimelineName>) -> Option<Seq<char>> {
    match name {
        Some(name) => Some(name@),
        None => None,
    }
}

/// The name that was asked for on the command line, if any.
pub fn requested_timeline(requested: Option<&str>) -> (res: Result<
    Option<TimelineName>,
    RenderError,
>)
    ensures
        match requested {
            None => res matches Ok(None),
            Some(name) => if name@.len() == 0 {
                res matches Err(RenderError::EmptyTimelineName)
            } else {
                res matches Ok(Some(timeline)) && timeline@ == name@
            },
        },
{
    match requested {
        None => Ok(None),
        Some(name) => match TimelineName::try_new(name) {
            Ok(timeline) => Ok(Some(timeline)),
            Err(err) => Err(err),
        },
    }
}

/// One round of the selection rule over a snapshot of the timelines.
///
/// `Ok(None)` means that there is no verdict yet; errors are final.
pub fn pick_sequence_timeline(
    timelines: &TimelineTable,
    requested: Option<&TimelineName>,
) -> (res: Result<Option<TimelineName>, RenderError>)
    requires
        timelines.well_formed(),
    ensures
        reports_pick(res, pick(timelines@, opt_text(requested))),
{
    if let Some(name) = requested {
        return match timelines.get(name) {
            None => Ok(None),
            Some(timeline) => if timeline.typ == TimeType::Sequence {
                Ok(Some(name.clone()))
            } else {
                Err(RenderError::NotASequence { requested: name.clone(), typ: timeline.typ })
            },
        };
    }
    let mut names = pickable_names(timelines);
    if names.len() == 0 {
        Ok(None)
    } else if names.len() > 1 {
        Err(RenderError::SeveralSequences { names })
    } else {
        assert(name_texts(names@)[0] == names@[0]@);
        Ok(names.pop())
    }
}

/// The names of the timelines that can be picked without being asked for.
fn pickable_names(timelines: &TimelineTable) -> (names: Vec<TimelineName>)
    ensures
        name_texts(names@) == candidates(timelines@),
{
    let all = timelines.to_vec();
    let log_tick = TimelineName::log_tick();
    let mut names: Vec<TimelineName> = Vec::new();
    let mut at: usize = 0;
    let ghost keep = |timeline: TimelineView| auto_pickable(timeline);
    assert(candidates(timelines@.take(0)) == Seq::<Seq<char>>::empty()) by {
        reveal(Seq::filter);
    }
    while at < all.len()
        invariant
            at <= all.len(),
            views(all@) == timelines@,
            log_tick@ == "log_tick"@,
            keep == (|timeline: TimelineView| auto_pickable(timeline)),
            name_texts(names@) == candidates(timelines@.take(at as int)),
        decreases all.len() - at,
    {
        let timeline = &all[at];
        let ghost before = timelines@.take(at as int);
        assert(timelines@[at as int] == timeline@);
        assert(timelines@.take(at + 1) == before.push(timeline@));
        proof {
            lemma_filter_push(before, timeline@);
        }
        if timeline.typ == TimeType::Sequence && !timeline.name.same(&log_tick) {
            let name = timeline.name.clone();
            names.push(name);
            assert(name_texts(names@) == candidates(before).push(timeline@.name));
        }
        at = at + 1;
    }
    assert(timelines@.take(timelines@.len() as int) == timelines@);
    names
}

proof fn lemma_filter_push(timelines: Seq<TimelineView>, last: TimelineView)
    ensures
        candidates(timelines.push(last)) == if auto_pickable(last) {
            candidates(timelines).push(last.name)
        } else {
            candidates(timelines)
        },
{
    let keep = |timeline: TimelineView| auto_pickable(timeline);
    reveal(Seq::filter);
    assert(timelines.push(last).drop_last() == timelines);
    if auto_pickable(last) {
        assert(timelines.push(last).filter(keep) == timelines.filter(keep).push(last));
        assert(names_of(timelines.filter(keep).push(last)) == names_of(timelines.filter(keep)).push(
            last.name,
        ));
    }
}

/// Is this the final verdict that no timeline can be rendered?
pub open spec fn reports_no_timeline(
    err: RenderError,
    timelines: Seq<TimelineView>,
    name: Option<Seq<char>>,
) -> bool {
    match name {
        Some(name) => {
            &&& err matches RenderError::TimelineNeverAppeared { requested, available }
            &&& requested@ == name
            &&& views(available@) == timelines
        },
        None => {
            &&& err matches RenderError::NoSequenceTimeline { available }
            &&& views(available@) == timelines
        },
    }
}

/// The final error that there is no usable sequence timeline, with what was logged instead.
pub fn no_sequence_timeline_error(
    timelines: &TimelineTable,
    requested: Option<&TimelineName>,
) -> (err: RenderError)
    ensures
        reports_no_timeline(err, timelines@, opt_text(requested)),
{
    let available = timelines.to_vec();
    match requested {
        Some(name) => RenderError::TimelineNeverAppeared { requested: name.clone(), available },
        None => RenderError::NoSequenceTimeline { available },
    }
}

/// What to do next while a live render waits for its timeline.
#[derive(Debug)]
pub enum TimelinePoll {
    /// March along this timeline.
    Found(TimelineName),
    /// The producer is gone and cannot add a timeline any more: let the messages in flight arrive,
    /// then take the final answer from [`conclude_live_timeline`].
    Drain,
    /// Look again after a moment.
    Wait,
}

/// One look at the timelines of a live recording, the producer's status at that time, and the time
/// since the wait began.
pub fn poll_live_timeline(
    timelines: &TimelineTable,
    requested: Option<&TimelineName>,
    status: ProducerStatus,
    elapsed_nanos: u128,
) -> (res: Result<TimelinePoll, RenderError>)
    requires
        timelines.well_formed(),
    ensures
        match pick(timelines@, opt_text(requested)) {
            PickView::Picked(name) => res matches Ok(TimelinePoll::Found(found)) && found@ == name,
            PickView::NoVerdict => if status == ProducerStatus::Disconnected {
                res matches Ok(TimelinePoll::Drain)
            } else if elapsed_nanos > TIMELINE_WAIT_NANOS {
                res matches Err(err) && reports_no_timeline(
                    err,
                    timelines@,
                    opt_text(requested),
                )
            } else {
                res matches Ok(TimelinePoll::Wait)
            },
            verdict => res matches Err(err) && reports_pick(Err(err), verdict),
        },
{
    match pick_sequence_timeline(timelines, requested) {
        Err(err) => Err(err),
        Ok(Some(found)) => Ok(TimelinePoll::Found(found)),
        Ok(None) => if status == ProducerStatus::Disconnected {
            Ok(TimelinePoll::Drain)
        } else if elapsed_nanos > TIMELINE_WAIT_NANOS {
            Err(no_sequence_timeline_error(timelines, requested))
        } else {
            Ok(TimelinePoll::Wait)
        },
    }
}

/// The final answer, from the timelines that are there once the producer's last messages have
/// arrived.
pub fn conclude_live_timeline(
    timelines: &TimelineTable,
    requested: Option<&TimelineName>,
) -> (res: Result<TimelineName, RenderError>)
    requires
        timelines.well_formed(),
    ensures
        match pick(timelines@, opt_text(requested)) {
            PickView::Picked(name) => res matches Ok(found) && found@ == name,
            PickView::NoVerdict => res matches Err(err) && reports_no_timeline(
                err,
                timelines@,
                opt_text(requested),
            ),
            verdict => res matches Err(err) && reports_pick(Err(err), verdict),
        },
{
    match pick_sequence_timeline(timelines, requested) {
        Err(err) => Err(err),
        Ok(Some(found)) => Ok(found),
        Ok(None) => Err(no_sequence_timeline_error(timelines, requested)),
    }
}

/// A timeline that does not count ticks is never rendered live, asked for or not.
pub proof fn only_sequences_are_picked(
    timelines: Seq<TimelineView>,
    requested: Option<Seq<char>>,
    name: Seq<char>,
)
    requires
        names_distinct(timelines),
        pick(timelines, requested) == PickView::Picked(name),
    ensures
        lookup(timelines, name) matches Some(timeline) && timeline.typ == TimeType::Sequence,
{
    if requested is None {
        let keep = |timeline: TimelineView| auto_pickable(timeline);
        let kept = timelines.filter(keep);
        timelines.lemma_filter_contains_rev(keep, kept[0]);
        let i = choose|i: int| 0 <= i < timelines.len() && timelines[i] == kept[0];
        lemma_lookup_at(timelines, i);
        timelines.lemma_filter_pred(keep, 0);
    }
}

/// The built-in `log_tick` is never picked by itself.
pub proof fn log_tick_is_never_auto_picked(timelines: Seq<TimelineView>)
    ensures
        pick(timelines, None) != PickView::Picked("log_tick"@),
{
    let keep = |timeline: TimelineView| auto_pickable(timeline);
    let kept = timelines.filter(keep);
    if candidates(timelines).len() == 1 {
        timelines.lemma_filter_pred(keep, 0);
        assert(candidates(timelines)[0] == kept[0].name);
    }
}

/// Asked for by its name, `log_tick` is taken like any other sequence timeline.
pub proof fn log_tick_can_be_requested(timelines: Seq<TimelineView>)
    requires
        lookup(timelines, "log_tick"@) matches Some(timeline) && timeline.typ
            == TimeType::Sequence,
    ensures
        pick(timelines, Some("log_tick"@)) == PickView::Picked("log_tick"@),
{
}

/// A temporal timeline that is asked for is refused, whatever else is there.
pub proof fn temporal_request_is_refused(timelines: Seq<TimelineView>, name: Seq<char>)
    requires
        lookup(timelines, name) matches Some(timeline) && timeline.typ != TimeType::Sequence,
    ensures
        pick(timelines, Some(name)) is NotASequence,
{
}

/// As long as only temporal timelines and `log_tick` are there, nothing is picked by itself.
pub proof fn temporal_timelines_give_no_verdict(timelines: Seq<TimelineView>)
    requires
        forall|i: int|
            0 <= i < timelines.len() ==> (#[trigger] timelines[i]).typ != TimeType::Sequence
                || timelines[i].name == "log_tick"@,
    ensures
        pick(timelines, None) == PickView::NoVerdict,
{
    let keep = |timeline: TimelineView| auto_pickable(timeline);
    let kept = timelines.filter(keep);
    if kept.len() > 0 {
        timelines.lemma_filter_contains_rev(keep, kept[0]);
        timelines.lemma_filter_pred(keep, 0);
    }
}

/// Is this a timeline that counts ticks, other than the built-in `log_tick`?
pub open spec fn is_candidate(timelines: Seq<TimelineView>, i: int) -> bool {
    &&& 0 <= i < timelines.len()
    &&& timelines[i].typ == TimeType::Sequence
    &&& timelines[i].name != "log_tick"@
}

/// A timeline that is asked for is the only one that can be taken, and only if it counts ticks. It is
/// waited for while it is not there, and refused, with its type, if it counts anything else.
pub proof fn a_request_is_taken_or_refused(
    table: &TimelineTable,
    requested: &TimelineName,
    res: Result<Option<TimelineName>, RenderError>,
)
    requires
        table.well_formed(),
        call_ensures(pick_sequence_timeline, (table, Some(requested)), res),
    ensures
        (forall|i: int| 0 <= i < table@.len() ==> (#[trigger] table@[i]).name != requested@) ==> (
        res matches Ok(None)),
        forall|i: int|
            0 <= i < table@.len() && (#[trigger] table@[i]).name == requested@ ==> if table@[i].typ
                == TimeType::Sequence {
                res matches Ok(Some(picked)) && picked@ == requested@
            } else {
                &&& res matches Err(RenderError::NotASequence { requested: refused, typ })
                &&& refused@ == requested@
                &&& typ == table@[i].typ
            },
{
    table.names_are_in_order();
    lookup_finds_exactly_the_named_entry(table@, requested@);
}

/// Is this the name of a timeline that counts ticks, other than `log_tick`?
pub open spec fn names_candidate(timelines: Seq<TimelineView>, name: Seq<char>) -> bool {
    exists|i: int| #[trigger] is_candidate(timelines, i) && timelines[i].name == name
}

/// Is this one of the names?
pub open spec fn lists_name(names: Seq<TimelineName>, name: Seq<char>) -> bool {
    exists|k: int| 0 <= k < names.len() && (#[trigger] names[k])@ == name
}

/// If none is asked for, a timeline is taken exactly if it is the only one that counts ticks, apart from
/// `log_tick`. With none there is no answer yet; if there are several, all of them are listed, in
/// order, and no other.
pub proof fn the_only_candidate_is_taken(
    table: &TimelineTable,
    res: Result<Option<TimelineName>, RenderError>,
)
    requires
        table.well_formed(),
        call_ensures(pick_sequence_timeline, (table, None), res),
    ensures
        match res {
            Ok(None) => forall|name: Seq<char>| !#[trigger] names_candidate(table@, name),
            Ok(Some(picked)) => forall|name: Seq<char>|
                #[trigger] names_candidate(table@, name) <==> name == picked@,
            Err(err) => {
                &&& err matches RenderError::SeveralSequences { names }
                &&& names@.len() > 1
                &&& forall|name: Seq<char>|
                    #[trigger] names_candidate(table@, name) <==> lists_name(names@, name)
                &&& forall|k: int, l: int|
                    0 <= k < l < names@.len() ==> text::precedes(
                        (#[trigger] names@[k])@,
                        (#[trigger] names@[l])@,
                    )
            },
        },
{
    table.names_are_in_order();
    let found = candidates(table@);
    lemma_candidates(table@);
    if found.len() == 1 {
        assert forall|name: Seq<char>| #[trigger] names_candidate(table@, name) <==> name
            == found[0] by {
            assert(found.contains(found[0]));
        }
    }
    if let Err(RenderError::SeveralSequences { names }) = res {
        assert(name_texts(names@).len() == names@.len());
        assert forall|k: int| 0 <= k < names@.len() implies (#[trigger] names@[k])@ == found[k] by {
            assert(name_texts(names@)[k] == found[k]);
        }
        assert forall|name: Seq<char>| #[trigger] names_candidate(table@, name) <==> lists_name(
            names@,
            name,
        ) by {
            if found.contains(name) {
                let k = choose|k: int| 0 <= k < found.len() && found[k] == name;
                assert(names@[k]@ == name);
            }
            if lists_name(names@, name) {
                let k = choose|k: int| 0 <= k < names@.len() && (#[trigger] names@[k])@ == name;
                assert(found[k] == name);
            }
        }
    }
}

/// The candidates are the names of exactly those timelines that count ticks and are not `log_tick`, in
/// the order of the timelines.
proof fn lemma_candidates(timelines: Seq<TimelineView>)
    requires
        in_name_order(timelines),
    ensures
        forall|name: Seq<char>|
            #[trigger] names_candidate(timelines, name) <==> candidates(timelines).contains(name),
        forall|k: int, l: int|
            0 <= k < l < candidates(timelines).len() ==> text::precedes(
                #[trigger] candidates(timelines)[k],
                #[trigger] candidates(timelines)[l],
            ),
    decreases timelines.len(),
{
    let found = candidates(timelines);
    if timelines.len() == 0 {
        assert(found.len() == 0) by {
            reveal(Seq::filter);
        }
    } else {
        let before = timelines.drop_last();
        let last = timelines.last();
        assert(before.push(last) == timelines);
        lemma_filter_push(before, last);
        assert forall|i: int, j: int| 0 <= i < j < before.len() implies text::precedes(
            (#[trigger] before[i]).name,
            (#[trigger] before[j]).name,
        ) by {
            assert(before[i] == timelines[i] && before[j] == timelines[j]);
        }
        lemma_candidates(before);
        let fewer = candidates(before);
        assert forall|name: Seq<char>| #[trigger] names_candidate(timelines, name) <==> found.contains(
            name,
        ) by {
            if names_candidate(timelines, name) {
                let i = choose|i: int|
                    #[trigger] is_candidate(timelines, i) && timelines[i].name == name;
                if i < before.len() {
                    assert(is_candidate(before, i) && before[i].name == name);
                    assert(names_candidate(before, name));
                    let k = choose|k: int| 0 <= k < fewer.len() && fewer[k] == name;
                    assert(found[k] == name);
                } else {
                    assert(found[fewer.len() as int] == name);
                }
            }
            if found.contains(name) {
                let k = choose|k: int| 0 <= k < found.len() && found[k] == name;
                if k < fewer.len() {
                    assert(fewer[k] == name);
                    assert(names_candidate(before, name));
                    let i = choose|i: int|
                        #[trigger] is_candidate(before, i) && before[i].name == name;
                    assert(is_candidate(timelines, i) && timelines[i].name == name);
                } else {
                    assert(is_candidate(timelines, timelines.len() - 1));
                }
            }
        }
        assert forall|k: int, l: int| 0 <= k < l < found.len() implies text::precedes(
            #[trigger] found[k],
            #[trigger] found[l],
        ) by {
            assert(found[k] == fewer[k]);
            if l < fewer.len() {
                assert(found[l] == fewer[l]);
            } else {
                assert(fewer.contains(fewer[k]));
                assert(names_candidate(before, fewer[k]));
                let i = choose|i: int|
                    #[trigger] is_candidate(before, i) && before[i].name == fewer[k];
                assert(timelines[i] == before[i]);
                assert(text::precedes(timelines[i].name, timelines[timelines.len() - 1].name));
            }
        }
    }
}

/// A look at a live recording takes the timeline that is picked, at whatever time, and fails with what
/// rules one out. As long as there is no answer it waits, up to ten seconds; once the producer is gone
/// the last messages are awaited instead, however long it took.
pub proof fn a_live_timeline_is_waited_for(
    table: &TimelineTable,
    requested: Option<&TimelineName>,
    status: ProducerStatus,
    elapsed_nanos: u128,
    picked: Result<Option<TimelineName>, RenderError>,
    missing: RenderError,
    res: Result<TimelinePoll, RenderError>,
)
    requires
        table.well_formed(),
        call_ensures(pick_sequence_timeline, (table, requested), picked),
        call_ensures(no_sequence_timeline_error, (table, requested), missing),
        call_ensures(poll_live_timeline, (table, requested, status, elapsed_nanos), res),
    ensures
        match picked {
            Ok(Some(name)) => res matches Ok(TimelinePoll::Found(found)) && found@ == name@,
            Err(err) => res is Err && res->Err_0.words() == err.words(),
            Ok(None) => {
                &&& status == ProducerStatus::Disconnected ==> (res matches Ok(TimelinePoll::Drain))
                &&& status != ProducerStatus::Disconnected && elapsed_nanos <= 10_000_000_000 ==> (
                res matches Ok(TimelinePoll::Wait))
                &&& status != ProducerStatus::Disconnected && elapsed_nanos > 10_000_000_000
                    ==> res is Err && res->Err_0.words() == missing.words()
            },
        },
{
}

/// The final answer is the timeline that is picked. Without an answer it is an error, which lists every
/// timeline that is there, and names the one that was asked for, if any.
pub proof fn the_final_answer_is_what_is_picked(
    table: &TimelineTable,
    requested: Option<&TimelineName>,
    picked: Result<Option<TimelineName>, RenderError>,
    res: Result<TimelineName, RenderError>,
)
    requires
        table.well_formed(),
        call_ensures(pick_sequence_timeline, (table, requested), picked),
        call_ensures(conclude_live_timeline, (table, requested), res),
    ensures
        match picked {
            Ok(Some(name)) => res matches Ok(found) && found@ == name@,
            Err(err) => res is Err && res->Err_0.words() == err.words(),
            Ok(None) => match requested {
                Some(name) => {
                    &&& res matches Err(RenderError::TimelineNeverAppeared {
                        requested: asked,
                        available,
                    })
                    &&& asked@ == name@
                    &&& lists_all(available@, table@)
                },
                None => {
                    &&& res matches Err(RenderError::NoSequenceTimeline { available })
                    &&& lists_all(available@, table@)
                },
            },
        },
{
    if let Err(RenderError::TimelineNeverAppeared { requested: asked, available }) = res {
        lemma_lists_all(available@, table@);
    }
    if let Err(RenderError::NoSequenceTimeline { available }) = res {
        lemma_lists_all(available@, table@);
    }
}

/// Are these the entries of a table, one by one, each with its name, its type and its range?
pub open spec fn lists_all(listed: Seq<Timeline>, timelines: Seq<TimelineView>) -> bool {
    &&& listed.len() == timelines.len()
    &&& forall|i: int|
        #![trigger listed[i]]
        0 <= i < listed.len() ==> {
            &&& listed[i].name@ == timelines[i].name
            &&& listed[i].typ == timelines[i].typ
            &&& listed[i].range == timelines[i].range
        }
}

proof fn lemma_lists_all(listed: Seq<Timeline>, timelines: Seq<TimelineView>)
    ensures
        views(listed) == timelines ==> lists_all(listed, timelines),
{
    if views(listed) == timelines {
        assert forall|i: int| 0 <= i < listed.len() implies (#[trigger] listed[i])@
            == timelines[i] by {
            assert(views(listed)[i] == listed[i]@);
        }
    }
}

/// The error without a usable timeline tells what was asked for and what is there.
pub proof fn the_missing_timeline_is_told(
    table: &TimelineTable,
    requested: Option<&TimelineName>,
    err: RenderError,
)
    requires
        call_ensures(no_sequence_timeline_error, (table, requested), err),
    ensures
        match requested {
            Some(name) => {
                &&& err matches RenderError::TimelineNeverAppeared { requested: asked, available }
                &&& asked@ == name@
                &&& lists_all(available@, table@)
            },
            None => err matches RenderError::NoSequenceTimeline { available } && lists_all(
                available@,
                table@,
            ),
        },
{
    if let RenderError::TimelineNeverAppeared { requested: asked, available } = err {
        lemma_lists_all(available@, table@);
    }
    if let RenderError::NoSequenceTimeline { available } = err {
        lemma_lists_all(available@, table@);
    }
}

/// What was asked for on the command line is asked for by that name; only an empty name is refused.
pub proof fn a_request_keeps_its_name(
    requested: Option<&str>,
    res: Result<Option<TimelineName>, RenderError>,
)
    requires
        call_ensures(requested_timeline, (requested,), res),
    ensures
        res is Err <==> requested is Some && requested->0@.len() == 0,
        res matches Err(err) ==> err is EmptyTimelineName,
        res matches Ok(None) ==> requested is None,
        res matches Ok(Some(name)) ==> requested is Some && name@ == requested->0@,
{
}

} // verus!
