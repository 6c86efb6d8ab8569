//! Rendering a live stream tick by tick.
//!
//! The stream is delivered in order, so data at a tick above N proves that tick N is complete: it
//! can be rendered, exactly once. The newest tick stays pending until the producer is gone.
use vstd::prelude::*;
use crate::error::RenderError;
use crate::producer::ProducerStatus;
use crate::schedule::opt_view;
use crate::timeline::{
    lookup, lookup_finds_exactly_the_named_entry, TickRange, TimelineName, TimelineTable, TimelineView,
};

verus! {

/// The range of the data on the timeline called `name`, if there is any.
pub open spec fn tick_range(recording: Option<Seq<TimelineView>>, name: Seq<char>) -> Option<
    TickRange,
> {
    match recording {
        None => None,
        Some(timelines) => match lookup(timelines, name) {
            None => None,
            Some(timeline) => timeline.range,
        },
    }
}

/// The lowest and highest tick that any data has arrived at.
pub fn data_tick_range(recording: Option<&TimelineTable>, timeline: &TimelineName) -> (range: Option<
    TickRange,
>)
    requires
        recording matches Some(timelines) ==> timelines.well_formed(),
    ensures
        range == tick_range(opt_view(recording), timeline@),
{
    match recording {
        None => None,
        Some(timelines) => match timelines.get(timeline) {
            None => None,
            Some(timeline) => timeline.range,
        },
    }
}

/// The tick to start at: the lowest one. The stream is in order, so it is final as soon as there is
/// one.
pub fn first_live_tick(recording: Option<&TimelineTable>, timeline: &TimelineName) -> (res: Result<
    i64,
    RenderError,
>)
    requires
        recording matches Some(timelines) ==> timelines.well_formed(),
    ensures
        match tick_range(opt_view(recording), timeline@) {
            Some(range) => res == Ok::<i64, RenderError>(range.min),
            None => res matches Err(RenderError::TimelineDisappeared { timeline: gone }) && gone@
                == timeline@,
        },
{
    match data_tick_range(recording, timeline) {
        Some(range) => Ok(range.min),
        None => Err(RenderError::TimelineDisappeared { timeline: timeline.clone() }),
    }
}

/// What to do next in a live render.
#[derive(Debug, Clone, Copy, PartialEq, Eq, Structural)]
pub enum LiveAction {
    /// Let the viewer take in a slice of the incoming data, and see what ticks there are.
    Pump,
    /// Render this tick.
    Render(i64),
    /// See what became of the producer.
    AskStatus,
    /// Let the messages in flight arrive, and see what ticks there are.
    Drain,
    /// Nothing is new: pause for a moment.
    Sleep,
    /// Every tick has been rendered.
    Finish,
}

/// What became of the last action.
#[derive(Debug, Clone, Copy, PartialEq, Eq, Structural)]
pub enum LiveEvent {
    /// After [`LiveAction::Pump`]: the range of the data so far.
    Pumped(Option<TickRange>),
    /// After [`LiveAction::Render`].
    Rendered,
    /// After [`LiveAction::AskStatus`].
    Status(ProducerStatus),
    /// After [`LiveAction::Drain`]: the range of all the data.
    Drained(Option<TickRange>),
    /// After [`LiveAction::Sleep`].
    Slept,
}

/// Where a live render stands: which action it is waiting for.
#[derive(Debug, Clone, Copy, PartialEq, Eq, Structural)]
pub enum LiveStage {
    Pumping,
    /// Rendering what is complete: every tick below the newest one.
    Rendering { newest: i64 },
    Asking { rendered_any: bool },
    Sleeping,
    Draining,
    /// The producer is gone: rendering what is left, including the last tick.
    Flushing { last: i64 },
    Finished,
}

/// Does the event tell of the action that the stage is waiting for?
pub open spec fn answers(stage: LiveStage, event: LiveEvent) -> bool {
    match stage {
        LiveStage::Pumping => event is Pumped,
        LiveStage::Rendering { .. } | LiveStage::Flushing { .. } => event is Rendered,
        LiveStage::Asking { .. } => event is Status,
        LiveStage::Sleeping => event is Slept,
        LiveStage::Draining => event is Drained,
        LiveStage::Finished => false,
    }
}

/// The newest tick after the given event, below which every tick is complete. It is not complete
/// itself; without any data it is the next tick, below which there is nothing to render.
pub open spec fn newest_tick(event: LiveEvent, next_tick: i64) -> i64 {
    match event {
        LiveEvent::Pumped(Some(range)) => range.max,
        _ => next_tick,
    }
}

/// Goes on with complete ticks: those below `newest`.
pub open spec fn render_complete(next_tick: i64, newest: i64, rendered_any: bool) -> (
    LiveStage,
    LiveAction,
) {
    if next_tick < newest {
        (LiveStage::Rendering { newest }, LiveAction::Render(next_tick))
    } else {
        (LiveStage::Asking { rendered_any }, LiveAction::AskStatus)
    }
}

/// Goes on with the ticks that are left: those up to `last`.
pub open spec fn flush(next_tick: i64, last: i64) -> (LiveStage, LiveAction) {
    if next_tick <= last {
        (LiveStage::Flushing { last }, LiveAction::Render(next_tick))
    } else {
        (LiveStage::Finished, LiveAction::Finish)
    }
}

/// The stage and the action that follow an event.
pub open spec fn live_next(stage: LiveStage, next_tick: i64, event: LiveEvent) -> (
    LiveStage,
    LiveAction,
) {
    match (stage, event) {
        (LiveStage::Pumping, LiveEvent::Pumped(range)) => render_complete(
            next_tick,
            newest_tick(event, next_tick),
            false,
        ),
        (LiveStage::Rendering { newest }, _) => render_complete(next_tick, newest, true),
        (LiveStage::Asking { rendered_any }, LiveEvent::Status(status)) => {
            if status != ProducerStatus::Connected {
                (LiveStage::Draining, LiveAction::Drain)
            } else if rendered_any {
                (LiveStage::Pumping, LiveAction::Pump)
            } else {
                (LiveStage::Sleeping, LiveAction::Sleep)
            }
        },
        (LiveStage::Sleeping, _) => (LiveStage::Pumping, LiveAction::Pump),
        (LiveStage::Draining, LiveEvent::Drained(Some(range))) => flush(next_tick, range.max),
        (LiveStage::Flushing { last }, _) => flush(next_tick, last),
        _ => (LiveStage::Finished, LiveAction::Finish),
    }
}

/// The newest tick that any look at the stream has shown, after one more look.
pub open spec fn newer(newest: Option<i64>, range: Option<TickRange>) -> Option<i64> {
    match (newest, range) {
        (Some(tick), Some(range)) => Some(
            if tick >= range.max {
                tick
            } else {
                range.max
            },
        ),
        (None, Some(range)) => Some(range.max),
        (_, None) => newest,
    }
}

/// Where a live loop stands, and what it has done so far.
pub struct LiveState {
    pub stage: LiveStage,
    /// The tick to be rendered next.
    pub next_tick: i64,
    /// The tick that the loop began with.
    pub first_tick: i64,
    /// The ticks rendered so far, in order.
    pub rendered: Seq<i64>,
    /// The range of all the data, once the producer is gone and its last messages have arrived.
    pub drained: Option<TickRange>,
    /// The newest tick that any look at the stream has shown while the producer was there.
    pub newest_seen: Option<i64>,
}

/// The state of a live loop before its first event.
pub open spec fn live_start(first_tick: i64) -> LiveState {
    LiveState {
        stage: LiveStage::Pumping,
        next_tick: first_tick,
        first_tick,
        rendered: Seq::empty(),
        drained: None,
        newest_seen: None,
    }
}

/// The state of a live loop after an event.
pub open spec fn live_step(state: LiveState, event: LiveEvent) -> LiveState {
    let (stage, action) = live_next(state.stage, state.next_tick, event);
    LiveState {
        stage,
        next_tick: match action {
            LiveAction::Render(tick) => (tick + 1) as i64,
            _ => state.next_tick,
        },
        first_tick: state.first_tick,
        rendered: match action {
            LiveAction::Render(tick) => state.rendered.push(tick),
            _ => state.rendered,
        },
        drained: match event {
            LiveEvent::Drained(range) => range,
            _ => state.drained,
        },
        newest_seen: match event {
            LiveEvent::Pumped(range) => newer(state.newest_seen, range),
            _ => state.newest_seen,
        },
    }
}

/// The incremental record loop over the ticks of a live stream.
pub struct LiveLoop {
    stage: LiveStage,
    next_tick: i64,
    first_tick: Ghost<i64>,
    rendered: Ghost<Seq<i64>>,
    drained: Ghost<Option<TickRange>>,
    newest_seen: Ghost<Option<i64>>,
}

impl LiveLoop {
    pub closed spec fn stage(&self) -> LiveStage {
        self.stage
    }

    /// The tick to be rendered next.
    pub closed spec fn spec_next_tick(&self) -> i64 {
        self.next_tick
    }

    /// The tick that the loop began with.
    pub closed spec fn first_tick(&self) -> i64 {
        self.first_tick@
    }

    /// The ticks rendered so far, in order.
    pub closed spec fn rendered(&self) -> Seq<i64> {
        self.rendered@
    }

    /// The range of all the data, once the producer is gone and its last messages have arrived.
    pub closed spec fn drained(&self) -> Option<TickRange> {
        self.drained@
    }

    /// The newest tick that any look at the stream has shown while the producer was there.
    pub closed spec fn newest_seen(&self) -> Option<i64> {
        self.newest_seen@
    }

    /// Where the loop stands, and what it has done so far.
    pub open spec fn state(&self) -> LiveState {
        LiveState {
            stage: self.stage(),
            next_tick: self.spec_next_tick(),
            first_tick: self.first_tick(),
            rendered: self.rendered(),
            drained: self.drained(),
            newest_seen: self.newest_seen(),
        }
    }

    /// Has every tick before the next one been seen to be complete, but for those before the first?
    spec fn only_complete(&self) -> bool {
        self.next_tick == self.first_tick@ || (self.newest_seen@ matches Some(newest)
            && self.next_tick <= newest)
    }

    /// The rendered ticks are all those from the first one up to the next one. Until the stream is
    /// drained, data above them has been seen; after that, they reach no further than the data.
    pub closed spec fn well_formed(&self) -> bool {
        &&& match self.stage {
            LiveStage::Flushing { .. } | LiveStage::Finished => self.only_complete() || (
            self.drained@ matches Some(range) && self.next_tick <= range.max + 1),
            LiveStage::Rendering { newest } => {
                &&& self.only_complete()
                &&& self.newest_seen@ matches Some(seen) && newest <= seen
            },
            _ => self.only_complete(),
        }
        &&& self.first_tick@ <= self.next_tick
        &&& self.rendered@ == ticks_from(self.first_tick@, self.next_tick - self.first_tick@)
        &&& match self.stage {
            LiveStage::Rendering { newest } => self.next_tick <= newest,
            LiveStage::Flushing { last } => {
                &&& self.next_tick - 1 <= last < i64::MAX
                &&& self.drained@ matches Some(range) && range.max == last
            },
            LiveStage::Finished => self.drained@ matches Some(range) ==> range.max < self.next_tick,
            _ => true,
        }
    }

    /// Before the first look at the stream. The first action is [`LiveAction::Pump`].
    pub fn new(first_tick: i64) -> (live: Self)
        ensures
            live.well_formed(),
            live.state() == live_start(first_tick),
    {
        let live = LiveLoop {
            stage: LiveStage::Pumping,
            next_tick: first_tick,
            first_tick: Ghost(first_tick),
            rendered: Ghost(Seq::empty()),
            drained: Ghost(None),
            newest_seen: Ghost(None),
        };
        assert(live.rendered@.len() == 0 && ticks_from(first_tick, 0).len() == 0);
        assert(live.rendered@ =~= ticks_from(first_tick, 0));
        live
    }

    /// What to do next, given what became of the last action.
    pub fn next(&mut self, event: LiveEvent) -> (action: LiveAction)
        requires
            old(self).well_formed(),
            answers(old(self).stage(), event),
            event matches LiveEvent::Drained(Some(range)) ==> range.max < i64::MAX,
        ensures
            final(self).well_formed(),
            action == live_next(old(self).stage(), old(self).spec_next_tick(), event).1,
            final(self).state() == live_step(old(self).state(), event),
            action matches LiveAction::Render(tick) ==> tick < i64::MAX,
    {
        proof {
            if let LiveEvent::Drained(range) = event {
                self.drained@ = range;
            }
            if let LiveEvent::Pumped(range) = event {
                self.newest_seen@ = newer(self.newest_seen@, range);
            }
        }
        match (self.stage, event) {
            (LiveStage::Pumping, LiveEvent::Pumped(range)) => {
                // Without data the newest tick is taken to be the next one, so nothing is complete.
                let newest: i64 = match range {
                    Some(range) => range.max,
                    None => self.next_tick,
                };
                self.render_complete(newest, false)
            },
            (LiveStage::Rendering { newest }, _) => self.render_complete(newest, true),
            (LiveStage::Asking { rendered_any }, LiveEvent::Status(status)) => {
                if status != ProducerStatus::Connected {
                    self.stage = LiveStage::Draining;
                    LiveAction::Drain
                } else if rendered_any {
                    self.stage = LiveStage::Pumping;
                    LiveAction::Pump
                } else {
                    self.stage = LiveStage::Sleeping;
                    LiveAction::Sleep
                }
            },
            (LiveStage::Sleeping, _) => {
                self.stage = LiveStage::Pumping;
                LiveAction::Pump
            },
            (LiveStage::Draining, LiveEvent::Drained(Some(range))) => self.flush(range.max),
            (LiveStage::Flushing { last }, _) => self.flush(last),
            _ => {
                self.stage = LiveStage::Finished;
                LiveAction::Finish
            },
        }
    }

    fn render_complete(&mut self, newest: i64, rendered_any: bool) -> (action: LiveAction)
        requires
            old(self).first_tick@ <= old(self).next_tick,
            old(self).rendered@ == ticks_from(
                old(self).first_tick@,
                old(self).next_tick - old(self).first_tick@,
            ),
            old(self).only_complete(),
            old(self).next_tick < newest ==> (old(self).newest_seen@ matches Some(seen) && newest
                <= seen),
        ensures
            final(self).well_formed(),
            final(self).first_tick@ == old(self).first_tick@,
            final(self).drained@ == old(self).drained@,
            final(self).newest_seen@ == old(self).newest_seen@,
            (final(self).stage, action) == render_complete(
                old(self).next_tick,
                newest,
                rendered_any,
            ),
            action is Render ==> final(self).rendered@ == old(self).rendered@.push(
                old(self).next_tick,
            ) && final(self).next_tick == old(self).next_tick + 1,
            !(action is Render) ==> final(self).rendered@ == old(self).rendered@
                && final(self).next_tick == old(self).next_tick,
    {
        if self.next_tick < newest {
            self.stage = LiveStage::Rendering { newest };
            self.hand_out()
        } else {
            self.stage = LiveStage::Asking { rendered_any };
            LiveAction::AskStatus
        }
    }

    fn flush(&mut self, last: i64) -> (action: LiveAction)
        requires
            old(self).first_tick@ <= old(self).next_tick,
            old(self).rendered@ == ticks_from(
                old(self).first_tick@,
                old(self).next_tick - old(self).first_tick@,
            ),
            last < i64::MAX,
            old(self).drained@ matches Some(range) && range.max == last,
            old(self).only_complete() || old(self).next_tick <= last + 1,
        ensures
            final(self).well_formed(),
            final(self).first_tick@ == old(self).first_tick@,
            final(self).drained@ == old(self).drained@,
            final(self).newest_seen@ == old(self).newest_seen@,
            (final(self).stage, action) == flush(old(self).next_tick, last),
            action is Render ==> final(self).rendered@ == old(self).rendered@.push(
                old(self).next_tick,
            ) && final(self).next_tick == old(self).next_tick + 1,
            !(action is Render) ==> final(self).rendered@ == old(self).rendered@
                && final(self).next_tick == old(self).next_tick,
    {
        if self.next_tick <= last {
            self.stage = LiveStage::Flushing { last };
            self.hand_out()
        } else {
            self.stage = LiveStage::Finished;
            LiveAction::Finish
        }
    }

    fn hand_out(&mut self) -> (action: LiveAction)
        requires
            old(self).first_tick@ <= old(self).next_tick < i64::MAX,
            old(self).rendered@ == ticks_from(
                old(self).first_tick@,
                old(self).next_tick - old(self).first_tick@,
            ),
        ensures
            action == LiveAction::Render(old(self).next_tick),
            final(self).next_tick == old(self).next_tick + 1,
            final(self).rendered@ == old(self).rendered@.push(old(self).next_tick),
            final(self).rendered@ == ticks_from(
                old(self).first_tick@,
                old(self).next_tick + 1 - old(self).first_tick@,
            ),
            final(self).first_tick@ == old(self).first_tick@,
            final(self).drained@ == old(self).drained@,
            final(self).newest_seen@ == old(self).newest_seen@,
            final(self).stage == old(self).stage,
    {
        let tick: i64 = self.next_tick;
        self.next_tick = tick + 1;
        proof {
            lemma_one_more_tick(self.first_tick@, tick);
            self.rendered@ = self.rendered@.push(tick);
        }
        LiveAction::Render(tick)
    }
}

/// `count` consecutive ticks.
pub open spec fn ticks_from(first: i64, count: int) -> Seq<i64> {
    Seq::new(count as nat, |i: int| (first + i) as i64)
}

proof fn lemma_one_more_tick(first: i64, tick: i64)
    requires
        first <= tick,
    ensures
        ticks_from(first, tick - first).push(tick) == ticks_from(first, tick + 1 - first),
{
    let longer = ticks_from(first, tick + 1 - first);
    assert(ticks_from(first, tick - first).len() == tick - first);
    assert(longer.len() == tick + 1 - first);
    assert(ticks_from(first, tick - first).push(tick) == longer);
}

/// Ticks are rendered in order, one after the other without a gap, and none twice.
pub proof fn ticks_render_once_and_in_order(live: LiveLoop)
    requires
        live.well_formed(),
    ensures
        live.rendered() == ticks_from(
            live.first_tick(),
            live.spec_next_tick() - live.first_tick(),
        ),
        forall|i: int|
            0 <= i < live.rendered().len() ==> #[trigger] live.rendered()[i] == live.first_tick()
                + i,
{
}

/// While the producer may still send data, a tick is rendered only if data has arrived above it.
pub proof fn only_complete_ticks_render(stage: LiveStage, next_tick: i64, event: LiveEvent, tick: i64)
    requires
        answers(stage, event),
        live_next(stage, next_tick, event).1 == LiveAction::Render(tick),
        !(stage is Draining) && !(stage is Flushing),
    ensures
        tick == next_tick,
        match stage {
            LiveStage::Rendering { newest } => tick < newest,
            _ => event matches LiveEvent::Pumped(Some(range)) && tick < range.max,
        },
{
}

/// Until the last ticks are flushed, every tick rendered so far lies below a tick that has been seen:
/// the newest one stays pending.
pub proof fn rendered_ticks_lie_below_seen_data(live: LiveLoop, i: int)
    requires
        live.well_formed(),
        !(live.stage() is Flushing) && !(live.stage() is Finished),
        0 <= i < live.rendered().len(),
    ensures
        live.newest_seen() matches Some(newest) && live.rendered()[i] < newest,
{
}

/// A tick is rendered as soon as a look at the stream shows data above it, and then the ticks after
/// it, up to the newest one, which stays pending.
pub proof fn complete_ticks_render_at_once(next_tick: i64, range: TickRange)
    requires
        next_tick < range.max,
    ensures
        live_next(LiveStage::Pumping, next_tick, LiveEvent::Pumped(Some(range))) == (
            LiveStage::Rendering { newest: range.max },
            LiveAction::Render(next_tick),
        ),
        forall|tick: i64|
            #![trigger live_next(LiveStage::Rendering { newest: range.max }, tick, LiveEvent::Rendered)]
            live_next(LiveStage::Rendering { newest: range.max }, tick, LiveEvent::Rendered).1
                == if tick < range.max {
                LiveAction::Render(tick)
            } else {
                LiveAction::AskStatus
            },
{
}

/// When a live render is over, every tick of the stream from the first one on has been rendered,
/// including the last one, which never saw a higher tick.
pub proof fn every_tick_is_rendered(live: LiveLoop, tick: i64)
    requires
        live.well_formed(),
        live.stage() is Finished,
        live.drained() matches Some(range) && live.first_tick() <= tick <= range.max,
    ensures
        live.rendered().contains(tick),
{
    assert(live.rendered()[tick - live.first_tick()] == tick);
}

/// If data that was seen once is still there at the end, no tick beyond the last one is rendered: there
/// is one frame for each tick from the first one to the last, and no other.
pub proof fn no_other_tick_is_rendered(live: LiveLoop)
    requires
        live.well_formed(),
        live.stage() is Finished,
        live.drained() matches Some(range) && live.first_tick() <= range.max,
        live.newest_seen() matches Some(newest) ==> newest <= live.drained()->0.max,
    ensures
        live.rendered().len() == live.drained()->0.max - live.first_tick() + 1,
        forall|tick: i64|
            live.rendered().contains(tick) <==> live.first_tick() <= tick <= live.drained()->0.max,
{
    assert forall|tick: i64|
        live.first_tick() <= tick <= live.drained()->0.max implies live.rendered().contains(
        tick,
    ) by {
        every_tick_is_rendered(live, tick);
    }
}

/// A producer that leaves after a single tick gives a video of one frame.
pub proof fn single_tick_gives_one_frame(first_tick: i64)
    requires
        first_tick < i64::MAX,
    ensures
        ({
            let range = Some(TickRange { min: first_tick, max: first_tick });
            &&& live_next(LiveStage::Pumping, first_tick, LiveEvent::Pumped(range)).1
                == LiveAction::AskStatus
            &&& live_next(LiveStage::Draining, first_tick, LiveEvent::Drained(range)) == (
                LiveStage::Flushing { last: first_tick },
                LiveAction::Render(first_tick),
            )
            &&& live_next(
                LiveStage::Flushing { last: first_tick },
                (first_tick + 1) as i64,
                LiveEvent::Rendered,
            ).1 == LiveAction::Finish
        }),
{
}

/// The range reported for a timeline is the one that the recording holds for it, as it is: its ends are
/// the lowest and the highest tick with data. There is none without the recording, without a timeline
/// of that name, or without data on it.
pub proof fn reported_range_is_that_of_the_data(
    recording: Option<&TimelineTable>,
    timeline: &TimelineName,
    range: Option<TickRange>,
)
    requires
        recording matches Some(table) ==> table.well_formed(),
        call_ensures(data_tick_range, (recording, timeline), range),
    ensures
        recording is None ==> range is None,
        recording matches Some(table) ==> {
            &&& forall|i: int|
                0 <= i < table@.len() && (#[trigger] table@[i]).name == timeline@ ==> range
                    == table@[i].range
            &&& (forall|i: int|
                0 <= i < table@.len() ==> (#[trigger] table@[i]).name != timeline@) ==> range is None
        },
{
    if let Some(table) = recording {
        table.names_are_in_order();
        lookup_finds_exactly_the_named_entry(table@, timeline@);
    }
}

/// A live render starts at the lowest tick that the recording holds data at, and fails if there is
/// none.
pub proof fn live_render_starts_at_the_lowest_tick(
    recording: Option<&TimelineTable>,
    timeline: &TimelineName,
    res: Result<i64, RenderError>,
)
    requires
        recording matches Some(table) ==> table.well_formed(),
        call_ensures(first_live_tick, (recording, timeline), res),
    ensures
        recording matches Some(table) ==> forall|i: int|
            0 <= i < table@.len() && (#[trigger] table@[i]).name == timeline@ ==> match table@[i].range {
                Some(range) => res == Ok::<i64, RenderError>(range.min),
                None => res is Err,
            },
        res is Ok ==> recording is Some && exists|i: int|
            0 <= i < recording->0@.len() && (#[trigger] recording->0@[i]).name == timeline@,
        res matches Err(err) ==> err matches RenderError::TimelineDisappeared { timeline: gone }
            && gone@ == timeline@,
{
    if let Some(table) = recording {
        table.names_are_in_order();
        lookup_finds_exactly_the_named_entry(table@, timeline@);
    }
}

/// What one step of a live render does follows from what it was told:
/// - after a look at the stream it renders the next tick if data lies above it, and otherwise asks for
///   the producer;
/// - while the producer is connected it looks again, at once if a tick was rendered since the last look
///   and after a pause otherwise; once it is not connected the stream is drained;
/// - after that it renders what is left, up to and including the last tick with data, and ends.
pub proof fn each_step_follows_from_what_was_told(
    live: &mut LiveLoop,
    event: LiveEvent,
    action: LiveAction,
)
    requires
        old(live).well_formed(),
        answers(old(live).stage(), event),
        call_ensures(LiveLoop::next, (live, event), action),
    ensures
        final(live).well_formed(),
        final(live).first_tick() == old(live).first_tick(),
        event matches LiveEvent::Pumped(range) ==> {
            let complete = range matches Some(range) && old(live).spec_next_tick() < range.max;
            action == if complete {
                LiveAction::Render(old(live).spec_next_tick())
            } else {
                LiveAction::AskStatus
            }
        },
        event matches LiveEvent::Status(status) ==> {
            &&& action == LiveAction::Drain <==> status != ProducerStatus::Connected
            &&& status == ProducerStatus::Connected ==> action == if old(live).stage()
                == (LiveStage::Asking { rendered_any: true }) {
                LiveAction::Pump
            } else {
                LiveAction::Sleep
            }
        },
        event == LiveEvent::Slept ==> action == LiveAction::Pump,
        event matches LiveEvent::Drained(range) ==> {
            let left = range matches Some(range) && old(live).spec_next_tick() <= range.max;
            &&& final(live).drained() == range
            &&& action == if left {
                LiveAction::Render(old(live).spec_next_tick())
            } else {
                LiveAction::Finish
            }
        },
        old(live).stage() matches LiveStage::Rendering { newest } ==> action == if old(
            live,
        ).spec_next_tick() < newest {
            LiveAction::Render(old(live).spec_next_tick())
        } else {
            LiveAction::AskStatus
        },
        old(live).stage() matches LiveStage::Flushing { last } ==> action == if old(
            live,
        ).spec_next_tick() <= last {
            LiveAction::Render(old(live).spec_next_tick())
        } else {
            LiveAction::Finish
        },
        action matches LiveAction::Render(tick) ==> {
            &&& final(live).rendered() == old(live).rendered().push(tick)
            &&& final(live).spec_next_tick() == tick + 1
            &&& match event {
                LiveEvent::Pumped(Some(range)) => final(live).stage() == (LiveStage::Rendering {
                    newest: range.max,
                }),
                LiveEvent::Drained(Some(range)) => final(live).stage() == (LiveStage::Flushing {
                    last: range.max,
                }),
                _ => final(live).stage() == old(live).stage(),
            }
        },
        !(action is Render) ==> {
            &&& final(live).rendered() == old(live).rendered()
            &&& final(live).spec_next_tick() == old(live).spec_next_tick()
            &&& final(live).stage() == match action {
                LiveAction::Pump => LiveStage::Pumping,
                LiveAction::AskStatus => LiveStage::Asking { rendered_any: event is Rendered },
                LiveAction::Drain => LiveStage::Draining,
                LiveAction::Sleep => LiveStage::Sleeping,
                _ => LiveStage::Finished,
            }
        },
        !(event is Drained) ==> final(live).drained() == old(live).drained(),
        event matches LiveEvent::Pumped(Some(range)) ==> {
            &&& final(live).newest_seen() matches Some(newest)
            &&& newest >= range.max
            &&& old(live).newest_seen() matches Some(before) ==> newest >= before
            &&& newest == range.max || final(live).newest_seen() == old(live).newest_seen()
        },
        !(event matches LiveEvent::Pumped(Some(_))) ==> final(live).newest_seen() == old(
            live,
        ).newest_seen(),
{
}

/// A live render begins with its first tick, having rendered nothing.
pub proof fn live_render_begins_with_its_first_tick(first_tick: i64, live: LiveLoop)
    requires
        call_ensures(LiveLoop::new, (first_tick,), live),
    ensures
        live.well_formed(),
        live.stage() == LiveStage::Pumping,
        live.first_tick() == first_tick,
        live.spec_next_tick() == first_tick,
        live.rendered().len() == 0,
        live.drained() is None,
        live.newest_seen() is None,
{
}

/// A live render waits for the answer to its last action, and for nothing else; once it is over it
/// waits for nothing.
pub proof fn each_action_has_its_answer(live: &mut LiveLoop, event: LiveEvent, action: LiveAction)
    requires
        old(live).well_formed(),
        answers(old(live).stage(), event),
        call_ensures(LiveLoop::next, (live, event), action),
    ensures
        forall|then: LiveEvent|
            #[trigger] answers(final(live).stage(), then) <==> match action {
                LiveAction::Pump => then is Pumped,
                LiveAction::Render(_) => then is Rendered,
                LiveAction::AskStatus => then is Status,
                LiveAction::Drain => then is Drained,
                LiveAction::Sleep => then is Slept,
                LiveAction::Finish => false,
            },
{
}

} // verus!
