//! A whole render run, of a file or of a live stream: which step of it comes after which.
//!
//! A run is asked for its next action, and told what became of the last one. While it captures, the
//! time cursor belongs to it alone: playback is paused, and the cursor is set before anything is
//! captured. It asks its [`Recorder`] for each frame, and goes on once the frame has been captured.
use vstd::prelude::*;
use crate::capture::{
    capture_action, frames_captured, CaptureAction, CaptureLoop, RenderVideoOptions,
    MAX_FRAMES_IN_FLIGHT, STREAM_WARMUP_STEPS,
};
use crate::clock::TimeLimit;
use crate::error::RenderError;
use crate::live::{
    answers, live_next, live_start, live_step, LiveAction, LiveEvent, LiveLoop, LiveStage, LiveState,
};
use crate::producer::ProducerStatus;
use crate::recorder::Recorder;
use crate::wait::{
    first_data_timeout, load_complete, no_data_verdict, FirstDataLook, FirstDataVerdict,
    FirstDataWait, LoadLook, LoadVerdict, LoadWait,
};

verus! {

/// What to do next in the render of a file.
#[derive(Debug, Clone, Copy, PartialEq, Eq, Structural)]
pub enum FileAction {
    /// Step the viewer, and see what has been loaded.
    StepAndLook,
    /// Pause for a moment: loading happens in the background.
    Pause,
    /// Step the viewer once.
    Step,
    /// Find the timeline and the times to render.
    Resolve,
    /// Select the timeline, pause playback, and set the cursor to the first frame.
    TakeTime,
    /// Take what is needed to render offscreen.
    TakeRenderState,
    /// Go on with the record loop.
    Capture(CaptureAction),
}

/// What became of the last action.
#[derive(Debug, Clone, Copy, PartialEq, Eq, Structural)]
pub enum FileEvent {
    /// After [`FileAction::StepAndLook`]: what was seen, and the time since the wait began.
    Looked(LoadLook, u128),
    /// After [`FileAction::Resolve`]: the number of frames.
    Scheduled(u64),
    /// After [`FileAction::TakeRenderState`]: was there any?
    RenderState(bool),
    /// After any other action.
    Done,
}

/// Which action a file render is waiting for.
#[derive(Debug, Clone, Copy, PartialEq, Eq, Structural)]
pub enum FileStage {
    Looking,
    Pausing,
    /// The freshly activated recording gets a full frame before it is queried.
    Priming,
    Resolving,
    TakingTime,
    Painting,
    TakingRenderState,
    Capturing,
    Finished,
}

/// Does the event tell of the action that the stage is waiting for?
pub open spec fn file_answers(stage: FileStage, event: FileEvent) -> bool {
    match stage {
        FileStage::Looking => event is Looked,
        FileStage::Resolving => event is Scheduled,
        FileStage::TakingRenderState => event is RenderState,
        FileStage::Finished => false,
        _ => event is Done,
    }
}

/// How a file render goes on.
pub enum FileStep {
    /// At this stage, with this action.
    Go(FileStage, FileAction),
    /// Not at all: the recording took too long to load.
    LoadTimeout,
    /// Not at all: there is nothing to render with.
    NoRenderState,
}

/// The `n`-th action of the record loop.
pub open spec fn go_on_capturing(deterministic: bool, num_frames: u64, n: int) -> FileStep {
    let action = capture_action(deterministic, num_frames, n);
    FileStep::Go(
        if action == CaptureAction::Finish {
            FileStage::Finished
        } else {
            FileStage::Capturing
        },
        FileAction::Capture(action),
    )
}

/// What follows an event: the recording is loaded, then primed, scheduled, and taken over; only then
/// it is captured. Streaming capture needs a render state for that.
pub open spec fn file_next(run: &FileRender, event: FileEvent) -> FileStep {
    match (run.stage(), event) {
        (FileStage::Looking, FileEvent::Looked(look, elapsed)) => {
            if load_complete(run.looks().push(look)) {
                FileStep::Go(FileStage::Priming, FileAction::Step)
            } else if elapsed > run.load_timeout().spec_nanos() {
                FileStep::LoadTimeout
            } else {
                FileStep::Go(FileStage::Pausing, FileAction::Pause)
            }
        },
        (FileStage::Pausing, _) => FileStep::Go(FileStage::Looking, FileAction::StepAndLook),
        (FileStage::Priming, _) => FileStep::Go(FileStage::Resolving, FileAction::Resolve),
        (FileStage::Resolving, _) => FileStep::Go(FileStage::TakingTime, FileAction::TakeTime),
        (FileStage::TakingTime, _) => FileStep::Go(FileStage::Painting, FileAction::Step),
        (FileStage::Painting, _) => if run.deterministic() {
            go_on_capturing(true, run.num_frames(), 0)
        } else {
            FileStep::Go(FileStage::TakingRenderState, FileAction::TakeRenderState)
        },
        (FileStage::TakingRenderState, FileEvent::RenderState(found)) => if found {
            go_on_capturing(false, run.num_frames(), 0)
        } else {
            FileStep::NoRenderState
        },
        _ => go_on_capturing(run.deterministic(), run.num_frames(), run.captures()),
    }
}

/// The render of a file.
pub struct FileRender {
    stage: FileStage,
    deterministic: bool,
    load_timeout: TimeLimit,
    load: LoadWait,
    num_frames: u64,
    capture: CaptureLoop,
    actions: Ghost<Seq<FileAction>>,
    frames: Ghost<Seq<u64>>,
    settle_limits: Ghost<(u32, u32)>,
}

/// Begins the render of a file. The first action is [`FileAction::StepAndLook`].
pub fn run_render_app(options: &RenderVideoOptions) -> (run: FileRender)
    ensures
        run.well_formed(),
        run.stage() == FileStage::Looking,
        run.deterministic() == options.deterministic,
        run.load_timeout() == options.load_timeout,
        run.settle_limits() == (options.min_settle_steps, options.max_settle_steps),
        run.looks() == Seq::<LoadLook>::empty(),
        run.actions() == seq![FileAction::StepAndLook],
        run.frames() == Seq::<u64>::empty(),
        run.captures() == 0,
        run.num_frames() == 0,
{
    FileRender {
        stage: FileStage::Looking,
        deterministic: options.deterministic,
        load_timeout: options.load_timeout,
        load: LoadWait::new(),
        num_frames: 0,
        capture: CaptureLoop::new(options.deterministic, 0),
        actions: Ghost(Seq::empty().push(FileAction::StepAndLook)),
        frames: Ghost(Seq::empty()),
        settle_limits: Ghost((options.min_settle_steps, options.max_settle_steps)),
    }
}

/// Does the run own the cursor at this stage?
pub open spec fn owns_time(stage: FileStage) -> bool {
    match stage {
        FileStage::Painting
        | FileStage::TakingRenderState
        | FileStage::Capturing
        | FileStage::Finished => true,
        _ => false,
    }
}

impl FileRender {
    pub closed spec fn stage(&self) -> FileStage {
        self.stage
    }

    pub closed spec fn deterministic(&self) -> bool {
        self.deterministic
    }

    pub closed spec fn load_timeout(&self) -> TimeLimit {
        self.load_timeout
    }

    /// The least and the largest number of steps until the picture of a frame counts as settled.
    pub closed spec fn settle_limits(&self) -> (u32, u32) {
        self.settle_limits@
    }

    /// The looks at the loading viewer so far.
    pub closed spec fn looks(&self) -> Seq<LoadLook> {
        self.load.looks()
    }

    /// The number of frames, once it is known.
    pub closed spec fn num_frames(&self) -> u64 {
        self.num_frames
    }

    /// How many actions of the record loop have been given out.
    pub closed spec fn captures(&self) -> int {
        self.capture.actions()
    }

    /// The actions given out so far.
    pub closed spec fn actions(&self) -> Seq<FileAction> {
        self.actions@
    }

    /// The indices of the frames that were to be captured so far, in order.
    pub closed spec fn frames(&self) -> Seq<u64> {
        self.frames@
    }

    /// Was an action before the `i`-th one to take over the cursor?
    pub open spec fn time_taken_before(&self, i: int) -> bool {
        exists|j: int| 0 <= j < i && #[trigger] self.actions()[j] == FileAction::TakeTime
    }

    /// The record loop has begun only after the cursor was taken over. It captures one frame after
    /// the other, and is over only after the last one.
    pub closed spec fn well_formed(&self) -> bool {
        &&& self.frames@.len() == frames_captured(
            self.deterministic,
            self.num_frames,
            self.capture.actions(),
        )
        &&& forall|i: int| 0 <= i < self.frames@.len() ==> #[trigger] self.frames@[i] == i
        &&& self.stage is Finished ==> self.frames@.len() == self.num_frames
        &&& self.load.well_formed()
        &&& self.capture.well_formed()
        &&& 0 <= self.capture.actions()
        &&& self.capture.spec_deterministic() == self.deterministic
        &&& self.stage is TakingRenderState ==> !self.deterministic
        &&& !(self.stage is Capturing) && !(self.stage is Finished) ==> self.capture.actions() == 0
        &&& (owns_time(self.stage) || self.stage is TakingTime) ==> self.capture.spec_num_frames()
            == self.num_frames
        &&& self.stage is TakingTime || owns_time(self.stage) ==> self.time_taken_before(
            self.actions@.len() as int,
        )
        &&& forall|i: int|
            0 <= i < self.actions@.len() && #[trigger] self.actions@[i] is Capture ==> owns_time(
                self.stage,
            ) && self.time_taken_before(i)
    }

    /// Does the recorder capture in the same mode and with the same limits, and has it been asked for
    /// exactly the frames that the run has given out? A run that is over has left none on its way.
    pub open spec fn records_with(&self, recorder: &Recorder) -> bool {
        &&& recorder.well_formed()
        &&& recorder.deterministic() == self.deterministic()
        &&& (recorder.spec_min_settle_steps(), recorder.spec_max_settle_steps())
            == self.settle_limits()
        &&& self.deterministic() ==> recorder.spec_extra_passes() == 0
            && recorder.spec_frames_with_extra_passes() == 0
        &&& recorder.asked().len() == self.frames().len()
        &&& forall|i: int|
            0 <= i < self.frames().len() ==> #[trigger] recorder.asked()[i] == self.frames()[i]
        &&& self.stage() is Finished ==> recorder.idle() && recorder.in_flight() == 0
    }

    /// What to do next, given what became of the last action. The frame that was asked for last has
    /// to be captured by then; before the run is over, none may be on its way any more.
    pub fn next(&mut self, event: FileEvent, recorder: &mut Recorder) -> (res: Result<
        FileAction,
        RenderError,
    >)
        requires
            old(self).well_formed(),
            file_answers(old(self).stage(), event),
            old(self).records_with(old(recorder)),
            old(recorder).idle(),
            old(recorder).in_flight() <= MAX_FRAMES_IN_FLIGHT,
            file_next(old(self), event) matches FileStep::Go(FileStage::Finished, _)
                ==> old(recorder).in_flight() == 0,
        ensures
            res is Ok ==> final(self).well_formed(),
            res is Ok ==> final(self).records_with(final(recorder)),
            match res {
                Ok(FileAction::Capture(CaptureAction::Frame(frame))) => final(recorder).asks_for(
                    old(recorder),
                    frame as int,
                ),
                _ => *final(recorder) == *old(recorder),
            },
            final(self).deterministic() == old(self).deterministic(),
            final(self).load_timeout() == old(self).load_timeout(),
            final(self).settle_limits() == old(self).settle_limits(),
            match file_next(old(self), event) {
                FileStep::Go(stage, action) => {
                    &&& res == Ok::<FileAction, RenderError>(action)
                    &&& final(self).stage() == stage
                    &&& final(self).actions() == old(self).actions().push(action)
                    &&& final(self).captures() == if action is Capture {
                        old(self).captures() + 1
                    } else {
                        old(self).captures()
                    }
                    &&& final(self).frames() == match action {
                        FileAction::Capture(CaptureAction::Frame(frame)) => {
                            old(self).frames().push(frame)
                        },
                        _ => old(self).frames(),
                    }
                },
                FileStep::LoadTimeout => res == Err::<FileAction, RenderError>(
                    RenderError::LoadTimeout { limit: old(self).load_timeout() },
                ),
                FileStep::NoRenderState => res matches Err(RenderError::NoRenderState),
            },
            final(self).looks() == match event {
                FileEvent::Looked(look, _) => old(self).looks().push(look),
                _ => old(self).looks(),
            },
            final(self).num_frames() == match event {
                FileEvent::Scheduled(num_frames) => num_frames,
                _ => old(self).num_frames(),
            },
    {
        let ghost start = *self;
        let (stage, action): (FileStage, FileAction) = match (self.stage, event) {
            (FileStage::Looking, FileEvent::Looked(look, elapsed)) => {
                match self.load.look(look, elapsed, self.load_timeout) {
                    LoadVerdict::Loaded => (FileStage::Priming, FileAction::Step),
                    LoadVerdict::TimedOut => {
                        return Err(RenderError::LoadTimeout { limit: self.load_timeout });
                    },
                    LoadVerdict::Wait => (FileStage::Pausing, FileAction::Pause),
                }
            },
            (FileStage::Pausing, _) => (FileStage::Looking, FileAction::StepAndLook),
            (FileStage::Priming, _) => (FileStage::Resolving, FileAction::Resolve),
            (FileStage::Resolving, FileEvent::Scheduled(num_frames)) => {
                self.num_frames = num_frames;
                self.capture = CaptureLoop::new(self.deterministic, num_frames);
                (FileStage::TakingTime, FileAction::TakeTime)
            },
            (FileStage::TakingTime, _) => (FileStage::Painting, FileAction::Step),
            (FileStage::Painting, _) => if self.deterministic {
                self.capture_next()
            } else {
                (FileStage::TakingRenderState, FileAction::TakeRenderState)
            },
            (FileStage::TakingRenderState, FileEvent::RenderState(false)) => {
                return Err(RenderError::NoRenderState);
            },
            _ => self.capture_next(),
        };
        self.stage = stage;
        if let FileAction::Capture(CaptureAction::Frame(frame)) = action {
            recorder.ask(Ghost(frame as int));
        }
        proof {
            let before = start.actions@;
            let after = before.push(action);
            self.actions@ = after;
            if let FileAction::Capture(CaptureAction::Frame(frame)) = action {
                self.frames@ = self.frames@.push(frame);
            }
            if action is TakeTime {
                assert(after[before.len() as int] == FileAction::TakeTime);
            }
            assert forall|i: int| 0 <= i <= before.len() && start.time_taken_before(i) implies
                self.time_taken_before(i) by {
                let j = choose|j: int|
                    0 <= j < i && #[trigger] start.actions()[j] == FileAction::TakeTime;
                assert(after[j] == before[j]);
            }
            if start.time_taken_before(before.len() as int) {
                let j = choose|j: int|
                    0 <= j < before.len() && #[trigger] start.actions()[j] == FileAction::TakeTime;
                assert(after[j] == before[j]);
                assert(self.time_taken_before(after.len() as int));
            }
            assert forall|i: int|
                0 <= i < after.len() && #[trigger] after[i] is Capture implies owns_time(
                self.stage,
            ) && self.time_taken_before(i) by {
                if i < before.len() {
                    assert(after[i] == before[i]);
                }
            }
        }
        Ok(action)
    }

    fn capture_next(&mut self) -> (step: (FileStage, FileAction))
        requires
            old(self).capture.well_formed(),
            old(self).capture.spec_deterministic() == old(self).deterministic,
            old(self).capture.spec_num_frames() == old(self).num_frames,
        ensures
            final(self).capture.well_formed(),
            final(self).capture.spec_deterministic() == final(self).deterministic,
            final(self).capture.spec_num_frames() == final(self).num_frames,
            final(self).capture.actions() == old(self).capture.actions() + 1,
            final(self).stage == old(self).stage,
            final(self).deterministic == old(self).deterministic,
            final(self).load_timeout == old(self).load_timeout,
            final(self).load == old(self).load,
            final(self).num_frames == old(self).num_frames,
            final(self).actions == old(self).actions,
            final(self).frames == old(self).frames,
            final(self).settle_limits == old(self).settle_limits,
            FileStep::Go(step.0, step.1) == go_on_capturing(
                old(self).deterministic,
                old(self).num_frames,
                old(self).capture.actions(),
            ),
    {
        let action = self.capture.next();
        if action == CaptureAction::Finish {
            (FileStage::Finished, FileAction::Capture(action))
        } else {
            (FileStage::Capturing, FileAction::Capture(action))
        }
    }
}

/// Nothing is captured before the run owns the time cursor.
pub proof fn time_is_taken_before_capture(run: &FileRender, i: int)
    requires
        run.well_formed(),
        0 <= i < run.actions().len(),
        run.actions()[i] is Capture,
    ensures
        run.time_taken_before(i),
{
}

/// When a file run is over, every frame of the schedule has been captured exactly once and in order.
pub proof fn finished_run_captured_every_frame(run: &FileRender)
    requires
        run.well_formed(),
        run.stage() is Finished,
    ensures
        run.frames().len() == run.num_frames(),
        forall|i: int| 0 <= i < run.num_frames() ==> #[trigger] run.frames()[i] == i,
{
}

/// When a file run is over, its recorder has captured every frame of the schedule and handed it on,
/// exactly once and in order, and nothing else.
pub proof fn finished_run_handed_on_every_frame(run: &FileRender, recorder: &Recorder)
    requires
        run.well_formed(),
        run.stage() is Finished,
        run.records_with(recorder),
    ensures
        recorder.recorded() == run.num_frames(),
        recorder.handed_on().len() == run.num_frames(),
        forall|i: int| 0 <= i < run.num_frames() ==> #[trigger] recorder.handed_on()[i] == i,
{
    recorder.every_asked_frame_is_handed_on();
}

/// What to do next in the render of a live stream.
#[derive(Debug, Clone, Copy, PartialEq, Eq, Structural)]
pub enum ListenAction {
    /// Step the viewer, and see whether any data has arrived and what became of the producer.
    StepAndLook,
    /// Pause for a moment.
    Pause,
    /// See what became of the producer, now that the time is over.
    AskStatus,
    /// Step the viewer once.
    Step,
    /// Find the sequence timeline to march along, and its first tick.
    ResolveTimeline,
    /// Select the timeline, pause playback, and set the cursor to this tick.
    TakeTime(i64),
    /// Step the viewer once, to prime layout, caches, and decoders.
    WarmUp,
    /// Take what is needed to render offscreen.
    TakeRenderState,
    /// Go on with the ticks of the stream.
    Live(LiveAction),
    /// Collect the frames that are still on their way.
    CollectRest,
    /// Every tick has been rendered and handed on.
    Finish,
}

/// What became of the last action.
#[derive(Debug, Clone, Copy, PartialEq, Eq, Structural)]
pub enum ListenEvent {
    /// After [`ListenAction::StepAndLook`].
    Looked { recording_active: bool, status: ProducerStatus, now: u128 },
    /// After [`ListenAction::AskStatus`].
    Status(ProducerStatus),
    /// After [`ListenAction::ResolveTimeline`]: the first tick.
    Resolved(i64),
    /// After [`ListenAction::TakeRenderState`]: was there any?
    RenderState(bool),
    /// After [`ListenAction::Live`].
    Live(LiveEvent),
    /// After any other action.
    Done,
}

/// Which action a live render is waiting for.
#[derive(Debug, Clone, Copy, PartialEq, Eq, Structural)]
pub enum ListenStage {
    Looking,
    Pausing,
    AskingStatus,
    /// The freshly activated recording gets a full frame before it is queried.
    Priming,
    Resolving,
    TakingTime,
    Painting,
    WarmingUp,
    TakingRenderState,
    Rendering,
    Collecting,
    Finished,
}

/// Where a live run stands, and what it has done so far.
pub struct ListenState {
    pub stage: ListenStage,
    /// The looks at the viewer that did not show any data.
    pub looks: Seq<FirstDataLook>,
    /// How many warmup steps have been given out.
    pub warmed_up: int,
    /// The loop over the ticks. It begins when the timeline has been found.
    pub live: LiveState,
    /// The tick that the cursor was set to when it was taken over, once it was.
    pub time_taken: Option<i64>,
    /// The actions given out.
    pub actions: Seq<ListenAction>,
}

/// Does the event tell of the action that the run is waiting for?
pub open spec fn listen_answers(state: ListenState, event: ListenEvent) -> bool {
    match state.stage {
        ListenStage::Looking => event is Looked,
        ListenStage::AskingStatus => event is Status,
        ListenStage::Resolving => event is Resolved,
        ListenStage::TakingRenderState => event is RenderState,
        ListenStage::Rendering => event matches ListenEvent::Live(event) && answers(
            state.live.stage,
            event,
        ),
        ListenStage::Finished => false,
        _ => event is Done,
    }
}

/// How a live render goes on.
pub enum ListenStep {
    /// At this stage, with this action.
    Go(ListenStage, ListenAction),
    /// Not at all: the client left without logging anything.
    NothingLogged,
    /// Not at all: the wait for data took too long, and this is what became of the producer.
    TimedOut(ProducerStatus),
    /// Not at all: there is nothing to render with.
    NoRenderState,
}

/// What follows an event: the first data arrives, the recording is primed, its timeline is found and
/// taken over, the viewer is warmed up; only then ticks are rendered. At the end, the frames that
/// are still on their way are collected.
pub open spec fn listen_next(
    state: ListenState,
    connect_nanos: nat,
    event: ListenEvent,
) -> ListenStep {
    match (state.stage, event) {
        (ListenStage::Looking, ListenEvent::Looked { recording_active, status, now }) => {
            if recording_active {
                ListenStep::Go(ListenStage::Priming, ListenAction::Step)
            } else {
                match no_data_verdict(
                    state.looks.push(FirstDataLook { status, now }),
                    connect_nanos,
                ) {
                    FirstDataVerdict::NothingLogged => ListenStep::NothingLogged,
                    FirstDataVerdict::TimedOut => ListenStep::Go(
                        ListenStage::AskingStatus,
                        ListenAction::AskStatus,
                    ),
                    _ => ListenStep::Go(ListenStage::Pausing, ListenAction::Pause),
                }
            }
        },
        (ListenStage::AskingStatus, ListenEvent::Status(status)) => ListenStep::TimedOut(status),
        (ListenStage::Pausing, _) => ListenStep::Go(
            ListenStage::Looking,
            ListenAction::StepAndLook,
        ),
        (ListenStage::Priming, _) => ListenStep::Go(
            ListenStage::Resolving,
            ListenAction::ResolveTimeline,
        ),
        (ListenStage::Resolving, ListenEvent::Resolved(first_tick)) => ListenStep::Go(
            ListenStage::TakingTime,
            ListenAction::TakeTime(first_tick),
        ),
        (ListenStage::TakingTime, _) => ListenStep::Go(ListenStage::Painting, ListenAction::Step),
        (ListenStage::Painting, _) => ListenStep::Go(ListenStage::WarmingUp, ListenAction::WarmUp),
        (ListenStage::WarmingUp, _) => if state.warmed_up < STREAM_WARMUP_STEPS {
            ListenStep::Go(ListenStage::WarmingUp, ListenAction::WarmUp)
        } else {
            ListenStep::Go(ListenStage::TakingRenderState, ListenAction::TakeRenderState)
        },
        (ListenStage::TakingRenderState, ListenEvent::RenderState(found)) => if found {
            ListenStep::Go(ListenStage::Rendering, ListenAction::Live(LiveAction::Pump))
        } else {
            ListenStep::NoRenderState
        },
        (ListenStage::Rendering, ListenEvent::Live(event)) => {
            let action = live_next(state.live.stage, state.live.next_tick, event).1;
            if action == LiveAction::Finish {
                ListenStep::Go(ListenStage::Collecting, ListenAction::CollectRest)
            } else {
                ListenStep::Go(ListenStage::Rendering, ListenAction::Live(action))
            }
        },
        _ => ListenStep::Go(ListenStage::Finished, ListenAction::Finish),
    }
}

/// The state of a live run before its first event.
pub open spec fn listen_start() -> ListenState {
    ListenState {
        stage: ListenStage::Looking,
        looks: Seq::empty(),
        warmed_up: 0,
        live: live_start(0),
        time_taken: None,
        actions: Seq::empty().push(ListenAction::StepAndLook),
    }
}

/// The state of a live run after an event with which it goes on.
pub open spec fn listen_step(
    state: ListenState,
    connect_nanos: nat,
    event: ListenEvent,
) -> ListenState {
    match listen_next(state, connect_nanos, event) {
        ListenStep::Go(stage, action) => ListenState {
            stage,
            looks: match event {
                ListenEvent::Looked { recording_active: false, status, now } => {
                    state.looks.push(FirstDataLook { status, now })
                },
                _ => state.looks,
            },
            warmed_up: state.warmed_up + (if action == ListenAction::WarmUp {
                1int
            } else {
                0int
            }),
            live: match event {
                ListenEvent::Live(event) => live_step(state.live, event),
                ListenEvent::Resolved(first_tick) => live_start(first_tick),
                _ => state.live,
            },
            time_taken: match action {
                ListenAction::TakeTime(tick) => Some(tick),
                _ => state.time_taken,
            },
            actions: state.actions.push(action),
        },
        _ => state,
    }
}

/// The state of a live run after some events, each of which it goes on with.
pub open spec fn listen_replay(connect_nanos: nat, events: Seq<ListenEvent>) -> ListenState
    decreases events.len(),
{
    if events.len() == 0 {
        listen_start()
    } else {
        listen_step(
            listen_replay(connect_nanos, events.drop_last()),
            connect_nanos,
            events.last(),
        )
    }
}

/// Does each of the events tell of the action that the run was waiting for, and does the run go on
/// with it?
pub open spec fn goes_on_with(connect_nanos: nat, events: Seq<ListenEvent>) -> bool
    decreases events.len(),
{
    events.len() > 0 ==> {
        let before = listen_replay(connect_nanos, events.drop_last());
        &&& goes_on_with(connect_nanos, events.drop_last())
        &&& listen_answers(before, events.last())
        &&& listen_next(before, connect_nanos, events.last()) is Go
    }
}

/// The render of a live stream.
pub struct ListenRender {
    stage: ListenStage,
    connect_timeout: TimeLimit,
    wait: FirstDataWait,
    warmed_up: u64,
    live: LiveLoop,
    time_taken: Ghost<Option<i64>>,
    actions: Ghost<Seq<ListenAction>>,
    events: Ghost<Seq<ListenEvent>>,
    max_settle_steps: Ghost<u32>,
}

/// Begins the render of a live stream. The first action is [`ListenAction::StepAndLook`].
///
/// Of the options only the time limit for a connection decides what is rendered: a live stream has no
/// known end and no random access.
pub fn run_render_listen_app(options: &RenderVideoOptions) -> (run: ListenRender)
    ensures
        run.well_formed(),
        run.connect_timeout() == options.connect_timeout,
        run.max_settle_steps() == options.max_settle_steps,
        run.state() == listen_start(),
        run.events() == Seq::<ListenEvent>::empty(),
{
    ListenRender {
        stage: ListenStage::Looking,
        connect_timeout: options.connect_timeout,
        wait: FirstDataWait::new(),
        warmed_up: 0,
        live: LiveLoop::new(0),
        time_taken: Ghost(None),
        actions: Ghost(Seq::empty().push(ListenAction::StepAndLook)),
        events: Ghost(Seq::empty()),
        max_settle_steps: Ghost(options.max_settle_steps),
    }
}

impl ListenRender {
    pub closed spec fn connect_timeout(&self) -> TimeLimit {
        self.connect_timeout
    }

    /// The largest number of passes until the picture of a tick counts as settled.
    pub closed spec fn max_settle_steps(&self) -> u32 {
        self.max_settle_steps@
    }

    /// Where the run stands, and what it has done so far.
    pub closed spec fn state(&self) -> ListenState {
        ListenState {
            stage: self.stage,
            looks: self.wait.looks(),
            warmed_up: self.warmed_up as int,
            live: self.live.state(),
            time_taken: self.time_taken@,
            actions: self.actions@,
        }
    }

    /// What the run has been told so far.
    pub closed spec fn events(&self) -> Seq<ListenEvent> {
        self.events@
    }

    /// The ticks rendered so far, in order.
    pub open spec fn rendered(&self) -> Seq<i64> {
        self.state().live.rendered
    }

    /// Where the run stands follows from what it has been told. Before the ticks are rendered, their
    /// loop has not moved; after them, it is over. It begins only after the cursor was taken over.
    pub closed spec fn well_formed(&self) -> bool {
        &&& self.state() == listen_replay(self.connect_timeout.spec_nanos(), self.events@)
        &&& goes_on_with(self.connect_timeout.spec_nanos(), self.events@)
        &&& match self.stage {
            ListenStage::Looking
            | ListenStage::Pausing
            | ListenStage::AskingStatus
            | ListenStage::Priming
            | ListenStage::Resolving => true,
            _ => self.time_taken@ == Some(self.live.first_tick()),
        }
        &&& self.wait.well_formed()
        &&& self.live.well_formed()
        &&& match self.stage {
            ListenStage::Rendering => true,
            ListenStage::Collecting | ListenStage::Finished => self.live.stage() is Finished,
            _ => self.live.stage() is Pumping && self.live.rendered().len() == 0
                && self.live.drained() is None,
        }
        &&& match self.stage {
            ListenStage::WarmingUp => 1 <= self.warmed_up <= STREAM_WARMUP_STEPS,
            ListenStage::TakingRenderState
            | ListenStage::Rendering
            | ListenStage::Collecting
            | ListenStage::Finished => self.warmed_up == STREAM_WARMUP_STEPS,
            _ => self.warmed_up == 0,
        }
    }

    /// Does the recorder use its pipeline, with the same limit, and has it been asked for exactly the
    /// ticks that the run has given out? A run that is over has left none on its way.
    pub open spec fn records_with(&self, recorder: &Recorder) -> bool {
        &&& recorder.well_formed()
        &&& !recorder.deterministic()
        &&& recorder.spec_max_settle_steps() == self.max_settle_steps()
        &&& recorder.asked().len() == self.rendered().len()
        &&& forall|i: int|
            0 <= i < self.rendered().len() ==> #[trigger] recorder.asked()[i] == self.rendered()[i]
        &&& self.state().stage is Finished ==> recorder.idle() && recorder.in_flight() == 0
    }

    /// What to do next, given what became of the last action. The tick that was asked for last has to
    /// be captured by then; before the run is over, none may be on its way any more.
    pub fn next(&mut self, event: ListenEvent, recorder: &mut Recorder) -> (res: Result<
        ListenAction,
        RenderError,
    >)
        requires
            old(self).well_formed(),
            listen_answers(old(self).state(), event),
            event matches ListenEvent::Live(LiveEvent::Drained(Some(range))) ==> range.max
                < i64::MAX,
            old(self).records_with(old(recorder)),
            old(recorder).idle(),
            old(recorder).in_flight() <= MAX_FRAMES_IN_FLIGHT,
            old(recorder).asked().len() < u64::MAX,
            old(self).state().stage is Collecting ==> old(recorder).in_flight() == 0,
        ensures
            res is Ok ==> final(self).well_formed(),
            res is Ok ==> final(self).records_with(final(recorder)),
            final(self).connect_timeout() == old(self).connect_timeout(),
            final(self).max_settle_steps() == old(self).max_settle_steps(),
            match listen_next(
                old(self).state(),
                old(self).connect_timeout().spec_nanos(),
                event,
            ) {
                ListenStep::Go(_, action) => {
                    &&& res == Ok::<ListenAction, RenderError>(action)
                    &&& final(self).state() == listen_step(
                        old(self).state(),
                        old(self).connect_timeout().spec_nanos(),
                        event,
                    )
                    &&& final(self).events() == old(self).events().push(event)
                },
                ListenStep::NothingLogged => res matches Err(RenderError::DisconnectedWithoutData),
                ListenStep::TimedOut(status) => res == Err::<ListenAction, RenderError>(
                    if status == ProducerStatus::NeverConnected {
                        RenderError::ConnectTimeout { limit: old(self).connect_timeout() }
                    } else {
                        RenderError::DataTimeout { limit: old(self).connect_timeout() }
                    },
                ),
                ListenStep::NoRenderState => res matches Err(RenderError::NoRenderState),
            },
            match res {
                Ok(ListenAction::Live(LiveAction::Render(tick))) => final(recorder).asks_for(
                    old(recorder),
                    tick as int,
                ),
                _ => *final(recorder) == *old(recorder),
            },
    {
        let ghost before = self.state();
        let ghost told = self.events@;
        let ghost nanos = self.connect_timeout.spec_nanos();
        let (stage, action): (ListenStage, ListenAction) = match (self.stage, event) {
            (ListenStage::Looking, ListenEvent::Looked { recording_active, status, now }) => {
                match self.wait.look(recording_active, status, now, self.connect_timeout) {
                    FirstDataVerdict::Arrived => (ListenStage::Priming, ListenAction::Step),
                    FirstDataVerdict::NothingLogged => {
                        return Err(RenderError::DisconnectedWithoutData);
                    },
                    FirstDataVerdict::TimedOut => (
                        ListenStage::AskingStatus,
                        ListenAction::AskStatus,
                    ),
                    FirstDataVerdict::Wait => (ListenStage::Pausing, ListenAction::Pause),
                }
            },
            (ListenStage::AskingStatus, ListenEvent::Status(status)) => {
                return Err(first_data_timeout(status, self.connect_timeout));
            },
            (ListenStage::Pausing, _) => (ListenStage::Looking, ListenAction::StepAndLook),
            (ListenStage::Priming, _) => (ListenStage::Resolving, ListenAction::ResolveTimeline),
            (ListenStage::Resolving, ListenEvent::Resolved(first_tick)) => {
                self.live = LiveLoop::new(first_tick);
                self.time_taken = Ghost(Some(first_tick));
                (ListenStage::TakingTime, ListenAction::TakeTime(first_tick))
            },
            (ListenStage::TakingTime, _) => (ListenStage::Painting, ListenAction::Step),
            (ListenStage::Painting, _) => {
                self.warmed_up = 1;
                (ListenStage::WarmingUp, ListenAction::WarmUp)
            },
            (ListenStage::WarmingUp, _) => if self.warmed_up < STREAM_WARMUP_STEPS {
                self.warmed_up = self.warmed_up + 1;
                (ListenStage::WarmingUp, ListenAction::WarmUp)
            } else {
                (ListenStage::TakingRenderState, ListenAction::TakeRenderState)
            },
            (ListenStage::TakingRenderState, ListenEvent::RenderState(found)) => if found {
                (ListenStage::Rendering, ListenAction::Live(LiveAction::Pump))
            } else {
                return Err(RenderError::NoRenderState);
            },
            (ListenStage::Rendering, ListenEvent::Live(event)) => {
                let action = self.live.next(event);
                if let LiveAction::Render(tick) = action {
                    recorder.ask(Ghost(tick as int));
                }
                if action == LiveAction::Finish {
                    (ListenStage::Collecting, ListenAction::CollectRest)
                } else {
                    (ListenStage::Rendering, ListenAction::Live(action))
                }
            },
            _ => (ListenStage::Finished, ListenAction::Finish),
        };
        self.stage = stage;
        proof {
            self.actions@ = before.actions.push(action);
            self.events@ = told.push(event);
            assert(told.push(event).drop_last() == told);
            assert(self.state() == listen_step(before, nanos, event));
        }
        Ok(action)
    }
}

/// No tick is rendered before the run owns the time cursor, which it sets to the first tick.
pub proof fn time_is_taken_before_ticks(run: &ListenRender)
    requires
        run.well_formed(),
        run.rendered().len() > 0,
    ensures
        run.state().time_taken == Some(run.state().live.first_tick),
{
}

/// When a live run is over, every tick of the stream, from the first one to the last, has been
/// rendered exactly once and in order.
pub proof fn finished_run_rendered_every_tick(run: &ListenRender)
    requires
        run.well_formed(),
        run.state().stage is Finished,
        run.state().live.drained is Some,
        run.state().live.first_tick <= run.state().live.drained->0.max,
    ensures
        forall|i: int|
            0 <= i < run.rendered().len() ==> #[trigger] run.rendered()[i]
                == run.state().live.first_tick + i,
        forall|tick: i64|
            run.state().live.first_tick <= tick <= run.state().live.drained->0.max
                ==> run.rendered().contains(tick),
{
    crate::live::ticks_render_once_and_in_order(run.live);
    assert forall|tick: i64|
        run.state().live.first_tick <= tick
            <= run.state().live.drained->0.max implies run.rendered().contains(tick) by {
        crate::live::every_tick_is_rendered(run.live, tick);
    }
}

/// If data that was seen once is still there at the end, a live run that is over has rendered no
/// other ticks: one frame for each tick from the first one to the last.
pub proof fn finished_run_rendered_no_other_tick(run: &ListenRender)
    requires
        run.well_formed(),
        run.state().stage is Finished,
        run.state().live.drained is Some,
        run.state().live.first_tick <= run.state().live.drained->0.max,
        run.state().live.newest_seen matches Some(newest) ==> newest
            <= run.state().live.drained->0.max,
    ensures
        run.rendered().len() == run.state().live.drained->0.max - run.state().live.first_tick + 1,
        forall|tick: i64|
            run.rendered().contains(tick) <==> run.state().live.first_tick <= tick
                <= run.state().live.drained->0.max,
{
    crate::live::no_other_tick_is_rendered(run.live);
}

/// Between two ticks of a live run, its recorder has captured and counted exactly the ticks rendered
/// so far. When the run is over it has handed on each of them, once and in order.
pub proof fn live_frames_are_counted_and_handed_on(run: &ListenRender, recorder: &Recorder)
    requires
        run.well_formed(),
        run.records_with(recorder),
        recorder.idle(),
    ensures
        recorder.recorded() == run.rendered().len(),
        run.state().stage is Finished ==> {
            &&& recorder.handed_on().len() == run.rendered().len()
            &&& forall|i: int|
                0 <= i < run.rendered().len() ==> #[trigger] recorder.handed_on()[i]
                    == run.rendered()[i]
        },
{
    recorder.every_asked_frame_is_captured();
    if run.state().stage is Finished {
        recorder.every_asked_frame_is_handed_on();
    }
}

/// What a live run does depends on nothing but the time limit for a connection and what it is told:
/// two runs with the same limit that are told the same do the same, render the same ticks in the same
/// order, and go on in the same way, whatever else they were asked for.
pub proof fn same_events_give_the_same_run(a: &ListenRender, b: &ListenRender, event: ListenEvent)
    requires
        a.well_formed(),
        b.well_formed(),
        a.connect_timeout().spec_nanos() == b.connect_timeout().spec_nanos(),
        a.events() == b.events(),
    ensures
        a.state() == b.state(),
        a.state().actions == b.state().actions,
        a.rendered() == b.rendered(),
        listen_next(a.state(), a.connect_timeout().spec_nanos(), event) == listen_next(
            b.state(),
            b.connect_timeout().spec_nanos(),
            event,
        ),
{
}

/// Has the producer been connected whenever the loop over the ticks asked?
pub open spec fn always_connected(events: Seq<ListenEvent>) -> bool {
    forall|i: int|
        0 <= i < events.len() ==> (#[trigger] events[i] matches ListenEvent::Live(
            LiveEvent::Status(status),
        ) ==> status == ProducerStatus::Connected)
}

/// Has any look at the stream shown data above the tick?
pub open spec fn seen_above(events: Seq<ListenEvent>, tick: int) -> bool {
    exists|i: int|
        0 <= i < events.len() && (#[trigger] events[i] matches ListenEvent::Live(
            LiveEvent::Pumped(Some(range)),
        ) && tick < range.max)
}

/// As long as the producer is connected, a tick has been rendered only if data above it has arrived:
/// the newest tick stays pending.
pub proof fn connected_run_renders_only_complete_ticks(run: &ListenRender, i: int)
    requires
        run.well_formed(),
        always_connected(run.events()),
        0 <= i < run.rendered().len(),
    ensures
        seen_above(run.events(), run.rendered()[i] as int),
{
    let nanos = run.connect_timeout.spec_nanos();
    lemma_not_flushed(nanos, run.events@);
    crate::live::rendered_ticks_lie_below_seen_data(run.live, i);
    let newest = run.live.newest_seen()->0;
    lemma_newest_was_seen(nanos, run.events@);
    let k = choose|k: int|
        0 <= k < run.events@.len() && (#[trigger] run.events@[k] matches ListenEvent::Live(
            LiveEvent::Pumped(Some(range)),
        ) && newest - 1 < range.max);
    assert(run.events@[k] matches ListenEvent::Live(LiveEvent::Pumped(Some(range)))
        && run.rendered()[i] < range.max);
}

/// As long as the producer is connected, the stream is not flushed.
proof fn lemma_not_flushed(nanos: nat, events: Seq<ListenEvent>)
    requires
        goes_on_with(nanos, events),
        always_connected(events),
    ensures
        ({
            let state = listen_replay(nanos, events);
            &&& !(state.live.stage is Draining)
            &&& !(state.live.stage is Flushing)
            &&& !(state.live.stage is Finished)
        }),
    decreases events.len(),
{
    if events.len() > 0 {
        let before = events.drop_last();
        assert forall|i: int| 0 <= i < before.len() implies (
        #[trigger] before[i] matches ListenEvent::Live(LiveEvent::Status(status)) ==> status
            == ProducerStatus::Connected) by {
            assert(before[i] == events[i]);
        }
        lemma_not_flushed(nanos, before);
        assert(events[events.len() - 1] == events.last());
    }
}

/// The newest tick seen was seen at some time.
proof fn lemma_newest_was_seen(nanos: nat, events: Seq<ListenEvent>)
    requires
        goes_on_with(nanos, events),
    ensures
        listen_replay(nanos, events).live.newest_seen matches Some(newest) ==> seen_above(
            events,
            newest - 1,
        ),
    decreases events.len(),
{
    if events.len() > 0 {
        let before = events.drop_last();
        let state = listen_replay(nanos, before);
        lemma_newest_was_seen(nanos, before);
        assert(events[events.len() - 1] == events.last());
        if let Some(newest) = state.live.newest_seen {
            let i = choose|i: int|
                0 <= i < before.len() && (#[trigger] before[i] matches ListenEvent::Live(
                    LiveEvent::Pumped(Some(range)),
                ) && newest - 1 < range.max);
            assert(events[i] == before[i]);
        }
    }
}

/// A file run begins by looking at the viewer, with the options that decide how it goes on.
pub proof fn a_file_run_begins_with_its_options(options: &RenderVideoOptions, run: FileRender)
    requires
        call_ensures(run_render_app, (options,), run),
    ensures
        run.well_formed(),
        run.stage() == FileStage::Looking,
        run.deterministic() == options.deterministic,
        run.load_timeout() == options.load_timeout,
        run.settle_limits() == (options.min_settle_steps, options.max_settle_steps),
        run.looks().len() == 0,
        run.frames().len() == 0,
        run.captures() == 0,
{
}

/// How a file run comes to its first frame: it looks until the recording is loaded or the time is over,
/// with a pause after each look that shows neither. Then the viewer steps once, the times are resolved,
/// the cursor is taken over, and the viewer steps again. Only a streaming capture takes a render state
/// then, and fails without one.
pub proof fn a_file_is_loaded_scheduled_and_taken_over(
    run: &mut FileRender,
    event: FileEvent,
    recorder: &mut Recorder,
    res: Result<FileAction, RenderError>,
)
    requires
        old(run).well_formed(),
        file_answers(old(run).stage(), event),
        old(run).records_with(old(recorder)),
        old(recorder).idle(),
        call_ensures(FileRender::next, (run, event, recorder), res),
    ensures
        final(run).deterministic() == old(run).deterministic(),
        final(run).load_timeout() == old(run).load_timeout(),
        final(run).settle_limits() == old(run).settle_limits(),
        old(run).stage() == FileStage::Looking ==> (event matches FileEvent::Looked(look, elapsed)
            && {
            let looks = old(run).looks().push(look);
            &&& final(run).looks() == looks
            &&& load_complete(looks) ==> res == Ok::<FileAction, RenderError>(FileAction::Step)
                && final(run).stage() == FileStage::Priming
            &&& !load_complete(looks) && elapsed > old(run).load_timeout().spec_nanos() ==> res
                == Err::<FileAction, RenderError>(
                RenderError::LoadTimeout { limit: old(run).load_timeout() },
            )
            &&& !load_complete(looks) && elapsed <= old(run).load_timeout().spec_nanos() ==> res
                == Ok::<FileAction, RenderError>(FileAction::Pause) && final(run).stage()
                == FileStage::Pausing
        }),
        old(run).stage() == FileStage::Pausing ==> res == Ok::<FileAction, RenderError>(
            FileAction::StepAndLook,
        ) && final(run).stage() == FileStage::Looking,
        old(run).stage() == FileStage::Priming ==> res == Ok::<FileAction, RenderError>(
            FileAction::Resolve,
        ) && final(run).stage() == FileStage::Resolving,
        old(run).stage() == FileStage::Resolving ==> {
            &&& res == Ok::<FileAction, RenderError>(FileAction::TakeTime)
            &&& final(run).stage() == FileStage::TakingTime
            &&& event == FileEvent::Scheduled(final(run).num_frames())
        },
        old(run).stage() != FileStage::Resolving ==> final(run).num_frames() == old(
            run,
        ).num_frames(),
        old(run).stage() == FileStage::TakingTime ==> res == Ok::<FileAction, RenderError>(
            FileAction::Step,
        ) && final(run).stage() == FileStage::Painting,
        old(run).stage() == FileStage::Painting && !old(run).deterministic() ==> res == Ok::<
            FileAction,
            RenderError,
        >(FileAction::TakeRenderState) && final(run).stage() == FileStage::TakingRenderState,
        old(run).stage() == FileStage::TakingRenderState && event == FileEvent::RenderState(false)
            ==> (res matches Err(RenderError::NoRenderState)),
{
}

/// How a file run goes through its frames: a streaming capture warms up eight times once it has a
/// render state, and drains its pipeline after the last frame. Frame after frame is asked of the
/// recorder, each with the next index, until all are captured; then the run is over.
pub proof fn a_file_run_captures_frame_after_frame(
    run: &mut FileRender,
    event: FileEvent,
    recorder: &mut Recorder,
    res: Result<FileAction, RenderError>,
)
    requires
        old(run).well_formed(),
        file_answers(old(run).stage(), event),
        old(run).records_with(old(recorder)),
        old(recorder).idle(),
        call_ensures(FileRender::next, (run, event, recorder), res),
        match old(run).stage() {
            FileStage::Painting => old(run).deterministic(),
            FileStage::TakingRenderState => event == FileEvent::RenderState(true),
            FileStage::Capturing => true,
            _ => false,
        },
    ensures
        ({
            let n = old(run).captures();
            let frames = old(run).num_frames();
            let warmup: int = if old(run).deterministic() {
                0
            } else {
                8
            };
            &&& res matches Ok(FileAction::Capture(action))
            &&& action == CaptureAction::WarmUp <==> n < warmup
            &&& action is Frame <==> warmup <= n < warmup + frames
            &&& action matches CaptureAction::Frame(frame) ==> {
                &&& frame == n - warmup
                &&& frame == old(run).frames().len()
                &&& final(run).frames() == old(run).frames().push(frame)
                &&& final(recorder).asked() == old(recorder).asked().push(frame as int)
                &&& final(recorder).is_open()
            }
            &&& !(action is Frame) ==> final(run).frames() == old(run).frames()
                && *final(recorder) == *old(recorder)
            &&& action == CaptureAction::Drain <==> n == warmup + frames
                && !old(run).deterministic()
            &&& final(run).captures() == n + 1
            &&& final(run).stage() == if action == CaptureAction::Finish {
                FileStage::Finished
            } else {
                FileStage::Capturing
            }
        }),
        old(run).stage() != FileStage::Capturing ==> old(run).captures() == 0,
{
}

/// A live run begins by looking at the viewer, with nothing rendered.
pub proof fn a_live_run_begins_with_its_options(options: &RenderVideoOptions, run: ListenRender)
    requires
        call_ensures(run_render_listen_app, (options,), run),
    ensures
        run.well_formed(),
        run.connect_timeout() == options.connect_timeout,
        run.max_settle_steps() == options.max_settle_steps,
        run.state().stage == ListenStage::Looking,
        run.state().looks.len() == 0,
        run.rendered().len() == 0,
        run.events().len() == 0,
{
}

/// How a live run comes to its first tick: it looks until there is a recording, with a pause after each
/// look without a verdict; a client that left without data, and a wait that took too long, end it. Then
/// the viewer steps once, the timeline and its first tick are found, the cursor is set to that tick, the
/// viewer steps again and warms up eight times, and a render state is taken; without one the run
/// fails.
pub proof fn a_live_run_waits_for_data_and_warms_up(
    run: &mut ListenRender,
    event: ListenEvent,
    recorder: &mut Recorder,
    res: Result<ListenAction, RenderError>,
)
    requires
        old(run).well_formed(),
        listen_answers(old(run).state(), event),
        old(run).records_with(old(recorder)),
        old(recorder).idle(),
        call_ensures(ListenRender::next, (run, event, recorder), res),
    ensures
        final(run).connect_timeout() == old(run).connect_timeout(),
        final(run).max_settle_steps() == old(run).max_settle_steps(),
        old(run).state().stage == ListenStage::Looking ==> (event matches ListenEvent::Looked {
            recording_active,
            status,
            now,
        } && {
            let looks = old(run).state().looks.push(FirstDataLook { status, now });
            let verdict = no_data_verdict(looks, old(run).connect_timeout().spec_nanos());
            &&& recording_active ==> res == Ok::<ListenAction, RenderError>(ListenAction::Step)
                && final(run).state().stage == ListenStage::Priming
            &&& !recording_active && verdict == FirstDataVerdict::NothingLogged ==> (
            res matches Err(RenderError::DisconnectedWithoutData))
            &&& !recording_active && verdict == FirstDataVerdict::TimedOut ==> res == Ok::<
                ListenAction,
                RenderError,
            >(ListenAction::AskStatus) && final(run).state().stage == ListenStage::AskingStatus
            &&& !recording_active && verdict == FirstDataVerdict::Wait ==> {
                &&& res == Ok::<ListenAction, RenderError>(ListenAction::Pause)
                &&& final(run).state().stage == ListenStage::Pausing
                &&& final(run).state().looks == looks
            }
        }),
        old(run).state().stage == ListenStage::AskingStatus ==> (event matches ListenEvent::Status(
            status,
        ) && res == Err::<ListenAction, RenderError>(
            if status == ProducerStatus::NeverConnected {
                RenderError::ConnectTimeout { limit: old(run).connect_timeout() }
            } else {
                RenderError::DataTimeout { limit: old(run).connect_timeout() }
            },
        )),
        old(run).state().stage == ListenStage::Pausing ==> res == Ok::<ListenAction, RenderError>(
            ListenAction::StepAndLook,
        ) && final(run).state().stage == ListenStage::Looking,
        old(run).state().stage == ListenStage::Priming ==> res == Ok::<ListenAction, RenderError>(
            ListenAction::ResolveTimeline,
        ) && final(run).state().stage == ListenStage::Resolving,
        old(run).state().stage == ListenStage::Resolving ==> (event matches ListenEvent::Resolved(
            tick,
        ) && {
            &&& res == Ok::<ListenAction, RenderError>(ListenAction::TakeTime(tick))
            &&& final(run).state().stage == ListenStage::TakingTime
            &&& final(run).state().live.first_tick == tick
            &&& final(run).state().live.next_tick == tick
            &&& final(run).state().live.stage == LiveStage::Pumping
            &&& final(run).state().time_taken == Some(tick)
        }),
        old(run).state().stage == ListenStage::TakingTime ==> res == Ok::<
            ListenAction,
            RenderError,
        >(ListenAction::Step) && final(run).state().stage == ListenStage::Painting,
        old(run).state().stage == ListenStage::Painting ==> {
            &&& res == Ok::<ListenAction, RenderError>(ListenAction::WarmUp)
            &&& final(run).state().stage == ListenStage::WarmingUp
            &&& final(run).state().warmed_up == 1
        },
        old(run).state().stage == ListenStage::WarmingUp ==> if old(run).state().warmed_up < 8 {
            &&& res == Ok::<ListenAction, RenderError>(ListenAction::WarmUp)
            &&& final(run).state().stage == ListenStage::WarmingUp
            &&& final(run).state().warmed_up == old(run).state().warmed_up + 1
        } else {
            &&& res == Ok::<ListenAction, RenderError>(ListenAction::TakeRenderState)
            &&& final(run).state().stage == ListenStage::TakingRenderState
        },
        old(run).state().stage == ListenStage::TakingRenderState ==> if event
            == ListenEvent::RenderState(true) {
            &&& res == Ok::<ListenAction, RenderError>(ListenAction::Live(LiveAction::Pump))
            &&& final(run).state().stage == ListenStage::Rendering
        } else {
            res matches Err(RenderError::NoRenderState)
        },
{
}

/// How a live run goes through its ticks: what is rendered and when follows from what it is told, as for
/// the loop over the ticks alone. Each tick is asked of the recorder. Once the loop is over, the frames
/// that are still on their way are collected, and then the run is over.
pub proof fn a_live_run_renders_as_its_loop_does(
    run: &mut ListenRender,
    event: LiveEvent,
    recorder: &mut Recorder,
    res: Result<ListenAction, RenderError>,
    live: &mut LiveLoop,
    action: LiveAction,
)
    requires
        old(run).well_formed(),
        old(run).state().stage == ListenStage::Rendering,
        listen_answers(old(run).state(), ListenEvent::Live(event)),
        old(run).records_with(old(recorder)),
        old(recorder).idle(),
        call_ensures(ListenRender::next, (run, ListenEvent::Live(event), recorder), res),
        old(live).state() == old(run).state().live,
        old(live).well_formed(),
        call_ensures(LiveLoop::next, (live, event), action),
    ensures
        final(run).state().live == final(live).state(),
        if action == LiveAction::Finish {
            &&& res == Ok::<ListenAction, RenderError>(ListenAction::CollectRest)
            &&& final(run).state().stage == ListenStage::Collecting
        } else {
            &&& res == Ok::<ListenAction, RenderError>(ListenAction::Live(action))
            &&& final(run).state().stage == ListenStage::Rendering
        },
        action matches LiveAction::Render(tick) ==> {
            &&& final(recorder).asked() == old(recorder).asked().push(tick as int)
            &&& final(recorder).is_open()
        },
        !(action is Render) ==> *final(recorder) == *old(recorder),
        final(run).events() == old(run).events().push(ListenEvent::Live(event)),
{
}

/// Once the last frames are collected, a live run is over.
pub proof fn a_live_run_ends_after_the_last_frames(
    run: &mut ListenRender,
    recorder: &mut Recorder,
    res: Result<ListenAction, RenderError>,
)
    requires
        old(run).well_formed(),
        old(run).state().stage == ListenStage::Collecting,
        old(run).records_with(old(recorder)),
        old(recorder).idle(),
        old(recorder).in_flight() == 0,
        call_ensures(ListenRender::next, (run, ListenEvent::Done, recorder), res),
    ensures
        res == Ok::<ListenAction, RenderError>(ListenAction::Finish),
        final(run).state().stage == ListenStage::Finished,
        final(run).rendered() == old(run).rendered(),
        *final(recorder) == *old(recorder),
{
}

/// A run waits for the answer to its last action, and for nothing else; one that is over waits for
/// nothing.
pub proof fn runs_wait_for_the_answer_to_their_action(
    run: &mut FileRender,
    event: FileEvent,
    recorder: &mut Recorder,
    res: Result<FileAction, RenderError>,
)
    requires
        old(run).well_formed(),
        file_answers(old(run).stage(), event),
        old(run).records_with(old(recorder)),
        old(recorder).idle(),
        call_ensures(FileRender::next, (run, event, recorder), res),
        res is Ok,
    ensures
        forall|then: FileEvent|
            #[trigger] file_answers(final(run).stage(), then) <==> match res->Ok_0 {
                FileAction::StepAndLook => then is Looked,
                FileAction::Resolve => then is Scheduled,
                FileAction::TakeRenderState => then is RenderState,
                FileAction::Capture(CaptureAction::Finish) => false,
                _ => then is Done,
            },
{
}

/// The same holds of a live run.
pub proof fn live_runs_wait_for_the_answer_to_their_action(
    run: &mut ListenRender,
    event: ListenEvent,
    recorder: &mut Recorder,
    res: Result<ListenAction, RenderError>,
)
    requires
        old(run).well_formed(),
        listen_answers(old(run).state(), event),
        old(run).records_with(old(recorder)),
        old(recorder).idle(),
        call_ensures(ListenRender::next, (run, event, recorder), res),
        res is Ok,
    ensures
        forall|then: ListenEvent|
            #[trigger] listen_answers(final(run).state(), then) <==> match res->Ok_0 {
                ListenAction::StepAndLook => then is Looked,
                ListenAction::AskStatus => then is Status,
                ListenAction::ResolveTimeline => then is Resolved,
                ListenAction::TakeRenderState => then is RenderState,
                ListenAction::Live(action) => then matches ListenEvent::Live(told) && match action {
                    LiveAction::Pump => told is Pumped,
                    LiveAction::Render(_) => told is Rendered,
                    LiveAction::AskStatus => told is Status,
                    LiveAction::Drain => told is Drained,
                    LiveAction::Sleep => told is Slept,
                    LiveAction::Finish => false,
                },
                ListenAction::Finish => false,
                _ => then is Done,
            },
{
}

} // verus!
