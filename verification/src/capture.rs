//! The record loop: which frames are captured, in which order, and what is known of them afterwards.
use vstd::prelude::*;
use crate::clock::TimeLimit;
use crate::timeline::TimelineName;

verus! {

/// Default size of the viewport, in pixels.
pub const DEFAULT_HEADLESS_WIDTH: u32 = 1920;

pub const DEFAULT_HEADLESS_HEIGHT: u32 = 1080;

/// Number of warmup steps before the first frame of a streaming capture, to prime layout, caches,
/// and the video decode pipeline.
pub const STREAM_WARMUP_STEPS: u64 = 8;

/// How many copies may be on their way while the next frame is rendered.
pub const MAX_FRAMES_IN_FLIGHT: usize = 1;

/// How a render run is configured, apart from its frame rate and its time span.
pub struct RenderVideoOptions {
    /// Viewport width in pixels.
    pub width: u32,
    /// Viewport height in pixels.
    pub height: u32,
    /// Timeline to march along. `None` uses the timeline the viewer picks by default.
    pub timeline: Option<String>,
    /// Use the deterministic seek and settle capture loop instead of streaming capture.
    pub deterministic: bool,
    /// Deterministic mode only: minimum number of consecutive settled steps after each seek before
    /// a frame is captured.
    pub min_settle_steps: u32,
    /// Upper bound on render passes (streaming) or settle steps (deterministic) per output frame,
    /// in case a video stream never reports ready.
    pub max_settle_steps: u32,
    /// Pause between extra passes while a video decoder is still working.
    pub settle_sleep: TimeLimit,
    /// How long to wait for the recording to finish loading before giving up.
    pub load_timeout: TimeLimit,
    /// Listen mode only: how long to wait for an SDK client to connect and log its first data
    /// before giving up.
    pub connect_timeout: TimeLimit,
}

impl Default for RenderVideoOptions {
    fn default() -> (options: Self)
        ensures
            options.width == 1920,
            options.height == 1080,
            options.timeline is None,
            !options.deterministic,
            options.min_settle_steps == 6,
            options.max_settle_steps == 240,
            options.settle_sleep.spec_nanos() == 5_000_000,
            options.load_timeout.spec_nanos() == 300_000_000_000,
            options.connect_timeout.spec_nanos() == 60_000_000_000,
    {
        RenderVideoOptions {
            width: DEFAULT_HEADLESS_WIDTH,
            height: DEFAULT_HEADLESS_HEIGHT,
            timeline: None,
            deterministic: false,
            min_settle_steps: 6,
            max_settle_steps: 240,
            settle_sleep: TimeLimit::new(0, 5_000_000),
            load_timeout: TimeLimit::new(300, 0),
            connect_timeout: TimeLimit::new(60, 0),
        }
    }
}

/// What a render run produced.
#[derive(Debug)]
pub struct RenderVideoStats {
    /// Number of frames handed to the sink.
    pub num_frames: u64,
    /// Pixel width of the captured frames.
    pub width: u32,
    /// Pixel height of the captured frames.
    pub height: u32,
    /// Name of the timeline that was rendered.
    pub timeline: TimelineName,
    /// Streaming mode: total render passes beyond the one-per-frame minimum.
    pub extra_passes: u64,
    /// Streaming mode: number of output frames that needed more than one pass.
    pub frames_with_extra_passes: u64,
}

/// Is it time for a progress report after the frame with this index? There is one for each second
/// of output, and one at the end.
pub fn file_progress_due(frame_idx: u64, num_frames: u64, frames_per_report: u64) -> (due: bool)
    requires
        frame_idx < num_frames,
        frames_per_report > 0,
    ensures
        due <==> (frame_idx + 1) % (frames_per_report as int) == 0 || frame_idx + 1 == num_frames,
{
    (frame_idx + 1) % frames_per_report == 0 || frame_idx + 1 == num_frames
}

/// Is it time for a progress report after so many live ticks? There is one for each second of
/// output.
pub fn live_progress_due(num_frames: u64, frames_per_report: u64) -> (due: bool)
    requires
        frames_per_report > 0,
    ensures
        due <==> num_frames % frames_per_report == 0,
{
    num_frames % frames_per_report == 0
}

/// What to do next in the record loop of a file.
#[derive(Debug, Clone, Copy, PartialEq, Eq, Structural)]
pub enum CaptureAction {
    /// Step the viewer once, without capturing anything.
    WarmUp,
    /// Seek to the time of the frame with this index, let the picture settle, and capture it.
    Frame(u64),
    /// Collect the frames that are still on their way.
    Drain,
    /// Every frame has been handed on.
    Finish,
}

/// The `n`-th action of the record loop over `num_frames` frames. Streaming capture warms up first,
/// and drains its pipeline last.
pub open spec fn capture_action(deterministic: bool, num_frames: u64, n: int) -> CaptureAction {
    if deterministic {
        if n < num_frames {
            CaptureAction::Frame(n as u64)
        } else {
            CaptureAction::Finish
        }
    } else if n < STREAM_WARMUP_STEPS {
        CaptureAction::WarmUp
    } else if n < STREAM_WARMUP_STEPS + num_frames {
        CaptureAction::Frame((n - STREAM_WARMUP_STEPS) as u64)
    } else if n == STREAM_WARMUP_STEPS + num_frames {
        CaptureAction::Drain
    } else {
        CaptureAction::Finish
    }
}

/// How many of the first `n` actions of the record loop capture a frame.
pub open spec fn frames_captured(deterministic: bool, num_frames: u64, n: int) -> int {
    let after_warmup = if deterministic {
        n
    } else {
        n - STREAM_WARMUP_STEPS
    };
    if after_warmup < 0 {
        0
    } else if after_warmup > num_frames {
        num_frames as int
    } else {
        after_warmup
    }
}

/// The record loop of a file.
pub struct CaptureLoop {
    deterministic: bool,
    num_frames: u64,
    warmed_up: u64,
    next_frame: u64,
    drained: bool,
    actions: Ghost<int>,
}

impl CaptureLoop {
    pub closed spec fn spec_deterministic(&self) -> bool {
        self.deterministic
    }

    pub closed spec fn spec_num_frames(&self) -> u64 {
        self.num_frames
    }

    /// How many actions have been given out.
    pub closed spec fn actions(&self) -> int {
        self.actions@
    }

    pub closed spec fn well_formed(&self) -> bool {
        &&& 0 <= self.actions@
        &&& self.next_frame <= self.num_frames
        &&& self.warmed_up <= STREAM_WARMUP_STEPS
        &&& self.deterministic ==> {
            &&& self.actions@ >= self.next_frame
            &&& self.actions@ > self.next_frame ==> self.next_frame == self.num_frames
        }
        &&& !self.deterministic ==> {
            &&& self.warmed_up < STREAM_WARMUP_STEPS ==> self.next_frame == 0 && self.actions@
                == self.warmed_up
            &&& self.next_frame < self.num_frames ==> !self.drained
            &&& !self.drained ==> self.actions@ == self.warmed_up + self.next_frame
            &&& self.drained ==> self.actions@ > STREAM_WARMUP_STEPS + self.num_frames
                && self.next_frame == self.num_frames && self.warmed_up == STREAM_WARMUP_STEPS
        }
    }

    /// Before the first action.
    pub fn new(deterministic: bool, num_frames: u64) -> (capture: Self)
        ensures
            capture.well_formed(),
            capture.spec_deterministic() == deterministic,
            capture.spec_num_frames() == num_frames,
            capture.actions() == 0,
    {
        CaptureLoop {
            deterministic,
            num_frames,
            warmed_up: 0,
            next_frame: 0,
            drained: false,
            actions: Ghost(0),
        }
    }

    /// What to do next, once the last action is done.
    pub fn next(&mut self) -> (action: CaptureAction)
        requires
            old(self).well_formed(),
        ensures
            final(self).well_formed(),
            final(self).spec_deterministic() == old(self).spec_deterministic(),
            final(self).spec_num_frames() == old(self).spec_num_frames(),
            final(self).actions() == old(self).actions() + 1,
            action == capture_action(
                old(self).spec_deterministic(),
                old(self).spec_num_frames(),
                old(self).actions(),
            ),
    {
        proof {
            self.actions@ = self.actions@ + 1;
        }
        if !self.deterministic && self.warmed_up < STREAM_WARMUP_STEPS {
            self.warmed_up = self.warmed_up + 1;
            return CaptureAction::WarmUp;
        }
        if self.next_frame < self.num_frames {
            let frame: u64 = self.next_frame;
            self.next_frame = frame + 1;
            return CaptureAction::Frame(frame);
        }
        if !self.deterministic && !self.drained {
            self.drained = true;
            return CaptureAction::Drain;
        }
        CaptureAction::Finish
    }
}

/// Every frame is captured exactly once, in order: the frame with index `i` is the `i`-th one, after
/// the warmup if there is one, and no other action captures it.
pub proof fn each_frame_is_captured_once(deterministic: bool, num_frames: u64, frame: u64, n: int)
    requires
        frame < num_frames,
        0 <= n,
    ensures
        capture_action(deterministic, num_frames, n) == CaptureAction::Frame(frame) <==> n == frame
            + (if deterministic {
            0int
        } else {
            STREAM_WARMUP_STEPS as int
        }),
{
}

/// No frame is captured that is not asked for, and none after the pipeline was drained.
pub proof fn no_frame_after_the_last(deterministic: bool, num_frames: u64, n: int, frame: u64)
    requires
        0 <= n,
        capture_action(deterministic, num_frames, n) == CaptureAction::Frame(frame),
    ensures
        frame < num_frames,
        forall|m: int|
            0 <= m <= n ==> {
                let action = #[trigger] capture_action(deterministic, num_frames, m);
                action != CaptureAction::Drain && action != CaptureAction::Finish
            },
{
}

/// What is not asked for is left at these values: a full-HD picture, the shown timeline, streaming
/// capture, six calm steps of at most 240, five milliseconds between passes, five minutes to load and
/// one minute to connect.
pub proof fn defaults_are_as_documented(options: RenderVideoOptions)
    requires
        call_ensures(RenderVideoOptions::default, (), options),
    ensures
        options.width == 1920 && options.height == 1080,
        options.timeline is None,
        !options.deterministic,
        options.min_settle_steps == 6 && options.max_settle_steps == 240,
        options.settle_sleep.spec_nanos() == 5 * 1_000_000,
        options.load_timeout.spec_nanos() == 300 * 1_000_000_000,
        options.connect_timeout.spec_nanos() == 60 * 1_000_000_000,
{
}

/// Progress is reported after every so many frames, counted from the first one, and after the last
/// frame of a file.
pub proof fn progress_is_reported_regularly(
    frame_idx: u64,
    num_frames: u64,
    frames_per_report: u64,
    due: bool,
    live_due: bool,
)
    requires
        frame_idx < num_frames,
        frames_per_report > 0,
        call_ensures(file_progress_due, (frame_idx, num_frames, frames_per_report), due),
        call_ensures(live_progress_due, (num_frames, frames_per_report), live_due),
    ensures
        due <==> (frame_idx + 1) % (frames_per_report as int) == 0 || frame_idx == num_frames - 1,
        live_due <==> num_frames % frames_per_report == 0,
{
}

/// A deterministic capture takes the frames one after the other and ends. A streaming one takes eight
/// warmup steps first, then the frames, then drains its pipeline once, and ends.
pub proof fn captures_warm_up_and_drain_only_while_streaming(
    capture: &mut CaptureLoop,
    action: CaptureAction,
)
    requires
        old(capture).well_formed(),
        call_ensures(CaptureLoop::next, (capture,), action),
    ensures
        ({
            let n = old(capture).actions();
            let frames = old(capture).spec_num_frames();
            let warmup: int = if old(capture).spec_deterministic() {
                0
            } else {
                8
            };
            &&& n >= 0
            &&& action == CaptureAction::WarmUp <==> n < warmup
            &&& action is Frame <==> warmup <= n < warmup + frames
            &&& action matches CaptureAction::Frame(frame) ==> frame == n - warmup
            &&& action == CaptureAction::Drain <==> n == warmup + frames
                && !old(capture).spec_deterministic()
            &&& final(capture).actions() == n + 1
            &&& final(capture).spec_num_frames() == frames
            &&& final(capture).spec_deterministic() == old(capture).spec_deterministic()
        }),
{
}

/// The actions of a record loop over `num_frames` frames, by their number, and how many of them have
/// captured a frame.
pub proof fn record_loops_go_through_their_phases(deterministic: bool, num_frames: u64, n: int)
    requires
        n >= 0,
    ensures
        ({
            let action = capture_action(deterministic, num_frames, n);
            let warmup: int = if deterministic {
                0
            } else {
                8
            };
            &&& action == CaptureAction::WarmUp <==> n < warmup
            &&& action is Frame <==> warmup <= n < warmup + num_frames
            &&& action matches CaptureAction::Frame(frame) ==> frame == n - warmup
            &&& action == CaptureAction::Drain <==> n == warmup + num_frames && !deterministic
            &&& frames_captured(deterministic, num_frames, 0) == 0
            &&& frames_captured(deterministic, num_frames, n + 1) == frames_captured(
                deterministic,
                num_frames,
                n,
            ) + (if action is Frame {
                1int
            } else {
                0int
            })
        }),
{
}

/// A record loop begins with its first action.
pub proof fn record_loops_begin_at_the_beginning(
    deterministic: bool,
    num_frames: u64,
    capture: CaptureLoop,
)
    requires
        call_ensures(CaptureLoop::new, (deterministic, num_frames), capture),
    ensures
        capture.well_formed(),
        capture.actions() == 0,
        capture.spec_deterministic() == deterministic,
        capture.spec_num_frames() == num_frames,
        MAX_FRAMES_IN_FLIGHT == 1,
        STREAM_WARMUP_STEPS == 8,
{
}

} // verus!
