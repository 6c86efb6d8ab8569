//! What becomes of the frames that a run asks for: each is captured once the picture has settled,
//! collected later, and handed on; and what is counted on the way.
use vstd::prelude::*;
use crate::capture::{RenderVideoOptions, RenderVideoStats, MAX_FRAMES_IN_FLIGHT};
use crate::error::RenderError;
use crate::readback::{
    capture_begun, frame_delivered, frame_discarded, frame_taken, none_discarded, padded_row,
    CapturePlan, FrameCapture, PendingFrame,
};
use crate::settle::{pass_verdict, seek_verdict, FramePasses, PassVerdict, SeekSettle, SeekVerdict};
use crate::timeline::TimelineName;

verus! {

/// The larger of the two.
pub open spec fn max_of(a: u32, b: u32) -> u32 {
    if a >= b {
        a
    } else {
        b
    }
}

fn larger(a: u32, b: u32) -> (m: u32)
    ensures
        m == max_of(a, b),
{
    if a >= b {
        a
    } else {
        b
    }
}

/// The largest width and the largest height of some frames; zero if there are none, as while the
/// pipeline fills.
pub open spec fn dims_of(frames: Seq<PendingFrame>) -> (u32, u32)
    decreases frames.len(),
{
    if frames.len() == 0 {
        (0, 0)
    } else {
        let before = dims_of(frames.drop_last());
        (max_of(frames.last().width, before.0), max_of(frames.last().height, before.1))
    }
}

/// Frames of one size have that size.
proof fn lemma_dims_of_one_size(frames: Seq<PendingFrame>, width: u32, height: u32)
    requires
        frames.len() > 0,
        forall|i: int|
            0 <= i < frames.len() ==> (#[trigger] frames[i]).width == width && frames[i].height
                == height,
    ensures
        dims_of(frames) == (width, height),
    decreases frames.len(),
{
    reveal_with_fuel(dims_of, 2);
    let before = frames.drop_last();
    if before.len() > 0 {
        assert forall|i: int| 0 <= i < before.len() implies (#[trigger] before[i]).width == width
            && before[i].height == height by {
            assert(before[i] == frames[i]);
        }
        lemma_dims_of_one_size(before, width, height);
    }
    assert(frames[frames.len() - 1].width == width);
}

/// Were all but the last of them handed on?
pub open spec fn only_last_discarded(outcomes: Seq<bool>) -> bool {
    forall|i: int| 0 <= i < outcomes.len() - 1 ==> #[trigger] outcomes[i]
}

/// The frames of a run on their way to the sink, and the counts of what was done for them.
///
/// Frames are asked for by the run, one at a time. Streaming capture sends each of them through the
/// pipeline; deterministic capture renders them one by one, without it.
pub struct Recorder {
    pipeline: FrameCapture,
    min_settle_steps: u32,
    max_settle_steps: u32,
    num_asked: u64,
    /// Has a frame been asked for that has not been captured yet?
    open: bool,
    width: u32,
    height: u32,
    extra_passes: u64,
    frames_with_extra_passes: u64,
    deterministic: Ghost<bool>,
    asked: Ghost<Seq<int>>,
    settled: Ghost<bool>,
    waits: Ghost<Seq<Seq<bool>>>,
    direct: Ghost<Seq<bool>>,
    direct_sizes: Ghost<Seq<(u32, u32)>>,
}

impl Recorder {
    /// The capture pipeline.
    pub closed spec fn pipeline(&self) -> FrameCapture {
        self.pipeline
    }

    /// Are frames rendered one by one, without the pipeline?
    pub closed spec fn deterministic(&self) -> bool {
        self.deterministic@
    }

    pub closed spec fn spec_min_settle_steps(&self) -> u32 {
        self.min_settle_steps
    }

    pub closed spec fn spec_max_settle_steps(&self) -> u32 {
        self.max_settle_steps
    }

    /// For each frame that was asked for, in order, what it shows: its index, or its tick.
    pub closed spec fn asked(&self) -> Seq<int> {
        self.asked@
    }

    /// Has a frame been asked for that has not been captured yet?
    pub closed spec fn is_open(&self) -> bool {
        self.open
    }

    /// Has the picture of the open frame settled?
    pub closed spec fn is_settled(&self) -> bool {
        self.settled@
    }

    /// For each frame whose picture has settled, in order, what was seen until it had: after each
    /// pass whether the videos were up to date, or after each step whether nothing was buffering.
    pub closed spec fn waits(&self) -> Seq<Seq<bool>> {
        self.waits@
    }

    /// For each frame that was rendered without the pipeline, whether the sink took it.
    pub closed spec fn direct(&self) -> Seq<bool> {
        self.direct@
    }

    /// For each frame that was rendered without the pipeline, its width and height.
    pub closed spec fn direct_sizes(&self) -> Seq<(u32, u32)> {
        self.direct_sizes@
    }

    /// For each frame that was to be handed on, in order, whether it was.
    pub open spec fn hand_outs(&self) -> Seq<bool> {
        if self.deterministic() {
            self.direct()
        } else {
            self.pipeline().outcomes()
        }
    }

    /// The dimensions of the frames so far.
    pub closed spec fn dims(&self) -> (u32, u32) {
        (self.width, self.height)
    }

    pub closed spec fn spec_extra_passes(&self) -> u64 {
        self.extra_passes
    }

    pub closed spec fn spec_frames_with_extra_passes(&self) -> u64 {
        self.frames_with_extra_passes
    }

    /// How many frames have been captured.
    pub open spec fn recorded(&self) -> nat {
        if self.deterministic() {
            self.direct().len()
        } else {
            self.pipeline().captured().len()
        }
    }

    /// How many frames are on their way.
    pub open spec fn in_flight(&self) -> int {
        self.pipeline().captured().len() - self.pipeline().taken()
    }

    /// Has every frame that was asked for been captured, with none refused or being collected?
    pub open spec fn idle(&self) -> bool {
        &&& self.well_formed()
        &&& !self.is_open()
        &&& self.pipeline().spec_collecting() is None
        &&& none_discarded(self.hand_outs())
    }

    /// What the frames that have been handed on show, as long as none was refused.
    pub open spec fn handed_on(&self) -> Seq<int> {
        self.asked().take(self.hand_outs().len() as int)
    }

    /// Do the two record in the same way?
    pub open spec fn same_mode(&self, other: &Recorder) -> bool {
        &&& self.deterministic() == other.deterministic()
        &&& self.spec_min_settle_steps() == other.spec_min_settle_steps()
        &&& self.spec_max_settle_steps() == other.spec_max_settle_steps()
    }

    /// Are the counts of passes the same?
    pub open spec fn same_passes(&self, other: &Recorder) -> bool {
        &&& self.spec_extra_passes() == other.spec_extra_passes()
        &&& self.spec_frames_with_extra_passes() == other.spec_frames_with_extra_passes()
    }

    /// Have the same frames been asked for, and is the last of them as far as it was?
    pub open spec fn same_frame(&self, other: &Recorder) -> bool {
        &&& self.same_mode(other)
        &&& self.asked() == other.asked()
        &&& self.is_open() == other.is_open()
        &&& self.is_settled() == other.is_settled()
        &&& self.waits() == other.waits()
        &&& self.direct() == other.direct()
        &&& self.direct_sizes() == other.direct_sizes()
    }

    /// Was the picture that this was seen of up to date, or the limit reached?
    pub open spec fn fine_wait(&self, wait: Seq<bool>) -> bool {
        if self.deterministic() {
            seek_verdict(wait, self.spec_min_settle_steps(), self.spec_max_settle_steps())
                != SeekVerdict::Step
        } else {
            wait.len() > 0 && pass_verdict(wait, self.spec_max_settle_steps())
                != PassVerdict::Again
        }
    }

    /// Every frame that was asked for has been captured, but for an open one, after its picture had
    /// settled. Nothing is handed on after a frame that was refused. The dimensions are those of the
    /// frames handed on.
    pub closed spec fn well_formed(&self) -> bool {
        &&& self.pipeline.well_formed()
        &&& self.asked@.len() == self.num_asked
        &&& self.num_asked == self.recorded() + (if self.open {
            1int
        } else {
            0int
        })
        &&& self.waits@.len() == self.recorded() + (if self.settled@ {
            1int
        } else {
            0int
        })
        &&& self.settled@ ==> self.open
        &&& forall|i: int| 0 <= i < self.waits@.len() ==> self.fine_wait(#[trigger] self.waits@[i])
        &&& only_last_discarded(self.hand_outs())
        &&& self.pipeline.spec_collecting() is Some ==> none_discarded(self.hand_outs())
        &&& if self.deterministic@ {
            &&& self.pipeline.captured().len() == 0
            &&& self.direct_sizes@.len() == self.direct@.len()
            &&& (self.width, self.height) == if self.direct_sizes@.len() == 0 {
                (0, 0)
            } else {
                self.direct_sizes@.last()
            }
            &&& self.extra_passes == 0
            &&& self.frames_with_extra_passes == 0
        } else {
            &&& self.direct@.len() == 0
            &&& (self.width, self.height) == dims_of(self.pipeline.handed_on())
        }
    }

    /// The pipeline of a recorder is well-formed, so what holds of such a pipeline holds of it. Without
    /// the pipeline there are no extra passes; with it, no frame goes another way.
    pub proof fn pipeline_is_well_formed(&self)
        requires
            self.well_formed(),
        ensures
            self.pipeline().well_formed(),
            self.deterministic() ==> self.pipeline().captured().len() == 0
                && self.spec_extra_passes() == 0 && self.spec_frames_with_extra_passes() == 0,
            !self.deterministic() ==> self.direct().len() == 0,
    {
    }

    /// A recorder without an open frame has captured exactly the frames that were asked for.
    pub proof fn every_asked_frame_is_captured(&self)
        requires
            self.well_formed(),
            !self.is_open(),
        ensures
            self.recorded() == self.asked().len(),
    {
    }

    /// Once nothing is on its way, every frame that was asked for has been handed on, once and in
    /// order.
    pub proof fn every_asked_frame_is_handed_on(&self)
        requires
            self.idle(),
            self.in_flight() == 0,
        ensures
            self.handed_on() == self.asked(),
            self.recorded() == self.asked().len(),
    {
        self.pipeline.frames_are_handed_on_in_order();
        let asked = self.asked();
        assert(asked.take(asked.len() as int) == asked);
    }

    /// A frame is captured only after every video showed the exact frame for its time, or the limit
    /// of passes was reached; in deterministic capture, after nothing was buffering for long enough,
    /// or the limit of steps was reached.
    pub proof fn frames_are_captured_once_settled(&self, i: int)
        requires
            self.well_formed(),
            0 <= i < self.recorded(),
        ensures
            self.fine_wait(self.waits()[i]),
            !self.deterministic() ==> self.waits()[i].last() || self.waits()[i].len()
                >= self.spec_max_settle_steps(),
    {
        assert(self.fine_wait(self.waits@[i]));
    }

    /// After a frame was refused, none is handed on any more: of all the frames that were to be handed
    /// on, only the last one can have been refused, and a run cannot go on after it.
    pub proof fn nothing_is_handed_on_after_a_refused_frame(&self, i: int)
        requires
            self.well_formed(),
            0 <= i < self.hand_outs().len(),
            !self.hand_outs()[i],
        ensures
            i == self.hand_outs().len() - 1,
            self.pipeline().spec_collecting() is None,
            !self.idle(),
    {
        assert(none_discarded(self.hand_outs()) ==> self.hand_outs()[i]);
    }

    /// Once at least one frame has been handed on, frames of one size give exactly that size.
    pub proof fn frames_of_one_size_give_that_size(&self, width: u32, height: u32)
        requires
            self.idle(),
            self.hand_outs().len() > 0,
            if self.deterministic() {
                forall|i: int|
                    0 <= i < self.direct_sizes().len() ==> #[trigger] self.direct_sizes()[i] == (
                        width,
                        height,
                    )
            } else {
                forall|i: int|
                    0 <= i < self.pipeline().captured().len() ==> (
                    #[trigger] self.pipeline().captured()[i]).width == width
                        && self.pipeline().captured()[i].height == height
            },
        ensures
            self.dims() == (width, height),
    {
        if self.deterministic() {
            assert(self.direct_sizes@.last() == self.direct_sizes()[self.direct_sizes().len() - 1]);
        } else {
            self.pipeline.frames_are_handed_on_in_order();
            let captured = self.pipeline().captured();
            let frames = self.pipeline.handed_on();
            assert forall|i: int| 0 <= i < frames.len() implies (#[trigger] frames[i]).width
                == width && frames[i].height == height by {
                assert(frames[i] == captured[i]);
            }
            lemma_dims_of_one_size(frames, width, height);
        }
    }

    /// Before the first frame of a file.
    pub fn for_file(options: &RenderVideoOptions) -> (recorder: Self)
        ensures
            recorder.is_new(options),
            recorder.deterministic() == options.deterministic,
    {
        Recorder::new(options, Ghost(options.deterministic))
    }

    /// Before the first frame of a live stream, which is always captured through the pipeline.
    pub fn for_live(options: &RenderVideoOptions) -> (recorder: Self)
        ensures
            recorder.is_new(options),
            !recorder.deterministic(),
    {
        Recorder::new(options, Ghost(false))
    }

    /// Has nothing been asked for yet?
    pub open spec fn is_new(&self, options: &RenderVideoOptions) -> bool {
        &&& self.idle()
        &&& self.in_flight() == 0
        &&& self.spec_min_settle_steps() == options.min_settle_steps
        &&& self.spec_max_settle_steps() == options.max_settle_steps
        &&& self.asked() == Seq::<int>::empty()
        &&& self.waits() == Seq::<Seq<bool>>::empty()
        &&& !self.is_settled()
        &&& self.direct() == Seq::<bool>::empty()
        &&& self.direct_sizes() == Seq::<(u32, u32)>::empty()
        &&& self.pipeline().captured() == Seq::<PendingFrame>::empty()
        &&& self.pipeline().taken() == 0
        &&& self.pipeline().outcomes() == Seq::<bool>::empty()
        &&& self.pipeline().sizes() == Map::<u64, (u32, u32)>::empty()
        &&& self.pipeline().spare() == Seq::<u64>::empty()
        &&& self.pipeline().spec_texture() is None
        &&& self.pipeline().spec_last_dims() == (0u32, 0u32)
        &&& self.pipeline().buffers_created() == 0
        &&& self.dims() == (0u32, 0u32)
        &&& self.spec_extra_passes() == 0
        &&& self.spec_frames_with_extra_passes() == 0
    }

    fn new(options: &RenderVideoOptions, Ghost(deterministic): Ghost<bool>) -> (recorder: Self)
        ensures
            recorder.is_new(options),
            recorder.deterministic() == deterministic,
    {
        Recorder {
            pipeline: FrameCapture::new(),
            min_settle_steps: options.min_settle_steps,
            max_settle_steps: options.max_settle_steps,
            num_asked: 0,
            open: false,
            width: 0,
            height: 0,
            extra_passes: 0,
            frames_with_extra_passes: 0,
            deterministic: Ghost(deterministic),
            asked: Ghost(Seq::empty()),
            settled: Ghost(false),
            waits: Ghost(Seq::empty()),
            direct: Ghost(Seq::empty()),
            direct_sizes: Ghost(Seq::empty()),
        }
    }

    /// Was one more frame asked for, which shows `what`, and nothing else done?
    pub open spec fn asks_for(&self, before: &Recorder, what: int) -> bool {
        &&& self.well_formed()
        &&& self.is_open()
        &&& !self.is_settled()
        &&& self.same_mode(before)
        &&& self.asked() == before.asked().push(what)
        &&& self.waits() == before.waits()
        &&& self.direct() == before.direct()
        &&& self.direct_sizes() == before.direct_sizes()
        &&& self.pipeline() == before.pipeline()
        &&& self.dims() == before.dims()
        &&& self.same_passes(before)
    }

    /// Asks for one more frame, which shows `what`.
    pub(crate) fn ask(&mut self, Ghost(what): Ghost<int>)
        requires
            old(self).idle(),
            old(self).asked().len() < u64::MAX,
        ensures
            final(self).asks_for(old(self), what),
    {
        self.num_asked = self.num_asked + 1;
        self.open = true;
        proof {
            self.asked@ = self.asked@.push(what);
        }
    }

    /// The wait until the picture of the open frame has settled, in streaming capture.
    pub fn frame_passes(&self) -> (passes: FramePasses)
        ensures
            passes.well_formed(),
            passes.waiting(),
            passes.answers() == Seq::<bool>::empty(),
            passes.spec_max_passes() == self.spec_max_settle_steps(),
    {
        FramePasses::new(self.max_settle_steps)
    }

    /// The wait until the picture of the open frame has settled, in deterministic capture.
    pub fn seek_settle(&self) -> (settle: SeekSettle)
        ensures
            settle.well_formed(),
            settle.calm() == Seq::<bool>::empty(),
            settle.spec_min_steps() == self.spec_min_settle_steps(),
            settle.spec_max_steps() == self.spec_max_settle_steps(),
    {
        SeekSettle::new(self.min_settle_steps, self.max_settle_steps)
    }

    /// Takes in the render passes that ended the wait for the open frame of a streaming capture, and
    /// counts those beyond the first one.
    pub fn passes_ended(&mut self, passes: FramePasses)
        requires
            old(self).well_formed(),
            old(self).is_open(),
            !old(self).is_settled(),
            !old(self).deterministic(),
            passes.well_formed(),
            passes.ended(),
            passes.spec_max_passes() == old(self).spec_max_settle_steps(),
            old(self).spec_extra_passes() + (passes.answers().len() - 1) <= u64::MAX,
            old(self).spec_frames_with_extra_passes() < u64::MAX,
        ensures
            final(self).well_formed(),
            final(self).is_settled(),
            final(self).waits() == old(self).waits().push(passes.answers()),
            final(self).spec_extra_passes() == old(self).spec_extra_passes() + (
            passes.answers().len() - 1),
            final(self).spec_frames_with_extra_passes() == old(self).spec_frames_with_extra_passes()
                + (if passes.answers().len() > 1 {
                1int
            } else {
                0int
            }),
            final(self).same_mode(old(self)),
            final(self).asked() == old(self).asked(),
            final(self).is_open(),
            final(self).direct() == old(self).direct(),
            final(self).direct_sizes() == old(self).direct_sizes(),
            final(self).pipeline() == old(self).pipeline(),
            final(self).dims() == old(self).dims(),
    {
        let count: u32 = passes.passes();
        if count > 1 {
            self.extra_passes = self.extra_passes + (count - 1) as u64;
            self.frames_with_extra_passes = self.frames_with_extra_passes + 1;
        }
        proof {
            let before = self.waits@;
            let after = before.push(passes.answers());
            self.settled@ = true;
            self.waits@ = after;
            assert(self.hand_outs() == old(self).hand_outs());
            assert forall|i: int| 0 <= i < after.len() implies self.fine_wait(
                #[trigger] after[i],
            ) by {
                if i < before.len() {
                    assert(old(self).fine_wait(before[i]));
                }
            }
        }
    }

    /// Takes in the steps that ended the wait for the open frame of a deterministic capture.
    pub fn seek_ended(&mut self, settle: SeekSettle)
        requires
            old(self).well_formed(),
            old(self).is_open(),
            !old(self).is_settled(),
            old(self).deterministic(),
            settle.well_formed(),
            settle.ended(),
            settle.spec_min_steps() == old(self).spec_min_settle_steps(),
            settle.spec_max_steps() == old(self).spec_max_settle_steps(),
        ensures
            final(self).well_formed(),
            final(self).is_settled(),
            final(self).waits() == old(self).waits().push(settle.calm()),
            final(self).same_mode(old(self)),
            final(self).asked() == old(self).asked(),
            final(self).is_open(),
            final(self).direct() == old(self).direct(),
            final(self).direct_sizes() == old(self).direct_sizes(),
            final(self).pipeline() == old(self).pipeline(),
            final(self).dims() == old(self).dims(),
            final(self).same_passes(old(self)),
    {
        proof {
            let before = self.waits@;
            let after = before.push(settle.calm());
            self.settled@ = true;
            self.waits@ = after;
            assert(self.hand_outs() == old(self).hand_outs());
            assert forall|i: int| 0 <= i < after.len() implies self.fine_wait(
                #[trigger] after[i],
            ) by {
                if i < before.len() {
                    assert(old(self).fine_wait(before[i]));
                }
            }
        }
    }

    /// Plans the capture of the open frame at the given size, once its picture has settled. No more
    /// than the allowed number of frames may be on their way.
    pub fn begin_capture(&mut self, width: u32, height: u32) -> (res: Result<
        CapturePlan,
        RenderError,
    >)
        requires
            old(self).well_formed(),
            old(self).is_open(),
            old(self).is_settled(),
            !old(self).deterministic(),
            none_discarded(old(self).hand_outs()),
            old(self).in_flight() <= MAX_FRAMES_IN_FLIGHT,
            width > 0 && height > 0 ==> padded_row(width) <= u32::MAX,
            old(self).pipeline().buffers_created() < u64::MAX,
        ensures
            final(self).well_formed(),
            capture_begun(&old(self).pipeline(), &final(self).pipeline(), width, height, res),
            final(self).is_open() == (res is Err),
            final(self).is_settled() == (res is Err),
            final(self).same_mode(old(self)),
            final(self).asked() == old(self).asked(),
            final(self).waits() == old(self).waits(),
            final(self).direct() == old(self).direct(),
            final(self).direct_sizes() == old(self).direct_sizes(),
            final(self).dims() == old(self).dims(),
            final(self).same_passes(old(self)),
    {
        let res = self.pipeline.begin_capture(width, height);
        if res.is_ok() {
            self.open = false;
            self.settled = Ghost(false);
        }
        res
    }

    /// Takes out the oldest frame on its way, if there are more than `max_in_flight` of them. After a
    /// frame was refused, no other one is taken out.
    pub fn take_ready(&mut self, max_in_flight: usize) -> (frame: Option<PendingFrame>)
        requires
            old(self).well_formed(),
            old(self).pipeline().spec_collecting() is None,
            none_discarded(old(self).hand_outs()),
        ensures
            final(self).well_formed(),
            frame_taken(&old(self).pipeline(), &final(self).pipeline(), max_in_flight, frame),
            final(self).same_frame(old(self)),
            final(self).dims() == old(self).dims(),
            final(self).same_passes(old(self)),
    {
        self.pipeline.take_ready(max_in_flight)
    }

    /// Counts the frame being collected as handed on, and its dimensions: the largest ones count.
    /// Tells whether its buffer is kept for later frames.
    pub fn delivered(&mut self) -> (kept: bool)
        requires
            old(self).well_formed(),
            old(self).pipeline().spec_collecting() is Some,
        ensures
            final(self).well_formed(),
            frame_delivered(&old(self).pipeline(), &final(self).pipeline(), kept),
            final(self).same_frame(old(self)),
            old(self).pipeline().spec_collecting() matches Some(frame) ==> final(self).dims() == (
                max_of(frame.width, old(self).dims().0),
                max_of(frame.height, old(self).dims().1),
            ),
            final(self).same_passes(old(self)),
    {
        proof {
            self.pipeline.frames_are_handed_on_in_order();
        }
        let ghost before = self.pipeline.handed_on();
        let ghost frame = self.pipeline.spec_collecting()->0;
        let kept = self.pipeline.delivered();
        let (width, height) = self.pipeline.last_dims();
        self.width = larger(width, self.width);
        self.height = larger(height, self.height);
        proof {
            assert(before.push(frame).drop_last() == before);
        }
        kept
    }

    /// Gives up the frame being collected: its pixels could not be had, or the sink refused them. No
    /// other frame is handed on after it.
    pub fn discard(&mut self)
        requires
            old(self).well_formed(),
            old(self).pipeline().spec_collecting() is Some,
        ensures
            final(self).well_formed(),
            frame_discarded(&old(self).pipeline(), &final(self).pipeline()),
            final(self).same_frame(old(self)),
            final(self).dims() == old(self).dims(),
            final(self).same_passes(old(self)),
    {
        proof {
            self.pipeline.frames_are_handed_on_in_order();
        }
        self.pipeline.discard()
    }

    /// Accounts for the open frame of a deterministic capture, once its picture has settled: it was
    /// rendered at the given size, and the sink took it or not. No other frame is handed on after one
    /// that was refused.
    pub fn rendered(&mut self, width: u32, height: u32, taken: bool)
        requires
            old(self).well_formed(),
            old(self).is_open(),
            old(self).is_settled(),
            old(self).deterministic(),
            none_discarded(old(self).hand_outs()),
        ensures
            final(self).well_formed(),
            !final(self).is_open(),
            !final(self).is_settled(),
            final(self).direct() == old(self).direct().push(taken),
            final(self).direct_sizes() == old(self).direct_sizes().push((width, height)),
            final(self).dims() == (width, height),
            final(self).same_mode(old(self)),
            final(self).asked() == old(self).asked(),
            final(self).waits() == old(self).waits(),
            final(self).pipeline() == old(self).pipeline(),
            final(self).same_passes(old(self)),
    {
        self.open = false;
        self.width = width;
        self.height = height;
        proof {
            self.pipeline.frames_are_handed_on_in_order();
            let before = self.direct@;
            self.settled@ = false;
            self.direct@ = before.push(taken);
            self.direct_sizes@ = self.direct_sizes@.push((width, height));
            assert(old(self).hand_outs() == before);
            assert(self.hand_outs() == before.push(taken));
        }
    }

    /// How many frames have been captured.
    pub fn num_recorded(&self) -> (count: u64)
        requires
            self.well_formed(),
        ensures
            count == self.recorded(),
    {
        if self.open {
            self.num_asked - 1
        } else {
            self.num_asked
        }
    }

    /// What the run along this timeline produced.
    pub fn into_stats(self, timeline: TimelineName) -> (stats: RenderVideoStats)
        requires
            self.well_formed(),
        ensures
            stats.num_frames == self.recorded(),
            (stats.width, stats.height) == self.dims(),
            stats.timeline == timeline,
            stats.extra_passes == self.spec_extra_passes(),
            stats.frames_with_extra_passes == self.spec_frames_with_extra_passes(),
    {
        RenderVideoStats {
            num_frames: self.num_recorded(),
            width: self.width,
            height: self.height,
            timeline,
            extra_passes: self.extra_passes,
            frames_with_extra_passes: self.frames_with_extra_passes,
        }
    }
}

/// The largest width and the largest height count, each on its own, and without frames there is no size.
pub proof fn the_largest_sides_count(frames: Seq<PendingFrame>, frame: PendingFrame)
    ensures
        dims_of(Seq::<PendingFrame>::empty()) == (0u32, 0u32),
        ({
            let before = dims_of(frames);
            let after = dims_of(frames.push(frame));
            &&& after.0 >= before.0 && after.0 >= frame.width
            &&& after.0 == before.0 || after.0 == frame.width
            &&& after.1 >= before.1 && after.1 >= frame.height
            &&& after.1 == before.1 || after.1 == frame.height
        }),
{
    assert(frames.push(frame).drop_last() == frames);
}

/// A recorder begins without frames, with the limits of its options. That of a file captures in the mode
/// that was asked for; that of a live stream always through the pipeline.
pub proof fn recorders_begin_with_their_options(
    options: &RenderVideoOptions,
    file: Recorder,
    live: Recorder,
    count: u64,
)
    requires
        call_ensures(Recorder::for_file, (options,), file),
        call_ensures(Recorder::for_live, (options,), live),
        call_ensures(Recorder::num_recorded, (&file,), count),
    ensures
        count == 0,
        file.deterministic() == options.deterministic,
        !live.deterministic(),
        file.idle() && live.idle(),
        file.in_flight() == 0 && live.in_flight() == 0,
        file.asked().len() == 0 && live.asked().len() == 0,
        file.spec_min_settle_steps() == options.min_settle_steps,
        file.spec_max_settle_steps() == options.max_settle_steps,
        live.spec_max_settle_steps() == options.max_settle_steps,
        file.dims() == (0u32, 0u32) && live.dims() == (0u32, 0u32),
        file.spec_extra_passes() == 0 && live.spec_extra_passes() == 0,
        file.spec_frames_with_extra_passes() == 0 && live.spec_frames_with_extra_passes() == 0,
{
}

/// The waits that a recorder gives out have its own limits, and have not begun.
pub proof fn waits_have_the_recorders_limits(
    recorder: &Recorder,
    passes: FramePasses,
    settle: SeekSettle,
)
    requires
        call_ensures(Recorder::frame_passes, (recorder,), passes),
        call_ensures(Recorder::seek_settle, (recorder,), settle),
    ensures
        passes.well_formed() && passes.waiting(),
        passes.answers().len() == 0,
        passes.spec_max_passes() == recorder.spec_max_settle_steps(),
        settle.well_formed(),
        settle.calm().len() == 0,
        settle.spec_min_steps() == recorder.spec_min_settle_steps(),
        settle.spec_max_steps() == recorder.spec_max_settle_steps(),
{
}

/// Of the passes of a frame all but the first count as extra ones, and the frame counts among those with
/// extra passes exactly if there was more than one.
pub proof fn all_passes_but_the_first_are_extra(recorder: &mut Recorder, passes: FramePasses)
    requires
        old(recorder).well_formed(),
        old(recorder).is_open(),
        !old(recorder).is_settled(),
        !old(recorder).deterministic(),
        passes.well_formed(),
        passes.ended(),
        passes.spec_max_passes() == old(recorder).spec_max_settle_steps(),
        call_ensures(Recorder::passes_ended, (recorder, passes), ()),
    ensures
        final(recorder).well_formed(),
        final(recorder).is_settled(),
        final(recorder).spec_extra_passes() + 1 == old(recorder).spec_extra_passes()
            + passes.answers().len(),
        passes.answers().len() == 1 ==> final(recorder).spec_frames_with_extra_passes() == old(
            recorder,
        ).spec_frames_with_extra_passes(),
        passes.answers().len() > 1 ==> final(recorder).spec_frames_with_extra_passes() == old(
            recorder,
        ).spec_frames_with_extra_passes() + 1,
        final(recorder).asked() == old(recorder).asked(),
        final(recorder).pipeline() == old(recorder).pipeline(),
        final(recorder).dims() == old(recorder).dims(),
        final(recorder).waits() == old(recorder).waits().push(passes.answers()),
{
}

/// The steps after a seek count nowhere; they only settle the frame.
pub proof fn seek_steps_are_not_counted(recorder: &mut Recorder, settle: SeekSettle)
    requires
        old(recorder).well_formed(),
        old(recorder).is_open(),
        !old(recorder).is_settled(),
        old(recorder).deterministic(),
        settle.well_formed(),
        settle.ended(),
        settle.spec_min_steps() == old(recorder).spec_min_settle_steps(),
        settle.spec_max_steps() == old(recorder).spec_max_settle_steps(),
        call_ensures(Recorder::seek_ended, (recorder, settle), ()),
    ensures
        final(recorder).well_formed(),
        final(recorder).is_settled(),
        final(recorder).spec_extra_passes() == old(recorder).spec_extra_passes(),
        final(recorder).spec_frames_with_extra_passes() == old(
            recorder,
        ).spec_frames_with_extra_passes(),
        final(recorder).asked() == old(recorder).asked(),
        final(recorder).direct() == old(recorder).direct(),
        final(recorder).dims() == old(recorder).dims(),
        final(recorder).waits() == old(recorder).waits().push(settle.calm()),
{
}

/// A frame of a deterministic capture was captured either after nothing was buffering for the minimum
/// number of steps in a row, right before, or once the maximum number of steps was reached; one of a
/// streaming capture after its videos were up to date, or once the maximum number of passes was reached.
pub proof fn frames_are_settled_or_out_of_steps(recorder: &Recorder, i: int)
    requires
        recorder.well_formed(),
        0 <= i < recorder.recorded(),
    ensures
        0 <= i < recorder.waits().len(),
        ({
            let wait = recorder.waits()[i];
            let min = recorder.spec_min_settle_steps();
            if recorder.deterministic() {
                ||| wait.len() >= min && forall|k: int|
                    wait.len() - min <= k < wait.len() ==> #[trigger] wait[k]
                ||| wait.len() >= recorder.spec_max_settle_steps()
            } else {
                &&& wait.len() > 0
                &&& wait[wait.len() - 1] || wait.len() >= recorder.spec_max_settle_steps()
            }
        }),
{
    recorder.frames_are_captured_once_settled(i);
}

/// A settled frame is captured at its own size; it stays open only if it has no pixels.
pub proof fn a_settled_frame_is_captured_at_its_size(
    recorder: &mut Recorder,
    width: u32,
    height: u32,
    res: Result<CapturePlan, RenderError>,
    count: u64,
)
    requires
        old(recorder).well_formed(),
        old(recorder).is_open(),
        old(recorder).is_settled(),
        !old(recorder).deterministic(),
        none_discarded(old(recorder).hand_outs()),
        call_ensures(Recorder::begin_capture, (recorder, width, height), res),
        call_ensures(Recorder::num_recorded, (final(recorder),), count),
    ensures
        final(recorder).well_formed(),
        res is Ok <==> width > 0 && height > 0,
        final(recorder).is_open() <==> res is Err,
        res matches Ok(plan) ==> {
            &&& plan.frame.width == width && plan.frame.height == height
            &&& plan.frame.padded_bytes_per_row == padded_row(width)
            &&& final(recorder).pipeline().captured() == old(recorder).pipeline().captured().push(
                plan.frame,
            )
        },
        count == old(recorder).recorded() + (if res is Ok {
            1int
        } else {
            0int
        }),
        final(recorder).asked() == old(recorder).asked(),
        final(recorder).dims() == old(recorder).dims(),
        final(recorder).spec_extra_passes() == old(recorder).spec_extra_passes(),
        final(recorder).hand_outs() == old(recorder).hand_outs(),
{
    if res is Err {
        assert(final(recorder).pipeline() == old(recorder).pipeline());
    }
}

/// Collecting takes the oldest frame on its way, if there are more than may stay, and changes no count.
pub proof fn recorders_collect_the_oldest_frame(
    recorder: &mut Recorder,
    max_in_flight: usize,
    frame: Option<PendingFrame>,
)
    requires
        old(recorder).well_formed(),
        old(recorder).pipeline().spec_collecting() is None,
        none_discarded(old(recorder).hand_outs()),
        call_ensures(Recorder::take_ready, (recorder, max_in_flight), frame),
    ensures
        final(recorder).well_formed(),
        frame is Some <==> old(recorder).in_flight() > max_in_flight,
        frame is Some ==> frame == Some(
            old(recorder).pipeline().captured()[old(recorder).pipeline().taken()],
        ),
        final(recorder).in_flight() == old(recorder).in_flight() - (if frame is Some {
            1int
        } else {
            0int
        }),
        final(recorder).pipeline().spec_collecting() == frame,
        final(recorder).asked() == old(recorder).asked(),
        final(recorder).dims() == old(recorder).dims(),
        final(recorder).hand_outs() == old(recorder).hand_outs(),
{
}

/// A delivered frame makes the size no smaller, and counts as handed on; a discarded one changes no size,
/// and counts as refused.
pub proof fn delivered_frames_count_and_discarded_ones_do_not(
    recorder: &mut Recorder,
    kept: bool,
    other: &mut Recorder,
)
    requires
        old(recorder).well_formed(),
        old(recorder).pipeline().spec_collecting() is Some,
        !old(recorder).deterministic(),
        call_ensures(Recorder::delivered, (recorder,), kept),
        old(other).well_formed(),
        old(other).pipeline().spec_collecting() is Some,
        !old(other).deterministic(),
        call_ensures(Recorder::discard, (other,), ()),
    ensures
        final(recorder).well_formed(),
        ({
            let frame = old(recorder).pipeline().spec_collecting()->0;
            &&& final(recorder).dims().0 == if frame.width > old(recorder).dims().0 {
                frame.width
            } else {
                old(recorder).dims().0
            }
            &&& final(recorder).dims().1 == if frame.height > old(recorder).dims().1 {
                frame.height
            } else {
                old(recorder).dims().1
            }
            &&& kept <==> old(recorder).pipeline().spec_texture() == Some(
                (frame.width, frame.height),
            )
        }),
        final(recorder).hand_outs() == old(recorder).hand_outs().push(true),
        final(recorder).asked() == old(recorder).asked(),
        final(other).well_formed(),
        final(other).hand_outs() == old(other).hand_outs().push(false),
        final(other).dims() == old(other).dims(),
        !final(other).idle(),
{
    assert(!final(other).hand_outs()[old(other).hand_outs().len() as int]);
}

/// A frame that was rendered without the pipeline gives its size, counts as captured, and is handed on
/// exactly if the sink took it.
pub proof fn directly_rendered_frames_give_their_size(
    recorder: &mut Recorder,
    width: u32,
    height: u32,
    taken: bool,
    count: u64,
)
    requires
        old(recorder).well_formed(),
        old(recorder).is_open(),
        old(recorder).is_settled(),
        old(recorder).deterministic(),
        none_discarded(old(recorder).hand_outs()),
        call_ensures(Recorder::rendered, (recorder, width, height, taken), ()),
        call_ensures(Recorder::num_recorded, (final(recorder),), count),
    ensures
        final(recorder).well_formed(),
        final(recorder).dims() == (width, height),
        final(recorder).hand_outs() == old(recorder).hand_outs().push(taken),
        count == old(recorder).recorded() + 1,
        final(recorder).asked() == old(recorder).asked(),
        !final(recorder).is_open(),
        final(recorder).spec_extra_passes() == 0,
        !taken ==> !final(recorder).idle(),
{
    final(recorder).pipeline_is_well_formed();
    if !taken {
        assert(!final(recorder).hand_outs()[old(recorder).hand_outs().len() as int]);
    }
}

/// What a run produced is what its recorder counted, along the timeline that was rendered.
pub proof fn stats_are_what_was_counted(
    recorder: Recorder,
    timeline: TimelineName,
    stats: RenderVideoStats,
    count: u64,
)
    requires
        recorder.well_formed(),
        call_ensures(Recorder::into_stats, (recorder, timeline), stats),
        call_ensures(Recorder::num_recorded, (&recorder,), count),
    ensures
        stats.num_frames == count,
        count == recorder.asked().len() - (if recorder.is_open() {
            1int
        } else {
            0int
        }),
        stats.width == recorder.dims().0,
        stats.height == recorder.dims().1,
        stats.timeline@ == timeline@,
        stats.extra_passes == recorder.spec_extra_passes(),
        stats.frames_with_extra_passes == recorder.spec_frames_with_extra_passes(),
{
}

} // verus!
