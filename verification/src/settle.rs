//! When the picture has settled after the time cursor moved.
use vstd::prelude::*;
use crate::history::{
    last_all, lemma_trailing_run, lemma_trailing_run_push, trailing_run,
};

verus! {

/// What the caches of the shown recording know of its videos: for streams and for assets, whether
/// every player that produced a texture delivered the exact frame for the current time. A cache
/// that was never created is `None`: there is no video of that kind.
#[derive(Debug, Clone, Copy, PartialEq, Eq, Structural)]
pub struct VideoCaches {
    pub streams_up_to_date: Option<bool>,
    pub assets_up_to_date: Option<bool>,
}

/// Is there no answer, or a positive one?
pub open spec fn fine(up_to_date: Option<bool>) -> bool {
    up_to_date != Some(false)
}

/// Is the rendered scene faithful to the current time, as far as video is concerned?
///
/// Without a recording or its caches there is no video. Other content is always exact: it is
/// queried synchronously.
pub fn scene_videos_up_to_date(caches: Option<VideoCaches>) -> (up_to_date: bool)
    ensures
        up_to_date == match caches {
            None => true,
            Some(caches) => fine(caches.streams_up_to_date) && fine(caches.assets_up_to_date),
        },
{
    match caches {
        None => true,
        Some(caches) => {
            let streams_ok = caches.streams_up_to_date.unwrap_or(true);
            let assets_ok = caches.assets_up_to_date.unwrap_or(true);
            streams_ok && assets_ok
        },
    }
}

/// Can the frame be captured after this render pass?
#[derive(Debug, Clone, Copy, PartialEq, Eq, Structural)]
pub enum PassVerdict {
    /// Every video shows the exact frame for the current time: capture it.
    Fresh,
    /// A video is still behind, but no more passes are allowed: capture it anyway, with a warning.
    Stale,
    /// A video is behind: let the decoders work for a moment and render another pass.
    Again,
}

/// The verdict after as many passes as there are answers to whether the videos were up to date.
pub open spec fn pass_verdict(up_to_date: Seq<bool>, max_passes: u32) -> PassVerdict {
    if up_to_date.last() {
        PassVerdict::Fresh
    } else if up_to_date.len() >= max_passes {
        PassVerdict::Stale
    } else {
        PassVerdict::Again
    }
}

/// The render passes of one frame in streaming capture: the first one, and more only while a video
/// decoder has fallen behind the cursor.
pub struct FramePasses {
    passes: u32,
    max_passes: u32,
    answers: Ghost<Seq<bool>>,
}

impl FramePasses {
    /// After each judged pass: were the videos up to date?
    pub closed spec fn answers(&self) -> Seq<bool> {
        self.answers@
    }

    /// The number of passes that are allowed.
    pub closed spec fn spec_max_passes(&self) -> u32 {
        self.max_passes
    }

    /// No pass before the last one ended the wait.
    pub open spec fn waiting(&self) -> bool {
        forall|n: int|
            0 < n <= self.answers().len() ==> pass_verdict(
                #[trigger] self.answers().take(n),
                self.spec_max_passes(),
            ) == PassVerdict::Again
    }

    /// Did the last pass end the wait?
    pub open spec fn ended(&self) -> bool {
        &&& self.answers().len() > 0
        &&& pass_verdict(self.answers(), self.spec_max_passes()) != PassVerdict::Again
    }

    /// The passes are counted.
    pub closed spec fn well_formed(&self) -> bool {
        self.passes == self.answers@.len()
    }

    /// Before the first pass.
    pub fn new(max_passes: u32) -> (passes: Self)
        ensures
            passes.well_formed(),
            passes.waiting(),
            passes.answers() == Seq::<bool>::empty(),
            passes.spec_max_passes() == max_passes,
    {
        FramePasses { passes: 0, max_passes, answers: Ghost(Seq::empty()) }
    }

    /// Judges the render pass that has just been made.
    pub fn judge(&mut self, up_to_date: bool) -> (verdict: PassVerdict)
        requires
            old(self).well_formed(),
            old(self).waiting(),
        ensures
            final(self).well_formed(),
            final(self).spec_max_passes() == old(self).spec_max_passes(),
            final(self).answers() == old(self).answers().push(up_to_date),
            verdict == pass_verdict(final(self).answers(), final(self).spec_max_passes()),
            verdict == PassVerdict::Again ==> final(self).waiting(),
    {
        let ghost before = self.answers@;
        proof {
            if before.len() > 0 {
                assert(before.take(before.len() as int) == before);
            }
        }
        self.passes = self.passes + 1;
        proof {
            let after = before.push(up_to_date);
            self.answers@ = after;
            assert forall|n: int| 0 < n <= before.len() implies pass_verdict(
                #[trigger] after.take(n),
                self.max_passes,
            ) == PassVerdict::Again by {
                assert(after.take(n) == before.take(n));
            }
            assert(after.take(after.len() as int) == after);
        }
        if up_to_date {
            PassVerdict::Fresh
        } else if self.passes >= self.max_passes {
            PassVerdict::Stale
        } else {
            PassVerdict::Again
        }
    }

    /// How many passes have been made.
    pub fn passes(&self) -> (passes: u32)
        requires
            self.well_formed(),
        ensures
            passes == self.answers().len(),
    {
        self.passes
    }
}

/// A frame never takes more render passes than allowed, and always at least one.
pub proof fn passes_are_bounded(up_to_date: Seq<bool>, max_passes: u32)
    requires
        up_to_date.len() > 0,
        forall|n: int|
            0 < n < up_to_date.len() ==> pass_verdict(#[trigger] up_to_date.take(n), max_passes)
                == PassVerdict::Again,
    ensures
        up_to_date.len() <= max_passes || up_to_date.len() == 1,
{
    if up_to_date.len() > 1 {
        let n = up_to_date.len() - 1;
        assert(pass_verdict(up_to_date.take(n), max_passes) == PassVerdict::Again);
    }
}

/// A frame counts as fresh exactly at the first pass that finds its videos up to date; another pass
/// is made only while one of them is behind.
pub proof fn extra_passes_only_while_behind(up_to_date: Seq<bool>, max_passes: u32)
    requires
        up_to_date.len() > 0,
    ensures
        pass_verdict(up_to_date, max_passes) == PassVerdict::Fresh <==> up_to_date.last(),
        pass_verdict(up_to_date, max_passes) == PassVerdict::Again ==> !up_to_date.last()
            && up_to_date.len() < max_passes,
{
}

/// Has the picture settled after a seek?
#[derive(Debug, Clone, Copy, PartialEq, Eq, Structural)]
pub enum SeekVerdict {
    /// It has: capture it.
    Settled,
    /// It has not, but no more steps are allowed: capture it anyway, with a warning.
    GaveUp,
    /// Step once more.
    Step,
}

/// The verdict after as many steps as there are answers to whether nothing was buffering: the
/// picture has settled once nothing was buffering for `min_steps` steps in a row.
pub open spec fn seek_verdict(calm: Seq<bool>, min_steps: u32, max_steps: u32) -> SeekVerdict {
    if last_all(calm, min_steps as int) {
        SeekVerdict::Settled
    } else if calm.len() >= max_steps {
        SeekVerdict::GaveUp
    } else {
        SeekVerdict::Step
    }
}

/// The steps after one seek in deterministic capture.
pub struct SeekSettle {
    settled_streak: u32,
    steps: u32,
    min_steps: u32,
    max_steps: u32,
    calm: Ghost<Seq<bool>>,
}

impl SeekSettle {
    /// After each step: was neither a video nor the store buffering?
    pub closed spec fn calm(&self) -> Seq<bool> {
        self.calm@
    }

    pub closed spec fn spec_min_steps(&self) -> u32 {
        self.min_steps
    }

    pub closed spec fn spec_max_steps(&self) -> u32 {
        self.max_steps
    }

    /// The counters tell how many steps there were, and for how many of them, up to the last one,
    /// nothing was buffering.
    pub closed spec fn well_formed(&self) -> bool {
        &&& self.steps == self.calm@.len()
        &&& self.settled_streak == trailing_run(self.calm@)
    }

    /// Is the wait over?
    pub open spec fn ended(&self) -> bool {
        seek_verdict(self.calm(), self.spec_min_steps(), self.spec_max_steps()) != SeekVerdict::Step
    }

    /// Before the first of the steps that count.
    pub fn new(min_steps: u32, max_steps: u32) -> (settle: Self)
        ensures
            settle.well_formed(),
            settle.calm() == Seq::<bool>::empty(),
            settle.spec_min_steps() == min_steps,
            settle.spec_max_steps() == max_steps,
    {
        SeekSettle { settled_streak: 0, steps: 0, min_steps, max_steps, calm: Ghost(Seq::empty()) }
    }

    /// What to do next.
    pub fn verdict(&self) -> (verdict: SeekVerdict)
        requires
            self.well_formed(),
        ensures
            verdict == seek_verdict(self.calm(), self.spec_min_steps(), self.spec_max_steps()),
    {
        proof {
            lemma_trailing_run(self.calm@, self.min_steps as int);
        }
        if self.settled_streak >= self.min_steps {
            SeekVerdict::Settled
        } else if self.steps >= self.max_steps {
            SeekVerdict::GaveUp
        } else {
            SeekVerdict::Step
        }
    }

    /// Takes in what was buffering after one more step. Tells whether to give the decoders a moment
    /// before the next one.
    pub fn stepped(&mut self, video_buffering: bool, store_buffering: bool) -> (pause: bool)
        requires
            old(self).well_formed(),
            seek_verdict(old(self).calm(), old(self).spec_min_steps(), old(self).spec_max_steps())
                == SeekVerdict::Step,
        ensures
            final(self).well_formed(),
            final(self).spec_min_steps() == old(self).spec_min_steps(),
            final(self).spec_max_steps() == old(self).spec_max_steps(),
            final(self).calm() == old(self).calm().push(!(video_buffering || store_buffering)),
            pause == (video_buffering || store_buffering),
    {
        let pause = video_buffering || store_buffering;
        proof {
            lemma_trailing_run(self.calm@, 0);
            lemma_trailing_run_push(self.calm@, !pause);
        }
        self.steps = self.steps + 1;
        if pause {
            self.settled_streak = 0;
        } else {
            self.settled_streak = self.settled_streak + 1;
        }
        proof {
            self.calm@ = self.calm@.push(!pause);
        }
        pause
    }
}

/// If nothing is ever buffering, the picture settles after exactly the minimum number of steps.
pub proof fn calm_settles_after_the_minimum(calm: Seq<bool>, min_steps: u32, max_steps: u32)
    requires
        min_steps <= max_steps,
        forall|i: int| 0 <= i < calm.len() ==> #[trigger] calm[i],
    ensures
        seek_verdict(calm, min_steps, max_steps) == SeekVerdict::Settled <==> calm.len()
            >= min_steps,
        calm.len() < min_steps ==> seek_verdict(calm, min_steps, max_steps) == SeekVerdict::Step,
{
}

/// No more steps are taken after a seek than allowed.
pub proof fn seek_steps_are_bounded(calm: Seq<bool>, min_steps: u32, max_steps: u32)
    requires
        seek_verdict(calm, min_steps, max_steps) == SeekVerdict::Step,
    ensures
        calm.len() < max_steps,
{
}

/// A scene counts as behind exactly if one of its caches says so: a cache that does not exist, or none
/// at all, never holds a frame up.
pub proof fn only_a_lagging_video_holds_a_frame_up(caches: Option<VideoCaches>, up_to_date: bool)
    requires
        call_ensures(scene_videos_up_to_date, (caches,), up_to_date),
    ensures
        !up_to_date <==> caches is Some && (caches->0.streams_up_to_date == Some(false)
            || caches->0.assets_up_to_date == Some(false)),
{
}

/// A pass ends the wait as fresh exactly if the videos are up to date after it, and as stale exactly if
/// they are not and no more passes are allowed. Only in between another pass is made. Each pass counts
/// once.
pub proof fn passes_go_on_exactly_while_behind(
    passes: &mut FramePasses,
    up_to_date: bool,
    verdict: PassVerdict,
    count: u32,
)
    requires
        old(passes).well_formed(),
        old(passes).waiting(),
        call_ensures(FramePasses::judge, (passes, up_to_date), verdict),
        call_ensures(FramePasses::passes, (final(passes),), count),
    ensures
        count == old(passes).answers().len() + 1,
        final(passes).spec_max_passes() == old(passes).spec_max_passes(),
        final(passes).answers() == old(passes).answers().push(up_to_date),
        verdict == PassVerdict::Fresh <==> up_to_date,
        verdict == PassVerdict::Stale <==> !up_to_date && count >= old(passes).spec_max_passes(),
        verdict == PassVerdict::Again <==> !up_to_date && count < old(passes).spec_max_passes(),
        final(passes).ended() <==> verdict != PassVerdict::Again,
{
}

/// The verdict on some passes goes by the last answer and their number.
pub proof fn last_answer_and_count_decide(answers: Seq<bool>, max_passes: u32)
    requires
        answers.len() > 0,
    ensures
        pass_verdict(answers, max_passes) == PassVerdict::Fresh <==> answers[answers.len() - 1],
        pass_verdict(answers, max_passes) == PassVerdict::Stale <==> !answers[answers.len() - 1]
            && answers.len() >= max_passes,
        pass_verdict(answers, max_passes) == PassVerdict::Again <==> !answers[answers.len() - 1]
            && answers.len() < max_passes,
{
}

/// Whatever came before: the picture has settled exactly if there were at least `min_steps` steps and
/// nothing was buffering after each of the last `min_steps` of them. If it has not, stepping goes on
/// exactly as long as steps are allowed.
pub proof fn settled_means_calm_for_long_enough(settle: &SeekSettle, verdict: SeekVerdict)
    requires
        settle.well_formed(),
        call_ensures(SeekSettle::verdict, (settle,), verdict),
    ensures
        ({
            let calm = settle.calm();
            let min_steps = settle.spec_min_steps();
            let settled = calm.len() >= min_steps && forall|i: int|
                calm.len() - min_steps <= i < calm.len() ==> #[trigger] calm[i];
            &&& verdict == SeekVerdict::Settled <==> settled
            &&& verdict == SeekVerdict::GaveUp <==> !settled && calm.len()
                >= settle.spec_max_steps()
            &&& verdict == SeekVerdict::Step <==> !settled && calm.len() < settle.spec_max_steps()
            &&& settle.ended() <==> verdict != SeekVerdict::Step
        }),
{
}

/// A step with anything buffering among the last `min_steps` ones rules out that the picture has
/// settled.
pub proof fn buffering_starts_the_count_again(
    calm: Seq<bool>,
    min_steps: u32,
    max_steps: u32,
    i: int,
)
    requires
        0 <= i < calm.len(),
        calm.len() - i <= min_steps,
        !calm[i],
    ensures
        seek_verdict(calm, min_steps, max_steps) != SeekVerdict::Settled,
        seek_verdict(calm, min_steps, max_steps) == SeekVerdict::GaveUp <==> calm.len()
            >= max_steps,
{
}

/// The verdict on some steps after a seek goes by the last `min_steps` of them and by their number.
pub proof fn last_steps_and_count_decide(calm: Seq<bool>, min_steps: u32, max_steps: u32)
    ensures
        seek_verdict(calm, min_steps, max_steps) == SeekVerdict::Settled <==> calm.len()
            >= min_steps && forall|i: int|
            calm.len() - min_steps <= i < calm.len() ==> #[trigger] calm[i],
        seek_verdict(calm, min_steps, max_steps) == SeekVerdict::Step ==> calm.len() < max_steps,
        seek_verdict(calm, min_steps, max_steps) == SeekVerdict::GaveUp ==> calm.len()
            >= max_steps,
{
}

/// A step counts as calm exactly if neither a video nor the store was buffering after it, and the
/// decoders get a moment exactly if one of them was.
pub proof fn a_step_is_calm_if_nothing_buffers(
    settle: &mut SeekSettle,
    video_buffering: bool,
    store_buffering: bool,
    pause: bool,
)
    requires
        old(settle).well_formed(),
        call_ensures(SeekSettle::stepped, (settle, video_buffering, store_buffering), pause),
    ensures
        final(settle).well_formed(),
        final(settle).spec_min_steps() == old(settle).spec_min_steps(),
        final(settle).spec_max_steps() == old(settle).spec_max_steps(),
        final(settle).calm().len() == old(settle).calm().len() + 1,
        final(settle).calm().drop_last() == old(settle).calm(),
        final(settle).calm().last() <==> !video_buffering && !store_buffering,
        pause <==> video_buffering || store_buffering,
{
}

/// A wait begins without any pass or step, and with the limits that it is given.
pub proof fn waits_begin_with_their_limits(min: u32, max: u32, passes: FramePasses, settle: SeekSettle)
    requires
        call_ensures(FramePasses::new, (max,), passes),
        call_ensures(SeekSettle::new, (min, max), settle),
    ensures
        passes.answers().len() == 0,
        passes.spec_max_passes() == max,
        passes.waiting(),
        settle.calm().len() == 0,
        settle.spec_min_steps() == min,
        settle.spec_max_steps() == max,
{
}

} // verus!
