//! The loop of a viewer without a window.
use vstd::prelude::*;

verus! {

/// How long an idle viewer sleeps at most before its next step, in nanoseconds.
pub const IDLE_TIMEOUT_NANOS: u64 = 1_000_000_000;

/// A command that the viewer sent to its window, as far as it matters without one.
#[derive(Debug, Clone, Copy, PartialEq, Eq, Structural)]
pub enum WindowCommand {
    Close,
    Other,
}

/// Did any of the windows get the command to close in this frame? Without a windowing backend,
/// nothing else consumes it.
pub fn has_pending_close(windows: &Vec<Vec<WindowCommand>>) -> (pending: bool)
    ensures
        pending <==> exists|i: int, j: int|
            0 <= i < windows@.len() && 0 <= j < windows@[i]@.len()
                && #[trigger] windows@[i]@[j] == WindowCommand::Close,
{
    let mut i: usize = 0;
    while i < windows.len()
        invariant
            i <= windows.len(),
            forall|k: int, j: int|
                0 <= k < i && 0 <= j < windows@[k]@.len() ==> #[trigger] windows@[k]@[j]
                    != WindowCommand::Close,
        decreases windows.len() - i,
    {
        let commands = &windows[i];
        let mut j: usize = 0;
        while j < commands.len()
            invariant
                i < windows.len(),
                j <= commands.len(),
                commands@ == windows@[i as int]@,
                forall|k: int| 0 <= k < j ==> #[trigger] commands@[k] != WindowCommand::Close,
            decreases commands.len() - j,
        {
            if commands[j] == WindowCommand::Close {
                assert(windows@[i as int]@[j as int] == WindowCommand::Close);
                return true;
            }
            j = j + 1;
        }
        i = i + 1;
    }
    false
}

/// What to do after a step of the viewer.
#[derive(Debug, Clone, Copy, PartialEq, Eq, Structural)]
pub enum HeadlessAction {
    /// Shut down.
    Exit,
    /// Step again at once: a repaint was asked for.
    Step,
    /// Wait until a repaint is asked for, but no longer than the idle timeout, and step again.
    Wait,
}

/// What to do after a step, given whether the viewer was told to close and whether a repaint was
/// asked for since the last step.
pub fn after_step(close: bool, repaint_requested: bool) -> (action: HeadlessAction)
    ensures
        action == if close {
            HeadlessAction::Exit
        } else if repaint_requested {
            HeadlessAction::Step
        } else {
            HeadlessAction::Wait
        },
{
    if close {
        HeadlessAction::Exit
    } else if repaint_requested {
        HeadlessAction::Step
    } else {
        HeadlessAction::Wait
    }
}

/// A window that is told to close ends the loop, whichever window and whichever of its commands it is,
/// and whatever else was asked for. Nothing else ends it. An idle viewer sleeps for a second at most.
pub proof fn only_a_close_command_ends_the_loop(
    windows: &Vec<Vec<WindowCommand>>,
    pending: bool,
    repaint_requested: bool,
    action: HeadlessAction,
)
    requires
        call_ensures(has_pending_close, (windows,), pending),
        call_ensures(after_step, (pending, repaint_requested), action),
    ensures
        action == HeadlessAction::Exit <==> exists|i: int, j: int|
            0 <= i < windows@.len() && 0 <= j < windows@[i]@.len()
                && #[trigger] windows@[i]@[j] == WindowCommand::Close,
        action == HeadlessAction::Step <==> !pending && repaint_requested,
        action == HeadlessAction::Wait <==> !pending && !repaint_requested,
        IDLE_TIMEOUT_NANOS == 1_000_000_000,
{
}

} // verus!
