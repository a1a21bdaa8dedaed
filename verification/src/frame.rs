//! What becomes of a frame once the surface has been asked to present it.

use vstd::prelude::*;

verus! {

/// How presenting a frame went.
#[derive(Clone, Copy, Debug, PartialEq, Eq, Structural)]
pub enum RenderOutcome {
    /// The frame was drawn and presented.
    Presented,
    /// The surface took too long to hand out a texture.
    Timeout,
    /// The surface no longer matches the window and must be configured again.
    Outdated,
    /// The surface was lost and must be configured again.
    Lost,
    /// The GPU ran out of memory.
    OutOfMemory,
    /// Any other surface error.
    Other,
}

/// What the window front end does after a frame.
#[derive(Clone, Copy, Debug, PartialEq, Eq, Structural)]
pub enum FrameFollowUp {
    /// Nothing: go on with the next frame.
    Continue,
    /// Configure the surface again at the window's current size.
    ResizeToWindow,
    /// Leave the event loop.
    Exit,
    /// Report the error and go on.
    Warn,
}

/// Status returned to a C caller when the lamp handle is null.
pub const STATUS_NULL_HANDLE: i32 = -1;

/// Status returned to a C caller when animating a frame panicked.
pub const STATUS_PANICKED: i32 = -3;

/// Status returned to a C caller when presenting failed with an error that
/// passes (a timeout, an outdated surface, any other surface error).
pub const STATUS_PASSING_ERROR: i32 = 2;

/// The status a C caller gets for a frame: 0 on success and non-zero on
/// error. A lost surface, which wants a resize, gives 1; the GPU running out
/// of memory gives -2 (negative codes are fatal); an error that passes gives 2.
pub open spec fn status_of(outcome: RenderOutcome) -> i32 {
    match outcome {
        RenderOutcome::Presented => 0i32,
        RenderOutcome::Lost => 1i32,
        RenderOutcome::OutOfMemory => -2i32,
        _ => STATUS_PASSING_ERROR,
    }
}

/// What the window front end does after a frame: a lost or outdated surface
/// is configured again, running out of memory ends the program, other errors
/// are reported.
pub open spec fn follow_up_of(outcome: RenderOutcome) -> FrameFollowUp {
    match outcome {
        RenderOutcome::Presented => FrameFollowUp::Continue,
        RenderOutcome::Lost | RenderOutcome::Outdated => FrameFollowUp::ResizeToWindow,
        RenderOutcome::OutOfMemory => FrameFollowUp::Exit,
        _ => FrameFollowUp::Warn,
    }
}

/// The status a C caller gets for a frame.
pub fn animate_status_code(outcome: RenderOutcome) -> (code: i32)
    ensures
        code == status_of(outcome),
        code == 0 <==> outcome == RenderOutcome::Presented,
        code == 1 <==> outcome == RenderOutcome::Lost,
        code == -2 <==> outcome == RenderOutcome::OutOfMemory,
        code == STATUS_PASSING_ERROR <==> (outcome == RenderOutcome::Timeout || outcome
            == RenderOutcome::Outdated || outcome == RenderOutcome::Other),
{
    match outcome {
        RenderOutcome::Presented => 0,
        RenderOutcome::Lost => 1,
        RenderOutcome::OutOfMemory => -2,
        RenderOutcome::Timeout => STATUS_PASSING_ERROR,
        RenderOutcome::Outdated => STATUS_PASSING_ERROR,
        RenderOutcome::Other => STATUS_PASSING_ERROR,
    }
}

/// What the window front end does after a frame.
pub fn frame_follow_up(outcome: RenderOutcome) -> (next: FrameFollowUp)
    ensures
        next == follow_up_of(outcome),
        next == FrameFollowUp::Continue <==> outcome == RenderOutcome::Presented,
        next == FrameFollowUp::ResizeToWindow <==> (outcome == RenderOutcome::Lost || outcome
            == RenderOutcome::Outdated),
        next == FrameFollowUp::Exit <==> outcome == RenderOutcome::OutOfMemory,
{
    match outcome {
        RenderOutcome::Presented => FrameFollowUp::Continue,
        RenderOutcome::Lost => FrameFollowUp::ResizeToWindow,
        RenderOutcome::Outdated => FrameFollowUp::ResizeToWindow,
        RenderOutcome::OutOfMemory => FrameFollowUp::Exit,
        RenderOutcome::Timeout => FrameFollowUp::Warn,
        RenderOutcome::Other => FrameFollowUp::Warn,
    }
}

/// The C front end and the window front end agree on which outcomes are
/// fatal (running out of memory) and on when the surface must be configured
/// again: every outcome the C caller is told to resize for, the window front
/// end resizes for, and the C caller is told of a fatal failure exactly when
/// the window front end exits.
pub proof fn lemma_front_ends_agree(outcome: RenderOutcome)
    ensures
        status_of(outcome) == 1 ==> follow_up_of(outcome) == FrameFollowUp::ResizeToWindow,
        status_of(outcome) < 0 <==> follow_up_of(outcome) == FrameFollowUp::Exit,
        status_of(outcome) != STATUS_NULL_HANDLE && status_of(outcome) != STATUS_PANICKED,
{
}

/// The C caller gets 0 exactly when the frame was presented, and a non-zero
/// status for every error; only running out of memory is reported as fatal.
pub proof fn lemma_zero_status_iff_presented(outcome: RenderOutcome)
    ensures
        status_of(outcome) == 0 <==> outcome == RenderOutcome::Presented,
        status_of(outcome) < 0 <==> outcome == RenderOutcome::OutOfMemory,
        status_of(outcome) == STATUS_PASSING_ERROR <==> (outcome == RenderOutcome::Timeout
            || outcome == RenderOutcome::Outdated || outcome == RenderOutcome::Other),
        status_of(outcome) == 1 <==> outcome == RenderOutcome::Lost,
        status_of(outcome) == -2 <==> outcome == RenderOutcome::OutOfMemory,
{
}

/// The window front end goes on only after a presented frame, configures the
/// surface again exactly when it was lost or outdated, exits exactly when the
/// GPU ran out of memory, and reports the remaining errors.
pub proof fn lemma_follow_up_for_each_outcome(outcome: RenderOutcome)
    ensures
        follow_up_of(outcome) == FrameFollowUp::Continue <==> outcome == RenderOutcome::Presented,
        follow_up_of(outcome) == FrameFollowUp::ResizeToWindow <==> (outcome
            == RenderOutcome::Lost || outcome == RenderOutcome::Outdated),
        follow_up_of(outcome) == FrameFollowUp::Exit <==> outcome == RenderOutcome::OutOfMemory,
        follow_up_of(outcome) == FrameFollowUp::Warn <==> (outcome == RenderOutcome::Timeout
            || outcome == RenderOutcome::Other),
{
}

} // verus!
