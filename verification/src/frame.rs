//! Decision logic of the per-frame present loop.
//!
//! The loop around a swapchain reacts to three event classes: a close
//! request, a resize, and a redraw tick. On a redraw tick it rebuilds a
//! stale swapchain, acquires an image, submits a draw, and presents.
//! The platform calls themselves (recreate, acquire, submit, present) are
//! performed by the host program; their outcomes are handed back here as
//! plain values, and this module decides, for each outcome, what the next
//! loop state is and which of the conditions are recoverable.

use vstd::prelude::*;

verus! {

/// Loop-control state of the present loop.
///
/// `swapchain_generation` counts how many times the swapchain reference has
/// been replaced by a successful rebuild; a step that leaves it unchanged
/// leaves the existing swapchain reference untouched.
#[derive(Copy, Clone, Debug, PartialEq, Eq, Structural)]
pub struct LoopState {
    /// The swapchain no longer matches the surface and must be rebuilt
    /// before the next frame is drawn.
    pub stale: bool,
    /// How many successful swapchain rebuilds have happened.
    pub swapchain_generation: u64,
}

/// An event class the loop reacts to.
#[derive(Copy, Clone, Debug, PartialEq, Eq, Structural)]
pub enum LoopEvent {
    /// The window was asked to close.
    CloseRequested,
    /// The window was resized.
    Resized,
    /// All pending events are handled; a frame may be drawn.
    RedrawTick,
}

/// What the loop does with an event.
#[derive(Copy, Clone, Debug, PartialEq, Eq, Structural)]
pub enum EventDirective {
    /// Leave the event loop.
    Exit,
    /// Nothing to draw; wait for the next event.
    Continue,
    /// Run one frame of the redraw sequence.
    Redraw,
}

/// First action of a redraw tick.
#[derive(Copy, Clone, Debug, PartialEq, Eq, Structural)]
pub enum RedrawPlan {
    /// The swapchain is stale: rebuild it before acquiring an image.
    RecreateFirst,
    /// The swapchain is current: acquire an image directly.
    AcquireDirectly,
}

/// Outcome of a swapchain rebuild attempt, as reported by the platform.
#[derive(Copy, Clone, Debug, PartialEq, Eq, Structural)]
pub enum RecreateOutcome {
    /// A new swapchain replaced the old one.
    Recreated,
    /// The requested dimensions are not supported right now; this is
    /// expected while the window is being resized interactively.
    UnsupportedDimensions,
    /// Any other rebuild error.
    Failed,
}

/// What the loop does after a rebuild attempt.
#[derive(Copy, Clone, Debug, PartialEq, Eq, Structural)]
pub enum RecreateStep {
    /// Go on and acquire an image from the (new) swapchain.
    Proceed,
    /// Skip this frame and retry on the next tick.
    SkipFrame,
    /// An unexpected error: the loop cannot go on.
    Fatal,
}

/// Outcome of acquiring the next presentable image.
#[derive(Copy, Clone, Debug, PartialEq, Eq, Structural)]
pub enum AcquireOutcome {
    /// An image is ready to be drawn on.
    Acquired {
        /// Index of the acquired image within the swapchain.
        image_index: u32,
        /// The image still works but no longer matches the surface well.
        suboptimal: bool,
    },
    /// The swapchain is out of date; no image can be acquired from it.
    OutOfDate,
    /// Any other acquisition error.
    Failed,
}

/// What the loop does after an acquisition attempt.
#[derive(Copy, Clone, Debug, PartialEq, Eq, Structural)]
pub enum AcquireStep {
    /// Record and submit a draw to the image with this index.
    Render { image_index: u32 },
    /// Skip this frame and retry on the next tick.
    SkipFrame,
    /// An unexpected error: the loop cannot go on.
    Fatal,
}

/// Outcome of submitting the frame and enqueueing its presentation.
#[derive(Copy, Clone, Debug, PartialEq, Eq, Structural)]
pub enum PresentOutcome {
    /// The submission was flushed; the frame is on its way to the screen.
    Presented,
    /// The swapchain was reported out of date at present time.
    OutOfDate,
    /// Any other submission or flush error.
    Failed,
}

/// How the frame ends: what becomes of the completion-tracking future.
#[derive(Copy, Clone, Debug, PartialEq, Eq, Structural)]
pub enum FrameEnd {
    /// Keep the returned future as the previous-frame fence.
    KeepFuture,
    /// Replace the fence with an already-signalled one; if `log_error`
    /// holds, the error was unexpected and must be reported.
    ResetFuture { log_error: bool },
}

/// Next state and directive for a window event.
pub open spec fn event_transition(s: LoopState, e: LoopEvent) -> (LoopState, EventDirective) {
    match e {
        LoopEvent::CloseRequested => (s, EventDirective::Exit),
        LoopEvent::Resized => (LoopState { stale: true, ..s }, EventDirective::Continue),
        LoopEvent::RedrawTick => (s, EventDirective::Redraw),
    }
}

/// First action of a redraw tick, from the current state.
pub open spec fn redraw_plan_of(s: LoopState) -> RedrawPlan {
    if s.stale {
        RedrawPlan::RecreateFirst
    } else {
        RedrawPlan::AcquireDirectly
    }
}

/// Next state and step for a swapchain rebuild outcome.
pub open spec fn recreate_transition(s: LoopState, o: RecreateOutcome) -> (LoopState, RecreateStep) {
    match o {
        RecreateOutcome::Recreated => (
            LoopState {
                stale: false,
                swapchain_generation: (s.swapchain_generation + 1) as u64,
            },
            RecreateStep::Proceed,
        ),
        RecreateOutcome::UnsupportedDimensions => (s, RecreateStep::SkipFrame),
        RecreateOutcome::Failed => (s, RecreateStep::Fatal),
    }
}

/// Next state and step for an image acquisition outcome.
pub open spec fn acquire_transition(s: LoopState, o: AcquireOutcome) -> (LoopState, AcquireStep) {
    match o {
        AcquireOutcome::Acquired { image_index, suboptimal } => (
            LoopState { stale: s.stale || suboptimal, ..s },
            AcquireStep::Render { image_index },
        ),
        AcquireOutcome::OutOfDate => (LoopState { stale: true, ..s }, AcquireStep::SkipFrame),
        AcquireOutcome::Failed => (s, AcquireStep::Fatal),
    }
}

/// Next state and frame end for a submission/present outcome.
pub open spec fn present_transition(s: LoopState, o: PresentOutcome) -> (LoopState, FrameEnd) {
    match o {
        PresentOutcome::Presented => (s, FrameEnd::KeepFuture),
        PresentOutcome::OutOfDate => (
            LoopState { stale: true, ..s },
            FrameEnd::ResetFuture { log_error: false },
        ),
        PresentOutcome::Failed => (s, FrameEnd::ResetFuture { log_error: true }),
    }
}

impl LoopState {
    /// The state the loop starts in: a freshly built swapchain, not stale.
    pub fn initial() -> (r: LoopState)
        ensures
            r == (LoopState { stale: false, swapchain_generation: 0 }),
    {
        LoopState { stale: false, swapchain_generation: 0 }
    }

    /// React to a window event.
    pub fn on_event(&mut self, e: LoopEvent) -> (r: EventDirective)
        ensures
            (*final(self), r) == event_transition(*old(self), e),
    {
        match e {
            LoopEvent::CloseRequested => EventDirective::Exit,
            LoopEvent::Resized => {
                self.stale = true;
                EventDirective::Continue
            },
            LoopEvent::RedrawTick => EventDirective::Redraw,
        }
    }

    /// Decide how a redraw tick starts.
    pub fn redraw_plan(&self) -> (r: RedrawPlan)
        ensures
            r == redraw_plan_of(*self),
    {
        if self.stale {
            RedrawPlan::RecreateFirst
        } else {
            RedrawPlan::AcquireDirectly
        }
    }

    /// React to the outcome of a swapchain rebuild attempt.
    pub fn on_recreate(&mut self, o: RecreateOutcome) -> (r: RecreateStep)
        requires
            old(self).swapchain_generation < u64::MAX,
        ensures
            (*final(self), r) == recreate_transition(*old(self), o),
    {
        match o {
            RecreateOutcome::Recreated => {
                self.stale = false;
                self.swapchain_generation = self.swapchain_generation + 1;
                RecreateStep::Proceed
            },
            RecreateOutcome::UnsupportedDimensions => RecreateStep::SkipFrame,
            RecreateOutcome::Failed => RecreateStep::Fatal,
        }
    }

    /// React to the outcome of acquiring the next presentable image.
    pub fn on_acquire(&mut self, o: AcquireOutcome) -> (r: AcquireStep)
        ensures
            (*final(self), r) == acquire_transition(*old(self), o),
    {
        match o {
            AcquireOutcome::Acquired { image_index, suboptimal } => {
                if suboptimal {
                    self.stale = true;
                }
                AcquireStep::Render { image_index }
            },
            AcquireOutcome::OutOfDate => {
                self.stale = true;
                AcquireStep::SkipFrame
            },
            AcquireOutcome::Failed => AcquireStep::Fatal,
        }
    }

    /// React to the outcome of submitting and presenting the frame.
    pub fn on_present(&mut self, o: PresentOutcome) -> (r: FrameEnd)
        ensures
            (*final(self), r) == present_transition(*old(self), o),
    {
        match o {
            PresentOutcome::Presented => FrameEnd::KeepFuture,
            PresentOutcome::OutOfDate => {
                self.stale = true;
                FrameEnd::ResetFuture { log_error: false }
            },
            PresentOutcome::Failed => FrameEnd::ResetFuture { log_error: true },
        }
    }
}

/// An "unsupported dimensions" rebuild error never stops the loop and never
/// touches the existing swapchain: the state (the stale flag and the
/// swapchain generation) is left exactly as it was, the frame is skipped,
/// and — since the stale flag stays set — the next redraw tick retries the
/// rebuild.
pub proof fn lemma_unsupported_dimensions_retries(s: LoopState)
    requires
        s.stale,
    ensures
        recreate_transition(s, RecreateOutcome::UnsupportedDimensions) == (
            s,
            RecreateStep::SkipFrame,
        ),
        redraw_plan_of(recreate_transition(s, RecreateOutcome::UnsupportedDimensions).0)
            == RedrawPlan::RecreateFirst,
{
}

/// Present-path error classification: an out-of-date present error marks
/// the swapchain stale without being reported; every other present error is
/// reported. Neither stops the loop: both end the frame by resetting the
/// completion-tracking future, and the swapchain reference is never touched
/// at present time.
pub proof fn lemma_present_error_classification(s: LoopState)
    ensures
        present_transition(s, PresentOutcome::OutOfDate) == (
            LoopState { stale: true, ..s },
            FrameEnd::ResetFuture { log_error: false },
        ),
        present_transition(s, PresentOutcome::Failed) == (
            s,
            FrameEnd::ResetFuture { log_error: true },
        ),
        forall|o: PresentOutcome|
            #[trigger] present_transition(s, o).0.swapchain_generation == s.swapchain_generation,
{
}

} // verus!
