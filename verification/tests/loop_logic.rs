use vulkan_playground::AcquireOutcome;
use vulkan_playground::AcquireStep;
use vulkan_playground::EventDirective;
use vulkan_playground::FrameEnd;
use vulkan_playground::LoopEvent;
use vulkan_playground::LoopState;
use vulkan_playground::PresentOutcome;
use vulkan_playground::RecreateOutcome;
use vulkan_playground::RecreateStep;
use vulkan_playground::RedrawPlan;

#[test]
fn close_requested_exits() {
    let mut s = LoopState::initial();
    assert_eq!(s.on_event(LoopEvent::CloseRequested), EventDirective::Exit);
    assert_eq!(s, LoopState::initial());
}

#[test]
fn resize_marks_stale() {
    let mut s = LoopState::initial();
    assert_eq!(s.on_event(LoopEvent::Resized), EventDirective::Continue);
    assert!(s.stale);
    assert_eq!(s.swapchain_generation, 0);
}

#[test]
fn redraw_tick_draws() {
    let mut s = LoopState::initial();
    assert_eq!(s.on_event(LoopEvent::RedrawTick), EventDirective::Redraw);
    assert!(!s.stale);
}

#[test]
fn fresh_chain_acquires_directly() {
    let s = LoopState::initial();
    assert_eq!(s.redraw_plan(), RedrawPlan::AcquireDirectly);
}

#[test]
fn stale_chain_recreates_first() {
    let s = LoopState { stale: true, swapchain_generation: 4 };
    assert_eq!(s.redraw_plan(), RedrawPlan::RecreateFirst);
}

#[test]
fn recreate_success_replaces_chain() {
    let mut s = LoopState { stale: true, swapchain_generation: 4 };
    assert_eq!(s.on_recreate(RecreateOutcome::Recreated), RecreateStep::Proceed);
    assert!(!s.stale);
    assert_eq!(s.swapchain_generation, 5);
}

#[test]
fn unsupported_dimensions_skips_frame_and_keeps_chain() {
    let mut s = LoopState { stale: true, swapchain_generation: 4 };
    let step = s.on_recreate(RecreateOutcome::UnsupportedDimensions);
    assert_eq!(step, RecreateStep::SkipFrame);
    // The existing swapchain reference is untouched and the loop retries
    // on the next tick.
    assert_eq!(s, LoopState { stale: true, swapchain_generation: 4 });
    assert_eq!(s.redraw_plan(), RedrawPlan::RecreateFirst);
}

#[test]
fn recreate_other_error_is_fatal() {
    let mut s = LoopState { stale: true, swapchain_generation: 4 };
    assert_eq!(s.on_recreate(RecreateOutcome::Failed), RecreateStep::Fatal);
}

#[test]
fn acquire_success_renders() {
    let mut s = LoopState::initial();
    let step = s.on_acquire(AcquireOutcome::Acquired { image_index: 2, suboptimal: false });
    assert_eq!(step, AcquireStep::Render { image_index: 2 });
    assert!(!s.stale);
}

#[test]
fn suboptimal_acquire_still_renders_but_marks_stale() {
    let mut s = LoopState::initial();
    let step = s.on_acquire(AcquireOutcome::Acquired { image_index: 0, suboptimal: true });
    assert_eq!(step, AcquireStep::Render { image_index: 0 });
    assert!(s.stale);
}

#[test]
fn out_of_date_acquire_skips_frame() {
    let mut s = LoopState::initial();
    assert_eq!(s.on_acquire(AcquireOutcome::OutOfDate), AcquireStep::SkipFrame);
    assert!(s.stale);
}

#[test]
fn present_success_keeps_future() {
    let mut s = LoopState::initial();
    assert_eq!(s.on_present(PresentOutcome::Presented), FrameEnd::KeepFuture);
    assert_eq!(s, LoopState::initial());
}

#[test]
fn out_of_date_present_marks_stale_without_logging() {
    let mut s = LoopState::initial();
    let end = s.on_present(PresentOutcome::OutOfDate);
    assert_eq!(end, FrameEnd::ResetFuture { log_error: false });
    assert!(s.stale);
    assert_eq!(s.swapchain_generation, 0);
}

#[test]
fn other_present_error_is_logged_and_not_fatal() {
    let mut s = LoopState::initial();
    let end = s.on_present(PresentOutcome::Failed);
    assert_eq!(end, FrameEnd::ResetFuture { log_error: true });
    // The stale flag is untouched: only out-of-date marks the chain stale.
    assert!(!s.stale);
}
