use voxel_game::frame::{
    accepts_size, after_render, next_step, LoopEvent, Recovery, RenderOutcome, Step,
};

#[test]
fn a_redraw_request_starts_a_frame() {
    assert_eq!(next_step(LoopEvent::RedrawRequested), Step::Frame);
}

#[test]
fn cleared_events_ask_for_the_next_redraw() {
    assert_eq!(next_step(LoopEvent::MainEventsCleared), Step::RequestRedraw);
}

#[test]
fn a_close_request_ends_the_loop() {
    assert_eq!(next_step(LoopEvent::CloseRequested), Step::Exit);
}

#[test]
fn a_new_size_is_handed_on() {
    assert_eq!(
        next_step(LoopEvent::Resized { width: 800, height: 600 }),
        Step::Resize { width: 800, height: 600 }
    );
    assert_eq!(
        next_step(LoopEvent::Resized { width: 0, height: 600 }),
        Step::Resize { width: 0, height: 600 }
    );
}

#[test]
fn other_events_leave_the_loop_idle() {
    assert_eq!(next_step(LoopEvent::Other), Step::Idle);
}

#[test]
fn each_outcome_of_a_frame_has_its_recovery() {
    assert_eq!(after_render(RenderOutcome::Presented), Recovery::Continue);
    assert_eq!(after_render(RenderOutcome::SurfaceLost), Recovery::Reconfigure);
    assert_eq!(after_render(RenderOutcome::OutOfMemory), Recovery::Exit);
    assert_eq!(after_render(RenderOutcome::Failed), Recovery::Report);
}

#[test]
fn a_size_with_a_zero_side_is_not_accepted() {
    assert!(accepts_size(800, 600));
    assert!(accepts_size(1, 1));
    assert!(!accepts_size(0, 600));
    assert!(!accepts_size(800, 0));
    assert!(!accepts_size(0, 0));
}
