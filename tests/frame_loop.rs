use bevy_openxr::bracket::{Action, FrameLoop, FrameTiming, Input, Outcome, Phase};
use bevy_openxr::session::{RuntimeEvent, SessionState};
use bevy_openxr::swapchain::{EyeTextures, LEFT_XR_TEXTURE_HANDLE, RIGHT_XR_TEXTURE_HANDLE};
use bevy_openxr::{end_frame, locate_views, post_frame, xr_begin_frame};

fn answer(frames: &mut FrameLoop, o: Outcome) -> Action {
    frames.step(Input::Answer(o))
}

fn state_event(st: SessionState) -> Outcome {
    Outcome::Polled(Some(RuntimeEvent::SessionStateChanged(st)))
}

const TIMING: FrameTiming = FrameTiming { predicted_display_time: 5_000_000, predicted_period: 11_111_111 };

/// A loop whose session has begun, idle between ticks.
fn running_loop() -> FrameLoop {
    let mut frames = FrameLoop::new();
    assert_eq!(xr_begin_frame(&mut frames), Action::PollEvent);
    assert_eq!(answer(&mut frames, state_event(SessionState::Ready)), Action::BeginSession);
    assert_eq!(answer(&mut frames, Outcome::SessionCallDone(true)), Action::PollEvent);
    assert_eq!(answer(&mut frames, Outcome::Polled(None)), Action::WaitFrame);
    assert_eq!(answer(&mut frames, Outcome::FrameWaited(None)), Action::Done);
    assert_eq!(frames.phase(), Phase::Idle);
    frames
}

/// Runs stage A of one tick up to extraction, with the given timing.
fn stage_a(frames: &mut FrameLoop, timing: FrameTiming) {
    assert_eq!(xr_begin_frame(frames), Action::PollEvent);
    assert_eq!(answer(frames, Outcome::Polled(None)), Action::WaitFrame);
    assert_eq!(answer(frames, Outcome::FrameWaited(Some(timing))), Action::BeginFrame);
    assert_eq!(
        answer(frames, Outcome::FrameBegun(true)),
        Action::LocateViews { display_time: timing.predicted_display_time }
    );
    assert_eq!(answer(frames, Outcome::ViewsLocated(true)), Action::Done);
    assert_eq!(frames.phase(), Phase::Extracting);
}

#[test]
fn first_frame_runs_the_full_bracket() {
    let mut frames = running_loop();
    let mut eyes = EyeTextures::new();
    assert!(eyes.left.is_none() && eyes.right.is_none());
    stage_a(&mut frames, TIMING);
    assert_eq!(post_frame(&mut frames), Action::AcquireImage);
    assert_eq!(answer(&mut frames, Outcome::ImageAcquired(Some(2))), Action::WaitImage);
    let publish = answer(&mut frames, Outcome::ImageWaited(true));
    assert_eq!(publish, Action::PublishViews { image_index: 2 });
    eyes.publish(2, 1832, 1920, 7);
    assert_eq!(answer(&mut frames, Outcome::ViewsPublished), Action::Done);
    let left = eyes.left.unwrap();
    let right = eyes.right.unwrap();
    assert_eq!((left.handle, left.image_index, left.width, left.height, left.format), (LEFT_XR_TEXTURE_HANDLE, 2, 1832, 1920, 7));
    assert_eq!((right.handle, right.image_index, right.width, right.height, right.format), (RIGHT_XR_TEXTURE_HANDLE, 2, 1832, 1920, 7));
    assert_eq!(end_frame(&mut frames), Action::ReleaseImage);
    assert_eq!(
        answer(&mut frames, Outcome::ImageReleased(true)),
        Action::EndFrame { display_time: 5_000_000, with_views: true }
    );
    assert_eq!(frames.held_image(), None);
    assert_eq!(answer(&mut frames, Outcome::FrameEnded(true)), Action::Done);
    assert_eq!(frames.phase(), Phase::Idle);
    assert_eq!(xr_begin_frame(&mut frames), Action::PollEvent);
}

#[test]
fn eye_handles_are_fixed() {
    assert_eq!(LEFT_XR_TEXTURE_HANDLE, 1208214591);
    assert_eq!(RIGHT_XR_TEXTURE_HANDLE, 3383858418);
}

#[test]
fn ready_begins_the_session_once() {
    let mut frames = FrameLoop::new();
    assert!(!frames.session_running());
    assert_eq!(xr_begin_frame(&mut frames), Action::PollEvent);
    assert_eq!(answer(&mut frames, state_event(SessionState::Ready)), Action::BeginSession);
    assert_eq!(frames.session_state(), SessionState::Ready);
    assert!(!frames.session_running());
    assert_eq!(answer(&mut frames, Outcome::SessionCallDone(true)), Action::PollEvent);
    assert!(frames.session_running());
    assert_eq!(answer(&mut frames, state_event(SessionState::Running)), Action::PollEvent);
    assert!(frames.session_running());
}

#[test]
fn stopping_ends_the_session_once() {
    let mut frames = running_loop();
    assert!(frames.session_running());
    assert_eq!(xr_begin_frame(&mut frames), Action::PollEvent);
    assert_eq!(answer(&mut frames, state_event(SessionState::Stopping)), Action::EndSession);
    assert_eq!(answer(&mut frames, Outcome::SessionCallDone(true)), Action::PollEvent);
    assert!(!frames.session_running());
    assert_eq!(answer(&mut frames, Outcome::Polled(None)), Action::Done);
    assert_eq!(frames.phase(), Phase::Idle);
}

#[test]
fn failed_session_call_leaves_the_flag() {
    let mut frames = FrameLoop::new();
    assert_eq!(xr_begin_frame(&mut frames), Action::PollEvent);
    assert_eq!(answer(&mut frames, state_event(SessionState::Ready)), Action::BeginSession);
    assert_eq!(answer(&mut frames, Outcome::SessionCallDone(false)), Action::PollEvent);
    assert!(!frames.session_running());
    assert_eq!(answer(&mut frames, Outcome::Polled(None)), Action::Done);
}

#[test]
fn wait_failure_keeps_prior_timing() {
    let mut frames = running_loop();
    stage_a(&mut frames, TIMING);
    assert_eq!(post_frame(&mut frames), Action::AcquireImage);
    assert_eq!(answer(&mut frames, Outcome::ImageAcquired(Some(0))), Action::WaitImage);
    assert_eq!(answer(&mut frames, Outcome::ImageWaited(true)), Action::PublishViews { image_index: 0 });
    assert_eq!(answer(&mut frames, Outcome::ViewsPublished), Action::Done);
    assert_eq!(end_frame(&mut frames), Action::ReleaseImage);
    answer(&mut frames, Outcome::ImageReleased(true));
    answer(&mut frames, Outcome::FrameEnded(true));
    assert_eq!(xr_begin_frame(&mut frames), Action::PollEvent);
    assert_eq!(answer(&mut frames, Outcome::Polled(None)), Action::WaitFrame);
    assert_eq!(answer(&mut frames, Outcome::FrameWaited(None)), Action::Done);
    assert_eq!(frames.frame_timing(), Some(TIMING));
    assert_eq!(frames.phase(), Phase::Idle);
    assert_eq!(post_frame(&mut frames), Action::Done);
    assert_eq!(end_frame(&mut frames), Action::Done);
    assert_eq!(xr_begin_frame(&mut frames), Action::PollEvent);
}

#[test]
fn no_second_tick_while_in_flight() {
    let mut frames = running_loop();
    stage_a(&mut frames, TIMING);
    assert_eq!(xr_begin_frame(&mut frames), Action::Done);
    assert_eq!(frames.phase(), Phase::Extracting);
    assert_eq!(post_frame(&mut frames), Action::AcquireImage);
    assert_eq!(xr_begin_frame(&mut frames), Action::Done);
    assert_eq!(answer(&mut frames, Outcome::ImageAcquired(Some(1))), Action::WaitImage);
    assert_eq!(answer(&mut frames, Outcome::ImageWaited(true)), Action::PublishViews { image_index: 1 });
    assert_eq!(answer(&mut frames, Outcome::ViewsPublished), Action::Done);
    assert_eq!(xr_begin_frame(&mut frames), Action::Done);
    assert_eq!(end_frame(&mut frames), Action::ReleaseImage);
    assert_eq!(xr_begin_frame(&mut frames), Action::Done);
    answer(&mut frames, Outcome::ImageReleased(false));
    assert_eq!(xr_begin_frame(&mut frames), Action::Done);
    answer(&mut frames, Outcome::FrameEnded(false));
    assert_eq!(xr_begin_frame(&mut frames), Action::PollEvent);
}

#[test]
fn exiting_stops_the_loop() {
    let mut frames = running_loop();
    assert_eq!(xr_begin_frame(&mut frames), Action::PollEvent);
    assert_eq!(answer(&mut frames, state_event(SessionState::Exiting)), Action::Done);
    assert!(frames.is_stopped());
    assert_eq!(answer(&mut frames, Outcome::Polled(None)), Action::Done);
    assert_eq!(post_frame(&mut frames), Action::Done);
    assert_eq!(xr_begin_frame(&mut frames), Action::Done);
}

#[test]
fn loss_pending_stops_the_loop() {
    let mut frames = running_loop();
    assert_eq!(xr_begin_frame(&mut frames), Action::PollEvent);
    assert_eq!(answer(&mut frames, state_event(SessionState::LossPending)), Action::Done);
    assert!(frames.is_stopped());
    assert_eq!(xr_begin_frame(&mut frames), Action::Done);
}

#[test]
fn instance_loss_stops_the_loop() {
    let mut frames = running_loop();
    assert_eq!(xr_begin_frame(&mut frames), Action::PollEvent);
    assert_eq!(answer(&mut frames, Outcome::Polled(Some(RuntimeEvent::InstanceLossPending))), Action::Done);
    assert!(frames.is_stopped());
    assert_eq!(xr_begin_frame(&mut frames), Action::Done);
}

#[test]
fn lost_and_unknown_events_keep_polling() {
    let mut frames = running_loop();
    assert_eq!(xr_begin_frame(&mut frames), Action::PollEvent);
    assert_eq!(answer(&mut frames, Outcome::Polled(Some(RuntimeEvent::EventsLost(3)))), Action::PollEvent);
    assert_eq!(answer(&mut frames, Outcome::Polled(Some(RuntimeEvent::Other))), Action::PollEvent);
    assert_eq!(answer(&mut frames, Outcome::Polled(None)), Action::WaitFrame);
}

#[test]
fn poll_failure_skips_the_tick() {
    let mut frames = running_loop();
    assert_eq!(xr_begin_frame(&mut frames), Action::PollEvent);
    assert_eq!(answer(&mut frames, Outcome::PollFailed), Action::Done);
    assert_eq!(frames.phase(), Phase::Idle);
    assert!(!frames.is_stopped());
    assert_eq!(xr_begin_frame(&mut frames), Action::PollEvent);
}

#[test]
fn no_frame_work_before_the_session_runs() {
    let mut frames = FrameLoop::new();
    assert_eq!(xr_begin_frame(&mut frames), Action::PollEvent);
    assert_eq!(answer(&mut frames, Outcome::Polled(None)), Action::Done);
    assert_eq!(post_frame(&mut frames), Action::Done);
    assert_eq!(frames.frame_timing(), None);
}

#[test]
fn begin_frame_failure_aborts_the_frame() {
    let mut frames = running_loop();
    assert_eq!(xr_begin_frame(&mut frames), Action::PollEvent);
    assert_eq!(answer(&mut frames, Outcome::Polled(None)), Action::WaitFrame);
    assert_eq!(answer(&mut frames, Outcome::FrameWaited(Some(TIMING))), Action::BeginFrame);
    assert_eq!(answer(&mut frames, Outcome::FrameBegun(false)), Action::Done);
    assert_eq!(frames.phase(), Phase::Idle);
    assert_eq!(post_frame(&mut frames), Action::Done);
    assert_eq!(end_frame(&mut frames), Action::Done);
}

#[test]
fn acquire_failure_ends_without_release() {
    let mut frames = running_loop();
    stage_a(&mut frames, TIMING);
    assert_eq!(post_frame(&mut frames), Action::AcquireImage);
    assert_eq!(answer(&mut frames, Outcome::ImageAcquired(None)), Action::Done);
    assert_eq!(frames.phase(), Phase::Submitting);
    assert_eq!(end_frame(&mut frames), Action::EndFrame { display_time: 5_000_000, with_views: true });
    assert_eq!(answer(&mut frames, Outcome::FrameEnded(true)), Action::Done);
    assert_eq!(frames.phase(), Phase::Idle);
}

#[test]
fn wait_image_failure_still_releases() {
    let mut frames = running_loop();
    stage_a(&mut frames, TIMING);
    assert_eq!(post_frame(&mut frames), Action::AcquireImage);
    assert_eq!(answer(&mut frames, Outcome::ImageAcquired(Some(1))), Action::WaitImage);
    assert_eq!(answer(&mut frames, Outcome::ImageWaited(false)), Action::Done);
    assert_eq!(frames.held_image(), Some(1));
    assert_eq!(end_frame(&mut frames), Action::ReleaseImage);
}

#[test]
fn late_relocation_feeds_end_of_frame() {
    let mut frames = running_loop();
    assert_eq!(xr_begin_frame(&mut frames), Action::PollEvent);
    assert_eq!(answer(&mut frames, Outcome::Polled(None)), Action::WaitFrame);
    assert_eq!(answer(&mut frames, Outcome::FrameWaited(Some(TIMING))), Action::BeginFrame);
    assert_eq!(answer(&mut frames, Outcome::FrameBegun(true)), Action::LocateViews { display_time: 5_000_000 });
    assert_eq!(answer(&mut frames, Outcome::ViewsLocated(false)), Action::Done);
    assert_eq!(locate_views(&mut frames), Action::Done);
    assert_eq!(post_frame(&mut frames), Action::AcquireImage);
    assert_eq!(answer(&mut frames, Outcome::ImageAcquired(None)), Action::Done);
    assert_eq!(locate_views(&mut frames), Action::LocateViews { display_time: 5_000_000 });
    assert_eq!(answer(&mut frames, Outcome::ViewsLocated(true)), Action::Done);
    assert_eq!(end_frame(&mut frames), Action::EndFrame { display_time: 5_000_000, with_views: true });
}

#[test]
fn outcome_out_of_turn_is_ignored() {
    let mut frames = running_loop();
    assert_eq!(answer(&mut frames, Outcome::ImageAcquired(Some(3))), Action::Done);
    assert_eq!(answer(&mut frames, Outcome::FrameEnded(true)), Action::Done);
    assert_eq!(frames.phase(), Phase::Idle);
    assert_eq!(frames.held_image(), None);
    assert_eq!(xr_begin_frame(&mut frames), Action::PollEvent);
}
