//! What each call of the frame loop gives, for every input, and what a frame
//! goes through from call to call.
//!
//! The laws speak of the calls themselves: `call_ensures(f, args, r)` says that
//! `r` is something that `f` can return on `args`. A loop that a call changes is
//! a mutable reference `l`: `*l` is the loop before the call, `*final(l)` after.

use vstd::prelude::*;

use crate::fov::Fovf;
use crate::frame_loop::{
    AcquireAction, AcquireOutcome, AppExit, BeginAction, BeginOutcome, EnvironmentBlendMode,
    FrameState, FrameSubmission, InFlightFrame, PollAction, PollOutcome, SubmitAction,
    SubmitOutcome, Timeout, XrEvent, XrFrameLoop,
};
use crate::scalar::Scalar;
use crate::session::ViewConfigurationType;
use crate::session_state::SessionState;
use crate::swapchain::OpenXrSwapchain;

verus! {

/// A new loop has heard of no state, does not run, and has nothing in flight.
pub proof fn new_loop_is_idle(l: XrFrameLoop)
    requires
        call_ensures(<XrFrameLoop as Default>::default, (), l),
    ensures
        l.state == SessionState::Unknown,
        !l.running,
        l.in_flight is None,
{
}

/// Whatever leads to the end of a frame, the frame is ended at the display time
/// that the runtime predicted for it, and opaquely.
pub proof fn frame_is_ended_at_its_predicted_time(
    outcome: SubmitOutcome,
    swapchain: Option<&OpenXrSwapchain>,
    has_space: bool,
    fov: Fovf<Scalar>,
    submission: FrameSubmission,
)
    ensures
        forall|l: &mut XrFrameLoop| #[trigger]
            call_ensures(
                XrFrameLoop::submit_frame,
                (l, outcome, swapchain, has_space, fov),
                SubmitAction::End(submission),
            ) ==> {
                &&& l.in_flight matches Some(frame)
                &&& submission.display_time == frame.frame_state.predicted_display_time
                &&& submission.blend_mode == EnvironmentBlendMode::Opaque
            },
{
}

/// Submitting calls for nothing exactly if nothing is in flight or the frame was
/// just ended. It calls for a release exactly at the start, with an image held
/// and a swapchain to release it to. Otherwise it calls for the end of the frame,
/// whatever came of a release.
pub proof fn submitting_releases_then_ends(
    outcome: SubmitOutcome,
    swapchain: Option<&OpenXrSwapchain>,
    has_space: bool,
    fov: Fovf<Scalar>,
    action: SubmitAction,
)
    ensures
        forall|l: &mut XrFrameLoop| #[trigger]
            call_ensures(
                XrFrameLoop::submit_frame,
                (l, outcome, swapchain, has_space, fov),
                action,
            ) ==> {
                &&& action is Done <==> l.in_flight is None || outcome is Ended
                &&& action is Release <==> {
                    &&& l.in_flight matches Some(frame)
                    &&& frame.acquired
                    &&& swapchain is Some
                    &&& outcome == SubmitOutcome::Start
                }
            },
{
}

/// Submitting takes the frame out of flight exactly when it calls for its end,
/// and changes nothing else.
pub proof fn submitting_changes_the_frame_in_flight_only(
    outcome: SubmitOutcome,
    swapchain: Option<&OpenXrSwapchain>,
    has_space: bool,
    fov: Fovf<Scalar>,
    action: SubmitAction,
)
    ensures
        forall|l: &mut XrFrameLoop| #[trigger]
            call_ensures(
                XrFrameLoop::submit_frame,
                (l, outcome, swapchain, has_space, fov),
                action,
            ) ==> {
                &&& final(l).state == l.state
                &&& final(l).running == l.running
                &&& action is End ==> final(l).in_flight is None
                &&& !(action is End) ==> final(l).in_flight == l.in_flight
            },
{
}

/// A frame is ended with one view per array layer of the swapchain if an image is
/// held for it and there are a swapchain and a space, and with none otherwise.
/// Each view shows its own layer, all of it, from the origin, looking straight
/// ahead and with the field of view asked for.
pub proof fn each_eye_is_shown_its_own_layer(
    outcome: SubmitOutcome,
    swapchain: Option<&OpenXrSwapchain>,
    has_space: bool,
    fov: Fovf<Scalar>,
    submission: FrameSubmission,
)
    ensures
        forall|l: &mut XrFrameLoop| #[trigger]
            call_ensures(
                XrFrameLoop::submit_frame,
                (l, outcome, swapchain, has_space, fov),
                SubmitAction::End(submission),
            ) ==> {
                let views = submission.views@;
                let shown = l.in_flight->0.acquired && has_space && swapchain is Some;
                &&& shown ==> views.len() == swapchain->0.view_count
                &&& !shown ==> views.len() == 0
                &&& forall|i: int|
                    #![trigger views[i]]
                    0 <= i < views.len() ==> {
                        let rect = views[i].image_rect;
                        let size = swapchain->0.resolution;
                        let from = views[i].pose.position;
                        let turn = views[i].pose.orientation;
                        &&& views[i].image_array_index == i
                        &&& views[i].fov == fov
                        &&& rect.x == 0 && rect.y == 0
                        &&& rect.width == size.x || (rect.width < 0 && rect.width + 0x1_0000_0000
                            == size.x)
                        &&& rect.height == size.y || (rect.height < 0 && rect.height
                            + 0x1_0000_0000 == size.y)
                        &&& from.x.bits == 0 && from.y.bits == 0 && from.z.bits == 0
                        &&& turn.x.bits == 0 && turn.y.bits == 0 && turn.z.bits == 0
                        &&& turn.w.bits == 0x3f80_0000
                    }
            },
{
}

/// A submission has a layer exactly if it has a view.
pub proof fn layer_needs_a_view(submission: FrameSubmission, has: bool)
    requires
        call_ensures(FrameSubmission::has_layer, (&submission,), has),
    ensures
        has <==> submission.views@.len() != 0,
{
}

/// An event calls for an exit exactly if the session is exiting or about to be
/// lost, or the instance is about to be lost; for the end of the session exactly
/// if it is stopping; and for its begin exactly if it is ready. After any other
/// event the next one is polled for.
pub proof fn events_call_for_what_they_say(event: XrEvent, action: PollAction)
    ensures
        forall|l: &mut XrFrameLoop| #[trigger]
            call_ensures(XrFrameLoop::poll_events, (l, PollOutcome::Event(event)), action) ==> {
                &&& action == PollAction::RequestExit(AppExit::Success) <==> {
                    ||| event == XrEvent::SessionStateChanged(SessionState::Exiting)
                    ||| event == XrEvent::SessionStateChanged(SessionState::LossPending)
                    ||| event == XrEvent::InstanceLossPending
                }
                &&& action == PollAction::EndSession <==> event == XrEvent::SessionStateChanged(
                    SessionState::Stopping,
                )
                &&& action == PollAction::BeginSession(ViewConfigurationType::PrimaryStereo)
                    <==> event == XrEvent::SessionStateChanged(SessionState::Ready)
                &&& action == PollAction::Poll <==> {
                    &&& event != XrEvent::InstanceLossPending
                    &&& event matches XrEvent::SessionStateChanged(state) ==> {
                        &&& state != SessionState::Ready
                        &&& state != SessionState::Stopping
                        &&& state != SessionState::Exiting
                        &&& state != SessionState::LossPending
                    }
                }
            },
{
}

/// The queue is polled on until it is empty or polling fails, whatever the calls
/// in between come to.
pub proof fn queue_is_drained(outcome: PollOutcome, action: PollAction)
    ensures
        forall|l: &mut XrFrameLoop| #[trigger]
            call_ensures(XrFrameLoop::poll_events, (l, outcome), action) ==> {
                &&& action == PollAction::Stop <==> outcome == PollOutcome::Empty || outcome
                    == PollOutcome::Failed
                &&& outcome is SessionBegun || outcome is SessionEnded || outcome is ExitRequested
                    ==> action == PollAction::Poll
            },
{
}

/// Draining records each reported state. It has the session run from a begin that
/// succeeded until it stops, exits or is about to be lost, and leaves the frame in
/// flight alone.
pub proof fn draining_follows_the_session(outcome: PollOutcome, action: PollAction)
    ensures
        forall|l: &mut XrFrameLoop| #[trigger]
            call_ensures(XrFrameLoop::poll_events, (l, outcome), action) ==> {
                let reported = outcome is Event && outcome->Event_0 is SessionStateChanged;
                let state = outcome->Event_0->SessionStateChanged_0;
                let stops = reported && (state == SessionState::Stopping || state
                    == SessionState::Exiting || state == SessionState::LossPending);
                let starts = outcome == PollOutcome::SessionBegun(true);
                &&& reported ==> final(l).state == state
                &&& !reported ==> final(l).state == l.state
                &&& stops ==> !final(l).running
                &&& starts ==> final(l).running
                &&& !stops && !starts ==> final(l).running == l.running
                &&& final(l).in_flight == l.in_flight
            },
{
}

/// While the session runs a frame is waited for, every frame that was waited for
/// is begun, whatever the runtime says of rendering it, and nothing else is
/// called: neither while the session does not run nor once a frame is begun or a
/// call has failed.
pub proof fn every_frame_waited_for_is_begun(outcome: BeginOutcome, action: BeginAction)
    ensures
        forall|l: &mut XrFrameLoop| #[trigger]
            call_ensures(XrFrameLoop::begin_frame, (l, outcome), action) ==> {
                &&& action == BeginAction::Wait <==> outcome == BeginOutcome::Start && l.running
                &&& action is Begin <==> outcome is Waited
                &&& outcome matches BeginOutcome::Waited(frame) ==> action == BeginAction::Begin(
                    frame,
                )
                &&& action == BeginAction::Done <==> {
                    ||| outcome == BeginOutcome::Start && !l.running
                    ||| outcome is WaitFailed
                    ||| outcome is Begun
                    ||| outcome is BeginFailed
                }
            },
{
}

/// A frame is in flight once it is begun, as it was waited for and without an
/// image; opening a frame changes nothing else and on no other outcome.
pub proof fn begun_frame_is_in_flight(outcome: BeginOutcome, action: BeginAction)
    ensures
        forall|l: &mut XrFrameLoop| #[trigger]
            call_ensures(XrFrameLoop::begin_frame, (l, outcome), action) ==> {
                &&& final(l).state == l.state
                &&& final(l).running == l.running
                &&& outcome matches BeginOutcome::Begun(frame_state) ==> final(l).in_flight == Some(
                    InFlightFrame { frame_state, acquired: false },
                )
                &&& !(outcome is Begun) ==> final(l).in_flight == l.in_flight
            },
{
}

/// From one call to the next: a frame that is waited for on a running loop is
/// begun, is then the one in flight, and is ended at its own time, whatever the
/// runtime says of rendering it and with whatever it is submitted.
pub proof fn frame_goes_from_wait_to_end(
    frame: FrameState,
    begin: BeginAction,
    begun: BeginAction,
    outcome: SubmitOutcome,
    swapchain: Option<&OpenXrSwapchain>,
    has_space: bool,
    fov: Fovf<Scalar>,
    submission: FrameSubmission,
)
    ensures
        forall|l: &mut XrFrameLoop| #[trigger]
            call_ensures(XrFrameLoop::begin_frame, (l, BeginOutcome::Waited(frame)), begin) ==> begin
                == BeginAction::Begin(frame) && *final(l) == *l,
        forall|l: &mut XrFrameLoop, next: &mut XrFrameLoop|
            #![trigger call_ensures(XrFrameLoop::begin_frame, (l, BeginOutcome::Begun(frame)), begun), call_ensures(XrFrameLoop::submit_frame, (next, outcome, swapchain, has_space, fov), SubmitAction::End(submission))]
            call_ensures(XrFrameLoop::begin_frame, (l, BeginOutcome::Begun(frame)), begun)
                && *next == *final(l) && call_ensures(
                XrFrameLoop::submit_frame,
                (next, outcome, swapchain, has_space, fov),
                SubmitAction::End(submission),
            ) ==> submission.display_time == frame.predicted_display_time
                && submission.views@.len() == 0,
{
}

/// An image is acquired exactly for a frame in flight that the runtime wants
/// rendered. The image acquired is the one waited for, without limit, and the one
/// waited for is the one shown if it was wrapped and the one reported if it was
/// not. Nothing is called otherwise.
pub proof fn acquired_image_is_the_one_shown(
    outcome: AcquireOutcome,
    image_count: usize,
    action: AcquireAction,
)
    ensures
        forall|l: &mut XrFrameLoop| #[trigger]
            call_ensures(XrFrameLoop::acquire_image, (l, outcome, image_count), action) ==> {
                let flying = l.in_flight is Some;
                &&& action == AcquireAction::Acquire <==> {
                    &&& flying
                    &&& l.in_flight->0.frame_state.should_render
                    &&& outcome == AcquireOutcome::Start
                }
                &&& action is Wait <==> flying && outcome is Acquired
                &&& action matches AcquireAction::Wait(index, timeout) ==> {
                    &&& outcome == AcquireOutcome::Acquired(index)
                    &&& timeout == Timeout::Infinite
                }
                &&& action is Show <==> {
                    &&& flying
                    &&& outcome matches AcquireOutcome::Waited(index)
                    &&& index < image_count
                }
                &&& action matches AcquireAction::Show(shown) ==> shown == outcome->Waited_0
                &&& action is ReportUnknownImage <==> {
                    &&& flying
                    &&& outcome matches AcquireOutcome::Waited(index)
                    &&& index >= image_count
                }
                &&& action matches AcquireAction::ReportUnknownImage(index) ==> outcome
                    == AcquireOutcome::Waited(index)
            },
{
}

/// From one call to the next: if the runtime hands out the image `index` of
/// `image_count` wrapped ones and the wait for it succeeds, that very image is
/// shown. So two images that differ are shown as different ones.
pub proof fn whole_acquire_shows_the_image_handed_out(
    index: u32,
    other: u32,
    image_count: usize,
    wait: AcquireAction,
    show: AcquireAction,
    show_other: AcquireAction,
)
    requires
        index < image_count,
        other < image_count,
    ensures
        forall|l: &mut XrFrameLoop, next: &mut XrFrameLoop|
            #![trigger call_ensures(XrFrameLoop::acquire_image, (l, AcquireOutcome::Acquired(index), image_count), wait), call_ensures(XrFrameLoop::acquire_image, (next, AcquireOutcome::Waited(index), image_count), show)]
            l.in_flight is Some && call_ensures(
                XrFrameLoop::acquire_image,
                (l, AcquireOutcome::Acquired(index), image_count),
                wait,
            ) && *next == *final(l) && call_ensures(
                XrFrameLoop::acquire_image,
                (next, AcquireOutcome::Waited(index), image_count),
                show,
            ) ==> {
                &&& wait matches AcquireAction::Wait(waited, _) && waited == index
                &&& show matches AcquireAction::Show(shown) && shown == index
                &&& final(next).in_flight->0.acquired
                &&& final(next).in_flight->0.frame_state == l.in_flight->0.frame_state
            },
        forall|l: &mut XrFrameLoop, next: &mut XrFrameLoop|
            #![trigger call_ensures(XrFrameLoop::acquire_image, (l, AcquireOutcome::Waited(index), image_count), show), call_ensures(XrFrameLoop::acquire_image, (next, AcquireOutcome::Waited(other), image_count), show_other)]
            l.in_flight is Some && next.in_flight is Some && call_ensures(
                XrFrameLoop::acquire_image,
                (l, AcquireOutcome::Waited(index), image_count),
                show,
            ) && call_ensures(
                XrFrameLoop::acquire_image,
                (next, AcquireOutcome::Waited(other), image_count),
                show_other,
            ) ==> (show == show_other <==> index == other),
{
}

/// The frame in flight holds an image from a wait that succeeded on; acquiring
/// changes nothing else and on no other outcome.
pub proof fn image_is_held_once_waited_for(
    outcome: AcquireOutcome,
    image_count: usize,
    action: AcquireAction,
)
    ensures
        forall|l: &mut XrFrameLoop| #[trigger]
            call_ensures(XrFrameLoop::acquire_image, (l, outcome, image_count), action) ==> {
                &&& final(l).state == l.state
                &&& final(l).running == l.running
                &&& final(l).in_flight is Some <==> l.in_flight is Some
                &&& l.in_flight matches Some(frame) ==> {
                    &&& final(l).in_flight->0.frame_state == frame.frame_state
                    &&& final(l).in_flight->0.acquired == (frame.acquired || outcome is Waited)
                }
            },
{
}

/// The nine numbers that OpenXR names give the states of these names, and any
/// other number is kept as it is: no two numbers give the same state.
pub proof fn numbers_and_states_correspond(
    raw: i32,
    state: SessionState,
    other: i32,
    other_state: SessionState,
)
    requires
        call_ensures(SessionState::from_raw, (raw,), state),
        call_ensures(SessionState::from_raw, (other,), other_state),
    ensures
        raw == other <==> state == other_state,
        state == SessionState::Unknown <==> raw == 0,
        state == SessionState::Idle <==> raw == 1,
        state == SessionState::Ready <==> raw == 2,
        state == SessionState::Synchronized <==> raw == 3,
        state == SessionState::Visible <==> raw == 4,
        state == SessionState::Focused <==> raw == 5,
        state == SessionState::Stopping <==> raw == 6,
        state == SessionState::LossPending <==> raw == 7,
        state == SessionState::Exiting <==> raw == 8,
        state is Other <==> raw < 0 || raw > 8,
        state matches SessionState::Other(n) ==> n == raw,
{
}

} // verus!
