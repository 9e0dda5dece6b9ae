//! What holds of the frame loop from tick to tick.

use vstd::prelude::*;

use crate::fov::Fovf;
use crate::frame_loop::{
    AcquireOutcome, BeginOutcome, FrameState, PollOutcome, SubmitAction, SubmitOutcome, XrEvent,
    XrFrameLoop,
};
use crate::scalar::Scalar;
use crate::session_state::SessionState;
use crate::swapchain::OpenXrSwapchain;

verus! {

use crate::frame_loop::{event_action, halts};

/// An event, and whether the session could be begun if the event called for it.
pub struct Drained {
    pub event: XrEvent,
    pub begun: bool,
}

impl Drained {
    /// Whether the session began to run on this event.
    pub open spec fn starts(self) -> bool {
        self.event == XrEvent::SessionStateChanged(SessionState::Ready) && self.begun
    }

    /// Whether the event reports a session state.
    pub open spec fn reports(self) -> bool {
        self.event is SessionStateChanged
    }

    /// Whether the session ceased to run on this event.
    pub open spec fn stops(self) -> bool {
        self.event matches XrEvent::SessionStateChanged(state) && halts(state)
    }
}

impl XrFrameLoop {
    /// The loop after one event and the call that it led to.
    pub open spec fn after_event(self, drained: Drained) -> XrFrameLoop {
        let seen = self.polled(PollOutcome::Event(drained.event));
        if event_action(drained.event) is BeginSession {
            seen.polled(PollOutcome::SessionBegun(drained.begun))
        } else {
            seen
        }
    }

    /// The loop after the event queue was drained.
    pub open spec fn after_events(self, queue: Seq<Drained>) -> XrFrameLoop
        decreases queue.len(),
    {
        if queue.len() == 0 {
            self
        } else {
            self.after_events(queue.drop_last()).after_event(queue.last())
        }
    }

    /// The loop after a frame was opened: `waited` is what `xrWaitFrame` came
    /// to, if it was called, and `begun` whether `xrBeginFrame` succeeded, if it
    /// was called.
    pub open spec fn after_begin(self, waited: Option<FrameState>, begun: bool) -> XrFrameLoop {
        if self.begin_action(BeginOutcome::Start) is Wait && waited is Some {
            let frame = waited->0;
            let called = self.opened(BeginOutcome::Start).opened(BeginOutcome::Waited(frame));
            if begun {
                called.opened(BeginOutcome::Begun(frame))
            } else {
                called.opened(BeginOutcome::BeginFailed)
            }
        } else {
            self
        }
    }

    /// The loop after the start of a tick: the frame in flight is submitted, the
    /// queue is drained, and a frame is opened.
    pub open spec fn after_tick(
        self,
        queue: Seq<Drained>,
        waited: Option<FrameState>,
        begun: bool,
    ) -> XrFrameLoop {
        self.submitted().after_events(queue).after_begin(waited, begun)
    }

    /// The loop after the end of a tick: `image` is the index that was acquired,
    /// if any was, and `waited` whether the wait for it succeeded.
    pub open spec fn after_acquire(self, image: Option<u32>, waited: bool) -> XrFrameLoop {
        if self.acquire_action(AcquireOutcome::Start, 0) is Acquire && image is Some && waited {
            self.acquired(AcquireOutcome::Waited(image->0))
        } else {
            self
        }
    }

    /// A frame is in flight only while the session runs.
    pub open spec fn in_step(self) -> bool {
        self.in_flight is Some ==> self.running
    }
}

/// Draining the event queue leaves the frame in flight alone.
pub proof fn events_keep_the_frame(l: XrFrameLoop, queue: Seq<Drained>)
    ensures
        l.after_events(queue).in_flight == l.in_flight,
    decreases queue.len(),
{
    if queue.len() > 0 {
        events_keep_the_frame(l, queue.drop_last());
    }
}

/// The loop holds the session state that was reported last: that of the last
/// change in the queue, and if there is none, the one from before.
pub proof fn state_is_the_last_reported(l: XrFrameLoop, queue: Seq<Drained>)
    ensures
        forall|i: int|
            #![trigger queue[i]]
            0 <= i < queue.len() && queue[i].reports() && (forall|k: int|
                i < k < queue.len() ==> !(#[trigger] queue[k]).reports())
                ==> queue[i].event == XrEvent::SessionStateChanged(l.after_events(queue).state),
        (forall|k: int| 0 <= k < queue.len() ==> !(#[trigger] queue[k]).reports())
            ==> l.after_events(queue).state == l.state,
    decreases queue.len(),
{
    if queue.len() > 0 {
        let front = queue.drop_last();
        let last = queue.last();
        state_is_the_last_reported(l, front);
        assert(forall|k: int| 0 <= k < front.len() ==> front[k] == queue[k]);
        assert(queue[queue.len() - 1] == last);
        if !last.reports() {
            assert(l.after_events(queue).state == l.after_events(front).state);
            assert forall|i: int|
                #![trigger queue[i]]
                0 <= i < queue.len() && queue[i].reports() && (forall|k: int|
                    i < k < queue.len() ==> !(#[trigger] queue[k]).reports())
                implies queue[i].event == XrEvent::SessionStateChanged(
                l.after_events(queue).state,
            ) by {
                assert forall|k: int| i < k < front.len() implies !(
                #[trigger] front[k]).reports() by {
                    assert(!queue[k].reports());
                }
                assert(front[i].reports());
            }
            if forall|k: int| 0 <= k < queue.len() ==> !(#[trigger] queue[k]).reports() {
                assert forall|k: int| 0 <= k < front.len() implies !(
                #[trigger] front[k]).reports() by {
                    assert(!queue[k].reports());
                }
            }
        }
    }
}

/// Whether the session runs once `queue` is drained: it began on some event and
/// did not stop on a later one, or it ran before and did not stop at all.
pub open spec fn runs_after(running: bool, queue: Seq<Drained>) -> bool {
    ||| exists|i: int|
        #![trigger queue[i]]
        0 <= i < queue.len() && queue[i].starts() && forall|k: int|
            i < k < queue.len() ==> !(#[trigger] queue[k]).stops()
    ||| running && forall|k: int| 0 <= k < queue.len() ==> !(#[trigger] queue[k]).stops()
}

/// The session runs exactly from a successful begin, which only a report that it
/// is ready leads to, until a report that it stops, exits or is about to be lost.
pub proof fn session_runs_from_ready_to_stop(l: XrFrameLoop, queue: Seq<Drained>)
    ensures
        l.after_events(queue).running == runs_after(l.running, queue),
    decreases queue.len(),
{
    if queue.len() > 0 {
        let front = queue.drop_last();
        let last = queue.last();
        session_runs_from_ready_to_stop(l, front);
        assert(forall|k: int| 0 <= k < front.len() ==> front[k] == queue[k]);
        if runs_after(l.running, front) && !last.stops() {
            if exists|i: int|
                #![trigger front[i]]
                0 <= i < front.len() && front[i].starts() && forall|k: int|
                    i < k < front.len() ==> !(#[trigger] front[k]).stops() {
                let i = choose|i: int|
                    #![trigger front[i]]
                    0 <= i < front.len() && front[i].starts() && forall|k: int|
                        i < k < front.len() ==> !(#[trigger] front[k]).stops();
                assert(queue[i].starts());
                assert forall|k: int| i < k < queue.len() implies !(
                #[trigger] queue[k]).stops() by {
                    if k < front.len() {
                        assert(!front[k].stops());
                    }
                }
            } else {
                assert forall|k: int| 0 <= k < queue.len() implies !(
                #[trigger] queue[k]).stops() by {
                    if k < front.len() {
                        assert(!front[k].stops());
                    }
                }
            }
            assert(runs_after(l.running, queue));
        }
        if last.starts() {
            assert(queue[queue.len() - 1].starts());
            assert(runs_after(l.running, queue));
        }
        if runs_after(l.running, queue) && !last.starts() {
            assert(!last.stops()) by {
                assert(queue[queue.len() - 1] == last);
            }
            if exists|i: int|
                #![trigger queue[i]]
                0 <= i < queue.len() && queue[i].starts() && forall|k: int|
                    i < k < queue.len() ==> !(#[trigger] queue[k]).stops() {
                let i = choose|i: int|
                    #![trigger queue[i]]
                    0 <= i < queue.len() && queue[i].starts() && forall|k: int|
                        i < k < queue.len() ==> !(#[trigger] queue[k]).stops();
                assert(front[i].starts());
                assert forall|k: int| i < k < front.len() implies !(
                #[trigger] front[k]).stops() by {
                    assert(!queue[k].stops());
                }
            } else {
                assert forall|k: int| 0 <= k < front.len() implies !(
                #[trigger] front[k]).stops() by {
                    assert(!queue[k].stops());
                }
            }
            assert(runs_after(l.running, front));
        }
    }
}

/// Nothing happens until the runtime reports that the session is ready: a loop
/// that does not run stays so, calls neither `xrWaitFrame` nor, with nothing in
/// flight, `xrEndFrame` or `xrAcquireSwapchainImage`.
pub proof fn nothing_happens_before_ready(
    l: XrFrameLoop,
    queue: Seq<Drained>,
    waited: Option<FrameState>,
    begun: bool,
)
    requires
        !l.running,
        l.in_flight is None,
        forall|i: int|
            0 <= i < queue.len() ==> (#[trigger] queue[i]).event != XrEvent::SessionStateChanged(
                SessionState::Ready,
            ),
    ensures
        ({
            let next = l.after_tick(queue, waited, begun);
            &&& !next.running
            &&& next.in_flight is None
            &&& l.submitted().after_events(queue).begin_action(BeginOutcome::Start) is Done
            &&& next.acquire_action(AcquireOutcome::Start, 0) is Done
        }),
{
    session_runs_from_ready_to_stop(l.submitted(), queue);
    events_keep_the_frame(l.submitted(), queue);
    assert forall|i: int| 0 <= i < queue.len() implies !(#[trigger] queue[i]).starts() by {}
}

/// Frames are waited on and submitted only while the session runs: after any
/// tick a frame is in flight only if it does, so the frame that the next tick
/// submits is submitted while the session still runs.
pub proof fn frames_are_in_flight_only_while_running(
    l: XrFrameLoop,
    queue: Seq<Drained>,
    waited: Option<FrameState>,
    begun: bool,
    image: Option<u32>,
    image_waited: bool,
)
    ensures
        l.after_tick(queue, waited, begun).in_step(),
        l.after_tick(queue, waited, begun).after_acquire(image, image_waited).in_step(),
{
    events_keep_the_frame(l.submitted(), queue);
}

/// Submitting releases the image before it ends the frame, and ends the frame
/// whatever comes of the release. Both are done once: a release comes first
/// exactly if an image is held and there is a swapchain, then the frame is ended
/// and no longer in flight, and after that nothing is called.
pub proof fn image_is_released_before_the_frame_is_ended(
    l: XrFrameLoop,
    swapchain: Option<OpenXrSwapchain>,
    has_space: bool,
    fov: Fovf<Scalar>,
    released: bool,
    ended: bool,
    first: SubmitAction,
    second: SubmitAction,
    last: SubmitAction,
)
    requires
        l.in_flight is Some,
        l.is_submit_action(SubmitOutcome::Start, swapchain, has_space, fov, first),
        l.closed(SubmitOutcome::Start, swapchain is Some).is_submit_action(
            SubmitOutcome::Released(released),
            swapchain,
            has_space,
            fov,
            second,
        ),
        l.submitted().is_submit_action(
            SubmitOutcome::Ended(ended),
            swapchain,
            has_space,
            fov,
            last,
        ),
    ensures
        ({
            let begun = l.closed(SubmitOutcome::Start, swapchain is Some);
            let over = begun.closed(SubmitOutcome::Released(released), swapchain is Some);
            if l.owes_release(swapchain is Some) {
                &&& first is Release
                &&& begun == l
                &&& second matches SubmitAction::End(s) && l.is_submission(
                    s,
                    swapchain,
                    has_space,
                    fov,
                )
                &&& over == l.submitted()
            } else {
                &&& first matches SubmitAction::End(s) && l.is_submission(
                    s,
                    swapchain,
                    has_space,
                    fov,
                )
                &&& begun == l.submitted()
            }
        }),
        last is Done,
        l.submitted().closed(SubmitOutcome::Ended(ended), swapchain is Some) == l.submitted(),
{
}

/// With nothing in flight nothing is submitted.
pub proof fn nothing_in_flight_is_not_submitted(
    l: XrFrameLoop,
    outcome: SubmitOutcome,
    swapchain: Option<OpenXrSwapchain>,
    has_space: bool,
    fov: Fovf<Scalar>,
    action: SubmitAction,
)
    requires
        l.in_flight is None,
        l.is_submit_action(outcome, swapchain, has_space, fov, action),
    ensures
        action is Done,
        l.closed(outcome, swapchain is Some) == l,
{
}

/// `xrEndFrame` of one frame precedes `xrWaitFrame` of the next: by the time a
/// frame is waited for, the one before it was handed over for submission and
/// nothing is in flight, so beginning a frame never drops another.
pub proof fn frame_is_ended_before_the_next_wait(l: XrFrameLoop, queue: Seq<Drained>)
    ensures
        l.submitted().in_flight is None,
        l.submitted().after_events(queue).in_flight is None,
{
    events_keep_the_frame(l.submitted(), queue);
}

/// A frame that was begun is the one that the next tick ends, with the display
/// time that the runtime predicted for it, whatever came of the image.
pub proof fn begun_frame_is_the_one_ended(
    l: XrFrameLoop,
    queue: Seq<Drained>,
    frame: FrameState,
    image: Option<u32>,
    image_waited: bool,
)
    requires
        l.submitted().after_events(queue).begin_action(BeginOutcome::Start) is Wait,
    ensures
        ({
            let next = l.after_tick(queue, Some(frame), true).after_acquire(image, image_waited);
            &&& next.in_flight matches Some(f)
            &&& f.frame_state == frame
        }),
{
}

/// A tick with a failed `xrWaitFrame` or `xrBeginFrame` leaves nothing in flight:
/// no `xrEndFrame` is owed for it.
pub proof fn failed_begin_owes_nothing(
    l: XrFrameLoop,
    queue: Seq<Drained>,
    waited: Option<FrameState>,
    begun: bool,
)
    requires
        waited is None || !begun,
    ensures
        l.after_tick(queue, waited, begun).in_flight is None,
{
    events_keep_the_frame(l.submitted(), queue);
}

/// An image is held only for a frame that the runtime wants rendered: so it is
/// at first, and every step of a tick keeps it so.
pub proof fn images_are_held_only_for_rendered_frames(
    l: XrFrameLoop,
    queue: Seq<Drained>,
    waited: Option<FrameState>,
    begun: bool,
    image: Option<u32>,
    image_waited: bool,
)
    requires
        l.well_formed(),
    ensures
        XrFrameLoop::initial().well_formed(),
        l.submitted().well_formed(),
        l.after_events(queue).well_formed(),
        l.after_begin(waited, begun).well_formed(),
        l.after_acquire(image, image_waited).well_formed(),
        l.after_tick(queue, waited, begun).well_formed(),
        l.after_tick(queue, waited, begun).after_acquire(image, image_waited).well_formed(),
{
    events_keep_the_frame(l, queue);
    events_keep_the_frame(l.submitted(), queue);
}

/// An image is held at the end of a tick exactly if a frame was begun on it, the
/// runtime wants it rendered, and acquiring and waiting both succeeded.
pub proof fn image_is_held_iff_acquired(
    l: XrFrameLoop,
    queue: Seq<Drained>,
    waited: Option<FrameState>,
    begun: bool,
    image: Option<u32>,
    image_waited: bool,
)
    ensures
        l.after_tick(queue, waited, begun).after_acquire(image, image_waited).holds_image() <==> {
            &&& l.after_tick(queue, waited, begun).in_flight is Some
            &&& l.after_tick(queue, waited, begun).in_flight->0.frame_state.should_render
            &&& image is Some
            &&& image_waited
        },
{
    events_keep_the_frame(l.submitted(), queue);
}

/// No image is held from one tick to the acquire of the next: the start of a tick
/// hands the frame over with the image that it holds, to be released.
pub proof fn no_image_is_held_before_an_acquire(
    l: XrFrameLoop,
    queue: Seq<Drained>,
    waited: Option<FrameState>,
    begun: bool,
)
    ensures
        !l.submitted().holds_image(),
        !l.after_tick(queue, waited, begun).holds_image(),
{
    events_keep_the_frame(l.submitted(), queue);
}

/// A frame that the runtime does not want rendered is ended all the same, but
/// there is no image to release and no layer to submit.
pub proof fn unrendered_frame_is_submitted_bare(
    l: XrFrameLoop,
    swapchain: Option<OpenXrSwapchain>,
    has_space: bool,
    fov: Fovf<Scalar>,
)
    requires
        l.well_formed(),
        l.in_flight is Some,
        !l.in_flight->0.frame_state.should_render,
    ensures
        !l.owes_release(swapchain is Some),
        l.submitted_views(swapchain, has_space, fov).len() == 0,
{
}

/// A frame is submitted with a layer exactly if an image was acquired for it and
/// there are a swapchain with eyes and a reference space. The layer has one view
/// per eye, each of its own array layer and, where the size can be told to the
/// compositor at all, of the whole image.
pub proof fn layer_shows_each_eye_once(
    l: XrFrameLoop,
    swapchain: Option<OpenXrSwapchain>,
    has_space: bool,
    fov: Fovf<Scalar>,
)
    ensures
        ({
            let views = l.submitted_views(swapchain, has_space, fov);
            &&& views.len() > 0 <==> l.holds_image() && swapchain is Some && has_space
                && swapchain->0.view_count > 0
            &&& views.len() > 0 ==> views.len() == swapchain->0.view_count
            &&& forall|i: int|
                #![trigger views[i]]
                0 <= i < views.len() ==> {
                    let rect = views[i].image_rect;
                    &&& views[i].image_array_index == i
                    &&& views[i].fov == fov
                    &&& rect.x == 0 && rect.y == 0
                    &&& swapchain->0.resolution.x <= i32::MAX ==> rect.width
                        == swapchain->0.resolution.x
                    &&& swapchain->0.resolution.y <= i32::MAX ==> rect.height
                        == swapchain->0.resolution.y
                }
        }),
{
}

} // verus!
