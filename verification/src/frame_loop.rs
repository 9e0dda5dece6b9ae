//! The OpenXR frame loop.
//!
//! A tick submits the frame begun on the previous one, drains the event queue,
//! and opens the next frame; later on it acquires an image to draw into. The
//! runtime is called from outside: each function here takes what a call came to,
//! updates the state, and says which call is next.

use vstd::prelude::*;

use crate::fov::Fovf;
use crate::pose::Posef;
use crate::scalar::Scalar;
use crate::session::{ViewConfigurationType, VIEW_CONFIGURATION};
use crate::session_state::SessionState;
use crate::swapchain::OpenXrSwapchain;

verus! {

use crate::pose::identity_pose;

/// What the runtime says of a frame that it lets the app begin.
#[derive(Clone, Copy, Debug, PartialEq, Eq, Structural)]
pub struct FrameState {
    /// When the frame will be on display, in the runtime's nanoseconds.
    pub predicted_display_time: i64,
    /// Whether drawing anything is of use.
    pub should_render: bool,
}

/// A frame that has been begun but not yet submitted.
#[derive(Clone, Copy, Debug, PartialEq, Eq, Structural)]
pub struct InFlightFrame {
    pub frame_state: FrameState,
    /// Whether a swapchain image was acquired for this frame and waited for. If
    /// not, there is nothing to release and no layer to submit.
    ///
    /// Only an image that was waited for may be released. One whose wait failed
    /// is not drawn into and not released; the runtime keeps it as acquired.
    pub acquired: bool,
}

/// Per-frame state of the frame loop.
#[derive(Clone, Copy, Debug, PartialEq, Eq, Structural)]
pub struct XrFrameLoop {
    /// The session state reported last.
    pub state: SessionState,
    /// True between `xrBeginSession` and `xrEndSession`. Frames may only be
    /// waited on and submitted while this holds.
    pub running: bool,
    /// Set between `xrBeginFrame` and `xrEndFrame`. The presence of this is what
    /// obliges the app to call `xrEndFrame`, whether or not it rendered.
    pub in_flight: Option<InFlightFrame>,
}

/// How a submitted frame is blended with what is behind the display.
#[derive(Clone, Copy, Debug, PartialEq, Eq, Structural)]
pub enum EnvironmentBlendMode {
    Opaque,
    Additive,
    AlphaBlend,
}

/// A rectangle of an image, in pixels.
#[derive(Clone, Copy, Debug, PartialEq, Eq, Structural)]
pub struct Rect2Di {
    pub x: i32,
    pub y: i32,
    pub width: i32,
    pub height: i32,
}

/// What the compositor is handed for one eye.
#[derive(Clone, Copy, Debug, PartialEq, Eq, Structural)]
pub struct ProjectionView {
    pub pose: Posef,
    pub fov: Fovf<Scalar>,
    /// The array layer of the stereo image that this eye was drawn into.
    pub image_array_index: u32,
    pub image_rect: Rect2Di,
}

/// What a frame is ended with.
#[derive(Debug)]
pub struct FrameSubmission {
    pub display_time: i64,
    pub blend_mode: EnvironmentBlendMode,
    /// The views of the one projection layer; without any there is no layer.
    pub views: Vec<ProjectionView>,
}

/// `n` read as a signed number of the same thirty-two bits.
pub open spec fn as_signed(n: u32) -> int {
    if n < 0x8000_0000 {
        n as int
    } else {
        n - 0x1_0000_0000
    }
}

fn signed(n: u32) -> (r: i32)
    ensures
        r == as_signed(n),
{
    if n < 0x8000_0000 {
        n as i32
    } else {
        (n as i64 - 0x1_0000_0000) as i32
    }
}

/// The view of one array layer: the whole of it, seen from the origin.
pub open spec fn layer_view(swapchain: OpenXrSwapchain, fov: Fovf<Scalar>, layer: int) -> ProjectionView {
    ProjectionView {
        pose: identity_pose(),
        fov,
        image_array_index: layer as u32,
        image_rect: Rect2Di {
            x: 0,
            y: 0,
            width: as_signed(swapchain.resolution.x) as i32,
            height: as_signed(swapchain.resolution.y) as i32,
        },
    }
}

/// One view per array layer, in order.
pub open spec fn layer_views(swapchain: OpenXrSwapchain, fov: Fovf<Scalar>) -> Seq<ProjectionView> {
    Seq::new(swapchain.view_count as nat, |layer: int| layer_view(swapchain, fov, layer))
}

fn projection_views(swapchain: &OpenXrSwapchain, fov: Fovf<Scalar>) -> (views: Vec<ProjectionView>)
    ensures
        views@ == layer_views(*swapchain, fov),
{
    let mut views: Vec<ProjectionView> = Vec::new();
    let mut layer: u32 = 0;
    while layer < swapchain.view_count
        invariant
            layer <= swapchain.view_count,
            views@ == layer_views(*swapchain, fov).take(layer as int),
        decreases swapchain.view_count - layer,
    {
        views.push(
            ProjectionView {
                pose: Posef::identity(),
                fov,
                image_array_index: layer,
                image_rect: Rect2Di {
                    x: 0,
                    y: 0,
                    width: signed(swapchain.resolution.x),
                    height: signed(swapchain.resolution.y),
                },
            },
        );
        layer += 1;
        assert(views@ =~= layer_views(*swapchain, fov).take(layer as int));
    }
    assert(layer_views(*swapchain, fov).take(layer as int) =~= layer_views(*swapchain, fov));
    views
}

impl FrameSubmission {
    /// Whether the frame is ended with a layer.
    pub fn has_layer(&self) -> (r: bool)
        ensures
            r == (self.views@.len() > 0),
    {
        self.views.len() > 0
    }
}

/// An event from the runtime's queue.
#[derive(Clone, Copy, Debug, PartialEq, Eq, Structural)]
pub enum XrEvent {
    SessionStateChanged(SessionState),
    InstanceLossPending,
    /// The runtime dropped this many events.
    EventsLost(u32),
    Other,
}

/// What a call made while submitting a frame came to.
#[derive(Clone, Copy, Debug, PartialEq, Eq, Structural)]
pub enum SubmitOutcome {
    /// Nothing was called yet.
    Start,
    /// `xrReleaseSwapchainImage` returned, and whether it succeeded.
    Released(bool),
    /// `xrEndFrame` returned, and whether it succeeded.
    Ended(bool),
}

/// What to do next while submitting a frame.
#[derive(Debug)]
pub enum SubmitAction {
    /// Release the image: a frame may only be ended with an image that the
    /// runtime owns again.
    Release,
    /// End the frame with this.
    End(FrameSubmission),
    /// Nothing more.
    Done,
}

/// What a call made while draining the event queue came to.
#[derive(Clone, Copy, Debug, PartialEq, Eq, Structural)]
pub enum PollOutcome {
    /// `xrPollEvent` handed an event out.
    Event(XrEvent),
    /// The queue is empty.
    Empty,
    /// `xrPollEvent` failed.
    Failed,
    /// `xrBeginSession` returned, and whether it succeeded.
    SessionBegun(bool),
    /// `xrEndSession` returned, and whether it succeeded.
    SessionEnded(bool),
    /// The app was asked to exit.
    ExitRequested,
}

/// How the app exits.
#[derive(Clone, Copy, Debug, PartialEq, Eq, Structural)]
pub enum AppExit {
    Success,
    Error(u8),
}

/// What to do next while draining the event queue.
#[derive(Clone, Copy, Debug, PartialEq, Eq, Structural)]
pub enum PollAction {
    /// Poll for the next event.
    Poll,
    /// Begin the session with the views of this configuration.
    BeginSession(ViewConfigurationType),
    /// End the session.
    EndSession,
    /// Ask the app to exit with this status.
    RequestExit(AppExit),
    /// The queue is drained, or cannot be.
    Stop,
}

/// What a call made while opening a frame came to.
#[derive(Clone, Copy, Debug, PartialEq, Eq, Structural)]
pub enum BeginOutcome {
    /// Nothing was called yet.
    Start,
    /// `xrWaitFrame` returned this frame.
    Waited(FrameState),
    /// `xrWaitFrame` failed.
    WaitFailed,
    /// `xrBeginFrame` succeeded for this frame.
    Begun(FrameState),
    /// `xrBeginFrame` failed.
    BeginFailed,
}

/// What to do next while opening a frame.
#[derive(Clone, Copy, Debug, PartialEq, Eq, Structural)]
pub enum BeginAction {
    /// Wait for the runtime's frame pacing.
    Wait,
    /// Begin the frame that was waited for.
    Begin(FrameState),
    /// Nothing more.
    Done,
}

/// What a call made while acquiring an image came to.
#[derive(Clone, Copy, Debug, PartialEq, Eq, Structural)]
pub enum AcquireOutcome {
    /// Nothing was called yet.
    Start,
    /// `xrAcquireSwapchainImage` returned this index.
    Acquired(u32),
    /// `xrAcquireSwapchainImage` failed.
    AcquireFailed,
    /// `xrWaitSwapchainImage` succeeded for the image of this index.
    Waited(u32),
    /// `xrWaitSwapchainImage` failed.
    WaitFailed,
}

/// How long to wait.
#[derive(Clone, Copy, Debug, PartialEq, Eq, Structural)]
pub enum Timeout {
    Nanoseconds(i64),
    /// Until it is over.
    Infinite,
}

/// What to do next while acquiring an image.
#[derive(Clone, Copy, Debug, PartialEq, Eq, Structural)]
pub enum AcquireAction {
    /// Acquire an image.
    Acquire,
    /// Wait for the image of this index, for so long.
    Wait(u32, Timeout),
    /// Draw into the image of this index.
    Show(usize),
    /// The runtime named an image that was never wrapped.
    ReportUnknownImage(u32),
    /// Nothing more.
    Done,
}

/// The action that an event calls for.
pub open spec fn event_action(event: XrEvent) -> PollAction {
    match event {
        XrEvent::SessionStateChanged(SessionState::Ready) => PollAction::BeginSession(
            ViewConfigurationType::PrimaryStereo,
        ),
        XrEvent::SessionStateChanged(SessionState::Stopping) => PollAction::EndSession,
        XrEvent::SessionStateChanged(SessionState::Exiting) => PollAction::RequestExit(AppExit::Success),
        XrEvent::SessionStateChanged(SessionState::LossPending) => PollAction::RequestExit(AppExit::Success),
        XrEvent::InstanceLossPending => PollAction::RequestExit(AppExit::Success),
        _ => PollAction::Poll,
    }
}

/// The action that an outcome calls for.
pub open spec fn poll_action(outcome: PollOutcome) -> PollAction {
    match outcome {
        PollOutcome::Event(event) => event_action(event),
        PollOutcome::Empty => PollAction::Stop,
        PollOutcome::Failed => PollAction::Stop,
        _ => PollAction::Poll,
    }
}

/// Whether a session state ends the running of the session.
pub open spec fn halts(state: SessionState) -> bool {
    state is Stopping || state is Exiting || state is LossPending
}

impl XrFrameLoop {
    /// The state of a loop that has seen nothing yet.
    pub open spec fn initial() -> XrFrameLoop {
        XrFrameLoop { state: SessionState::Unknown, running: false, in_flight: None }
    }

    /// An image is held only for a frame that the runtime wants rendered.
    pub open spec fn well_formed(self) -> bool {
        self.in_flight matches Some(frame) ==> frame.acquired ==> frame.frame_state.should_render
    }

    /// Whether an image is held for the frame in flight.
    pub open spec fn holds_image(self) -> bool {
        self.in_flight matches Some(frame) && frame.acquired
    }

    /// Whether the image of the frame in flight has to be released before the
    /// frame is ended.
    pub open spec fn owes_release(self, has_swapchain: bool) -> bool {
        has_swapchain && self.holds_image()
    }

    /// The loop once its frame in flight was handed over to be ended.
    pub open spec fn submitted(self) -> XrFrameLoop {
        XrFrameLoop { in_flight: None, ..self }
    }

    /// The views that the frame in flight is submitted with.
    pub open spec fn submitted_views(
        self,
        swapchain: Option<OpenXrSwapchain>,
        has_space: bool,
        fov: Fovf<Scalar>,
    ) -> Seq<ProjectionView> {
        if swapchain is Some && self.holds_image() && has_space {
            layer_views(swapchain->0, fov)
        } else {
            Seq::empty()
        }
    }

    /// Whether a submission is what the frame in flight is ended with.
    pub open spec fn is_submission(
        self,
        submission: FrameSubmission,
        swapchain: Option<OpenXrSwapchain>,
        has_space: bool,
        fov: Fovf<Scalar>,
    ) -> bool {
        &&& submission.display_time == self.in_flight->0.frame_state.predicted_display_time
        &&& submission.blend_mode is Opaque
        &&& submission.views@ == self.submitted_views(swapchain, has_space, fov)
    }

    /// The loop after an outcome of submitting a frame.
    pub open spec fn closed(self, outcome: SubmitOutcome, has_swapchain: bool) -> XrFrameLoop {
        match outcome {
            SubmitOutcome::Start => if self.owes_release(has_swapchain) {
                self
            } else {
                self.submitted()
            },
            SubmitOutcome::Released(_) => self.submitted(),
            SubmitOutcome::Ended(_) => self,
        }
    }

    /// Whether `action` is what to do after an outcome of submitting a frame:
    /// release the image, if there is one to release, then end the frame,
    /// whatever came of the release.
    pub open spec fn is_submit_action(
        self,
        outcome: SubmitOutcome,
        swapchain: Option<OpenXrSwapchain>,
        has_space: bool,
        fov: Fovf<Scalar>,
        action: SubmitAction,
    ) -> bool {
        if self.in_flight is None || outcome is Ended {
            action is Done
        } else if outcome is Start && self.owes_release(swapchain is Some) {
            action is Release
        } else {
            action matches SubmitAction::End(s) && self.is_submission(s, swapchain, has_space, fov)
        }
    }

    /// The loop after an outcome of draining the event queue.
    pub open spec fn polled(self, outcome: PollOutcome) -> XrFrameLoop {
        match outcome {
            PollOutcome::Event(XrEvent::SessionStateChanged(state)) => XrFrameLoop {
                state,
                running: self.running && !halts(state),
                ..self
            },
            PollOutcome::SessionBegun(ok) => XrFrameLoop { running: self.running || ok, ..self },
            _ => self,
        }
    }

    /// The loop after an outcome of opening a frame.
    pub open spec fn opened(self, outcome: BeginOutcome) -> XrFrameLoop {
        match outcome {
            BeginOutcome::Begun(frame_state) => XrFrameLoop {
                in_flight: Some(InFlightFrame { frame_state, acquired: false }),
                ..self
            },
            _ => self,
        }
    }

    /// What to do after an outcome of opening a frame.
    pub open spec fn begin_action(self, outcome: BeginOutcome) -> BeginAction {
        match outcome {
            BeginOutcome::Start => if self.running {
                BeginAction::Wait
            } else {
                BeginAction::Done
            },
            BeginOutcome::Waited(frame_state) => BeginAction::Begin(frame_state),
            _ => BeginAction::Done,
        }
    }

    /// The loop after an outcome of acquiring an image.
    pub open spec fn acquired(self, outcome: AcquireOutcome) -> XrFrameLoop {
        if outcome is Waited && self.in_flight is Some {
            XrFrameLoop {
                in_flight: Some(InFlightFrame { acquired: true, ..self.in_flight->0 }),
                ..self
            }
        } else {
            self
        }
    }

    /// What to do after an outcome of acquiring an image, with `image_count`
    /// images wrapped.
    pub open spec fn acquire_action(self, outcome: AcquireOutcome, image_count: nat) -> AcquireAction {
        match self.in_flight {
            None => AcquireAction::Done,
            Some(frame) => match outcome {
                AcquireOutcome::Start => if frame.frame_state.should_render {
                    AcquireAction::Acquire
                } else {
                    AcquireAction::Done
                },
                AcquireOutcome::Acquired(index) => AcquireAction::Wait(index, Timeout::Infinite),
                AcquireOutcome::Waited(index) => if index < image_count {
                    AcquireAction::Show(index as usize)
                } else {
                    AcquireAction::ReportUnknownImage(index)
                },
                _ => AcquireAction::Done,
            },
        }
    }
}

impl Default for XrFrameLoop {
    /// Nothing reported, nothing running, nothing in flight.
    fn default() -> (r: Self)
        ensures
            r == XrFrameLoop::initial(),
    {
        XrFrameLoop { state: SessionState::Unknown, running: false, in_flight: None }
    }
}

impl XrFrameLoop {
    /// Submits the frame begun on the previous tick.
    ///
    /// A frame that was begun is always ended, even with nothing rendered and no
    /// layers to show. `swapchain` is the swapchain, if there is one; `has_space`
    /// says whether there is a reference space to place a layer in; every eye is
    /// submitted with `fov`.
    pub fn submit_frame(
        &mut self,
        outcome: SubmitOutcome,
        swapchain: Option<&OpenXrSwapchain>,
        has_space: bool,
        fov: Fovf<Scalar>,
    ) -> (action: SubmitAction)
        ensures
            *final(self) == old(self).closed(outcome, swapchain is Some),
            old(self).is_submit_action(
                outcome,
                (match swapchain {
                    Some(s) => Some(*s),
                    None => None,
                }),
                has_space,
                fov,
                action,
            ),
    {
        let frame = match self.in_flight {
            None => return SubmitAction::Done,
            Some(frame) => frame,
        };
        match outcome {
            SubmitOutcome::Start => {
                if frame.acquired && swapchain.is_some() {
                    return SubmitAction::Release;
                }
            },
            SubmitOutcome::Released(_) => {},
            SubmitOutcome::Ended(_) => return SubmitAction::Done,
        }
        self.in_flight = None;
        let mut views: Vec<ProjectionView> = Vec::new();
        if frame.acquired && has_space {
            if let Some(s) = swapchain {
                views = projection_views(s, fov);
            }
        }
        SubmitAction::End(
            FrameSubmission {
                display_time: frame.frame_state.predicted_display_time,
                blend_mode: EnvironmentBlendMode::Opaque,
                views,
            },
        )
    }

    /// Drives the session state machine while the event queue is drained.
    ///
    /// The runtime decides when the session may run: it advertises that it is
    /// ready, and only then may the session be begun and frames submitted.
    pub fn poll_events(&mut self, outcome: PollOutcome) -> (action: PollAction)
        ensures
            *final(self) == old(self).polled(outcome),
            action == poll_action(outcome),
    {
        match outcome {
            PollOutcome::Event(event) => match event {
                XrEvent::SessionStateChanged(state) => {
                    self.state = state;
                    match state {
                        SessionState::Ready => PollAction::BeginSession(VIEW_CONFIGURATION),
                        SessionState::Stopping => {
                            self.running = false;
                            PollAction::EndSession
                        },
                        SessionState::Exiting => {
                            self.running = false;
                            PollAction::RequestExit(AppExit::Success)
                        },
                        SessionState::LossPending => {
                            self.running = false;
                            PollAction::RequestExit(AppExit::Success)
                        },
                        _ => PollAction::Poll,
                    }
                },
                XrEvent::InstanceLossPending => PollAction::RequestExit(AppExit::Success),
                XrEvent::EventsLost(_) => PollAction::Poll,
                XrEvent::Other => PollAction::Poll,
            },
            PollOutcome::Empty => PollAction::Stop,
            PollOutcome::Failed => PollAction::Stop,
            PollOutcome::SessionBegun(ok) => {
                if ok {
                    self.running = true;
                }
                PollAction::Poll
            },
            PollOutcome::SessionEnded(_) => PollAction::Poll,
            PollOutcome::ExitRequested => PollAction::Poll,
        }
    }

    /// Waits for the runtime's frame pacing, then opens a frame. While the
    /// session is not running nothing is called.
    pub fn begin_frame(&mut self, outcome: BeginOutcome) -> (action: BeginAction)
        ensures
            *final(self) == old(self).opened(outcome),
            action == old(self).begin_action(outcome),
    {
        match outcome {
            BeginOutcome::Start => {
                if self.running {
                    BeginAction::Wait
                } else {
                    BeginAction::Done
                }
            },
            BeginOutcome::Waited(frame_state) => BeginAction::Begin(frame_state),
            BeginOutcome::WaitFailed => BeginAction::Done,
            BeginOutcome::Begun(frame_state) => {
                self.in_flight = Some(InFlightFrame { frame_state, acquired: false });
                BeginAction::Done
            },
            BeginOutcome::BeginFailed => BeginAction::Done,
        }
    }

    /// Acquires this frame's image and says which one to draw into.
    ///
    /// The runtime can say that drawing is of no use. The frame is still ended,
    /// but there is no image and no layer.
    pub fn acquire_image(&mut self, outcome: AcquireOutcome, image_count: usize) -> (action:
        AcquireAction)
        ensures
            *final(self) == old(self).acquired(outcome),
            action == old(self).acquire_action(outcome, image_count as nat),
    {
        match self.in_flight {
            None => AcquireAction::Done,
            Some(frame) => match outcome {
                AcquireOutcome::Start => {
                    if frame.frame_state.should_render {
                        AcquireAction::Acquire
                    } else {
                        AcquireAction::Done
                    }
                },
                AcquireOutcome::Acquired(index) => AcquireAction::Wait(index, Timeout::Infinite),
                AcquireOutcome::AcquireFailed => AcquireAction::Done,
                AcquireOutcome::Waited(index) => {
                    self.in_flight = Some(
                        InFlightFrame { frame_state: frame.frame_state, acquired: true },
                    );
                    if (index as u64) < image_count as u64 {
                        AcquireAction::Show(index as usize)
                    } else {
                        AcquireAction::ReportUnknownImage(index)
                    }
                },
                AcquireOutcome::WaitFailed => AcquireAction::Done,
            },
        }
    }
}

} // verus!
