//! What happens once the renderer exists: a session is created, the swapchain is
//! wrapped, and a reference space is found.

use vstd::prelude::*;

verus! {

/// The number of the render target that the XR camera draws through.
///
/// Constant for the life of the app. The view behind it is swapped every frame,
/// because the runtime hands out a different image each time.
pub const XR_VIEW_HANDLE: u32 = 0x5852;

/// What a step of setting OpenXR up came to.
#[derive(Clone, Copy, Debug, PartialEq, Eq, Structural)]
pub enum FinishOutcome {
    /// Nothing was done yet.
    Start {
        /// Whether initialization failed and left word of it.
        init_failed: bool,
        /// Whether there is an instance.
        has_context: bool,
    },
    /// The session is created.
    SessionCreated,
    /// The session could not be created.
    SessionFailed,
    /// The swapchain is created and this many images are wrapped.
    SwapchainWrapped(usize),
    /// The swapchain could not be created or wrapped.
    SwapchainFailed,
    /// A reference space is created.
    SpaceCreated,
    /// No reference space could be created.
    SpaceFailed,
}

/// What to do next to set OpenXR up.
#[derive(Clone, Copy, Debug, PartialEq, Eq, Structural)]
pub enum FinishAction {
    /// Report again why initialization failed, now that there is a log. Nothing
    /// else is done.
    ReportUnavailable,
    /// Report that initialization never ran. Nothing else is done.
    ReportNotInitialized,
    /// Create a session.
    CreateSession,
    /// Report that there is no session. Nothing else is done.
    GiveUp,
    /// Create the swapchain and wrap its images.
    CreateSwapchain,
    /// Keep the swapchain, show the image of the index in `seed` first, and
    /// create a reference space.
    KeepSwapchain {
        seed: Option<usize>,
    },
    /// Report that there is no swapchain, and create a reference space.
    SkipSwapchain,
    /// Keep the reference space and the session.
    KeepSpaceAndSession,
    /// Report that there is no reference space, and keep the session.
    KeepSession,
}

/// What to do after an outcome.
pub open spec fn finish_action(outcome: FinishOutcome) -> FinishAction {
    match outcome {
        FinishOutcome::Start { init_failed, has_context } => if init_failed {
            FinishAction::ReportUnavailable
        } else if !has_context {
            FinishAction::ReportNotInitialized
        } else {
            FinishAction::CreateSession
        },
        FinishOutcome::SessionCreated => FinishAction::CreateSwapchain,
        FinishOutcome::SessionFailed => FinishAction::GiveUp,
        FinishOutcome::SwapchainWrapped(images) => FinishAction::KeepSwapchain {
            seed: if images > 0 {
                Some(0)
            } else {
                None
            },
        },
        FinishOutcome::SwapchainFailed => FinishAction::SkipSwapchain,
        FinishOutcome::SpaceCreated => FinishAction::KeepSpaceAndSession,
        FinishOutcome::SpaceFailed => FinishAction::KeepSession,
    }
}

/// Says what to do after a step of setting OpenXR up.
///
/// The first image is shown so that a camera has something valid to resolve
/// before the first acquire. Which image it is does not matter; it is replaced
/// every frame.
pub fn finish_step(outcome: FinishOutcome) -> (action: FinishAction)
    ensures
        action == finish_action(outcome),
{
    match outcome {
        FinishOutcome::Start { init_failed, has_context } => {
            if init_failed {
                FinishAction::ReportUnavailable
            } else if !has_context {
                FinishAction::ReportNotInitialized
            } else {
                FinishAction::CreateSession
            }
        },
        FinishOutcome::SessionCreated => FinishAction::CreateSwapchain,
        FinishOutcome::SessionFailed => FinishAction::GiveUp,
        FinishOutcome::SwapchainWrapped(images) => {
            if images > 0 {
                FinishAction::KeepSwapchain { seed: Some(0) }
            } else {
                FinishAction::KeepSwapchain { seed: None }
            }
        },
        FinishOutcome::SwapchainFailed => FinishAction::SkipSwapchain,
        FinishOutcome::SpaceCreated => FinishAction::KeepSpaceAndSession,
        FinishOutcome::SpaceFailed => FinishAction::KeepSession,
    }
}

/// What the calls come to, where they are made.
pub struct Calls {
    pub session: bool,
    /// How many images were wrapped, if the swapchain came about.
    pub swapchain: Option<usize>,
    pub space: bool,
}

/// The actions taken from the start to the end.
pub open spec fn finish_actions(init_failed: bool, has_context: bool, calls: Calls) -> Seq<
    FinishAction,
> {
    let first = finish_action(FinishOutcome::Start { init_failed, has_context });
    if first is CreateSession {
        let second = finish_action(
            if calls.session {
                FinishOutcome::SessionCreated
            } else {
                FinishOutcome::SessionFailed
            },
        );
        if second is CreateSwapchain {
            let third = finish_action(
                match calls.swapchain {
                    Some(images) => FinishOutcome::SwapchainWrapped(images),
                    None => FinishOutcome::SwapchainFailed,
                },
            );
            let fourth = finish_action(
                if calls.space {
                    FinishOutcome::SpaceCreated
                } else {
                    FinishOutcome::SpaceFailed
                },
            );
            seq![first, second, third, fourth]
        } else {
            seq![first, second]
        }
    } else {
        seq![first]
    }
}

/// Whether the session is kept.
pub open spec fn keeps_session(actions: Seq<FinishAction>) -> bool {
    actions.contains(FinishAction::KeepSession) || actions.contains(
        FinishAction::KeepSpaceAndSession,
    )
}

/// Whether a swapchain is kept.
pub open spec fn keeps_swapchain(actions: Seq<FinishAction>) -> bool {
    exists|i: int| 0 <= i < actions.len() && (#[trigger] actions[i]) is KeepSwapchain
}

/// Whether a reference space is kept.
pub open spec fn keeps_space(actions: Seq<FinishAction>) -> bool {
    actions.contains(FinishAction::KeepSpaceAndSession)
}

/// A session is kept exactly if OpenXR was initialized and the session could be
/// created, whatever comes of the swapchain and the reference space. Those are
/// kept only along with a session, and each exactly if it came about.
pub proof fn session_outlives_swapchain_and_space(
    init_failed: bool,
    has_context: bool,
    calls: Calls,
)
    ensures
        ({
            let actions = finish_actions(init_failed, has_context, calls);
            let session = !init_failed && has_context && calls.session;
            &&& keeps_session(actions) == session
            &&& keeps_swapchain(actions) == (session && calls.swapchain is Some)
            &&& keeps_space(actions) == (session && calls.space)
        }),
{
    let actions = finish_actions(init_failed, has_context, calls);
    if !init_failed && has_context && calls.session {
        assert(actions[2] is KeepSwapchain == calls.swapchain is Some);
        assert(actions[3] == if calls.space {
            FinishAction::KeepSpaceAndSession
        } else {
            FinishAction::KeepSession
        });
    }
}

} // verus!
