//! Binding a session to the renderer's Vulkan device, and the space it is placed
//! in.

use vstd::prelude::*;
use vstd::string::*;

use crate::pose::Posef;

verus! {

use crate::pose::identity_pose;

/// How many views a session is begun with, and what they are for.
#[derive(Clone, Copy, Debug, PartialEq, Eq, Structural)]
pub enum ViewConfigurationType {
    /// One view.
    PrimaryMono,
    /// One view per eye.
    PrimaryStereo,
}

/// The configuration whose views are listed, that the swapchain is laid out for,
/// and that the session is begun with.
pub const VIEW_CONFIGURATION: ViewConfigurationType = ViewConfigurationType::PrimaryStereo;

/// The raw handles of the renderer's device.
#[derive(Clone, Copy, Debug, PartialEq, Eq, Structural)]
pub struct VulkanHandles {
    pub instance: u64,
    pub physical_device: u64,
    pub device: u64,
    pub queue_family_index: u32,
    pub queue_index: u32,
}

/// What a session is created with. Handles are addresses.
#[derive(Clone, Copy, Debug, PartialEq, Eq, Structural)]
pub struct SessionCreateInfo {
    pub instance: usize,
    pub physical_device: usize,
    pub device: usize,
    pub queue_family_index: u32,
    pub queue_index: u32,
}

/// Why no session can be created.
#[derive(Clone, Copy, Debug, PartialEq, Eq, Structural)]
pub enum SessionError {
    /// The renderer's device is not a Vulkan one.
    NotVulkan,
    /// The renderer chose another adapter than the runtime mandates.
    WrongAdapter,
}

impl SessionError {
    /// The characters of the message.
    pub open spec fn text(self) -> Seq<char> {
        match self {
            SessionError::NotVulkan =>
                "Bevy is not running on the Vulkan backend (try WGPU_BACKEND=vulkan)"@,
            SessionError::WrongAdapter =>
                "Bevy selected a different GPU than the one the OpenXR runtime requires. Set WGPU_ADAPTER_NAME (or WgpuSettings::adapter_name) to the headset's GPU."@,
        }
    }

    /// Says what is wrong, and how to mend it.
    pub fn message(&self) -> (message: String)
        ensures
            message@ == self.text(),
    {
        match self {
            SessionError::NotVulkan =>
                "Bevy is not running on the Vulkan backend (try WGPU_BACKEND=vulkan)".to_owned(),
            SessionError::WrongAdapter =>
                "Bevy selected a different GPU than the one the OpenXR runtime requires. Set WGPU_ADAPTER_NAME (or WgpuSettings::adapter_name) to the headset's GPU.".to_owned(),
        }
    }
}

/// The session of these handles.
pub open spec fn binding(handles: VulkanHandles) -> SessionCreateInfo {
    SessionCreateInfo {
        instance: handles.instance as usize,
        physical_device: handles.physical_device as usize,
        device: handles.device as usize,
        queue_family_index: handles.queue_family_index,
        queue_index: handles.queue_index,
    }
}

/// The handles of the renderer's device, which has them if it is a Vulkan one.
pub fn require_vulkan(handles: Option<VulkanHandles>) -> (r: Result<VulkanHandles, SessionError>)
    ensures
        handles matches Some(h) ==> r == Ok::<VulkanHandles, SessionError>(h),
        handles is None ==> r == Err::<VulkanHandles, SessionError>(SessionError::NotVulkan),
{
    match handles {
        Some(h) => Ok(h),
        None => Err(SessionError::NotVulkan),
    }
}

/// Binds a session to the renderer's device.
///
/// The runtime mandates the physical device, whose address is `required`; the
/// renderer chose one independently. They agree on a machine with a single GPU,
/// but must be checked.
pub fn bind_session(handles: VulkanHandles, required: usize) -> (r: Result<
    SessionCreateInfo,
    SessionError,
>)
    ensures
        handles.physical_device as usize == required ==> r == Ok::<SessionCreateInfo, SessionError>(
            binding(handles),
        ),
        handles.physical_device as usize != required ==> r == Err::<
            SessionCreateInfo,
            SessionError,
        >(SessionError::WrongAdapter),
{
    if handles.physical_device as usize != required {
        return Err(SessionError::WrongAdapter);
    }
    Ok(
        SessionCreateInfo {
            instance: handles.instance as usize,
            physical_device: handles.physical_device as usize,
            device: handles.device as usize,
            queue_family_index: handles.queue_family_index,
            queue_index: handles.queue_index,
        },
    )
}

/// The reference spaces that a layer's poses can be relative to.
#[derive(Clone, Copy, Debug, PartialEq, Eq, Structural)]
pub enum ReferenceSpaceType {
    /// Floor-level room scale.
    Stage,
    /// Centred on wherever the headset was at startup. Every runtime supports it.
    Local,
}

/// What came of creating a reference space.
#[derive(Clone, Copy, Debug, PartialEq, Eq, Structural)]
pub enum SpaceOutcome {
    /// Nothing was tried yet.
    Start,
    Created(ReferenceSpaceType),
    Failed(ReferenceSpaceType),
}

/// What to do next to get a reference space.
#[derive(Clone, Copy, Debug, PartialEq, Eq, Structural)]
pub enum SpaceAction {
    /// Create a space of this type, with its origin at this pose.
    Create(ReferenceSpaceType, Posef),
    /// Use the space that was created.
    Use(ReferenceSpaceType),
    /// There is none to be had; report the failure.
    GiveUp,
}

/// What to do after an attempt: the stage is preferred, because it puts the
/// origin on the floor, and the local space is the fallback. Either is created
/// with the identity pose.
pub open spec fn space_action(outcome: SpaceOutcome) -> SpaceAction {
    match outcome {
        SpaceOutcome::Start => SpaceAction::Create(ReferenceSpaceType::Stage, identity_pose()),
        SpaceOutcome::Created(kind) => SpaceAction::Use(kind),
        SpaceOutcome::Failed(ReferenceSpaceType::Stage) => SpaceAction::Create(
            ReferenceSpaceType::Local,
            identity_pose(),
        ),
        SpaceOutcome::Failed(ReferenceSpaceType::Local) => SpaceAction::GiveUp,
    }
}

/// Says what to do after an attempt to create a reference space.
pub fn reference_space_step(outcome: SpaceOutcome) -> (action: SpaceAction)
    ensures
        action == space_action(outcome),
{
    match outcome {
        SpaceOutcome::Start => SpaceAction::Create(ReferenceSpaceType::Stage, Posef::identity()),
        SpaceOutcome::Created(kind) => SpaceAction::Use(kind),
        SpaceOutcome::Failed(kind) => match kind {
            ReferenceSpaceType::Stage => SpaceAction::Create(
                ReferenceSpaceType::Local,
                Posef::identity(),
            ),
            ReferenceSpaceType::Local => SpaceAction::GiveUp,
        },
    }
}

/// The outcome of creating a space of some type, given whether it can be had.
pub open spec fn tried(kind: ReferenceSpaceType, available: bool) -> SpaceOutcome {
    if available {
        SpaceOutcome::Created(kind)
    } else {
        SpaceOutcome::Failed(kind)
    }
}

/// What the search for a space ends with, given which spaces the runtime offers.
pub open spec fn space_found(stage: bool, local: bool) -> SpaceAction {
    match space_action(SpaceOutcome::Start) {
        SpaceAction::Create(first, _) => match space_action(tried(first, stage)) {
            SpaceAction::Create(second, _) => space_action(tried(second, local)),
            ended => ended,
        },
        ended => ended,
    }
}

/// The stage is used wherever the runtime offers it, the local space otherwise,
/// and nothing is given up while either is offered.
pub proof fn stage_is_preferred_and_local_is_the_fallback(stage: bool, local: bool)
    ensures
        stage ==> space_found(stage, local) == SpaceAction::Use(ReferenceSpaceType::Stage),
        !stage && local ==> space_found(stage, local) == SpaceAction::Use(
            ReferenceSpaceType::Local,
        ),
        !stage && !local ==> space_found(stage, local) == SpaceAction::GiveUp,
{
}

} // verus!
