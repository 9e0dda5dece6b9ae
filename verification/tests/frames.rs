use bevy_openxr_poc::fov::Fovf;
use bevy_openxr_poc::frame_loop::{
    AcquireAction, AcquireOutcome, AppExit, BeginAction, BeginOutcome, EnvironmentBlendMode, FrameState,
    FrameSubmission, InFlightFrame, PollAction, PollOutcome, Rect2Di, SubmitAction, SubmitOutcome,
    Timeout, XrEvent, XrFrameLoop,
};
use bevy_openxr_poc::pose::{Posef, Quaternionf, Vector3f};
use bevy_openxr_poc::scalar::Scalar;
use bevy_openxr_poc::scene::eye_transforms;
use bevy_openxr_poc::session::ViewConfigurationType;
use bevy_openxr_poc::session_state::SessionState;
use bevy_openxr_poc::swapchain::{
    choose_format, plan_swapchain, stereo_layout, OpenXrSwapchain, StereoLayout, SwapchainError,
    SwapchainFormat, TextureDimension, TextureFormat, TextureViewDimension, UVec2,
    ViewConfigurationView,
};

fn fov() -> Fovf<Scalar> {
    let bits = |x: f32| Scalar::from_bits(x.to_bits());
    Fovf { angle_left: bits(-0.5), angle_right: bits(0.5), angle_up: bits(0.25), angle_down: bits(-0.25) }
}

fn swapchain(width: u32, height: u32, view_count: u32) -> OpenXrSwapchain {
    OpenXrSwapchain {
        views: vec![],
        resolution: UVec2 { x: width, y: height },
        view_count,
        format: TextureFormat::Rgba8UnormSrgb,
    }
}

fn changed(state: SessionState) -> PollOutcome {
    PollOutcome::Event(XrEvent::SessionStateChanged(state))
}

fn frame(time: i64, should_render: bool) -> FrameState {
    FrameState { predicted_display_time: time, should_render }
}

fn running() -> XrFrameLoop {
    XrFrameLoop { state: SessionState::Focused, running: true, in_flight: None }
}

#[test]
fn loop_starts_with_nothing() {
    let l = XrFrameLoop::default();
    assert_eq!(l.state, SessionState::Unknown);
    assert!(!l.running);
    assert!(l.in_flight.is_none());
}

#[test]
fn session_states_are_read_off_their_numbers() {
    let named = [
        (openxr::SessionState::UNKNOWN, SessionState::Unknown),
        (openxr::SessionState::IDLE, SessionState::Idle),
        (openxr::SessionState::READY, SessionState::Ready),
        (openxr::SessionState::SYNCHRONIZED, SessionState::Synchronized),
        (openxr::SessionState::VISIBLE, SessionState::Visible),
        (openxr::SessionState::FOCUSED, SessionState::Focused),
        (openxr::SessionState::STOPPING, SessionState::Stopping),
        (openxr::SessionState::LOSS_PENDING, SessionState::LossPending),
        (openxr::SessionState::EXITING, SessionState::Exiting),
    ];
    for (i, (theirs, ours)) in named.into_iter().enumerate() {
        assert_eq!(theirs.into_raw(), i as i32);
        assert_eq!(SessionState::from_raw(theirs.into_raw()), ours);
    }
    assert_eq!(SessionState::from_raw(9), SessionState::Other(9));
    assert_eq!(SessionState::from_raw(-1), SessionState::Other(-1));
}

#[test]
fn session_runs_once_begun() {
    let mut l = XrFrameLoop::default();
    assert_eq!(l.poll_events(changed(SessionState::Idle)), PollAction::Poll);
    assert_eq!(l.poll_events(changed(SessionState::Ready)), PollAction::BeginSession(ViewConfigurationType::PrimaryStereo));
    assert!(!l.running);
    assert_eq!(l.poll_events(PollOutcome::SessionBegun(true)), PollAction::Poll);
    assert!(l.running);
    assert_eq!(l.state, SessionState::Ready);
    assert_eq!(l.poll_events(changed(SessionState::Focused)), PollAction::Poll);
    assert!(l.running);
    assert_eq!(l.poll_events(PollOutcome::Empty), PollAction::Stop);
}

#[test]
fn session_that_cannot_be_begun_does_not_run() {
    let mut l = XrFrameLoop::default();
    l.poll_events(changed(SessionState::Ready));
    assert_eq!(l.poll_events(PollOutcome::SessionBegun(false)), PollAction::Poll);
    assert!(!l.running);
    assert_eq!(l.begin_frame(BeginOutcome::Start), BeginAction::Done);
}

#[test]
fn session_stops_when_told() {
    for (state, action) in [
        (SessionState::Stopping, PollAction::EndSession),
        (SessionState::Exiting, PollAction::RequestExit(AppExit::Success)),
        (SessionState::LossPending, PollAction::RequestExit(AppExit::Success)),
    ] {
        let mut l = running();
        assert_eq!(l.poll_events(changed(state)), action);
        assert!(!l.running);
        assert_eq!(l.state, state);
    }
    let mut l = running();
    assert_eq!(l.poll_events(PollOutcome::SessionEnded(false)), PollAction::Poll);
    assert_eq!(l.poll_events(PollOutcome::ExitRequested), PollAction::Poll);
}

#[test]
fn losing_the_instance_asks_for_exit_only() {
    let mut l = running();
    assert_eq!(
        l.poll_events(PollOutcome::Event(XrEvent::InstanceLossPending)),
        PollAction::RequestExit(AppExit::Success)
    );
    assert_eq!(l, running());
}

#[test]
fn other_events_change_nothing() {
    let mut l = running();
    assert_eq!(l.poll_events(PollOutcome::Event(XrEvent::EventsLost(3))), PollAction::Poll);
    assert_eq!(l.poll_events(PollOutcome::Event(XrEvent::Other)), PollAction::Poll);
    assert_eq!(l.poll_events(PollOutcome::Failed), PollAction::Stop);
    assert_eq!(l, running());
}

#[test]
fn frame_is_waited_for_and_begun() {
    let mut l = running();
    assert_eq!(l.begin_frame(BeginOutcome::Start), BeginAction::Wait);
    let f = frame(17, true);
    assert_eq!(l.begin_frame(BeginOutcome::Waited(f)), BeginAction::Begin(f));
    assert!(l.in_flight.is_none());
    assert_eq!(l.begin_frame(BeginOutcome::Begun(f)), BeginAction::Done);
    assert_eq!(l.in_flight, Some(InFlightFrame { frame_state: f, acquired: false }));
}

#[test]
fn failed_wait_or_begin_leaves_nothing_in_flight() {
    let mut l = running();
    assert_eq!(l.begin_frame(BeginOutcome::WaitFailed), BeginAction::Done);
    assert_eq!(l.begin_frame(BeginOutcome::BeginFailed), BeginAction::Done);
    assert_eq!(l, running());
}

fn begun(should_render: bool) -> XrFrameLoop {
    let mut l = running();
    l.begin_frame(BeginOutcome::Begun(frame(17, should_render)));
    l
}

#[test]
fn image_is_acquired_waited_for_and_shown() {
    let mut l = begun(true);
    assert_eq!(l.acquire_image(AcquireOutcome::Start, 3), AcquireAction::Acquire);
    assert_eq!(l.acquire_image(AcquireOutcome::Acquired(2), 3), AcquireAction::Wait(2, Timeout::Infinite));
    assert!(!l.in_flight.unwrap().acquired);
    assert_eq!(l.acquire_image(AcquireOutcome::Waited(2), 3), AcquireAction::Show(2));
    assert!(l.in_flight.unwrap().acquired);
}

#[test]
fn image_that_was_never_wrapped_is_reported_but_held() {
    let mut l = begun(true);
    assert_eq!(
        l.acquire_image(AcquireOutcome::Waited(3), 3),
        AcquireAction::ReportUnknownImage(3)
    );
    assert!(l.in_flight.unwrap().acquired);
}

#[test]
fn no_image_is_acquired_in_vain() {
    let mut l = begun(false);
    assert_eq!(l.acquire_image(AcquireOutcome::Start, 3), AcquireAction::Done);
    let mut l = running();
    assert_eq!(l.acquire_image(AcquireOutcome::Start, 3), AcquireAction::Done);
    assert_eq!(l.acquire_image(AcquireOutcome::Waited(0), 3), AcquireAction::Done);
    assert_eq!(l, running());
}

#[test]
fn failed_acquire_or_wait_holds_no_image() {
    let mut l = begun(true);
    assert_eq!(l.acquire_image(AcquireOutcome::AcquireFailed, 3), AcquireAction::Done);
    assert_eq!(l.acquire_image(AcquireOutcome::WaitFailed, 3), AcquireAction::Done);
    assert_eq!(l, begun(true));
}

/// A loop that holds an image.
fn held() -> XrFrameLoop {
    let mut l = begun(true);
    l.acquire_image(AcquireOutcome::Waited(0), 3);
    l
}

/// Submits the frame in flight: whether its image is released first, and what it
/// is ended with.
fn submitted(
    l: &mut XrFrameLoop,
    swapchain: Option<&OpenXrSwapchain>,
    has_space: bool,
) -> (bool, FrameSubmission) {
    match l.submit_frame(SubmitOutcome::Start, swapchain, has_space, fov()) {
        SubmitAction::End(s) => (false, s),
        SubmitAction::Release => {
            match l.submit_frame(SubmitOutcome::Released(true), swapchain, has_space, fov()) {
                SubmitAction::End(s) => (true, s),
                other => panic!("expected the end, got {other:?}"),
            }
        }
        SubmitAction::Done => panic!("expected a submission"),
    }
}

#[test]
fn frame_is_submitted_with_one_view_per_eye() {
    let mut l = held();
    let stereo = swapchain(896, 1007, 2);
    let (released, s) = submitted(&mut l, Some(&stereo), true);
    assert!(l.in_flight.is_none());
    assert!(l.running);
    assert!(released);
    assert!(s.has_layer());
    assert_eq!(s.display_time, 17);
    assert_eq!(s.blend_mode, EnvironmentBlendMode::Opaque);
    assert_eq!(s.views.len(), 2);
    for (i, view) in s.views.iter().enumerate() {
        assert_eq!(view.image_array_index, i as u32);
        assert_eq!(view.pose, Posef::identity());
        assert_eq!(view.fov, fov());
        assert_eq!(view.image_rect, Rect2Di { x: 0, y: 0, width: 896, height: 1007 });
    }
    for outcome in [SubmitOutcome::Ended(true), SubmitOutcome::Ended(false), SubmitOutcome::Start] {
        assert!(matches!(
            l.submit_frame(outcome, Some(&stereo), true, fov()),
            SubmitAction::Done
        ));
    }
}

#[test]
fn failed_release_does_not_keep_the_frame_from_ending() {
    let stereo = swapchain(8, 8, 2);
    for ok in [true, false] {
        let mut l = held();
        assert!(matches!(
            l.submit_frame(SubmitOutcome::Start, Some(&stereo), true, fov()),
            SubmitAction::Release
        ));
        assert!(l.in_flight.is_some());
        match l.submit_frame(SubmitOutcome::Released(ok), Some(&stereo), true, fov()) {
            SubmitAction::End(s) => {
                assert_eq!(s.display_time, 17);
                assert_eq!(s.views.len(), 2);
            }
            other => panic!("expected the end, got {other:?}"),
        }
        assert!(l.in_flight.is_none());
    }
}

#[test]
fn frame_without_an_image_is_ended_bare() {
    let mut l = begun(false);
    let (released, s) = submitted(&mut l, Some(&swapchain(8, 8, 2)), true);
    assert!(!released);
    assert!(!s.has_layer());
    assert_eq!(s.display_time, 17);
}

#[test]
fn frame_without_space_or_swapchain_has_no_layer() {
    let (released, s) = submitted(&mut held(), Some(&swapchain(8, 8, 2)), false);
    assert!(released);
    assert!(!s.has_layer());
    let (released, s) = submitted(&mut held(), None, true);
    assert!(!released);
    assert!(!s.has_layer());
    let (released, s) = submitted(&mut held(), Some(&swapchain(8, 8, 0)), true);
    assert!(released);
    assert!(!s.has_layer());
}

#[test]
fn sizes_wrap_as_a_cast_does() {
    for n in [0u32, 1, 0x7fff_ffff, 0x8000_0000, 0xffff_ffff] {
        let (_, s) = submitted(&mut held(), Some(&swapchain(n, n, 1)), true);
        assert_eq!(s.views[0].image_rect.width, n as i32);
        assert_eq!(s.views[0].image_rect.height, n as i32);
    }
}

#[test]
fn nothing_is_called_before_the_session_is_ready() {
    let mut l = XrFrameLoop::default();
    assert!(matches!(
        l.submit_frame(SubmitOutcome::Start, None, false, fov()),
        SubmitAction::Done
    ));
    l.poll_events(changed(SessionState::Idle));
    assert_eq!(l.begin_frame(BeginOutcome::Start), BeginAction::Done);
    assert_eq!(l.acquire_image(AcquireOutcome::Start, 3), AcquireAction::Done);
}

#[test]
fn frame_begun_before_the_session_stops_is_still_ended() {
    let mut l = begun(true);
    let (_, ended) = submitted(&mut l, None, false);
    l.poll_events(changed(SessionState::Stopping));
    assert_eq!(l.begin_frame(BeginOutcome::Start), BeginAction::Done);
    assert_eq!(ended.display_time, 17);
    assert!(l.in_flight.is_none());
}

#[test]
fn state_is_the_one_reported_last() {
    let mut l = XrFrameLoop::default();
    l.poll_events(changed(SessionState::Idle));
    l.poll_events(changed(SessionState::Visible));
    l.poll_events(PollOutcome::Event(XrEvent::EventsLost(3)));
    l.poll_events(PollOutcome::Empty);
    assert_eq!(l.state, SessionState::Visible);
}

fn eye(width: u32, height: u32) -> ViewConfigurationView {
    ViewConfigurationView {
        recommended_image_rect_width: width,
        max_image_rect_width: 4096,
        recommended_image_rect_height: height,
        max_image_rect_height: 4096,
        recommended_swapchain_sample_count: 4,
    }
}

#[test]
fn layout_follows_the_first_view() {
    let layout = stereo_layout(&[eye(896, 1007), eye(1, 1)]).unwrap();
    assert_eq!(layout, StereoLayout { resolution: UVec2 { x: 896, y: 1007 }, view_count: 2 });
}

#[test]
fn configuration_without_views_is_refused() {
    let e = stereo_layout(&[]).unwrap_err();
    assert!(matches!(e, SwapchainError::NoStereoViews));
    assert_eq!(e.message(), "runtime reported no stereo views");
}

#[test]
fn srgb_formats_are_preferred() {
    let chosen = |formats: &[u32]| choose_format(&formats.to_vec()).unwrap();
    assert_eq!(
        chosen(&[44, 37, 50, 43]),
        SwapchainFormat { vk: 43, format: TextureFormat::Rgba8UnormSrgb }
    );
    assert_eq!(
        chosen(&[37, 44, 50]),
        SwapchainFormat { vk: 50, format: TextureFormat::Bgra8UnormSrgb }
    );
    assert_eq!(
        chosen(&[97, 44, 37]),
        SwapchainFormat { vk: 37, format: TextureFormat::Rgba8Unorm }
    );
    assert_eq!(chosen(&[44]), SwapchainFormat { vk: 44, format: TextureFormat::Bgra8Unorm });
}

#[test]
fn order_of_the_formats_does_not_matter() {
    let a = choose_format(&vec![50, 37, 44, 9]).unwrap();
    let b = choose_format(&vec![44, 8, 37, 50, 50]).unwrap();
    assert_eq!(a, b);
}

#[test]
fn unusable_formats_are_listed() {
    let e = choose_format(&vec![97, 1000054000]).unwrap_err();
    assert_eq!(
        e.message(),
        "no usable swapchain format; runtime offers [97, 1000054000], \
         none of which map to a wgpu format we handle"
    );
    let layout = StereoLayout { resolution: UVec2 { x: 1, y: 1 }, view_count: 2 };
    match plan_swapchain(layout, &vec![]) {
        Err(SwapchainError::NoUsableFormat(formats)) => assert!(formats.is_empty()),
        other => panic!("expected no format, got {other:?}"),
    }
}

#[test]
fn images_are_described_as_requested() {
    let layout = stereo_layout(&[eye(896, 1007), eye(896, 1007)]).unwrap();
    let plan = plan_swapchain(layout, &vec![50, 44]).unwrap();
    let info = plan.create_info();
    assert!(info.color_attachment && info.sampled);
    assert!(!info.protected_content && !info.static_image);
    assert_eq!((info.format, info.width, info.height), (50, 896, 1007));
    assert_eq!(
        (info.array_size, info.sample_count, info.face_count, info.mip_count),
        (2, 1, 1, 1)
    );
    let texture = plan.texture_descriptor();
    assert_eq!(texture.format, TextureFormat::Bgra8UnormSrgb);
    assert_eq!((texture.width, texture.height), (info.width, info.height));
    assert_eq!(texture.depth_or_array_layers, info.array_size);
    assert_eq!((texture.mip_level_count, texture.sample_count), (1, 1));
    assert!(texture.render_attachment && texture.texture_binding);
    assert_eq!(texture.dimension, TextureDimension::D2);
    assert_eq!(texture.view_dimension, TextureViewDimension::D2Array);
}

#[test]
fn images_are_wrapped_in_order() {
    let layout = stereo_layout(&[eye(10, 20), eye(10, 20)]).unwrap();
    let plan = plan_swapchain(layout, &vec![43]).unwrap();
    let wrapped = plan.wrap_images(&vec![7, 5, 9], true).unwrap();
    assert_eq!(wrapped.resolution, UVec2 { x: 10, y: 20 });
    assert_eq!(wrapped.view_count, 2);
    assert_eq!(wrapped.format, TextureFormat::Rgba8UnormSrgb);
    let images: Vec<u64> = wrapped.views.iter().map(|v| v.image).collect();
    assert_eq!(images, [7, 5, 9]);
    for view in &wrapped.views {
        assert_eq!(view.size, UVec2 { x: 10, y: 20 });
        assert_eq!(view.view_format, TextureFormat::Rgba8UnormSrgb);
    }
}

#[test]
fn images_are_wrapped_only_on_vulkan() {
    let layout = StereoLayout { resolution: UVec2 { x: 1, y: 1 }, view_count: 2 };
    let plan = plan_swapchain(layout, &vec![43]).unwrap();
    let e = plan.wrap_images(&vec![1], false).unwrap_err();
    assert!(matches!(e, SwapchainError::NotVulkan));
    assert_eq!(e.message(), "not running on the Vulkan backend");
    assert!(plan.wrap_images(&vec![], false).unwrap().views.is_empty());
}

#[test]
fn left_eye_comes_first() {
    let bits = |x: f32| Scalar::from_bits(x.to_bits());
    let eyes = eye_transforms(3);
    assert_eq!(eyes.len(), 3);
    for (eye, x) in eyes.iter().zip([-0.032f32, 0.032, 0.032]) {
        assert_eq!(eye.translation, Vector3f { x: bits(x), y: bits(0.0), z: bits(0.0) });
        assert_eq!(
            eye.rotation,
            Quaternionf { x: bits(0.0), y: bits(0.0), z: bits(0.0), w: bits(1.0) }
        );
        assert_eq!(eye.scale, Vector3f { x: bits(1.0), y: bits(1.0), z: bits(1.0) });
    }
    assert!(eye_transforms(0).is_empty());
}
