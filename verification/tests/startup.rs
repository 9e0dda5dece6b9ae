use bevy_openxr_poc::init::{
    instance_report, unavailable_notice, view_report, vulkan_range_line, FormFactor, InitAction,
    InitOutcome, InitStep, Initialization, RequiredExtensions,
};
use bevy_openxr_poc::loader::{LoadAction, LoadOutcome, LoaderSearch, TargetOs};
use bevy_openxr_poc::plugin::{finish_step, FinishAction, FinishOutcome, XR_VIEW_HANDLE};
use bevy_openxr_poc::pose::Posef;
use bevy_openxr_poc::session::{
    bind_session, reference_space_step, require_vulkan, ReferenceSpaceType, SessionCreateInfo,
    SessionError, SpaceAction, SpaceOutcome, ViewConfigurationType, VulkanHandles,
    VIEW_CONFIGURATION,
};
use bevy_openxr_poc::swapchain::ViewConfigurationView;
use bevy_openxr_poc::text::{decimal_text, list_text};

fn eye(width: u32, height: u32) -> ViewConfigurationView {
    ViewConfigurationView {
        recommended_image_rect_width: width,
        max_image_rect_width: 2 * width,
        recommended_image_rect_height: height,
        max_image_rect_height: 2 * height,
        recommended_swapchain_sample_count: 1,
    }
}

#[test]
fn numbers_are_written_as_std_writes_them() {
    for n in [0u64, 7, 9, 10, 11, 42, 99, 100, 101, 1234567890, u32::MAX as u64, u64::MAX] {
        assert_eq!(decimal_text(n), format!("{n}"));
    }
    assert_eq!(list_text(&vec![]), format!("{:?}", Vec::<u32>::new()));
    assert_eq!(list_text(&vec![5]), "[5]");
    assert_eq!(list_text(&vec![43, 0, 1000054000]), "[43, 0, 1000054000]");
}

fn tried(action: LoadAction) -> String {
    match action {
        LoadAction::Try(name) => name,
        other => panic!("expected an attempt, got {other:?}"),
    }
}

#[test]
fn loader_is_searched_under_both_names() {
    let mut search = LoaderSearch::new(TargetOs::Other);
    assert_eq!(tried(search.step(LoadOutcome::Start)), "libopenxr_loader.so");
    assert_eq!(
        tried(search.step(LoadOutcome::Failed("no such file".to_string()))),
        "libopenxr_loader.so.1"
    );
    match search.step(LoadOutcome::Failed("not found".to_string())) {
        LoadAction::GiveUp(message) => assert_eq!(
            message,
            "could not load the OpenXR loader (tried libopenxr_loader.so: no such file; \
             libopenxr_loader.so.1: not found)"
        ),
        other => panic!("expected to give up, got {other:?}"),
    }
}

#[test]
fn search_ends_once_the_loader_is_loaded() {
    let mut search = LoaderSearch::new(TargetOs::Other);
    search.step(LoadOutcome::Start);
    search.step(LoadOutcome::Failed("no such file".to_string()));
    assert!(matches!(search.step(LoadOutcome::Loaded), LoadAction::Done));
}

#[test]
fn other_systems_have_one_name_each() {
    for (os, name) in [
        (TargetOs::Windows, "openxr_loader.dll"),
        (TargetOs::MacOs, "libopenxr_loader.dylib"),
    ] {
        let mut search = LoaderSearch::new(os);
        assert_eq!(tried(search.step(LoadOutcome::Start)), name);
        match search.step(LoadOutcome::Failed("x".to_string())) {
            LoadAction::GiveUp(message) => {
                assert_eq!(message, format!("could not load the OpenXR loader (tried {name}: x)"))
            }
            other => panic!("expected to give up, got {other:?}"),
        }
    }
}

#[test]
fn versions_are_printed_in_full() {
    let packed = |major: u64, minor: u64, patch: u64| major << 48 | minor << 32 | patch;
    assert_eq!(
        vulkan_range_line(packed(1, 0, 0), packed(1, 3, 281)),
        "[openxr] runtime supports Vulkan 1.0.0 to 1.3.281"
    );
    assert_eq!(
        vulkan_range_line(packed(65535, 65535, 4294967295), packed(0, 10, 7)),
        "[openxr] runtime supports Vulkan 65535.65535.4294967295 to 0.10.7"
    );
}

#[test]
fn stereo_configuration_is_reported() {
    assert_eq!(
        view_report(&vec![eye(896, 1007), eye(900, 1000)]),
        [
            "[openxr] primary stereo view configuration: 2 view(s)",
            "[openxr]   view 0: recommended 896x1007 (max 1792x2014), 1 sample(s)",
            "[openxr]   view 1: recommended 900x1000 (max 1800x2000), 1 sample(s)",
        ]
    );
}

#[test]
fn configuration_that_is_not_stereo_is_warned_of() {
    assert_eq!(
        view_report(&vec![eye(1, 2)]),
        [
            "[openxr] primary stereo view configuration: 1 view(s)",
            "[openxr]   view 0: recommended 1x2 (max 2x4), 1 sample(s)",
            "[openxr] WARNING: expected 2 views for PRIMARY_STEREO, got 1. \
             Multiview assumes one layer per eye.",
        ]
    );
    assert_eq!(view_report(&vec![]).len(), 2);
}

fn quiet(step: InitStep) -> InitAction {
    assert!(step.report.is_empty());
    step.action
}

#[test]
fn initialization_runs_through_its_calls() {
    let mut init = Initialization::new();
    assert!(matches!(quiet(init.step(InitOutcome::EntryLoaded)), InitAction::ListExtensions));
    match quiet(init.step(InitOutcome::ExtensionsListed(true))) {
        InitAction::CreateInstance(request) => {
            assert_eq!(request.application_name, "bevy_openxr_poc");
            assert_eq!(request.engine_name, "bevy");
            assert!(request.khr_vulkan_enable);
            assert!(!request.khr_vulkan_enable2);
            assert!(request.layers.is_empty());
        }
        other => panic!("expected to create an instance, got {other:?}"),
    }
    assert!(matches!(
        quiet(init.step(InitOutcome::InstanceCreated)),
        InitAction::FindSystem(FormFactor::HeadMountedDisplay)
    ));
    assert!(matches!(quiet(init.step(InitOutcome::SystemFound)), InitAction::QueryRequirements));
    let step = init.step(InitOutcome::RequirementsKnown(1 << 48, 2 << 48));
    assert_eq!(step.report, ["[openxr] runtime supports Vulkan 1.0.0 to 2.0.0"]);
    assert!(matches!(
        step.action,
        InitAction::ListViews(ViewConfigurationType::PrimaryStereo)
    ));
    assert_eq!(VIEW_CONFIGURATION, ViewConfigurationType::PrimaryStereo);
    let step = init.step(InitOutcome::ViewsListed(vec![eye(1, 2), eye(1, 2)]));
    assert_eq!(step.report.len(), 3);
    assert!(matches!(step.action, InitAction::ListInstanceExtensions));
    assert!(matches!(
        quiet(init.step(InitOutcome::InstanceExtensionsListed("a b".to_string()))),
        InitAction::ListDeviceExtensions
    ));
    assert_eq!(init.instance_extensions, ["a", "b"]);
    match quiet(init.step(InitOutcome::DeviceExtensionsListed(" c ".to_string()))) {
        InitAction::Ready(required) => {
            assert_eq!(required.instance, ["a", "b"]);
            assert_eq!(required.device, ["c"]);
        }
        other => panic!("expected to be ready, got {other:?}"),
    }
}

#[test]
fn runtime_without_vulkan_enable_is_unavailable() {
    match Initialization::new().step(InitOutcome::ExtensionsListed(false)).action {
        InitAction::Unavailable(why) => {
            assert_eq!(why, "runtime does not support XR_KHR_vulkan_enable")
        }
        other => panic!("expected a failure, got {other:?}"),
    }
}

#[test]
fn failed_call_makes_openxr_unavailable() {
    match Initialization::new().step(InitOutcome::Failed("form factor unavailable".to_string())).action {
        InitAction::Unavailable(why) => assert_eq!(why, "form factor unavailable"),
        other => panic!("expected a failure, got {other:?}"),
    }
}

#[test]
fn required_extensions_are_reported() {
    let required = RequiredExtensions {
        instance: vec!["VK_a".to_string(), "VK_b".to_string()],
        device: vec![],
    };
    assert_eq!(
        instance_report(&required),
        "[openxr] instance created\n\
         [openxr]   required instance extensions (2): VK_a, VK_b\n\
         [openxr]   required device extensions (0): (none)"
    );
}

#[test]
fn unavailability_is_reported() {
    assert_eq!(
        unavailable_notice("no runtime"),
        "[openxr] unavailable: no runtime\n\
         [openxr] continuing without XR; the app will run as an ordinary Bevy app."
    );
}

fn handles() -> VulkanHandles {
    VulkanHandles {
        instance: 0x1000,
        physical_device: 0x2000,
        device: 0x3000,
        queue_family_index: 4,
        queue_index: 5,
    }
}

#[test]
fn session_is_bound_to_the_mandated_device() {
    assert_eq!(require_vulkan(Some(handles())), Ok(handles()));
    assert_eq!(
        bind_session(handles(), 0x2000),
        Ok(SessionCreateInfo {
            instance: 0x1000,
            physical_device: 0x2000,
            device: 0x3000,
            queue_family_index: 4,
            queue_index: 5,
        })
    );
}

#[test]
fn other_adapter_is_refused() {
    assert_eq!(bind_session(handles(), 0x2001), Err(SessionError::WrongAdapter));
    assert_eq!(
        SessionError::WrongAdapter.message(),
        "Bevy selected a different GPU than the one the OpenXR runtime requires. \
         Set WGPU_ADAPTER_NAME (or WgpuSettings::adapter_name) to the headset's GPU."
    );
}

#[test]
fn other_backend_is_refused() {
    assert_eq!(require_vulkan(None), Err(SessionError::NotVulkan));
    assert_eq!(
        SessionError::NotVulkan.message(),
        "Bevy is not running on the Vulkan backend (try WGPU_BACKEND=vulkan)"
    );
}

#[test]
fn stage_is_preferred_to_local() {
    let stage = ReferenceSpaceType::Stage;
    let local = ReferenceSpaceType::Local;
    assert_eq!(reference_space_step(SpaceOutcome::Start), SpaceAction::Create(stage, Posef::identity()));
    assert_eq!(reference_space_step(SpaceOutcome::Created(stage)), SpaceAction::Use(stage));
    assert_eq!(reference_space_step(SpaceOutcome::Failed(stage)), SpaceAction::Create(local, Posef::identity()));
    assert_eq!(reference_space_step(SpaceOutcome::Created(local)), SpaceAction::Use(local));
    assert_eq!(reference_space_step(SpaceOutcome::Failed(local)), SpaceAction::GiveUp);
}

#[test]
fn setting_up_starts_with_what_initialization_left() {
    let start = |init_failed: bool, has_context: bool| {
        finish_step(FinishOutcome::Start { init_failed, has_context })
    };
    assert_eq!(start(true, false), FinishAction::ReportUnavailable);
    assert_eq!(start(true, true), FinishAction::ReportUnavailable);
    assert_eq!(start(false, false), FinishAction::ReportNotInitialized);
    assert_eq!(start(false, true), FinishAction::CreateSession);
}

#[test]
fn session_is_kept_without_swapchain_or_space() {
    assert_eq!(finish_step(FinishOutcome::SessionFailed), FinishAction::GiveUp);
    assert_eq!(finish_step(FinishOutcome::SessionCreated), FinishAction::CreateSwapchain);
    assert_eq!(finish_step(FinishOutcome::SwapchainFailed), FinishAction::SkipSwapchain);
    assert_eq!(finish_step(FinishOutcome::SpaceFailed), FinishAction::KeepSession);
    assert_eq!(finish_step(FinishOutcome::SpaceCreated), FinishAction::KeepSpaceAndSession);
}

#[test]
fn first_image_is_shown_until_one_is_acquired() {
    assert_eq!(
        finish_step(FinishOutcome::SwapchainWrapped(3)),
        FinishAction::KeepSwapchain { seed: Some(0) }
    );
    assert_eq!(
        finish_step(FinishOutcome::SwapchainWrapped(0)),
        FinishAction::KeepSwapchain { seed: None }
    );
    assert_eq!(XR_VIEW_HANDLE, 0x5852);
}
