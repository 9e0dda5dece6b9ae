//! What each call on the way to a running session gives, for every input.
//!
//! As for the frame loop, the laws speak of the calls themselves.

use vstd::prelude::*;

use crate::extensions::{format_extensions, parse_extension_list};
use crate::init::{
    instance_report, unavailable_notice, view_report, vulkan_range_line, FormFactor, InitAction,
    InitOutcome, InitStep, Initialization, RequiredExtensions,
};
use crate::loader::{LoadAction, LoadOutcome, LoaderSearch, TargetOs};
use crate::plugin::{finish_step, FinishAction, FinishOutcome};
use crate::session::{
    bind_session, reference_space_step, require_vulkan, ReferenceSpaceType, SessionCreateInfo,
    SessionError, SpaceAction, SpaceOutcome, ViewConfigurationType, VulkanHandles,
};
use crate::swapchain::ViewConfigurationView;

verus! {

use crate::text::{decimal, joined, joining_separates_neighbours, texts};

/// A new search has failed at nothing yet.
pub proof fn new_search_has_no_failures(os: TargetOs, search: LoaderSearch)
    requires
        call_ensures(LoaderSearch::new, (os,), search),
    ensures
        search.os == os,
        search.failures@.len() == 0,
{
}

/// A search tries the name after as many as have failed, and gives up when there
/// is none left: there is one name on Windows and on macOS, and there are two
/// elsewhere. It is over once the loader is loaded.
pub proof fn search_tries_the_names_in_order(outcome: LoadOutcome, action: LoadAction)
    ensures
        forall|search: &mut LoaderSearch| #[trigger]
            call_ensures(LoaderSearch::step, (search, outcome), action) ==> {
                let failed = final(search).failures@.len();
                &&& final(search).os == search.os
                &&& action is Done <==> outcome is Loaded
                &&& !(outcome is Loaded) ==> match search.os {
                    TargetOs::Windows => if failed == 0 {
                        action matches LoadAction::Try(name) && name@ == "openxr_loader.dll"@
                    } else {
                        action is GiveUp
                    },
                    TargetOs::MacOs => if failed == 0 {
                        action matches LoadAction::Try(name) && name@ == "libopenxr_loader.dylib"@
                    } else {
                        action is GiveUp
                    },
                    TargetOs::Other => if failed == 0 {
                        action matches LoadAction::Try(name) && name@ == "libopenxr_loader.so"@
                    } else if failed == 1 {
                        action matches LoadAction::Try(name) && name@ == "libopenxr_loader.so.1"@
                    } else {
                        action is GiveUp
                    },
                }
            },
{
    assert forall|search: &mut LoaderSearch| #[trigger]
        call_ensures(LoaderSearch::step, (search, outcome), action) implies {
        &&& texts(search.failures@).len() == search.failures@.len()
        &&& texts(final(search).failures@).len() == final(search).failures@.len()
    } by {}
}

/// A failure is noted under the name that was tried, behind those before it.
/// Nothing else is noted.
pub proof fn failures_are_noted_by_name(outcome: LoadOutcome, action: LoadAction)
    ensures
        forall|search: &mut LoaderSearch| #[trigger]
            call_ensures(LoaderSearch::step, (search, outcome), action) ==> {
                let before = search.failures@;
                let after = final(search).failures@;
                let left = before.len() == 0 || (before.len() == 1 && search.os == TargetOs::Other);
                &&& before.len() <= after.len()
                &&& forall|i: int|
                    0 <= i < before.len() ==> (#[trigger] after[i])@ == before[i]@
                &&& after.len() == before.len() + (if left && outcome is Failed {
                    1int
                } else {
                    0int
                })
                &&& outcome matches LoadOutcome::Failed(err) ==> left ==> after.last()@ == (
                match search.os {
                    TargetOs::Windows => "openxr_loader.dll"@,
                    TargetOs::MacOs => "libopenxr_loader.dylib"@,
                    TargetOs::Other => if before.len() == 0 {
                        "libopenxr_loader.so"@
                    } else {
                        "libopenxr_loader.so.1"@
                    },
                }) + ": "@ + err@
            },
{
    assert forall|search: &mut LoaderSearch| #[trigger]
        call_ensures(LoaderSearch::step, (search, outcome), action) implies {
        let before = search.failures@;
        let after = final(search).failures@;
        let left = before.len() == 0 || (before.len() == 1 && search.os == TargetOs::Other);
        &&& before.len() <= after.len()
        &&& forall|i: int| 0 <= i < before.len() ==> (#[trigger] after[i])@ == before[i]@
        &&& after.len() == before.len() + (if left && outcome is Failed {
            1int
        } else {
            0int
        })
        &&& outcome matches LoadOutcome::Failed(err) ==> left ==> after.last()@ == (
        match search.os {
            TargetOs::Windows => "openxr_loader.dll"@,
            TargetOs::MacOs => "libopenxr_loader.dylib"@,
            TargetOs::Other => if before.len() == 0 {
                "libopenxr_loader.so"@
            } else {
                "libopenxr_loader.so.1"@
            },
        }) + ": "@ + err@
    } by {
        let before = search.failures@;
        let after = final(search).failures@;
        assert(texts(before).len() == before.len() && texts(after).len() == after.len());
        assert(forall|i: int| 0 <= i < before.len() ==> texts(before)[i] == before[i]@);
        assert(forall|i: int|
            0 <= i < after.len() ==> texts(after)[i] == (#[trigger] after[i])@);
    }
}

/// What is reported when no name is left holds every note.
pub proof fn giving_up_reports_every_failure(outcome: LoadOutcome, message: String)
    ensures
        forall|search: &mut LoaderSearch| #[trigger]
            call_ensures(LoaderSearch::step, (search, outcome), LoadAction::GiveUp(message)) ==> {
                let notes = final(search).failures@;
                let head = "could not load the OpenXR loader (tried "@;
                &&& message@ == head + joined(texts(notes), "; "@) + ")"@
                &&& notes.len() == 1 ==> message@ == head + notes[0]@ + ")"@
                &&& notes.len() == 2 ==> message@ == head + notes[0]@ + "; "@ + notes[1]@ + ")"@
            },
{
    assert forall|search: &mut LoaderSearch| #[trigger]
        call_ensures(LoaderSearch::step, (search, outcome), LoadAction::GiveUp(message)) implies {
        let notes = final(search).failures@;
        let head = "could not load the OpenXR loader (tried "@;
        &&& message@ == head + joined(texts(notes), "; "@) + ")"@
        &&& notes.len() == 1 ==> message@ == head + notes[0]@ + ")"@
        &&& notes.len() == 2 ==> message@ == head + notes[0]@ + "; "@ + notes[1]@ + ")"@
    } by {
        let notes = final(search).failures@;
        let head = "could not load the OpenXR loader (tried "@;
        let items = texts(notes);
        if notes.len() == 1 {
            joining_separates_neighbours(items, items, items[0], "; "@);
            assert(items =~= seq![items[0]]);
        }
        if notes.len() == 2 {
            joining_separates_neighbours(seq![items[0]], seq![items[1]], items[0], "; "@);
            joining_separates_neighbours(seq![items[0]], seq![items[1]], items[1], "; "@);
            assert(items =~= seq![items[0]] + seq![items[1]]);
            assert(message@ =~= head + notes[0]@ + "; "@ + notes[1]@ + ")"@);
        }
    }
}

/// A new initialization knows of no extension.
pub proof fn new_initialization_knows_nothing(initialization: Initialization)
    requires
        call_ensures(Initialization::new, (), initialization),
    ensures
        initialization.instance_extensions@.len() == 0,
{
    assert(texts(initialization.instance_extensions@).len() == 0);
}

/// Each call of initialization leads to the next: the runtime's extensions, the
/// instance, the display, the graphics requirements, the views of the stereo
/// configuration, and the two lists of extensions. A failure ends it with its own
/// message, and so does a runtime without `XR_KHR_vulkan_enable`.
pub proof fn each_call_leads_to_the_next(outcome: InitOutcome, step: InitStep)
    ensures
        forall|i: &mut Initialization| #[trigger]
            call_ensures(Initialization::step, (i, outcome), step) ==> {
                let action = step.action;
                &&& action is ListExtensions <==> outcome is EntryLoaded
                &&& action is CreateInstance <==> outcome == InitOutcome::ExtensionsListed(true)
                &&& action is FindSystem <==> outcome is InstanceCreated
                &&& action matches InitAction::FindSystem(form) ==> form
                    == FormFactor::HeadMountedDisplay
                &&& action is QueryRequirements <==> outcome is SystemFound
                &&& action is ListViews <==> outcome is RequirementsKnown
                &&& action matches InitAction::ListViews(configuration) ==> configuration
                    == ViewConfigurationType::PrimaryStereo
                &&& action is ListInstanceExtensions <==> outcome is ViewsListed
                &&& action is ListDeviceExtensions <==> outcome is InstanceExtensionsListed
                &&& action is Ready <==> outcome is DeviceExtensionsListed
                &&& action is Unavailable <==> outcome is Failed || outcome
                    == InitOutcome::ExtensionsListed(false)
                &&& outcome matches InitOutcome::Failed(err) ==> action->Unavailable_0@ == err@
                &&& outcome is ExtensionsListed && action is Unavailable
                    ==> action->Unavailable_0@ == "runtime does not support XR_KHR_vulkan_enable"@
            },
{
}

/// The instance is asked for under the app's and the engine's names, with
/// `XR_KHR_vulkan_enable`, without its second version and without any layer.
pub proof fn instance_is_asked_for_vulkan_alone(outcome: InitOutcome, step: InitStep)
    ensures
        forall|i: &mut Initialization| #[trigger]
            call_ensures(Initialization::step, (i, outcome), step) ==> (
            step.action matches InitAction::CreateInstance(request) ==> {
                &&& request.application_name@ == "bevy_openxr_poc"@
                &&& request.engine_name@ == "bevy"@
                &&& request.khr_vulkan_enable
                &&& !request.khr_vulkan_enable2
                &&& request.layers@.len() == 0
            }),
{
}

/// Only the graphics requirements and the views are reported on, each with what
/// the call that reports on them says.
pub proof fn initialization_reports_what_it_learns(
    outcome: InitOutcome,
    step: InitStep,
    min: u64,
    max: u64,
    line: String,
    views: Vec<ViewConfigurationView>,
    lines: Vec<String>,
)
    requires
        call_ensures(vulkan_range_line, (min, max), line),
        call_ensures(view_report, (&views,), lines),
    ensures
        forall|i: &mut Initialization| #[trigger]
            call_ensures(Initialization::step, (i, outcome), step) ==> {
                let report = step.report@;
                &&& outcome == InitOutcome::RequirementsKnown(min, max) ==> report.len() == 1
                    && report[0]@ == line@
                &&& outcome == InitOutcome::ViewsListed(views) ==> {
                    &&& report.len() == lines@.len()
                    &&& forall|k: int| 0 <= k < report.len() ==> (#[trigger] report[k])@ == lines@[k]@
                }
                &&& !(outcome is RequirementsKnown) && !(outcome is ViewsListed) ==> report.len()
                    == 0
            },
{
    assert forall|i: &mut Initialization| #[trigger]
        call_ensures(Initialization::step, (i, outcome), step) implies {
        let report = step.report@;
        &&& outcome == InitOutcome::RequirementsKnown(min, max) ==> report.len() == 1
            && report[0]@ == line@
        &&& outcome == InitOutcome::ViewsListed(views) ==> {
            &&& report.len() == lines@.len()
            &&& forall|k: int| 0 <= k < report.len() ==> (#[trigger] report[k])@ == lines@[k]@
        }
        &&& !(outcome is RequirementsKnown) && !(outcome is ViewsListed) ==> report.len() == 0
    } by {
        let report = step.report@;
        assert(texts(report).len() == report.len() && texts(lines@).len() == lines@.len());
        assert(forall|k: int| 0 <= k < report.len() ==> texts(report)[k] == (#[trigger] report[k])@);
        assert(forall|k: int| 0 <= k < lines@.len() ==> texts(lines@)[k] == lines@[k]@);
    }
}

/// The names that are ready are those that parsing gives for the two lists: those
/// of the instance list are held from the time that it comes, and handed over
/// with those of the device list. Nothing else touches them.
pub proof fn both_lists_are_ready_as_parsed(
    outcome: InitOutcome,
    step: InitStep,
    list: &str,
    parsed: Vec<String>,
)
    requires
        call_ensures(parse_extension_list, (list,), parsed),
    ensures
        forall|i: &mut Initialization| #[trigger]
            call_ensures(Initialization::step, (i, outcome), step) ==> {
                let held = texts(i.instance_extensions@);
                let after = texts(final(i).instance_extensions@);
                &&& outcome matches InitOutcome::InstanceExtensionsListed(given) ==> given@ == list@
                    ==> after == texts(parsed@)
                &&& outcome matches InitOutcome::DeviceExtensionsListed(given) ==> given@ == list@
                    ==> {
                    &&& texts(step.action->Ready_0.instance@) == held
                    &&& texts(step.action->Ready_0.device@) == texts(parsed@)
                    &&& after.len() == 0
                }
                &&& !(outcome is InstanceExtensionsListed) && !(outcome is DeviceExtensionsListed)
                    ==> after == held
            },
{
}

/// A packed version is printed by its three numbers, with full stops between.
pub proof fn versions_are_printed_by_their_numbers(
    major: u64,
    minor: u64,
    patch: u64,
    max_major: u64,
    max_minor: u64,
    max_patch: u64,
    min: u64,
    max: u64,
    line: String,
)
    requires
        major < 0x1_0000 && minor < 0x1_0000 && patch < 0x1_0000_0000,
        max_major < 0x1_0000 && max_minor < 0x1_0000 && max_patch < 0x1_0000_0000,
        min == major * 0x1_0000_0000_0000 + minor * 0x1_0000_0000 + patch,
        max == max_major * 0x1_0000_0000_0000 + max_minor * 0x1_0000_0000 + max_patch,
        call_ensures(vulkan_range_line, (min, max), line),
    ensures
        line@ == "[openxr] runtime supports Vulkan "@ + (decimal(major as nat) + "."@ + decimal(
            minor as nat,
        ) + "."@ + decimal(patch as nat)) + " to "@ + (decimal(max_major as nat) + "."@ + decimal(
            max_minor as nat,
        ) + "."@ + decimal(max_patch as nat)),
{
    unpacked(major, minor, patch, min);
    unpacked(max_major, max_minor, max_patch, max);
}

proof fn unpacked(major: u64, minor: u64, patch: u64, raw: u64)
    requires
        major < 0x1_0000 && minor < 0x1_0000 && patch < 0x1_0000_0000,
        raw == major * 0x1_0000_0000_0000 + minor * 0x1_0000_0000 + patch,
    ensures
        raw / 0x1_0000_0000_0000 == major,
        raw / 0x1_0000_0000 % 0x1_0000 == minor,
        raw % 0x1_0000_0000 == patch,
{
}

/// A view configuration is reported by a line with the number of views, a line
/// for each view, and a warning exactly if there are not two.
pub proof fn every_view_is_reported(views: Vec<ViewConfigurationView>, lines: Vec<String>)
    requires
        call_ensures(view_report, (&views,), lines),
    ensures
        ({
            let n = views@.len();
            &&& lines@.len() == n + (if n == 2 {
                1int
            } else {
                2int
            })
            &&& lines@[0]@ == "[openxr] primary stereo view configuration: "@ + decimal(n)
                + " view(s)"@
            &&& forall|k: int|
                1 <= k <= n ==> (#[trigger] lines@[k])@ == "[openxr]   view "@ + decimal(
                    (k - 1) as nat,
                ) + ": recommended "@ + decimal(
                    views@[k - 1].recommended_image_rect_width as nat,
                ) + "x"@ + decimal(views@[k - 1].recommended_image_rect_height as nat)
                    + " (max "@ + decimal(views@[k - 1].max_image_rect_width as nat) + "x"@
                    + decimal(views@[k - 1].max_image_rect_height as nat) + "), "@ + decimal(
                    views@[k - 1].recommended_swapchain_sample_count as nat,
                ) + " sample(s)"@
            &&& n != 2 ==> lines@.last()@
                == "[openxr] WARNING: expected 2 views for PRIMARY_STEREO, got "@ + decimal(n)
                + ". Multiview assumes one layer per eye."@
        }),
{
    let n = views@.len();
    let all = texts(lines@);
    assert(all.len() == lines@.len());
    assert(forall|k: int| 0 <= k < lines@.len() ==> all[k] == (#[trigger] lines@[k])@);
}

/// The report that OpenXR is up counts and lists the extensions of both kinds,
/// those of the instance first.
pub proof fn both_kinds_of_extensions_are_reported(
    required: RequiredExtensions,
    text: String,
    instance: String,
    device: String,
)
    requires
        call_ensures(instance_report, (&required,), text),
        call_ensures(format_extensions, (&required.instance,), instance),
        call_ensures(format_extensions, (&required.device,), device),
    ensures
        text@ == "[openxr] instance created\n[openxr]   required instance extensions "@ + ("("@
            + decimal(required.instance@.len()) + "): "@ + instance@)
            + "\n[openxr]   required device extensions "@ + ("("@ + decimal(required.device@.len())
            + "): "@ + device@),
{
    assert(texts(required.instance@).len() == required.instance@.len());
    assert(texts(required.device@).len() == required.device@.len());
}

/// The notice that OpenXR is unavailable says why, in full.
pub proof fn notice_says_why(why: &str, text: String)
    requires
        call_ensures(unavailable_notice, (why,), text),
    ensures
        text@ == "[openxr] unavailable: "@ + why@
            + "\n[openxr] continuing without XR; the app will run as an ordinary Bevy app."@,
{
}

/// A session is bound exactly if the renderer's device is a Vulkan one and its
/// adapter is the one that the runtime mandates; it is then bound to the handles
/// of that very device.
pub proof fn session_is_bound_to_the_mandated_device(
    handles: Option<VulkanHandles>,
    found: Result<VulkanHandles, SessionError>,
    given: VulkanHandles,
    required: usize,
    bound: Result<SessionCreateInfo, SessionError>,
)
    requires
        call_ensures(require_vulkan, (handles,), found),
        call_ensures(bind_session, (given, required), bound),
    ensures
        handles matches Some(h) ==> found == Ok::<VulkanHandles, SessionError>(h),
        handles is None ==> found == Err::<VulkanHandles, SessionError>(SessionError::NotVulkan),
        bound is Ok <==> given.physical_device as usize == required,
        bound matches Err(e) ==> e == SessionError::WrongAdapter,
        bound matches Ok(info) ==> {
            &&& info.physical_device == required
            &&& info.instance == given.instance as usize
            &&& info.device == given.device as usize
            &&& info.queue_family_index == given.queue_family_index
            &&& info.queue_index == given.queue_index
        },
{
}

/// Either error says what is wrong and how to mend it.
pub proof fn session_errors_say_how_to_mend_them(error: SessionError, message: String)
    requires
        call_ensures(SessionError::message, (&error,), message),
    ensures
        error == SessionError::NotVulkan ==> message@
            == "Bevy is not running on the Vulkan backend (try WGPU_BACKEND=vulkan)"@,
        error == SessionError::WrongAdapter ==> message@
            == "Bevy selected a different GPU than the one the OpenXR runtime requires. Set WGPU_ADAPTER_NAME (or WgpuSettings::adapter_name) to the headset's GPU."@,
{
}

/// The stage is tried first and the local space once the stage has failed, either
/// with its origin unmoved and unturned. What was created is used, and only when
/// the local space has failed too is there none.
pub proof fn local_space_is_tried_after_the_stage(outcome: SpaceOutcome, action: SpaceAction)
    requires
        call_ensures(reference_space_step, (outcome,), action),
    ensures
        action is Create <==> outcome == SpaceOutcome::Start || outcome == SpaceOutcome::Failed(
            ReferenceSpaceType::Stage,
        ),
        action matches SpaceAction::Create(kind, pose) ==> {
            &&& kind == ReferenceSpaceType::Stage <==> outcome == SpaceOutcome::Start
            &&& pose.position.x.bits == 0 && pose.position.y.bits == 0 && pose.position.z.bits == 0
            &&& pose.orientation.x.bits == 0 && pose.orientation.y.bits == 0
            &&& pose.orientation.z.bits == 0 && pose.orientation.w.bits == 0x3f80_0000
        },
        outcome matches SpaceOutcome::Created(kind) ==> action == SpaceAction::Use(kind),
        action is GiveUp <==> outcome == SpaceOutcome::Failed(ReferenceSpaceType::Local),
{
}

/// Setting up stops at once exactly if there is no instance to begin with or no
/// session, and says which. Otherwise it goes from the session to the swapchain,
/// to the space and to the end, whether or not the swapchain and the space came
/// about; what came about is kept. The first image is shown if there is any.
pub proof fn setting_up_goes_on_without_swapchain_or_space(
    outcome: FinishOutcome,
    action: FinishAction,
)
    requires
        call_ensures(finish_step, (outcome,), action),
    ensures
        outcome matches FinishOutcome::Start { init_failed, has_context } ==> {
            &&& action == FinishAction::ReportUnavailable <==> init_failed
            &&& action == FinishAction::ReportNotInitialized <==> !init_failed && !has_context
            &&& action == FinishAction::CreateSession <==> !init_failed && has_context
        },
        action == FinishAction::GiveUp <==> outcome == FinishOutcome::SessionFailed,
        action == FinishAction::CreateSwapchain <==> outcome == FinishOutcome::SessionCreated,
        action is KeepSwapchain <==> outcome is SwapchainWrapped,
        action matches FinishAction::KeepSwapchain { seed } ==> {
            &&& seed is Some <==> outcome->SwapchainWrapped_0 > 0
            &&& seed matches Some(first) ==> first == 0
        },
        action == FinishAction::SkipSwapchain <==> outcome == FinishOutcome::SwapchainFailed,
        action == FinishAction::KeepSpaceAndSession <==> outcome == FinishOutcome::SpaceCreated,
        action == FinishAction::KeepSession <==> outcome == FinishOutcome::SpaceFailed,
{
}

} // verus!
