//! Bringing OpenXR up, before the renderer starts.
//!
//! The runtime names the Vulkan extensions that have to be enabled when the
//! instance and the device are created, so it is asked first. The calls are made
//! from outside, in the order that [`Initialization::step`] gives; what each one is worth
//! saying about goes to stderr, because there is no log yet.

use vstd::prelude::*;
use vstd::string::*;

use crate::extensions::{format_extensions, parse_extension_list};
use crate::session::{ViewConfigurationType, VIEW_CONFIGURATION};
use crate::swapchain::ViewConfigurationView;
use crate::text::decimal_text;

verus! {

use crate::extensions::extension_names;
use crate::text::{decimal, joined, texts};

/// The kinds of display that a runtime can drive.
#[derive(Clone, Copy, Debug, PartialEq, Eq, Structural)]
pub enum FormFactor {
    HeadMountedDisplay,
    HandheldDisplay,
}

/// What an instance is created with.
#[derive(Debug)]
pub struct InstanceRequest {
    pub application_name: String,
    pub engine_name: String,
    /// `XR_KHR_vulkan_enable`.
    pub khr_vulkan_enable: bool,
    /// `XR_KHR_vulkan_enable2`, with which the runtime would create the Vulkan
    /// instance and device by itself.
    pub khr_vulkan_enable2: bool,
    /// The API layers to load.
    pub layers: Vec<String>,
}

/// The Vulkan extensions that the runtime requires.
#[derive(Debug)]
pub struct RequiredExtensions {
    pub instance: Vec<String>,
    pub device: Vec<String>,
}

/// What a call made during initialization came to.
#[derive(Debug)]
pub enum InitOutcome {
    /// The loader is loaded.
    EntryLoaded,
    /// The runtime listed its extensions; whether `XR_KHR_vulkan_enable` is one.
    ExtensionsListed(bool),
    /// The instance is created.
    InstanceCreated,
    /// The display is found.
    SystemFound,
    /// The runtime told the least and the greatest Vulkan version it supports.
    RequirementsKnown(u64, u64),
    /// The runtime described the views of its stereo configuration.
    ViewsListed(Vec<ViewConfigurationView>),
    /// The runtime listed the instance extensions it requires.
    InstanceExtensionsListed(String),
    /// The runtime listed the device extensions it requires.
    DeviceExtensionsListed(String),
    /// A call failed, and how.
    Failed(String),
}

/// What to do next during initialization.
#[derive(Debug)]
pub enum InitAction {
    /// List the runtime's extensions.
    ListExtensions,
    /// Create an instance.
    CreateInstance(InstanceRequest),
    /// Find a display of this kind.
    FindSystem(FormFactor),
    /// Ask for the graphics requirements; no session can be created before.
    QueryRequirements,
    /// List the views of this configuration.
    ListViews(ViewConfigurationType),
    /// List the instance extensions that the runtime requires.
    ListInstanceExtensions,
    /// List the device extensions that the runtime requires.
    ListDeviceExtensions,
    /// All is known that the renderer needs.
    Ready(RequiredExtensions),
    /// OpenXR is unavailable, and why.
    Unavailable(String),
}

/// A step of initialization: what to print, and what to do then.
#[derive(Debug)]
pub struct InitStep {
    pub report: Vec<String>,
    pub action: InitAction,
}

/// An initialization under way.
#[derive(Debug)]
pub struct Initialization {
    /// The names of the instance extensions, between the time that the runtime
    /// lists them and the end.
    pub instance_extensions: Vec<String>,
}

/// A packed version number in full: sixteen bits for the major number, sixteen
/// for the minor one and thirty-two for the patch.
pub open spec fn version_text(raw: u64) -> Seq<char> {
    decimal((raw / 0x1_0000_0000_0000) as nat) + "."@ + decimal(
        (raw / 0x1_0000_0000 % 0x1_0000) as nat,
    ) + "."@ + decimal((raw % 0x1_0000_0000) as nat)
}

/// Calls `openxr::Version::from_raw` and prints the result with its `Display`.
///
/// Trusted: `from_raw` keeps the number, and `Display` writes the major number
/// (the upper sixteen bits), the minor number (the sixteen below) and the patch
/// (the lower thirty-two) in decimal, with a full stop between them.
#[verifier::external_body]
fn printed_version(raw: u64) -> (text: String)
    ensures
        text@ == version_text(raw),
{
    format!("{}", openxr::Version::from_raw(raw))
}

/// The line on the Vulkan versions that the runtime supports.
pub open spec fn vulkan_range_text(min: u64, max: u64) -> Seq<char> {
    "[openxr] runtime supports Vulkan "@ + version_text(min) + " to "@ + version_text(max)
}

/// Prints the range of Vulkan versions that the runtime supports, given packed.
pub fn vulkan_range_line(min: u64, max: u64) -> (line: String)
    ensures
        line@ == vulkan_range_text(min, max),
{
    let mut line = "[openxr] runtime supports Vulkan ".to_owned();
    line.append(printed_version(min).as_str());
    line.append(" to ");
    line.append(printed_version(max).as_str());
    line
}

/// The line on how many views there are.
pub open spec fn view_count_text(count: nat) -> Seq<char> {
    "[openxr] primary stereo view configuration: "@ + decimal(count) + " view(s)"@
}

/// The line on one view.
pub open spec fn view_text(index: nat, view: ViewConfigurationView) -> Seq<char> {
    "[openxr]   view "@ + decimal(index) + ": recommended "@ + decimal(
        view.recommended_image_rect_width as nat,
    ) + "x"@ + decimal(view.recommended_image_rect_height as nat) + " (max "@ + decimal(
        view.max_image_rect_width as nat,
    ) + "x"@ + decimal(view.max_image_rect_height as nat) + "), "@ + decimal(
        view.recommended_swapchain_sample_count as nat,
    ) + " sample(s)"@
}

/// The warning that the configuration is not one view per eye.
pub open spec fn not_stereo_text(count: nat) -> Seq<char> {
    "[openxr] WARNING: expected 2 views for PRIMARY_STEREO, got "@ + decimal(count)
        + ". Multiview assumes one layer per eye."@
}

/// The lines on a view configuration: how many views, each of them, and a warning
/// unless there are two.
pub open spec fn view_report_texts(views: Seq<ViewConfigurationView>) -> Seq<Seq<char>> {
    let lines = seq![view_count_text(views.len())] + Seq::new(
        views.len(),
        |i: int| view_text(i as nat, views[i]),
    );
    if views.len() == 2 {
        lines
    } else {
        lines.push(not_stereo_text(views.len()))
    }
}

fn view_line(index: usize, view: &ViewConfigurationView) -> (line: String)
    ensures
        line@ == view_text(index as nat, *view),
{
    let mut line = "[openxr]   view ".to_owned();
    line.append(decimal_text(index as u64).as_str());
    line.append(": recommended ");
    line.append(decimal_text(view.recommended_image_rect_width as u64).as_str());
    line.append("x");
    line.append(decimal_text(view.recommended_image_rect_height as u64).as_str());
    line.append(" (max ");
    line.append(decimal_text(view.max_image_rect_width as u64).as_str());
    line.append("x");
    line.append(decimal_text(view.max_image_rect_height as u64).as_str());
    line.append("), ");
    line.append(decimal_text(view.recommended_swapchain_sample_count as u64).as_str());
    line.append(" sample(s)");
    line
}

/// Reports on the stereo view configuration.
///
/// The configuration decides whether multiview is the right way to render at
/// all, and this is the cheapest place to catch a runtime that is not stereo.
pub fn view_report(views: &Vec<ViewConfigurationView>) -> (lines: Vec<String>)
    ensures
        texts(lines@) == view_report_texts(views@),
{
    let count: usize = views.len();
    let mut lines: Vec<String> = Vec::new();
    let mut head = "[openxr] primary stereo view configuration: ".to_owned();
    head.append(decimal_text(count as u64).as_str());
    head.append(" view(s)");
    lines.push(head);
    let mut i: usize = 0;
    while i < views.len()
        invariant
            i <= views.len(),
            lines.len() == i + 1,
            lines@[0]@ == view_count_text(views@.len()),
            forall|k: int|
                0 <= k < i ==> (#[trigger] lines@[k + 1])@ == view_text(k as nat, views@[k]),
        decreases views.len() - i,
    {
        let ghost before = lines@;
        lines.push(view_line(i, &views[i]));
        i += 1;
        assert forall|k: int| 0 <= k < i implies (#[trigger] lines@[k + 1])@ == view_text(
            k as nat,
            views@[k],
        ) by {
            if k + 1 < i {
                assert(lines@[k + 1] == before[k + 1]);
            }
        }
    }
    let ghost all = seq![view_count_text(views@.len())] + Seq::new(
        views@.len(),
        |i: int| view_text(i as nat, views@[i]),
    );
    assert forall|k: int| 0 <= k < lines@.len() implies texts(lines@)[k] == #[trigger] all[k] by {
        if k > 0 {
            assert(lines@[(k - 1) + 1]@ == view_text((k - 1) as nat, views@[k - 1]));
        }
    }
    assert(texts(lines@) =~= all);
    if count != 2 {
        let mut warning =
            "[openxr] WARNING: expected 2 views for PRIMARY_STEREO, got ".to_owned();
        warning.append(decimal_text(count as u64).as_str());
        warning.append(". Multiview assumes one layer per eye.");
        lines.push(warning);
        assert(texts(lines@) =~= all.push(not_stereo_text(views@.len())));
    }
    lines
}

/// Whether the request asks for `XR_KHR_vulkan_enable` and for nothing else: no
/// other extension and no API layer.
///
/// That is the first version of the extension, deliberately: with the second one
/// the runtime creates the Vulkan instance and device, whereas here the renderer
/// creates them and only needs to be told which extensions to add.
pub open spec fn is_instance_request(request: InstanceRequest) -> bool {
    &&& request.application_name@ == "bevy_openxr_poc"@
    &&& request.engine_name@ == "bevy"@
    &&& request.khr_vulkan_enable
    &&& !request.khr_vulkan_enable2
    &&& request.layers@.len() == 0
}

/// What is said of a runtime without `XR_KHR_vulkan_enable`.
pub open spec fn no_vulkan_enable_text() -> Seq<char> {
    "runtime does not support XR_KHR_vulkan_enable"@
}

/// The lines to print after an outcome.
pub open spec fn init_report_texts(outcome: InitOutcome) -> Seq<Seq<char>> {
    match outcome {
        InitOutcome::RequirementsKnown(min, max) => seq![vulkan_range_text(min, max)],
        InitOutcome::ViewsListed(views) => view_report_texts(views@),
        _ => Seq::empty(),
    }
}

/// The names held after an outcome, given those held before: the runtime's list
/// of instance extensions is read when it comes, and handed over at the end.
pub open spec fn held_after(held: Seq<Seq<char>>, outcome: InitOutcome) -> Seq<Seq<char>> {
    match outcome {
        InitOutcome::InstanceExtensionsListed(list) => extension_names(list@),
        InitOutcome::DeviceExtensionsListed(_) => Seq::empty(),
        _ => held,
    }
}

/// Whether `action` is what to do after `outcome`, with the names `held` until
/// then.
pub open spec fn is_init_action(
    held: Seq<Seq<char>>,
    outcome: InitOutcome,
    action: InitAction,
) -> bool {
    match outcome {
        InitOutcome::EntryLoaded => action is ListExtensions,
        InitOutcome::ExtensionsListed(vulkan_enable) => if vulkan_enable {
            action matches InitAction::CreateInstance(request) && is_instance_request(request)
        } else {
            action matches InitAction::Unavailable(why) && why@ == no_vulkan_enable_text()
        },
        InitOutcome::InstanceCreated => action == InitAction::FindSystem(
            FormFactor::HeadMountedDisplay,
        ),
        InitOutcome::SystemFound => action is QueryRequirements,
        InitOutcome::RequirementsKnown(_, _) => action == InitAction::ListViews(
            ViewConfigurationType::PrimaryStereo,
        ),
        InitOutcome::ViewsListed(_) => action is ListInstanceExtensions,
        InitOutcome::InstanceExtensionsListed(_) => action is ListDeviceExtensions,
        InitOutcome::DeviceExtensionsListed(list) => action matches InitAction::Ready(required) && {
            &&& texts(required.instance@) == held
            &&& texts(required.device@) == extension_names(list@)
        },
        InitOutcome::Failed(err) => action matches InitAction::Unavailable(why) && why@ == err@,
    }
}

impl Initialization {
    /// An initialization in which nothing was called yet.
    pub fn new() -> (initialization: Initialization)
        ensures
            texts(initialization.instance_extensions@) == Seq::<Seq<char>>::empty(),
    {
        let instance_extensions: Vec<String> = Vec::new();
        assert(texts(instance_extensions@) =~= Seq::empty());
        Initialization { instance_extensions }
    }

    /// Takes what the last call came to and says what to print and which call is
    /// next.
    ///
    /// The names of the extensions are resolved here, once: where they are
    /// enabled nothing can fail any more, and a runtime that refuses to answer
    /// fails before the renderer has built anything.
    pub fn step(&mut self, outcome: InitOutcome) -> (step: InitStep)
        ensures
            texts(final(self).instance_extensions@) == held_after(
                texts(old(self).instance_extensions@),
                outcome,
            ),
            texts(step.report@) == init_report_texts(outcome),
            is_init_action(texts(old(self).instance_extensions@), outcome, step.action),
    {
        let mut report: Vec<String> = Vec::new();
        assert(texts(report@) =~= Seq::empty());
        let action = match outcome {
            InitOutcome::EntryLoaded => InitAction::ListExtensions,
            InitOutcome::ExtensionsListed(vulkan_enable) => {
                if vulkan_enable {
                    InitAction::CreateInstance(
                        InstanceRequest {
                            application_name: "bevy_openxr_poc".to_owned(),
                            engine_name: "bevy".to_owned(),
                            khr_vulkan_enable: true,
                            khr_vulkan_enable2: false,
                            layers: Vec::new(),
                        },
                    )
                } else {
                    InitAction::Unavailable(
                        "runtime does not support XR_KHR_vulkan_enable".to_owned(),
                    )
                }
            },
            InitOutcome::InstanceCreated => InitAction::FindSystem(FormFactor::HeadMountedDisplay),
            InitOutcome::SystemFound => InitAction::QueryRequirements,
            InitOutcome::RequirementsKnown(min, max) => {
                report.push(vulkan_range_line(min, max));
                assert(texts(report@) =~= seq![vulkan_range_text(min, max)]);
                InitAction::ListViews(VIEW_CONFIGURATION)
            },
            InitOutcome::ViewsListed(views) => {
                report = view_report(&views);
                InitAction::ListInstanceExtensions
            },
            InitOutcome::InstanceExtensionsListed(list) => {
                self.instance_extensions = parse_extension_list(list.as_str());
                InitAction::ListDeviceExtensions
            },
            InitOutcome::DeviceExtensionsListed(list) => {
                let mut instance: Vec<String> = Vec::new();
                assert(texts(instance@) =~= Seq::empty());
                std::mem::swap(&mut instance, &mut self.instance_extensions);
                InitAction::Ready(
                    RequiredExtensions { instance, device: parse_extension_list(list.as_str()) },
                )
            },
            InitOutcome::Failed(err) => InitAction::Unavailable(err),
        };
        InitStep { report, action }
    }
}

/// Whether `outcome` is something that the call of `action` can come to.
pub open spec fn answers(action: InitAction, outcome: InitOutcome) -> bool {
    match action {
        InitAction::ListExtensions => outcome is ExtensionsListed || outcome is Failed,
        InitAction::CreateInstance(_) => outcome is InstanceCreated || outcome is Failed,
        InitAction::FindSystem(_) => outcome is SystemFound || outcome is Failed,
        InitAction::QueryRequirements => outcome is RequirementsKnown || outcome is Failed,
        InitAction::ListViews(_) => outcome is ViewsListed || outcome is Failed,
        InitAction::ListInstanceExtensions => outcome is InstanceExtensionsListed
            || outcome is Failed,
        InitAction::ListDeviceExtensions => outcome is DeviceExtensionsListed || outcome is Failed,
        InitAction::Ready(_) => false,
        InitAction::Unavailable(_) => false,
    }
}

/// The names held before the outcome of index `i`.
pub open spec fn held_at(outcomes: Seq<InitOutcome>, i: int) -> Seq<Seq<char>>
    decreases i,
{
    if i <= 0 {
        Seq::empty()
    } else {
        held_after(held_at(outcomes, i - 1), outcomes[i - 1])
    }
}

/// Whether `actions` are what initialization does on these outcomes, from the
/// loaded loader on: each action follows the outcome of the same index, and each
/// further outcome is what the action before it came to.
pub open spec fn is_run(outcomes: Seq<InitOutcome>, actions: Seq<InitAction>) -> bool {
    &&& outcomes.len() > 0
    &&& outcomes.len() == actions.len()
    &&& outcomes[0] is EntryLoaded
    &&& forall|i: int|
        0 <= i < outcomes.len() ==> is_init_action(
            held_at(outcomes, i),
            #[trigger] outcomes[i],
            actions[i],
        )
    &&& forall|i: int| 0 < i < outcomes.len() ==> answers(actions[i - 1], #[trigger] outcomes[i])
}

/// How many calls have succeeded by the time of an outcome that is no failure.
pub open spec fn succeeded(outcome: InitOutcome) -> int {
    match outcome {
        InitOutcome::EntryLoaded => 0,
        InitOutcome::ExtensionsListed(_) => 1,
        InitOutcome::InstanceCreated => 2,
        InitOutcome::SystemFound => 3,
        InitOutcome::RequirementsKnown(_, _) => 4,
        InitOutcome::ViewsListed(_) => 5,
        InitOutcome::InstanceExtensionsListed(_) => 6,
        InitOutcome::DeviceExtensionsListed(_) => 7,
        InitOutcome::Failed(_) => -1,
    }
}

proof fn run_in_order(outcomes: Seq<InitOutcome>, actions: Seq<InitAction>, i: int)
    requires
        is_run(outcomes, actions),
        0 <= i < outcomes.len(),
    ensures
        outcomes[i] is Failed ==> i == outcomes.len() - 1,
        outcomes[i] !is Failed ==> succeeded(outcomes[i]) == i,
    decreases i,
{
    assert(is_init_action(held_at(outcomes, i), outcomes[i], actions[i]));
    if i > 0 {
        run_in_order(outcomes, actions, i - 1);
        assert(is_init_action(held_at(outcomes, i - 1), outcomes[i - 1], actions[i - 1]));
        assert(answers(actions[i - 1], outcomes[i]));
    }
    if i + 1 < outcomes.len() {
        assert(answers(actions[i], outcomes[i + 1]));
    }
}

/// The calls are made in one order, each once, and the first that fails is the
/// last. All is ready exactly when every one of them has succeeded, the graphics
/// requirements among them; OpenXR is unavailable exactly when one failed or the
/// runtime does not support `XR_KHR_vulkan_enable`. What is ready then are the
/// names in the two lists that the runtime gave, each asked for by its own call.
pub proof fn initialization_needs_every_answer(
    outcomes: Seq<InitOutcome>,
    actions: Seq<InitAction>,
)
    requires
        is_run(outcomes, actions),
    ensures
        outcomes.len() <= 8,
        forall|i: int|
            0 <= i < outcomes.len() - 1 ==> (#[trigger] outcomes[i]) !is Failed && succeeded(
                outcomes[i],
            ) == i,
        actions.last() is Ready <==> outcomes.len() == 8 && outcomes.last() !is Failed,
        actions.last() is Unavailable <==> outcomes.last() is Failed || outcomes.last()
            == InitOutcome::ExtensionsListed(false),
        outcomes.last() matches InitOutcome::Failed(err) ==> actions.last()
            matches InitAction::Unavailable(why) && why@ == err@,
        actions.last() matches InitAction::Ready(required) ==> {
            &&& actions[5] is ListInstanceExtensions
            &&& outcomes[6] matches InitOutcome::InstanceExtensionsListed(list)
            &&& texts(required.instance@) == extension_names(list@)
            &&& actions[6] is ListDeviceExtensions
            &&& outcomes[7] matches InitOutcome::DeviceExtensionsListed(list)
            &&& texts(required.device@) == extension_names(list@)
        },
{
    let end = outcomes.len() - 1;
    run_in_order(outcomes, actions, end);
    assert(is_init_action(held_at(outcomes, end), outcomes[end], actions[end]));
    if end > 0 {
        run_in_order(outcomes, actions, end - 1);
    }
    assert forall|i: int| 0 <= i < end implies (#[trigger] outcomes[i]) !is Failed && succeeded(
        outcomes[i],
    ) == i by {
        run_in_order(outcomes, actions, i);
    }
    if actions.last() is Ready {
        assert(is_init_action(held_at(outcomes, 5), outcomes[5], actions[5]));
        assert(is_init_action(held_at(outcomes, 6), outcomes[6], actions[6]));
        assert(held_at(outcomes, 7) == held_after(held_at(outcomes, 6), outcomes[6]));
    }
}

/// How many names a list holds, and which.
pub open spec fn listed_text(names: Seq<Seq<char>>) -> Seq<char> {
    "("@ + decimal(names.len()) + "): "@ + (if names.len() == 0 {
        "(none)"@
    } else {
        joined(names, ", "@)
    })
}

/// The report that OpenXR is up.
pub open spec fn instance_text(instance: Seq<Seq<char>>, device: Seq<Seq<char>>) -> Seq<char> {
    "[openxr] instance created\n[openxr]   required instance extensions "@ + listed_text(instance)
        + "\n[openxr]   required device extensions "@ + listed_text(device)
}

fn listed(names: &Vec<String>) -> (text: String)
    ensures
        text@ == listed_text(texts(names@)),
{
    let mut text = "(".to_owned();
    text.append(decimal_text(names.len() as u64).as_str());
    text.append("): ");
    text.append(format_extensions(names).as_str());
    text
}

/// Reports that OpenXR is up, and what it requires.
pub fn instance_report(required: &RequiredExtensions) -> (text: String)
    ensures
        text@ == instance_text(texts(required.instance@), texts(required.device@)),
{
    let mut text =
        "[openxr] instance created\n[openxr]   required instance extensions ".to_owned();
    text.append(listed(&required.instance).as_str());
    text.append("\n[openxr]   required device extensions ");
    text.append(listed(&required.device).as_str());
    text
}

/// Reports that OpenXR is unavailable. That is not fatal.
pub fn unavailable_notice(why: &str) -> (text: String)
    ensures
        text@ == "[openxr] unavailable: "@ + why@
            + "\n[openxr] continuing without XR; the app will run as an ordinary Bevy app."@,
{
    let mut text = "[openxr] unavailable: ".to_owned();
    text.append(why);
    text.append("\n[openxr] continuing without XR; the app will run as an ordinary Bevy app.");
    text
}

} // verus!
