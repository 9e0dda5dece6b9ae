//! The stereo swapchain: which format it has, how large it is, and how each of
//! its images is wrapped.

use vstd::prelude::*;
use vstd::string::*;

use crate::text::list_text;

verus! {

use crate::text::{decimals, joined};

/// A width and a height in pixels.
#[derive(Clone, Copy, Debug, PartialEq, Eq, Structural)]
pub struct UVec2 {
    pub x: u32,
    pub y: u32,
}

/// What the runtime recommends, and at most supports, for one eye.
#[derive(Clone, Copy, Debug, PartialEq, Eq, Structural)]
pub struct ViewConfigurationView {
    pub recommended_image_rect_width: u32,
    pub max_image_rect_width: u32,
    pub recommended_image_rect_height: u32,
    pub max_image_rect_height: u32,
    pub recommended_swapchain_sample_count: u32,
}

/// The texture formats that a swapchain image can be handed to the renderer in.
#[derive(Clone, Copy, Debug, PartialEq, Eq, Structural)]
pub enum TextureFormat {
    Rgba8UnormSrgb,
    Bgra8UnormSrgb,
    Rgba8Unorm,
    Bgra8Unorm,
}

/// `VK_FORMAT_R8G8B8A8_SRGB`.
pub const VK_FORMAT_R8G8B8A8_SRGB: u32 = 43;

/// `VK_FORMAT_B8G8R8A8_SRGB`.
pub const VK_FORMAT_B8G8R8A8_SRGB: u32 = 50;

/// `VK_FORMAT_R8G8B8A8_UNORM`.
pub const VK_FORMAT_R8G8B8A8_UNORM: u32 = 37;

/// `VK_FORMAT_B8G8R8A8_UNORM`.
pub const VK_FORMAT_B8G8R8A8_UNORM: u32 = 44;

/// The Vulkan number of a format.
pub open spec fn vk_format(format: TextureFormat) -> u32 {
    match format {
        TextureFormat::Rgba8UnormSrgb => VK_FORMAT_R8G8B8A8_SRGB,
        TextureFormat::Bgra8UnormSrgb => VK_FORMAT_B8G8R8A8_SRGB,
        TextureFormat::Rgba8Unorm => VK_FORMAT_R8G8B8A8_UNORM,
        TextureFormat::Bgra8Unorm => VK_FORMAT_B8G8R8A8_UNORM,
    }
}

/// How much a format is preferred; the least goes first.
///
/// The sRGB variants come first: the runtime composites in sRGB, and picking a
/// UNORM format would apply the transfer function twice.
pub open spec fn preference(format: TextureFormat) -> int {
    match format {
        TextureFormat::Rgba8UnormSrgb => 0,
        TextureFormat::Bgra8UnormSrgb => 1,
        TextureFormat::Rgba8Unorm => 2,
        TextureFormat::Bgra8Unorm => 3,
    }
}

/// Whether a format stores sRGB.
pub open spec fn is_srgb(format: TextureFormat) -> bool {
    format is Rgba8UnormSrgb || format is Bgra8UnormSrgb
}

/// Whether the runtime offers a format.
pub open spec fn offers(runtime_formats: Seq<u32>, format: TextureFormat) -> bool {
    runtime_formats.contains(vk_format(format))
}

/// Whether `format` is the one to take: it is offered, and no format that is
/// preferred to it is.
pub open spec fn is_best_format(runtime_formats: Seq<u32>, format: TextureFormat) -> bool {
    &&& offers(runtime_formats, format)
    &&& forall|other: TextureFormat| #[trigger]
        offers(runtime_formats, other) ==> preference(format) <= preference(other)
}

/// Why no swapchain came about.
#[derive(Debug)]
pub enum SwapchainError {
    /// The stereo view configuration is empty.
    NoStereoViews,
    /// None of the formats listed can be handed to the renderer.
    NoUsableFormat(Vec<u32>),
    /// The renderer's device is not a Vulkan one.
    NotVulkan,
}

impl SwapchainError {
    /// The characters of the message.
    pub open spec fn text(&self) -> Seq<char> {
        match self {
            SwapchainError::NoStereoViews => "runtime reported no stereo views"@,
            SwapchainError::NoUsableFormat(formats) =>
                "no usable swapchain format; runtime offers "@ + ("["@ + joined(
                decimals(formats@),
                ", "@,
            ) + "]"@) + ", none of which map to a wgpu format we handle"@,
            SwapchainError::NotVulkan => "not running on the Vulkan backend"@,
        }
    }

    /// Says what went wrong.
    pub fn message(&self) -> (message: String)
        ensures
            message@ == self.text(),
    {
        match self {
            SwapchainError::NoStereoViews => "runtime reported no stereo views".to_owned(),
            SwapchainError::NoUsableFormat(formats) => {
                let mut message = "no usable swapchain format; runtime offers ".to_owned();
                message.append(list_text(formats).as_str());
                message.append(", none of which map to a wgpu format we handle");
                message
            },
            SwapchainError::NotVulkan => "not running on the Vulkan backend".to_owned(),
        }
    }
}

/// The size of the stereo image.
#[derive(Clone, Copy, Debug, PartialEq, Eq, Structural)]
pub struct StereoLayout {
    /// The size of one eye's image.
    pub resolution: UVec2,
    /// One array layer per eye.
    pub view_count: u32,
}

/// What the first view recommends, once per view. A count that does not fit
/// keeps its lowest thirty-two bits.
pub open spec fn layout_of(views: Seq<ViewConfigurationView>) -> StereoLayout {
    StereoLayout {
        resolution: UVec2 {
            x: views[0].recommended_image_rect_width,
            y: views[0].recommended_image_rect_height,
        },
        view_count: (views.len() % 0x1_0000_0000) as u32,
    }
}

/// Reads the size of the stereo image off the view configuration.
pub fn stereo_layout(views: &[ViewConfigurationView]) -> (layout: Result<
    StereoLayout,
    SwapchainError,
>)
    ensures
        views@.len() > 0 ==> layout == Ok::<StereoLayout, SwapchainError>(layout_of(views@)),
        views@.len() == 0 ==> layout matches Err(SwapchainError::NoStereoViews),
{
    if views.len() == 0 {
        return Err(SwapchainError::NoStereoViews);
    }
    let view_count: u32 = (views.len() as u64 % 0x1_0000_0000) as u32;
    let first = views[0];
    Ok(
        StereoLayout {
            resolution: UVec2 {
                x: first.recommended_image_rect_width,
                y: first.recommended_image_rect_height,
            },
            view_count,
        },
    )
}

/// A format that the runtime offers and the renderer can draw into.
#[derive(Clone, Copy, Debug, PartialEq, Eq, Structural)]
pub struct SwapchainFormat {
    /// Its Vulkan number, which the runtime is asked for.
    pub vk: u32,
    /// What the renderer calls it.
    pub format: TextureFormat,
}

fn contains_format(runtime_formats: &[u32], vk: u32) -> (found: bool)
    ensures
        found == runtime_formats@.contains(vk),
{
    let mut i: usize = 0;
    while i < runtime_formats.len()
        invariant
            i <= runtime_formats.len(),
            forall|k: int| 0 <= k < i ==> runtime_formats@[k] != vk,
        decreases runtime_formats.len() - i,
    {
        if runtime_formats[i] == vk {
            return true;
        }
        i += 1;
    }
    false
}

/// Picks the format of the swapchain: of those the renderer can draw into, the
/// most preferred that the runtime offers.
///
/// The runtime lists its formats in its own order of preference, but only those
/// with a matching [`TextureFormat`] are of use, so the intersection is taken.
pub fn choose_format(runtime_formats: &Vec<u32>) -> (chosen: Result<
    SwapchainFormat,
    SwapchainError,
>)
    ensures
        chosen matches Ok(c) ==> c.vk == vk_format(c.format) && is_best_format(
            runtime_formats@,
            c.format,
        ),
        chosen is Err <==> forall|f: TextureFormat| !#[trigger] offers(runtime_formats@, f),
        chosen matches Err(e) ==> e matches SwapchainError::NoUsableFormat(f) && f@
            == runtime_formats@,
{
    if contains_format(runtime_formats, VK_FORMAT_R8G8B8A8_SRGB) {
        let chosen = SwapchainFormat {
            vk: VK_FORMAT_R8G8B8A8_SRGB,
            format: TextureFormat::Rgba8UnormSrgb,
        };
        assert(offers(runtime_formats@, chosen.format));
        return Ok(chosen);
    }
    assert(!offers(runtime_formats@, TextureFormat::Rgba8UnormSrgb));
    if contains_format(runtime_formats, VK_FORMAT_B8G8R8A8_SRGB) {
        let chosen = SwapchainFormat {
            vk: VK_FORMAT_B8G8R8A8_SRGB,
            format: TextureFormat::Bgra8UnormSrgb,
        };
        assert(offers(runtime_formats@, chosen.format));
        return Ok(chosen);
    }
    assert(!offers(runtime_formats@, TextureFormat::Bgra8UnormSrgb));
    if contains_format(runtime_formats, VK_FORMAT_R8G8B8A8_UNORM) {
        let chosen = SwapchainFormat {
            vk: VK_FORMAT_R8G8B8A8_UNORM,
            format: TextureFormat::Rgba8Unorm,
        };
        assert(offers(runtime_formats@, chosen.format));
        return Ok(chosen);
    }
    assert(!offers(runtime_formats@, TextureFormat::Rgba8Unorm));
    if contains_format(runtime_formats, VK_FORMAT_B8G8R8A8_UNORM) {
        let chosen = SwapchainFormat {
            vk: VK_FORMAT_B8G8R8A8_UNORM,
            format: TextureFormat::Bgra8Unorm,
        };
        assert(offers(runtime_formats@, chosen.format));
        return Ok(chosen);
    }
    assert(!offers(runtime_formats@, TextureFormat::Bgra8Unorm));
    let listed = runtime_formats.clone();
    assert(listed@ =~= runtime_formats@);
    Err(SwapchainError::NoUsableFormat(listed))
}

/// The format taken is the only one that is best, so it does not depend on the
/// order in which the runtime lists its formats, nor on what else it lists.
pub proof fn format_choice_ignores_order(
    a: Seq<u32>,
    b: Seq<u32>,
    taken_a: TextureFormat,
    taken_b: TextureFormat,
)
    requires
        forall|f: TextureFormat| #[trigger] offers(a, f) <==> offers(b, f),
        is_best_format(a, taken_a),
        is_best_format(b, taken_b),
    ensures
        taken_a == taken_b,
{
    assert(offers(b, taken_a));
    assert(offers(a, taken_b));
}

/// A UNORM format is taken only if the runtime offers no sRGB one.
pub proof fn srgb_is_taken_if_offered(
    runtime_formats: Seq<u32>,
    taken: TextureFormat,
    offered: TextureFormat,
)
    requires
        is_best_format(runtime_formats, taken),
        offers(runtime_formats, offered),
        is_srgb(offered),
    ensures
        is_srgb(taken),
{
}

/// What the runtime is asked to create.
#[derive(Clone, Copy, Debug, PartialEq, Eq, Structural)]
pub struct SwapchainCreateInfo {
    /// Whether the content is protected from the CPU.
    pub protected_content: bool,
    /// Whether only one image is ever acquired.
    pub static_image: bool,
    /// So that the renderer can draw into it.
    pub color_attachment: bool,
    /// Because the compositor reads it back.
    pub sampled: bool,
    pub format: u32,
    pub sample_count: u32,
    pub width: u32,
    pub height: u32,
    pub face_count: u32,
    pub array_size: u32,
    pub mip_count: u32,
}

/// How many dimensions a texture has.
#[derive(Clone, Copy, Debug, PartialEq, Eq, Structural)]
pub enum TextureDimension {
    D1,
    D2,
    D3,
}

/// What a view of a texture shows.
#[derive(Clone, Copy, Debug, PartialEq, Eq, Structural)]
pub enum TextureViewDimension {
    /// One two-dimensional layer.
    D2,
    /// All two-dimensional layers.
    D2Array,
}

/// What the renderer is told of each image.
#[derive(Clone, Copy, Debug, PartialEq, Eq, Structural)]
pub struct TextureDescriptor {
    pub dimension: TextureDimension,
    pub width: u32,
    pub height: u32,
    pub depth_or_array_layers: u32,
    pub mip_level_count: u32,
    pub sample_count: u32,
    pub format: TextureFormat,
    /// Whether the renderer draws into it.
    pub render_attachment: bool,
    /// Whether it can be read back.
    pub texture_binding: bool,
    /// What the renderer's view of it shows.
    pub view_dimension: TextureViewDimension,
}

/// One image of the swapchain, wrapped for the renderer.
#[derive(Clone, Copy, Debug, PartialEq, Eq, Structural)]
pub struct ManualTextureView {
    /// The handle of the runtime's image.
    pub image: u64,
    pub size: UVec2,
    pub view_format: TextureFormat,
}

/// The runtime's stereo swapchain.
///
/// The images belong to the runtime. Every image has one array layer per eye.
#[derive(Debug)]
pub struct OpenXrSwapchain {
    /// One per image, in the index order in which the runtime reports them.
    pub views: Vec<ManualTextureView>,
    pub resolution: UVec2,
    pub view_count: u32,
    pub format: TextureFormat,
}

/// All that is settled before the runtime creates the swapchain.
#[derive(Clone, Copy, Debug, PartialEq, Eq, Structural)]
pub struct SwapchainPlan {
    pub layout: StereoLayout,
    pub chosen: SwapchainFormat,
}

/// Settles the size and the format of the swapchain.
pub fn plan_swapchain(layout: StereoLayout, runtime_formats: &Vec<u32>) -> (plan: Result<
    SwapchainPlan,
    SwapchainError,
>)
    ensures
        plan matches Ok(p) ==> p.layout == layout && p.chosen.vk == vk_format(p.chosen.format)
            && is_best_format(runtime_formats@, p.chosen.format),
        plan is Err <==> forall|f: TextureFormat| !#[trigger] offers(runtime_formats@, f),
        plan matches Err(e) ==> e matches SwapchainError::NoUsableFormat(f) && f@
            == runtime_formats@,
{
    match choose_format(runtime_formats) {
        Ok(chosen) => Ok(SwapchainPlan { layout, chosen }),
        Err(e) => Err(e),
    }
}

impl SwapchainPlan {
    /// What the runtime is asked to create: a single-sampled image of the
    /// recommended size with one array layer per eye.
    pub open spec fn requested(self) -> SwapchainCreateInfo {
        SwapchainCreateInfo {
            protected_content: false,
            static_image: false,
            color_attachment: true,
            sampled: true,
            format: self.chosen.vk,
            sample_count: 1,
            width: self.layout.resolution.x,
            height: self.layout.resolution.y,
            face_count: 1,
            array_size: self.layout.view_count,
            mip_count: 1,
        }
    }

    /// What the renderer is told of each image: it is drawn into and read back,
    /// and viewed with all its layers, so that a multiview pass can address each.
    pub open spec fn described(self) -> TextureDescriptor {
        TextureDescriptor {
            dimension: TextureDimension::D2,
            width: self.layout.resolution.x,
            height: self.layout.resolution.y,
            depth_or_array_layers: self.layout.view_count,
            mip_level_count: 1,
            sample_count: 1,
            format: self.chosen.format,
            render_attachment: true,
            texture_binding: true,
            view_dimension: TextureViewDimension::D2Array,
        }
    }

    /// How one image of the runtime is wrapped.
    pub open spec fn wrapped(self, image: u64) -> ManualTextureView {
        ManualTextureView {
            image,
            size: self.layout.resolution,
            view_format: self.chosen.format,
        }
    }

    /// The request to the runtime.
    ///
    /// Single-sampled: multiview and multisampling do not combine, and the
    /// runtime recommends one sample anyway.
    pub fn create_info(&self) -> (info: SwapchainCreateInfo)
        ensures
            info == self.requested(),
    {
        SwapchainCreateInfo {
            protected_content: false,
            static_image: false,
            color_attachment: true,
            sampled: true,
            format: self.chosen.vk,
            sample_count: 1,
            width: self.layout.resolution.x,
            height: self.layout.resolution.y,
            face_count: 1,
            array_size: self.layout.view_count,
            mip_count: 1,
        }
    }

    /// The description of each image.
    pub fn texture_descriptor(&self) -> (descriptor: TextureDescriptor)
        ensures
            descriptor == self.described(),
    {
        TextureDescriptor {
            dimension: TextureDimension::D2,
            width: self.layout.resolution.x,
            height: self.layout.resolution.y,
            depth_or_array_layers: self.layout.view_count,
            mip_level_count: 1,
            sample_count: 1,
            format: self.chosen.format,
            render_attachment: true,
            texture_binding: true,
            view_dimension: TextureViewDimension::D2Array,
        }
    }

    /// Wraps the images that the runtime created, in their order. `on_vulkan`
    /// says whether the renderer's device is a Vulkan one; without one no image
    /// can be wrapped.
    pub fn wrap_images(&self, images: &Vec<u64>, on_vulkan: bool) -> (swapchain: Result<
        OpenXrSwapchain,
        SwapchainError,
    >)
        ensures
            swapchain matches Ok(s) ==> {
                &&& s.views@ == images@.map_values(|image: u64| self.wrapped(image))
                &&& s.resolution == self.layout.resolution
                &&& s.view_count == self.layout.view_count
                &&& s.format == self.chosen.format
            },
            swapchain is Err <==> (images@.len() > 0 && !on_vulkan),
            swapchain matches Err(e) ==> e is NotVulkan,
    {
        let mut views: Vec<ManualTextureView> = Vec::new();
        let mut i: usize = 0;
        while i < images.len()
            invariant
                i <= images.len(),
                i > 0 ==> on_vulkan,
                views@ == images@.take(i as int).map_values(|image: u64| self.wrapped(image)),
            decreases images.len() - i,
        {
            if !on_vulkan {
                return Err(SwapchainError::NotVulkan);
            }
            views.push(
                ManualTextureView {
                    image: images[i],
                    size: self.layout.resolution,
                    view_format: self.chosen.format,
                },
            );
            i += 1;
            assert(views@ =~= images@.take(i as int).map_values(
                |image: u64| self.wrapped(image),
            ));
        }
        assert(images@.take(i as int) =~= images@);
        Ok(
            OpenXrSwapchain {
                views,
                resolution: self.layout.resolution,
                view_count: self.layout.view_count,
                format: self.chosen.format,
            },
        )
    }
}

/// The renderer is told of each image exactly what the runtime was asked to
/// create: the same size, layers, levels, samples, format and uses.
pub proof fn images_are_described_as_requested(plan: SwapchainPlan)
    requires
        plan.chosen.vk == vk_format(plan.chosen.format),
    ensures
        plan.described().width == plan.requested().width,
        plan.described().height == plan.requested().height,
        plan.described().depth_or_array_layers == plan.requested().array_size,
        plan.described().mip_level_count == plan.requested().mip_count,
        plan.described().sample_count == plan.requested().sample_count,
        vk_format(plan.described().format) == plan.requested().format,
        plan.described().render_attachment == plan.requested().color_attachment,
        plan.described().texture_binding == plan.requested().sampled,
{
}

/// The swapchain has one array layer per view of the configuration that it was
/// laid out for, each as large as the first view recommends.
pub proof fn one_array_layer_per_eye(plan: SwapchainPlan, views: Seq<ViewConfigurationView>)
    requires
        0 < views.len() <= u32::MAX,
        plan.layout == layout_of(views),
    ensures
        plan.requested().array_size == views.len(),
        plan.requested().width == views[0].recommended_image_rect_width,
        plan.requested().height == views[0].recommended_image_rect_height,
{
}

} // verus!
