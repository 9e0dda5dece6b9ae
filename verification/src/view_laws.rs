//! What each call on numbers, poses, fields of view and the swapchain gives, for
//! every input.
//!
//! As for the frame loop, the laws speak of the calls themselves.

use core::ops::{Add, Div, Mul, Neg, Sub};

use vstd::prelude::*;

use crate::fov::{enclosing_fov, EyeView, Fovf};
use crate::pose::{transform_from_pose, Posef, Transform};
use crate::projection::{clip_from_fov, placeholder_fov, Mat4, Numbers};
use crate::scalar::Scalar;
use crate::scene::eye_transforms;
use crate::swapchain::{
    choose_format, plan_swapchain, stereo_layout, OpenXrSwapchain, StereoLayout,
    SwapchainCreateInfo, SwapchainError, SwapchainFormat, SwapchainPlan, TextureDescriptor,
    TextureDimension, TextureFormat, TextureViewDimension, ViewConfigurationView,
};

verus! {

use crate::fov::{comparable_views, downs, lefts, rights, ups};
use crate::swapchain::{format_choice_ignores_order, offers};
use crate::text::{decimals, joined};

/// A number is the one of its bits. Its absolute value is the number without the
/// sign bit, and negating it turns the sign bit round and leaves the rest.
pub proof fn sign_bit_is_the_sign(
    bits: u32,
    made: Scalar,
    x: Scalar,
    size: u32,
    negated: Scalar,
)
    requires
        call_ensures(Scalar::from_bits, (bits,), made),
        call_ensures(Scalar::abs_bits, (&x,), size),
        call_ensures(Scalar::negated, (&x,), negated),
    ensures
        made.bits == bits,
        size == x.bits % 0x8000_0000,
        negated.bits % 0x8000_0000 == x.bits % 0x8000_0000,
        (negated.bits < 0x8000_0000) != (x.bits < 0x8000_0000),
{
}

/// A NaN is what has more than the bits of infinity beside its sign. Numbers
/// compare as their bits do, the other way round below zero, and those below zero
/// come first; the two zeros are equal, and a NaN compares to nothing.
pub proof fn numbers_compare_by_their_bits(x: Scalar, y: Scalar, less: bool)
    requires
        call_ensures(Scalar::is_less_than, (&x, &y), less),
    ensures
        x.nan() <==> x.bits % 0x8000_0000 > 0x7f80_0000,
        less == x.less(y),
        less <==> {
            &&& x.bits % 0x8000_0000 <= 0x7f80_0000
            &&& y.bits % 0x8000_0000 <= 0x7f80_0000
            &&& if x.bits < 0x8000_0000 {
                y.bits < 0x8000_0000 && x.bits < y.bits
            } else if y.bits < 0x8000_0000 {
                x.bits > 0x8000_0000 || y.bits > 0
            } else {
                x.bits > y.bits
            }
        },
{
}

/// A pose and its transform agree component by component, and nothing is scaled.
/// The identity pose neither moves nor turns.
pub proof fn transform_is_the_pose_unscaled(pose: Posef, transform: Transform, identity: Posef)
    requires
        call_ensures(transform_from_pose, (pose,), transform),
        call_ensures(Posef::identity, (), identity),
    ensures
        transform.translation == pose.position,
        transform.rotation == pose.orientation,
        transform.scale.x.bits == 0x3f80_0000,
        transform.scale.y.bits == 0x3f80_0000,
        transform.scale.z.bits == 0x3f80_0000,
        identity.position.x.bits == 0,
        identity.position.y.bits == 0,
        identity.position.z.bits == 0,
        identity.orientation.x.bits == 0,
        identity.orientation.y.bits == 0,
        identity.orientation.z.bits == 0,
        identity.orientation.w.bits == 0x3f80_0000,
{
}

/// There is one eye per view. The first sits half the distance between the eyes to
/// the left, any other to the right; none is raised, advanced, turned or scaled.
pub proof fn eyes_sit_beside_the_camera(view_count: u32, eyes: Vec<Transform>)
    requires
        call_ensures(eye_transforms, (view_count,), eyes),
    ensures
        eyes@.len() == view_count,
        forall|i: int|
            0 <= i < view_count ==> {
                let eye = #[trigger] eyes@[i];
                &&& eye.translation.x.bits == (if i == 0 {
                    0xbd03_126fu32
                } else {
                    0x3d03_126fu32
                })
                &&& eye.translation.y.bits == 0 && eye.translation.z.bits == 0
                &&& eye.rotation.x.bits == 0 && eye.rotation.y.bits == 0
                &&& eye.rotation.z.bits == 0 && eye.rotation.w.bits == 0x3f80_0000
                &&& eye.scale.x.bits == 0x3f80_0000 && eye.scale.y.bits == 0x3f80_0000
                &&& eye.scale.z.bits == 0x3f80_0000
            },
{
}

/// From call to call: nothing encloses no views, one view is enclosed by its own
/// field of view, and with one view more each side moves out to it if it lies
/// farther out, stays where it is if that lies farther out, and moves to it where
/// the two cannot be told apart.
pub proof fn one_view_more_moves_each_side_out(
    views: &[EyeView],
    more: &[EyeView],
    fov: Option<Fovf<Scalar>>,
    moved: Option<Fovf<Scalar>>,
    view: EyeView,
)
    requires
        call_ensures(enclosing_fov, (views,), fov),
        call_ensures(enclosing_fov, (more,), moved),
        more@ == views@.push(view),
    ensures
        fov is None <==> views@.len() == 0,
        moved is Some,
        views@.len() == 0 ==> moved == Some(view.fov),
        views@.len() > 0 ==> {
            let old_fov = fov->0;
            let new_fov = moved->0;
            &&& new_fov.angle_left == if old_fov.angle_left.less(view.fov.angle_left) {
                old_fov.angle_left
            } else {
                view.fov.angle_left
            }
            &&& new_fov.angle_right == if view.fov.angle_right.less(old_fov.angle_right) {
                old_fov.angle_right
            } else {
                view.fov.angle_right
            }
            &&& new_fov.angle_up == if view.fov.angle_up.less(old_fov.angle_up) {
                old_fov.angle_up
            } else {
                view.fov.angle_up
            }
            &&& new_fov.angle_down == if old_fov.angle_down.less(view.fov.angle_down) {
                old_fov.angle_down
            } else {
                view.fov.angle_down
            }
        },
{
    angles_of_one_view_more(views@, more@, view);
}

proof fn angles_of_one_view_more(views: Seq<EyeView>, more: Seq<EyeView>, view: EyeView)
    requires
        more == views.push(view),
    ensures
        lefts(more).drop_last() == lefts(views),
        rights(more).drop_last() == rights(views),
        ups(more).drop_last() == ups(views),
        downs(more).drop_last() == downs(views),
        lefts(more).last() == view.fov.angle_left,
        rights(more).last() == view.fov.angle_right,
        ups(more).last() == view.fov.angle_up,
        downs(more).last() == view.fov.angle_down,
{
}

/// No side of any view lies outside the enclosing field of view, as long as no
/// angle is a NaN, and every side of it is that of some view.
pub proof fn no_view_lies_outside(views: &[EyeView], fov: Option<Fovf<Scalar>>)
    requires
        call_ensures(enclosing_fov, (views,), fov),
        views@.len() > 0,
        forall|i: int|
            0 <= i < views@.len() ==> {
                let v = (#[trigger] views@[i]).fov;
                &&& v.angle_left.bits % 0x8000_0000 <= 0x7f80_0000
                &&& v.angle_right.bits % 0x8000_0000 <= 0x7f80_0000
                &&& v.angle_up.bits % 0x8000_0000 <= 0x7f80_0000
                &&& v.angle_down.bits % 0x8000_0000 <= 0x7f80_0000
            },
    ensures
        fov is Some,
        forall|i: int|
            0 <= i < views@.len() ==> {
                let v = (#[trigger] views@[i]).fov;
                &&& !v.angle_left.less(fov->0.angle_left)
                &&& !fov->0.angle_right.less(v.angle_right)
                &&& !fov->0.angle_up.less(v.angle_up)
                &&& !v.angle_down.less(fov->0.angle_down)
            },
        exists|i: int| 0 <= i < views@.len() && (#[trigger] views@[i]).fov.angle_left == fov->0.angle_left,
        exists|i: int| 0 <= i < views@.len() && (#[trigger] views@[i]).fov.angle_right == fov->0.angle_right,
        exists|i: int| 0 <= i < views@.len() && (#[trigger] views@[i]).fov.angle_up == fov->0.angle_up,
        exists|i: int| 0 <= i < views@.len() && (#[trigger] views@[i]).fov.angle_down == fov->0.angle_down,
{
    let s = views@;
    let f = fov->0;
    assert(forall|i: int|
        0 <= i < s.len() ==> {
            &&& lefts(s)[i] == (#[trigger] s[i]).fov.angle_left
            &&& rights(s)[i] == s[i].fov.angle_right
            &&& ups(s)[i] == s[i].fov.angle_up
            &&& downs(s)[i] == s[i].fov.angle_down
        });
    assert(comparable_views(s)) by {
        assert forall|i: int| 0 <= i < s.len() implies !(#[trigger] lefts(s)[i]).nan() by {
            assert(s[i].fov.angle_left.bits % 0x8000_0000 <= 0x7f80_0000);
        }
        assert forall|i: int| 0 <= i < s.len() implies !(#[trigger] rights(s)[i]).nan() by {
            assert(s[i].fov.angle_right.bits % 0x8000_0000 <= 0x7f80_0000);
        }
        assert forall|i: int| 0 <= i < s.len() implies !(#[trigger] ups(s)[i]).nan() by {
            assert(s[i].fov.angle_up.bits % 0x8000_0000 <= 0x7f80_0000);
        }
        assert forall|i: int| 0 <= i < s.len() implies !(#[trigger] downs(s)[i]).nan() by {
            assert(s[i].fov.angle_down.bits % 0x8000_0000 <= 0x7f80_0000);
        }
    }
    assert forall|i: int| 0 <= i < s.len() implies {
        let v = (#[trigger] s[i]).fov;
        &&& !v.angle_left.less(f.angle_left)
        &&& !f.angle_right.less(v.angle_right)
        &&& !f.angle_up.less(v.angle_up)
        &&& !v.angle_down.less(f.angle_down)
    } by {
        assert(lefts(s)[i] == s[i].fov.angle_left);
        assert(rights(s)[i] == s[i].fov.angle_right);
        assert(ups(s)[i] == s[i].fov.angle_up);
        assert(downs(s)[i] == s[i].fov.angle_down);
    }
    let l = choose|i: int| 0 <= i < s.len() && lefts(s)[i] == f.angle_left;
    assert(s[l].fov.angle_left == f.angle_left);
    let r = choose|i: int| 0 <= i < s.len() && rights(s)[i] == f.angle_right;
    assert(s[r].fov.angle_right == f.angle_right);
    let u = choose|i: int| 0 <= i < s.len() && ups(s)[i] == f.angle_up;
    assert(s[u].fov.angle_up == f.angle_up);
    let d = choose|i: int| 0 <= i < s.len() && downs(s)[i] == f.angle_down;
    assert(s[d].fov.angle_down == f.angle_down);
}

/// The scales and shears of a matrix come from the tangents of the four angles:
/// two over their difference, and their sum over it. The near plane and the sign
/// of the depth stand in their places, and everything else is zero.
pub proof fn clip_entries_come_from_the_tangents<T, F>(
    fov: Fovf<T>,
    near: T,
    numbers: Numbers<T>,
    tan: F,
    m: Mat4<T>,
) where
    T: Copy + Add<Output = T> + Sub<Output = T> + Div<Output = T>,
    F: Fn(T) -> T,

    requires
        call_ensures(clip_from_fov::<T, F>, (fov, near, numbers, tan), m),
    ensures
        m.x_axis.y == numbers.zero && m.x_axis.z == numbers.zero && m.x_axis.w == numbers.zero,
        m.y_axis.x == numbers.zero && m.y_axis.z == numbers.zero && m.y_axis.w == numbers.zero,
        m.z_axis.z == numbers.zero && m.z_axis.w == numbers.minus_one,
        m.w_axis.x == numbers.zero && m.w_axis.y == numbers.zero && m.w_axis.w == numbers.zero,
        m.w_axis.z == near,
        exists|l: T, r: T, extent: T, total: T|
            #![trigger call_ensures(T::sub, (r, l), extent), call_ensures(T::add, (r, l), total)]
            call_ensures(tan, (fov.angle_left,), l) && call_ensures(tan, (fov.angle_right,), r)
                && call_ensures(T::sub, (r, l), extent) && call_ensures(T::add, (r, l), total)
                && call_ensures(T::div, (numbers.two, extent), m.x_axis.x) && call_ensures(
                T::div,
                (total, extent),
                m.z_axis.x,
            ),
        exists|d: T, u: T, extent: T, total: T|
            #![trigger call_ensures(T::sub, (u, d), extent), call_ensures(T::add, (u, d), total)]
            call_ensures(tan, (fov.angle_down,), d) && call_ensures(tan, (fov.angle_up,), u)
                && call_ensures(T::sub, (u, d), extent) && call_ensures(T::add, (u, d), total)
                && call_ensures(T::div, (numbers.two, extent), m.y_axis.y) && call_ensures(
                T::div,
                (total, extent),
                m.z_axis.y,
            ),
{
}

/// The placeholder opens equally far up and down, and equally far to both sides,
/// by the angle whose tangent is that of its upper angle times the image's width
/// over its height.
pub proof fn placeholder_is_as_wide_as_the_image<T, F, G>(
    width: T,
    height: T,
    half_vertical: T,
    tan: F,
    atan: G,
    fov: Fovf<T>,
) where
    T: Copy + Mul<Output = T> + Div<Output = T> + Neg<Output = T>,
    F: Fn(T) -> T,
    G: Fn(T) -> T,

    requires
        call_ensures(placeholder_fov::<T, F, G>, (width, height, half_vertical, tan, atan), fov),
    ensures
        fov.angle_up == half_vertical,
        call_ensures(T::neg, (half_vertical,), fov.angle_down),
        call_ensures(T::neg, (fov.angle_right,), fov.angle_left),
        exists|aspect: T, up: T, side: T|
            #![trigger call_ensures(T::div, (width, height), aspect), call_ensures(T::mul, (up, aspect), side)]
            call_ensures(T::div, (width, height), aspect) && call_ensures(
                tan,
                (half_vertical,),
                up,
            ) && call_ensures(T::mul, (up, aspect), side) && call_ensures(
                atan,
                (side,),
                fov.angle_right,
            ),
{
}

/// The stereo image is as large as the first view recommends, with one layer per
/// view, however many there are up to what a count of layers can hold. Without a
/// view there is none.
pub proof fn layout_has_a_layer_per_view(
    views: &[ViewConfigurationView],
    layout: Result<StereoLayout, SwapchainError>,
)
    requires
        call_ensures(stereo_layout, (views,), layout),
    ensures
        layout is Ok <==> views@.len() > 0,
        layout matches Err(e) ==> e is NoStereoViews,
        layout matches Ok(l) ==> {
            &&& l.resolution.x == views@[0].recommended_image_rect_width
            &&& l.resolution.y == views@[0].recommended_image_rect_height
            &&& views@.len() <= u32::MAX ==> l.view_count == views@.len()
            &&& views@.len() > u32::MAX ==> l.view_count == views@.len() % 0x1_0000_0000
        },
{
}

/// Of the four formats that the renderer can draw into, the one taken is the first
/// that the runtime offers, whatever else it offers and in whatever order. If it
/// offers none, the error lists what it does offer.
pub proof fn first_usable_format_is_taken(
    formats: Vec<u32>,
    chosen: Result<SwapchainFormat, SwapchainError>,
)
    requires
        call_ensures(choose_format, (&formats,), chosen),
    ensures
        ({
            let f = formats@;
            if f.contains(43) {
                chosen == Ok::<SwapchainFormat, SwapchainError>(
                    SwapchainFormat { vk: 43, format: TextureFormat::Rgba8UnormSrgb },
                )
            } else if f.contains(50) {
                chosen == Ok::<SwapchainFormat, SwapchainError>(
                    SwapchainFormat { vk: 50, format: TextureFormat::Bgra8UnormSrgb },
                )
            } else if f.contains(37) {
                chosen == Ok::<SwapchainFormat, SwapchainError>(
                    SwapchainFormat { vk: 37, format: TextureFormat::Rgba8Unorm },
                )
            } else if f.contains(44) {
                chosen == Ok::<SwapchainFormat, SwapchainError>(
                    SwapchainFormat { vk: 44, format: TextureFormat::Bgra8Unorm },
                )
            } else {
                &&& chosen is Err
                &&& chosen->Err_0 is NoUsableFormat
                &&& chosen->Err_0->NoUsableFormat_0@ == f
            }
        }),
{
    let f = formats@;
    best_of_four(f);
    assert(offers(f, TextureFormat::Rgba8UnormSrgb) == f.contains(43));
    assert(offers(f, TextureFormat::Bgra8UnormSrgb) == f.contains(50));
    assert(offers(f, TextureFormat::Rgba8Unorm) == f.contains(37));
    assert(offers(f, TextureFormat::Bgra8Unorm) == f.contains(44));
}

proof fn best_of_four(f: Seq<u32>)
    ensures
        forall|format: TextureFormat| #[trigger]
            offers(f, format) ==> f.contains(43) || f.contains(50) || f.contains(
                37,
            ) || f.contains(44),
{
}

/// A swapchain is planned with the layout given and the format that is chosen by
/// itself, and fails as the choice does.
pub proof fn plan_takes_the_chosen_format(
    layout: StereoLayout,
    formats: Vec<u32>,
    chosen: Result<SwapchainFormat, SwapchainError>,
    plan: Result<SwapchainPlan, SwapchainError>,
)
    requires
        call_ensures(choose_format, (&formats,), chosen),
        call_ensures(plan_swapchain, (layout, &formats), plan),
    ensures
        plan is Ok <==> chosen is Ok,
        plan matches Ok(p) ==> p.layout == layout && p.chosen == chosen->Ok_0,
        plan matches Err(e) ==> e is NoUsableFormat && e->NoUsableFormat_0@ == formats@,
{
    if plan is Ok && chosen is Ok {
        format_choice_ignores_order(
            formats@,
            formats@,
            plan->Ok_0.chosen.format,
            chosen->Ok_0.format,
        );
    }
}

/// The runtime is asked for plain images of the planned size and format, with one
/// layer per eye, to be drawn into and read back; and the renderer is told of each
/// image just that, with a view of all its layers.
pub proof fn images_are_asked_for_and_described_as_planned(
    plan: SwapchainPlan,
    info: SwapchainCreateInfo,
    texture: TextureDescriptor,
)
    requires
        call_ensures(SwapchainPlan::create_info, (&plan,), info),
        call_ensures(SwapchainPlan::texture_descriptor, (&plan,), texture),
    ensures
        !info.protected_content && !info.static_image,
        info.color_attachment && info.sampled,
        info.format == plan.chosen.vk,
        info.width == plan.layout.resolution.x && info.height == plan.layout.resolution.y,
        info.array_size == plan.layout.view_count,
        info.sample_count == 1 && info.face_count == 1 && info.mip_count == 1,
        texture.width == info.width && texture.height == info.height,
        texture.depth_or_array_layers == info.array_size,
        texture.mip_level_count == info.mip_count && texture.sample_count == info.sample_count,
        texture.format == plan.chosen.format,
        texture.render_attachment && texture.texture_binding,
        texture.dimension == TextureDimension::D2,
        texture.view_dimension == TextureViewDimension::D2Array,
{
}

/// Every image is wrapped, in its place, with the planned size and format. Only
/// without a Vulkan device, and with an image to wrap, does that fail.
pub proof fn every_image_is_wrapped_in_its_place(
    plan: SwapchainPlan,
    images: Vec<u64>,
    on_vulkan: bool,
    swapchain: Result<OpenXrSwapchain, SwapchainError>,
)
    requires
        call_ensures(SwapchainPlan::wrap_images, (&plan, &images, on_vulkan), swapchain),
    ensures
        swapchain is Ok <==> on_vulkan || images@.len() == 0,
        swapchain matches Err(e) ==> e is NotVulkan,
        swapchain matches Ok(s) ==> {
            &&& s.views@.len() == images@.len()
            &&& forall|i: int|
                0 <= i < images@.len() ==> {
                    let view = #[trigger] s.views@[i];
                    &&& view.image == images@[i]
                    &&& view.size == plan.layout.resolution
                    &&& view.view_format == plan.chosen.format
                }
            &&& s.resolution == plan.layout.resolution
            &&& s.view_count == plan.layout.view_count
            &&& s.format == plan.chosen.format
        },
{
}

/// Each error says what went wrong; the one on formats lists them all.
pub proof fn swapchain_errors_say_what_went_wrong(error: SwapchainError, message: String)
    requires
        call_ensures(SwapchainError::message, (&error,), message),
    ensures
        error is NoStereoViews ==> message@ == "runtime reported no stereo views"@,
        error is NotVulkan ==> message@ == "not running on the Vulkan backend"@,
        error matches SwapchainError::NoUsableFormat(formats) ==> message@
            == "no usable swapchain format; runtime offers "@ + ("["@ + joined(
            decimals(formats@),
            ", "@,
        ) + "]"@) + ", none of which map to a wgpu format we handle"@,
{
}

} // verus!
