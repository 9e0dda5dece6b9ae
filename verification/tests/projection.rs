use bevy::math::ops;
use bevy::math::{Mat4, Vec4};
use bevy_openxr_poc::fov::{enclosing_fov, EyeView, Fovf};
use bevy_openxr_poc::pose::{
    transform_from_pose, Posef, Quaternionf, Transform, Vector3f,
};
use bevy_openxr_poc::projection::{
    clip_from_fov, placeholder_fov, Numbers, PLACEHOLDER_HALF_VERTICAL, XR_NEAR,
};
use bevy_openxr_poc::scalar::Scalar;

fn bits(x: f32) -> Scalar {
    Scalar::from_bits(x.to_bits())
}

fn near() -> f32 {
    f32::from_bits(XR_NEAR)
}

fn fov(left: f32, right: f32, up: f32, down: f32) -> Fovf<f32> {
    Fovf { angle_left: left, angle_right: right, angle_up: up, angle_down: down }
}

fn fov_bits(left: f32, right: f32, up: f32, down: f32) -> Fovf<Scalar> {
    Fovf {
        angle_left: bits(left),
        angle_right: bits(right),
        angle_up: bits(up),
        angle_down: bits(down),
    }
}

fn view(left: f32, right: f32, up: f32, down: f32) -> EyeView {
    EyeView { pose: Posef::identity(), fov: fov_bits(left, right, up, down) }
}

fn clip(fov: Fovf<f32>, near: f32) -> Mat4 {
    let m = clip_from_fov(fov, near, Numbers { zero: 0.0, two: 2.0, minus_one: -1.0 }, ops::tan);
    Mat4::from_cols(
        Vec4::new(m.x_axis.x, m.x_axis.y, m.x_axis.z, m.x_axis.w),
        Vec4::new(m.y_axis.x, m.y_axis.y, m.y_axis.z, m.y_axis.w),
        Vec4::new(m.z_axis.x, m.z_axis.y, m.z_axis.z, m.z_axis.w),
        Vec4::new(m.w_axis.x, m.w_axis.y, m.w_axis.z, m.w_axis.w),
    )
}

/// A symmetric FOV, expressed the way a runtime would report it.
fn symmetric(vertical_fov: f32, aspect: f32) -> Fovf<f32> {
    let half_vertical = vertical_fov / 2.0;
    let half_horizontal = ops::atan(ops::tan(half_vertical) * aspect);
    fov(-half_horizontal, half_horizontal, half_vertical, -half_vertical)
}

/// The matrix must collapse to Bevy's own for the symmetric case. It pins the
/// convention against the function that `PerspectiveProjection` uses.
#[test]
fn symmetric_fov_matches_bevys_perspective() {
    for &(fov, aspect) in &[
        (core::f32::consts::PI / 4.0, 16.0 / 9.0),
        (core::f32::consts::PI / 2.0, 896.0 / 1007.0),
        (1.7, 1.0),
    ] {
        let ours = clip(symmetric(fov, aspect), near());
        let bevys = Mat4::perspective_infinite_reverse_rh(fov, aspect, near());

        assert!(
            ours.abs_diff_eq(bevys, 1e-5),
            "fov={fov} aspect={aspect}\nours:  {ours:?}\nbevy: {bevys:?}"
        );
    }
}

/// Reverse-Z: a point on the near plane lands at NDC z = 1, and distance drives
/// z toward 0.
#[test]
fn reverse_z_maps_near_to_one() {
    let clip_from_view = clip(symmetric(core::f32::consts::PI / 2.0, 1.0), near());

    // View space looks down -Z, so the near plane is at z = -near.
    let near_point = clip_from_view * Vec4::new(0.0, 0.0, -near(), 1.0);
    assert!((near_point.z / near_point.w - 1.0).abs() < 1e-5);

    let far_point = clip_from_view * Vec4::new(0.0, 0.0, -1000.0, 1.0);
    let ndc_z = far_point.z / far_point.w;
    assert!((0.0..0.001).contains(&ndc_z), "distant z was {ndc_z}");
}

/// An asymmetric FOV must put the frustum edges exactly on the NDC edges.
#[test]
fn asymmetric_fov_maps_frustum_edges_to_ndc_edges() {
    // Deliberately lopsided, in the direction a left eye actually reports.
    let fov = fov(-0.95, 0.75, 0.8, -0.9);
    let clip_from_view = clip(fov, near());

    // A point on the left edge of the frustum, one metre out.
    let depth = 1.0f32;
    let edge = |angle: f32| depth * ops::tan(angle);

    let left = clip_from_view * Vec4::new(edge(fov.angle_left), 0.0, -depth, 1.0);
    assert!(
        (left.x / left.w + 1.0).abs() < 1e-5,
        "left edge -> {}",
        left.x / left.w
    );

    let right = clip_from_view * Vec4::new(edge(fov.angle_right), 0.0, -depth, 1.0);
    assert!(
        (right.x / right.w - 1.0).abs() < 1e-5,
        "right edge -> {}",
        right.x / right.w
    );

    let up = clip_from_view * Vec4::new(0.0, edge(fov.angle_up), -depth, 1.0);
    assert!(
        (up.y / up.w - 1.0).abs() < 1e-5,
        "up edge -> {}",
        up.y / up.w
    );

    let down = clip_from_view * Vec4::new(0.0, edge(fov.angle_down), -depth, 1.0);
    assert!(
        (down.y / down.w + 1.0).abs() < 1e-5,
        "down edge -> {}",
        down.y / down.w
    );
}

/// OpenXR and Bevy share a coordinate convention, so this is a rename.
/// The test exists to catch someone "correcting" it with a negation.
#[test]
fn pose_conversion_is_component_wise() {
    let pose = Posef {
        position: Vector3f { x: bits(0.032), y: bits(1.6), z: bits(-0.25) },
        orientation: Quaternionf { x: bits(0.1), y: bits(0.2), z: bits(0.3), w: bits(0.927) },
    };
    let transform = transform_from_pose(pose);

    assert_eq!(
        transform.translation,
        Vector3f { x: bits(0.032), y: bits(1.6), z: bits(-0.25) }
    );
    assert_eq!(
        transform.rotation,
        Quaternionf { x: bits(0.1), y: bits(0.2), z: bits(0.3), w: bits(0.927) }
    );
    assert_eq!(transform.scale, Vector3f { x: bits(1.0), y: bits(1.0), z: bits(1.0) });
}

/// The culling projection must contain both eyes, taking the wider half-angle on
/// every side rather than either eye's own.
#[test]
fn enclosing_fov_takes_the_widest_of_each_side() {
    let views = [view(-0.95, 0.75, 0.8, -0.7), view(-0.75, 0.95, 0.7, -0.9)];

    let fov = enclosing_fov(&views).expect("two views were supplied");
    assert_eq!(fov.angle_left, bits(-0.95));
    assert_eq!(fov.angle_right, bits(0.95));
    assert_eq!(fov.angle_up, bits(0.8));
    assert_eq!(fov.angle_down, bits(-0.9));
}

#[test]
fn enclosing_fov_of_nothing_is_none() {
    assert!(enclosing_fov(&[]).is_none());
}

#[test]
fn enclosing_fov_of_one_view_is_its_own() {
    let only = view(-0.5, 0.25, 1.0, -1.25);
    assert_eq!(enclosing_fov(&[only]), Some(only.fov));
}

#[test]
fn enclosing_fov_contains_views_that_open_either_way() {
    let fov = enclosing_fov(&[view(-0.5, 0.5, 0.5, -0.5), view(0.5, -0.5, -0.5, 0.5)]).unwrap();
    assert_eq!(fov, fov_bits(-0.5, 0.5, 0.5, -0.5));
}

#[test]
fn enclosing_fov_contains_canted_views() {
    let views = [view(0.1, 0.9, 0.5, -0.5), view(-0.05, 0.6, 0.5, -0.5)];
    assert_eq!(enclosing_fov(&views), Some(fov_bits(-0.05, 0.9, 0.5, -0.5)));
    let views = [view(-0.1, 0.5, -0.2, -0.5), view(0.4, 0.5, -0.3, -0.6)];
    assert_eq!(enclosing_fov(&views), Some(fov_bits(-0.1, 0.5, -0.2, -0.6)));
}

#[test]
fn enclosing_fov_does_not_depend_on_the_order() {
    let (a, b, c) =
        (view(0.1, 0.9, 0.5, -0.5), view(-0.05, 0.6, 0.7, -0.5), view(-0.2, 0.3, 0.1, -0.9));
    let expected = Some(fov_bits(-0.2, 0.9, 0.7, -0.9));
    assert_eq!(enclosing_fov(&[a, b, c]), expected);
    assert_eq!(enclosing_fov(&[c, a, b, a]), expected);
}

#[test]
fn where_an_angle_is_a_nan_the_later_one_is_taken() {
    let nan = f32::NAN;
    let a = enclosing_fov(&[view(nan, nan, nan, nan), view(0.1, 0.1, 0.1, 0.1)]).unwrap();
    assert_eq!(a, fov_bits(0.1, 0.1, 0.1, 0.1));
    let b = enclosing_fov(&[view(0.1, 0.1, 0.1, 0.1), view(nan, nan, nan, nan)]).unwrap();
    for angle in [b.angle_left, b.angle_right, b.angle_up, b.angle_down] {
        assert!(f32::from_bits(angle.bits).is_nan());
    }
}

#[test]
fn bit_patterns_compare_as_their_numbers_do() {
    let samples = [
        0.0f32,
        -0.0,
        f32::MIN_POSITIVE,
        -f32::MIN_POSITIVE,
        f32::from_bits(1),
        1e-20,
        -0.5,
        0.5,
        0.75,
        -0.95,
        1.0,
        -1.0,
        3.4e38,
        -3.4e38,
        f32::MAX,
        f32::MIN,
        f32::INFINITY,
        f32::NEG_INFINITY,
        f32::NAN,
        -f32::NAN,
    ];
    for &x in &samples {
        assert_eq!(bits(x).abs_bits(), x.abs().to_bits());
        assert_eq!(bits(x).negated().bits, (-x).to_bits());
        for &y in &samples {
            assert_eq!(bits(x).is_less_than(&bits(y)), x < y, "{x} against {y}");
        }
    }
}

#[test]
fn negating_twice_gives_the_number_back() {
    for x in [0.0f32, -0.0, 1.5, -7.25] {
        assert_eq!(bits(x).negated().negated(), bits(x));
    }
}

#[test]
fn identity_pose_gives_the_identity_transform() {
    let t = transform_from_pose(Posef::identity());
    let zero = bits(0.0);
    let one = bits(1.0);
    assert_eq!(
        t,
        Transform {
            translation: Vector3f { x: zero, y: zero, z: zero },
            rotation: Quaternionf { x: zero, y: zero, z: zero, w: one },
            scale: Vector3f { x: one, y: one, z: one },
        }
    );
}

#[test]
fn clip_entries_stand_where_they_belong() {
    // Tangents that need no rounding: the angles stand for themselves.
    let m = clip_from_fov(
        fov(-3.0, 1.0, 2.0, -2.0),
        0.25,
        Numbers { zero: 0.0, two: 2.0, minus_one: -1.0 },
        |x: f32| x,
    );
    assert_eq!((m.x_axis.x, m.x_axis.y, m.x_axis.z, m.x_axis.w), (0.5, 0.0, 0.0, 0.0));
    assert_eq!((m.y_axis.x, m.y_axis.y, m.y_axis.z, m.y_axis.w), (0.0, 0.5, 0.0, 0.0));
    assert_eq!((m.z_axis.x, m.z_axis.y, m.z_axis.z, m.z_axis.w), (-0.5, 0.0, 0.0, -1.0));
    assert_eq!((m.w_axis.x, m.w_axis.y, m.w_axis.z, m.w_axis.w), (0.0, 0.0, 0.25, 0.0));
}

#[test]
fn near_plane_is_five_centimetres() {
    assert_eq!(near(), 0.05);
}

#[test]
fn placeholder_is_symmetric_and_as_wide_as_the_image() {
    let half_vertical = f32::from_bits(PLACEHOLDER_HALF_VERTICAL);
    assert_eq!(half_vertical, core::f32::consts::PI / 8.0);
    let fov = placeholder_fov(1920.0f32, 1080.0, half_vertical, ops::tan, ops::atan);
    let half_horizontal = ops::atan(ops::tan(half_vertical) * (1920.0f32 / 1080.0));
    assert_eq!(fov.angle_right, half_horizontal);
    assert_eq!(fov.angle_left, -half_horizontal);
    assert_eq!(fov.angle_up, half_vertical);
    assert_eq!(fov.angle_down, -half_vertical);
}

#[test]
fn placeholder_matches_bevys_default_perspective() {
    let half_vertical = f32::from_bits(PLACEHOLDER_HALF_VERTICAL);
    for (width, height) in [(1920.0f32, 1080.0f32), (896.0, 1007.0), (1.0, 1.0)] {
        let fov = placeholder_fov(width, height, half_vertical, ops::tan, ops::atan);
        let bevys = Mat4::perspective_infinite_reverse_rh(
            core::f32::consts::PI / 4.0,
            width / height,
            near(),
        );
        assert!(clip(fov, near()).abs_diff_eq(bevys, 1e-5));
    }
}

#[test]
fn placeholder_does_not_depend_on_the_scale() {
    let half_vertical = f32::from_bits(PLACEHOLDER_HALF_VERTICAL);
    let placeholder = |width: f32, height: f32| {
        placeholder_fov(width, height, half_vertical, ops::tan, ops::atan)
    };
    assert_eq!(placeholder(896.0, 1008.0), placeholder(1792.0, 2016.0));
}

#[test]
fn mirrored_fov_negates_the_shear() {
    let m = clip(fov(-0.95, 0.75, 0.8, -0.9), near());
    let mut expected = m;
    expected.z_axis.x = -m.z_axis.x;
    assert!(clip(fov(-0.75, 0.95, 0.8, -0.9), near()).abs_diff_eq(expected, 1e-6));
    let mut expected = m;
    expected.z_axis.y = -m.z_axis.y;
    assert!(clip(fov(-0.95, 0.75, 0.9, -0.8), near()).abs_diff_eq(expected, 1e-6));
}

#[test]
fn one_symmetric_axis_has_no_shear() {
    let m = clip(fov(-0.75, 0.75, 0.8, -0.9), near());
    assert!(m.z_axis.x.abs() < 1e-6);
    assert!(m.z_axis.y.abs() > 0.01);
}

#[test]
fn image_shows_what_the_frustum_holds() {
    let m = clip(fov(-0.95, 0.75, 0.8, -0.9), near());
    let ndc_x = |x: f32| {
        let p = m * Vec4::new(x, 0.0, -2.0, 1.0);
        p.x / p.w
    };
    assert!(ndc_x(2.0 * ops::tan(0.74)) < 1.0);
    assert!(ndc_x(2.0 * ops::tan(0.76)) > 1.0);
    assert!(ndc_x(2.0 * ops::tan(-0.94)) > -1.0);
    assert!(ndc_x(2.0 * ops::tan(-0.96)) < -1.0);
}
