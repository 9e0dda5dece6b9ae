//! The matrices that fields of view are drawn through.
//!
//! The convention is Bevy's: right-handed view space, infinite far plane,
//! reverse-Z (near maps to one, infinity to zero), depth between zero and one.
//!
//! The functions work on any type of number: they say which operations are
//! applied to what, and leave it to the type what an operation gives. The laws
//! speak of real numbers: some of exact operations, and some of operations that
//! round what they give, as those of single precision do.

use core::ops::{Add, Div, Mul, Neg, Sub};

use vstd::prelude::*;
use vstd::std_specs::ops::{AddSpec, DivSpec, MulSpec, NegSpec, SubSpec};

use crate::fov::Fovf;

verus! {

/// The bit pattern of the near plane of the per-eye projections: five
/// centimetres, in metres.
///
/// Closer than Bevy's default of ten: in a headset your hands come well inside
/// that, and reverse-Z gives up almost nothing for a near plane this small.
pub const XR_NEAR: u32 = 0x3d4c_cccd;

/// Four numbers.
#[derive(Debug, PartialEq, Eq)]
pub struct Vec4<T> {
    pub x: T,
    pub y: T,
    pub z: T,
    pub w: T,
}

/// A matrix, by its columns.
#[derive(Debug, PartialEq, Eq)]
pub struct Mat4<T> {
    pub x_axis: Vec4<T>,
    pub y_axis: Vec4<T>,
    pub z_axis: Vec4<T>,
    pub w_axis: Vec4<T>,
}

/// The numbers that every matrix is built with.
#[derive(Debug, PartialEq, Eq)]
pub struct Numbers<T> {
    pub zero: T,
    pub two: T,
    pub minus_one: T,
}

/// Whether `a + b` can give `c`.
pub open spec fn is_sum<T: Add<Output = T>>(a: T, b: T, c: T) -> bool {
    call_ensures(T::add, (a, b), c)
}

/// Whether `a - b` can give `c`.
pub open spec fn is_difference<T: Sub<Output = T>>(a: T, b: T, c: T) -> bool {
    call_ensures(T::sub, (a, b), c)
}

/// Whether `a * b` can give `c`.
pub open spec fn is_product<T: Mul<Output = T>>(a: T, b: T, c: T) -> bool {
    call_ensures(T::mul, (a, b), c)
}

/// Whether `a / b` can give `c`.
pub open spec fn is_quotient<T: Div<Output = T>>(a: T, b: T, c: T) -> bool {
    call_ensures(T::div, (a, b), c)
}

/// Whether `-a` can give `b`.
pub open spec fn is_opposite<T: Neg<Output = T>>(a: T, b: T) -> bool {
    call_ensures(T::neg, (a,), b)
}

/// Whether a frustum that reaches from the tangent `low` to the tangent `high`
/// along one axis is scaled by `2 / (high - low)` and sheared by
/// `(high + low) / (high - low)`, where `sum`, `difference` and `quotient` say
/// what the operations give.
pub open spec fn is_axis<T>(
    low: T,
    high: T,
    two: T,
    scale: T,
    shear: T,
    sum: spec_fn(T, T, T) -> bool,
    difference: spec_fn(T, T, T) -> bool,
    quotient: spec_fn(T, T, T) -> bool,
) -> bool {
    exists|extent: T, total: T| #[trigger]
        difference(high, low, extent) && #[trigger] sum(high, low, total) && quotient(
            two,
            extent,
            scale,
        ) && quotient(total, extent, shear)
}

/// Whether `m` is the matrix of a frustum between the tangents `l`, `r`, `u` and
/// `d` with its near plane at `near`. The z column carries the frustum's
/// off-centre shear.
pub open spec fn is_clip<T>(
    l: T,
    r: T,
    u: T,
    d: T,
    near: T,
    numbers: Numbers<T>,
    m: Mat4<T>,
    sum: spec_fn(T, T, T) -> bool,
    difference: spec_fn(T, T, T) -> bool,
    quotient: spec_fn(T, T, T) -> bool,
) -> bool {
    let zero = numbers.zero;
    &&& is_axis(l, r, numbers.two, m.x_axis.x, m.z_axis.x, sum, difference, quotient)
    &&& is_axis(d, u, numbers.two, m.y_axis.y, m.z_axis.y, sum, difference, quotient)
    &&& m.x_axis == (Vec4 { x: m.x_axis.x, y: zero, z: zero, w: zero })
    &&& m.y_axis == (Vec4 { x: zero, y: m.y_axis.y, z: zero, w: zero })
    &&& m.z_axis == (Vec4 { x: m.z_axis.x, y: m.z_axis.y, z: zero, w: numbers.minus_one })
    &&& m.w_axis == (Vec4 { x: zero, y: zero, z: near, w: zero })
}

/// Builds the matrix from view space to clip space from a field of view.
///
/// Runtimes report asymmetric fields of view: the four half-angles are
/// independent, and on most headsets the outer angle is wider than the inner
/// one. `tan` gives the tangent of an angle.
pub fn clip_from_fov<T, F>(fov: Fovf<T>, near: T, numbers: Numbers<T>, tan: F) -> (m: Mat4<T>) where
    T: Copy + Add<Output = T> + Sub<Output = T> + Div<Output = T>,
    F: Fn(T) -> T,

    requires
        forall|angle: T| #[trigger] call_requires(tan, (angle,)),
        forall|a: T, b: T| #[trigger] a.add_req(b),
        forall|a: T, b: T| #[trigger] a.sub_req(b),
        forall|a: T, b: T| #[trigger] a.div_req(b),
    ensures
        exists|l: T, r: T, u: T, d: T| #[trigger]
            call_ensures(tan, (fov.angle_left,), l) && #[trigger] call_ensures(
                tan,
                (fov.angle_right,),
                r,
            ) && #[trigger] call_ensures(tan, (fov.angle_up,), u) && #[trigger] call_ensures(
                tan,
                (fov.angle_down,),
                d,
            ) && is_clip(
                l,
                r,
                u,
                d,
                near,
                numbers,
                m,
                |a: T, b: T, c: T| is_sum(a, b, c),
                |a: T, b: T, c: T| is_difference(a, b, c),
                |a: T, b: T, c: T| is_quotient(a, b, c),
            ),
{
    let tan_left = tan(fov.angle_left);
    let tan_right = tan(fov.angle_right);
    let tan_up = tan(fov.angle_up);
    let tan_down = tan(fov.angle_down);
    let tan_width = tan_right - tan_left;
    let tan_height = tan_up - tan_down;
    let sum_x = tan_right + tan_left;
    let sum_y = tan_up + tan_down;
    let zero = numbers.zero;
    let m = Mat4 {
        x_axis: Vec4 { x: numbers.two / tan_width, y: zero, z: zero, w: zero },
        y_axis: Vec4 { x: zero, y: numbers.two / tan_height, z: zero, w: zero },
        z_axis: Vec4 { x: sum_x / tan_width, y: sum_y / tan_height, z: zero, w: numbers.minus_one },
        w_axis: Vec4 { x: zero, y: zero, z: near, w: zero },
    };
    proof {
        let sum = |a: T, b: T, c: T| is_sum(a, b, c);
        let difference = |a: T, b: T, c: T| is_difference(a, b, c);
        let quotient = |a: T, b: T, c: T| is_quotient(a, b, c);
        assert(difference(tan_right, tan_left, tan_width) && sum(tan_right, tan_left, sum_x));
        assert(difference(tan_up, tan_down, tan_height) && sum(tan_up, tan_down, sum_y));
    }
    m
}

/// The bit pattern of half the vertical field of view of Bevy's default
/// perspective: an eighth of pi.
pub const PLACEHOLDER_HALF_VERTICAL: u32 = 0x3ec9_0fdb;

/// Whether `fov` is the symmetric field of view that opens `half_vertical` up and
/// down, and to the sides the angle whose tangent is that of `half_vertical`
/// times `width / height`; `quotient`, `product`, `opposite`, `tan` and `atan`
/// say what the operations give.
pub open spec fn is_placeholder<T>(
    width: T,
    height: T,
    half_vertical: T,
    fov: Fovf<T>,
    quotient: spec_fn(T, T, T) -> bool,
    product: spec_fn(T, T, T) -> bool,
    opposite: spec_fn(T, T) -> bool,
    tan: spec_fn(T, T) -> bool,
    atan: spec_fn(T, T) -> bool,
) -> bool {
    &&& exists|aspect: T, up: T, side: T| #[trigger]
        quotient(width, height, aspect) && #[trigger] tan(half_vertical, up) && #[trigger] product(
            up,
            aspect,
            side,
        ) && atan(side, fov.angle_right)
    &&& opposite(fov.angle_right, fov.angle_left)
    &&& fov.angle_up == half_vertical
    &&& opposite(half_vertical, fov.angle_down)
}

/// A symmetric field of view that is as much wider than high as the image is:
/// `half_vertical` up and down, and to the sides the angle whose tangent is that
/// of `half_vertical` times `width / height`.
///
/// With half the vertical angle of Bevy's default perspective it matches that
/// perspective. A placeholder for what the runtime reports of each eye. `tan`
/// gives the tangent of an angle, and `atan` the angle of a tangent.
pub fn placeholder_fov<T, F, G>(width: T, height: T, half_vertical: T, tan: F, atan: G) -> (fov:
    Fovf<T>) where
    T: Copy + Mul<Output = T> + Div<Output = T> + Neg<Output = T>,
    F: Fn(T) -> T,
    G: Fn(T) -> T,

    requires
        forall|angle: T| #[trigger] call_requires(tan, (angle,)),
        forall|tangent: T| #[trigger] call_requires(atan, (tangent,)),
        forall|a: T, b: T| #[trigger] a.mul_req(b),
        forall|a: T, b: T| #[trigger] a.div_req(b),
        forall|a: T| #[trigger] a.neg_req(),
    ensures
        is_placeholder(
            width,
            height,
            half_vertical,
            fov,
            |a: T, b: T, c: T| is_quotient(a, b, c),
            |a: T, b: T, c: T| is_product(a, b, c),
            |a: T, b: T| is_opposite(a, b),
            |angle: T, tangent: T| call_ensures(tan, (angle,), tangent),
            |tangent: T, angle: T| call_ensures(atan, (tangent,), angle),
        ),
{
    let aspect = width / height;
    let up = tan(half_vertical);
    let side = up * aspect;
    let half_horizontal = atan(side);
    proof {
        let quotient = |a: T, b: T, c: T| is_quotient(a, b, c);
        let product = |a: T, b: T, c: T| is_product(a, b, c);
        let tan_of = |angle: T, tangent: T| call_ensures(tan, (angle,), tangent);
        assert(quotient(width, height, aspect) && tan_of(half_vertical, up) && product(
            up,
            aspect,
            side,
        ));
    }
    Fovf {
        angle_left: half_horizontal.neg(),
        angle_right: half_horizontal,
        angle_up: half_vertical,
        angle_down: half_vertical.neg(),
    }
}

/// A matrix applied to a point, in exact arithmetic.
pub open spec fn applied(m: Mat4<real>, p: Vec4<real>) -> Vec4<real> {
    Vec4 {
        x: m.x_axis.x * p.x + m.y_axis.x * p.y + m.z_axis.x * p.z + m.w_axis.x * p.w,
        y: m.x_axis.y * p.x + m.y_axis.y * p.y + m.z_axis.y * p.z + m.w_axis.y * p.w,
        z: m.x_axis.z * p.x + m.y_axis.z * p.y + m.z_axis.z * p.z + m.w_axis.z * p.w,
        w: m.x_axis.w * p.x + m.y_axis.w * p.y + m.z_axis.w * p.z + m.w_axis.w * p.w,
    }
}

/// Whether `m` is the matrix of the frustum between the tangents `l`, `r`, `u`
/// and `d`, in an arithmetic whose operations give the exact result, rounded.
pub open spec fn is_rounded_clip(
    l: real,
    r: real,
    u: real,
    d: real,
    near: real,
    m: Mat4<real>,
    round: spec_fn(real) -> real,
) -> bool {
    is_clip(
        l,
        r,
        u,
        d,
        near,
        Numbers { zero: 0 as real, two: 2 as real, minus_one: -(1 as real) },
        m,
        |a: real, b: real, c: real| c == round(a + b),
        |a: real, b: real, c: real| c == round(a - b),
        |a: real, b: real, c: real| b != 0 as real && c == round(a / b),
    )
}

/// Whether `m` is the matrix of the frustum between the tangents `l`, `r`, `u`
/// and `d`, in exact arithmetic.
pub open spec fn is_exact_clip(
    l: real,
    r: real,
    u: real,
    d: real,
    near: real,
    m: Mat4<real>,
) -> bool {
    is_rounded_clip(l, r, u, d, near, m, |x: real| x)
}

/// Whether `f` takes opposite numbers to opposite numbers, as tangents do, and
/// rounding to nearest.
pub open spec fn is_odd(f: spec_fn(real) -> real) -> bool {
    forall|x: real| #[trigger] f(-x) == -f(x)
}

/// Whether `m` is the matrix of a field of view, in an arithmetic that rounds,
/// where `tan` gives the tangents of its angles.
pub open spec fn is_rounded_clip_of(
    fov: Fovf<real>,
    near: real,
    tan: spec_fn(real) -> real,
    m: Mat4<real>,
    round: spec_fn(real) -> real,
) -> bool {
    is_rounded_clip(
        tan(fov.angle_left),
        tan(fov.angle_right),
        tan(fov.angle_up),
        tan(fov.angle_down),
        near,
        m,
        round,
    )
}

/// A point in view space, which looks down -z: `x` to the right, `y` up, and
/// `depth` ahead.
pub open spec fn ahead(x: real, y: real, depth: real) -> Vec4<real> {
    Vec4 { x, y, z: -depth, w: 1 as real }
}

proof fn rounded_axes(
    l: real,
    r: real,
    u: real,
    d: real,
    near: real,
    m: Mat4<real>,
    round: spec_fn(real) -> real,
)
    requires
        is_rounded_clip(l, r, u, d, near, m, round),
    ensures
        round(r - l) != 0 as real,
        round(u - d) != 0 as real,
        m.x_axis.x == round((2 as real) / round(r - l)),
        m.y_axis.y == round((2 as real) / round(u - d)),
        m.z_axis.x == round(round(r + l) / round(r - l)),
        m.z_axis.y == round(round(u + d) / round(u - d)),
{
}

proof fn exact_axes(l: real, r: real, u: real, d: real, near: real, m: Mat4<real>)
    requires
        is_exact_clip(l, r, u, d, near, m),
    ensures
        r != l,
        u != d,
        m.x_axis.x == (2 as real) / (r - l),
        m.y_axis.y == (2 as real) / (u - d),
        m.z_axis.x == (r + l) / (r - l),
        m.z_axis.y == (u + d) / (u - d),
{
    rounded_axes(l, r, u, d, near, m, |x: real| x);
}

proof fn clip_of_point(
    l: real,
    r: real,
    u: real,
    d: real,
    near: real,
    m: Mat4<real>,
    x: real,
    y: real,
    depth: real,
)
    requires
        is_exact_clip(l, r, u, d, near, m),
    ensures
        applied(m, ahead(x, y, depth)) == (Vec4 {
            x: m.x_axis.x * x - m.z_axis.x * depth,
            y: m.y_axis.y * y - m.z_axis.y * depth,
            z: near,
            w: depth,
        }),
{
    let zero = 0 as real;
    let z = -depth;
    let x_shear = m.z_axis.x;
    let y_shear = m.z_axis.y;
    assert(x_shear * z == -(x_shear * depth) && y_shear * z == -(y_shear * depth)) by (
    nonlinear_arith)
        requires
            z == -depth,
    ;
    assert(zero * x == zero && zero * y == zero && zero * z == zero) by (nonlinear_arith)
        requires
            zero == 0 as real,
    ;
    assert(-(1 as real) * z == depth && near * (1 as real) == near) by (nonlinear_arith)
        requires
            z == -depth,
    ;
}

/// Reverse-Z, in exact arithmetic: a point on the near plane lands at depth one,
/// wherever it stands on the plane, and what is farther off lands nearer to
/// zero without reaching it: less than any `gap` away, once it is far enough off.
pub proof fn reverse_z_maps_near_to_one_and_far_to_zero(
    l: real,
    r: real,
    u: real,
    d: real,
    near: real,
    m: Mat4<real>,
    x: real,
    y: real,
    depth: real,
    farther: real,
    gap: real,
)
    requires
        is_exact_clip(l, r, u, d, near, m),
        (0 as real) < near,
        (0 as real) < depth < farther,
    ensures
        ({
            let on_near = applied(m, ahead(x, y, near));
            let a = applied(m, ahead(x, y, depth));
            let b = applied(m, ahead(x, y, farther));
            &&& on_near.z / on_near.w == 1 as real
            &&& a.z / a.w == near / depth
            &&& (0 as real) < b.z / b.w < a.z / a.w
            &&& near < gap * farther ==> b.z / b.w < gap
        }),
{
    clip_of_point(l, r, u, d, near, m, x, y, near);
    clip_of_point(l, r, u, d, near, m, x, y, depth);
    clip_of_point(l, r, u, d, near, m, x, y, farther);
    assert(near / near == 1 as real) by (nonlinear_arith)
        requires
            near > 0 as real,
    ;
    assert((0 as real) < near / farther < near / depth) by (nonlinear_arith)
        requires
            near > 0 as real,
            (0 as real) < depth < farther,
    ;
    if near < gap * farther {
        assert(near / farther < gap) by (nonlinear_arith)
            requires
                near < gap * farther,
                (0 as real) < farther,
        ;
    }
}

/// In exact arithmetic the edges of the frustum land exactly on the edges of
/// the image, at any depth and however lopsided the field of view: left on -1,
/// right on 1, up on 1 and down on -1.
pub proof fn frustum_edges_map_to_ndc_edges(
    l: real,
    r: real,
    u: real,
    d: real,
    near: real,
    m: Mat4<real>,
    across: real,
    depth: real,
)
    requires
        is_exact_clip(l, r, u, d, near, m),
        (0 as real) < depth,
    ensures
        ({
            let left = applied(m, ahead(depth * l, across, depth));
            let right = applied(m, ahead(depth * r, across, depth));
            let up = applied(m, ahead(across, depth * u, depth));
            let down = applied(m, ahead(across, depth * d, depth));
            &&& left.x / left.w == -(1 as real)
            &&& right.x / right.w == 1 as real
            &&& up.y / up.w == 1 as real
            &&& down.y / down.w == -(1 as real)
        }),
{
    exact_axes(l, r, u, d, near, m);
    clip_of_point(l, r, u, d, near, m, depth * l, across, depth);
    clip_of_point(l, r, u, d, near, m, depth * r, across, depth);
    clip_of_point(l, r, u, d, near, m, across, depth * u, depth);
    clip_of_point(l, r, u, d, near, m, across, depth * d, depth);
    edge_lands(m.x_axis.x, m.z_axis.x, l, r, depth);
    edge_lands(m.y_axis.y, m.z_axis.y, d, u, depth);
}

proof fn edge_lands(scale: real, shear: real, low: real, high: real, depth: real)
    requires
        high != low,
        scale == (2 as real) / (high - low),
        shear == (high + low) / (high - low),
        (0 as real) < depth,
    ensures
        (scale * (depth * low) - shear * depth) / depth == -(1 as real),
        (scale * (depth * high) - shear * depth) / depth == 1 as real,
{
    let extent = high - low;
    assert(scale * extent == 2 as real && shear * extent == high + low) by (nonlinear_arith)
        requires
            extent == high - low,
            extent != 0 as real,
            scale == (2 as real) / extent,
            shear == (high + low) / extent,
    ;
    // The edges, once the depth is divided out.
    assert(scale * low - shear == -(1 as real) && scale * high - shear == 1 as real) by (
    nonlinear_arith)
        requires
            extent == high - low,
            extent != 0 as real,
            scale * extent == 2 as real,
            shear * extent == high + low,
    ;
    assert((scale * (depth * low) - shear * depth) / depth == scale * low - shear) by (
    nonlinear_arith)
        requires
            depth > 0 as real,
    ;
    assert((scale * (depth * high) - shear * depth) / depth == scale * high - shear) by (
    nonlinear_arith)
        requires
            depth > 0 as real,
    ;
}

/// In exact arithmetic what is drawn is what lies inside the frustum: a point
/// ahead lands within the image exactly if it lies between the edges, on either
/// axis.
pub proof fn image_shows_what_the_frustum_holds(
    l: real,
    r: real,
    u: real,
    d: real,
    near: real,
    m: Mat4<real>,
    x: real,
    y: real,
    depth: real,
)
    requires
        is_exact_clip(l, r, u, d, near, m),
        l < r,
        d < u,
        (0 as real) < depth,
    ensures
        ({
            let p = applied(m, ahead(x, y, depth));
            &&& (-(1 as real) <= p.x / p.w <= 1 as real) <==> (depth * l <= x <= depth * r)
            &&& (-(1 as real) <= p.y / p.w <= 1 as real) <==> (depth * d <= y <= depth * u)
        }),
{
    exact_axes(l, r, u, d, near, m);
    clip_of_point(l, r, u, d, near, m, x, y, depth);
    point_lands(m.x_axis.x, m.z_axis.x, l, r, x, depth);
    point_lands(m.y_axis.y, m.z_axis.y, d, u, y, depth);
}

proof fn point_lands(scale: real, shear: real, low: real, high: real, at: real, depth: real)
    requires
        low < high,
        scale == (2 as real) / (high - low),
        shear == (high + low) / (high - low),
        (0 as real) < depth,
    ensures
        (-(1 as real) <= (scale * at - shear * depth) / depth <= 1 as real) <==> (depth * low <= at
            <= depth * high),
{
    let one = 1 as real;
    let span = depth * (high - low);
    let landed = (scale * at - shear * depth) / depth;
    let extent = high - low;
    assert(scale * extent == 2 as real && shear * extent == high + low) by (nonlinear_arith)
        requires
            extent == high - low,
            extent != 0 as real,
            scale == (2 as real) / extent,
            shear == (high + low) / extent,
    ;
    assert(landed * depth == scale * at - shear * depth) by (nonlinear_arith)
        requires
            depth > 0 as real,
            landed == (scale * at - shear * depth) / depth,
    ;
    // Twice the distance from the middle of the span between the edges.
    assert(landed * (depth * extent) == (2 as real) * at - depth * (high + low)) by (
    nonlinear_arith)
        requires
            landed * depth == scale * at - shear * depth,
            scale * extent == 2 as real,
            shear * extent == high + low,
    ;
    assert(span == depth * extent && span > 0 as real && span == depth * high - depth * low) by (
    nonlinear_arith)
        requires
            span == depth * (high - low),
            extent == high - low,
            extent > 0 as real,
            depth > 0 as real,
    ;
    assert(depth * (high + low) == depth * high + depth * low) by (nonlinear_arith);
    let scaled = landed * span;
    assert((-one <= landed) == (-span <= scaled) && (landed <= one) == (scaled <= span)) by (
    nonlinear_arith)
        requires
            span > 0 as real,
            scaled == landed * span,
            one == 1 as real,
    ;
}

/// The symmetric perspective that is `aspect` times as wide as high, where
/// `tan_half` is the tangent of half its vertical angle: infinite and reverse-Z.
pub open spec fn perspective(tan_half: real, aspect: real, near: real) -> Mat4<real> {
    let zero = 0 as real;
    let one = 1 as real;
    Mat4 {
        x_axis: Vec4 { x: one / (aspect * tan_half), y: zero, z: zero, w: zero },
        y_axis: Vec4 { x: zero, y: one / tan_half, z: zero, w: zero },
        z_axis: Vec4 { x: zero, y: zero, z: zero, w: -one },
        w_axis: Vec4 { x: zero, y: zero, z: near, w: zero },
    }
}

/// In exact arithmetic a field of view that opens equally far to both sides
/// collapses to the matrix of a symmetric perspective: no shear, and scales that
/// are the inverses of the tangents.
pub proof fn symmetric_fov_is_a_perspective(h: real, v: real, near: real, m: Mat4<real>)
    requires
        is_exact_clip(-h, h, v, -v, near, m),
    ensures
        ({
            let zero = 0 as real;
            let one = 1 as real;
            m == (Mat4 {
                x_axis: Vec4 { x: one / h, y: zero, z: zero, w: zero },
                y_axis: Vec4 { x: zero, y: one / v, z: zero, w: zero },
                z_axis: Vec4 { x: zero, y: zero, z: zero, w: -one },
                w_axis: Vec4 { x: zero, y: zero, z: near, w: zero },
            })
        }),
{
    exact_axes(-h, h, v, -v, near, m);
    unsheared(m.x_axis.x, m.z_axis.x, h);
    unsheared(m.y_axis.y, m.z_axis.y, v);
}

/// Each axis is sheared by itself: a field of view that opens equally far to the
/// left and to the right is not sheared sideways, whatever it does vertically,
/// and one that opens equally far up and down is not sheared vertically. So it is
/// in any arithmetic that rounds opposite results alike.
pub proof fn symmetric_axis_is_not_sheared(
    fov: Fovf<real>,
    near: real,
    tan: spec_fn(real) -> real,
    m: Mat4<real>,
    round: spec_fn(real) -> real,
)
    requires
        is_odd(tan),
        is_odd(round),
        is_rounded_clip_of(fov, near, tan, m, round),
    ensures
        fov.angle_left == -fov.angle_right ==> m.z_axis.x == 0 as real,
        fov.angle_down == -fov.angle_up ==> m.z_axis.y == 0 as real,
{
    let r = tan(fov.angle_right);
    let u = tan(fov.angle_up);
    rounded_axes(tan(fov.angle_left), r, u, tan(fov.angle_down), near, m, round);
    if fov.angle_left == -fov.angle_right {
        assert(tan(-fov.angle_right) == -r);
        rounded_unsheared(round, r);
    }
    if fov.angle_down == -fov.angle_up {
        assert(tan(-fov.angle_up) == -u);
        rounded_unsheared(round, u);
    }
}

proof fn rounded_unsheared(round: spec_fn(real) -> real, half: real)
    requires
        is_odd(round),
        round(half - (-half)) != 0 as real,
    ensures
        round(round(half + (-half)) / round(half - (-half))) == 0 as real,
{
    let zero = 0 as real;
    let extent = round(half - (-half));
    assert(round(-zero) == -round(zero));
    assert(half + (-half) == zero);
    assert(zero / extent == zero) by (nonlinear_arith)
        requires
            zero == 0 as real,
            extent != 0 as real,
    ;
}

/// A field of view with left and right exchanged, as one eye sees what the other
/// does in a mirror.
pub open spec fn mirrored(fov: Fovf<real>) -> Fovf<real> {
    Fovf { angle_left: -fov.angle_right, angle_right: -fov.angle_left, ..fov }
}

/// A field of view with up and down exchanged.
pub open spec fn upended(fov: Fovf<real>) -> Fovf<real> {
    Fovf { angle_up: -fov.angle_down, angle_down: -fov.angle_up, ..fov }
}

/// The mirrored field of view has the same matrix but for the sideways shear,
/// which is negated; and the upended one has the same matrix but for the vertical
/// shear, which is negated. So it is in any arithmetic that rounds opposite
/// results alike.
pub proof fn mirrored_fov_negates_the_shear(
    fov: Fovf<real>,
    near: real,
    tan: spec_fn(real) -> real,
    m: Mat4<real>,
    other: Mat4<real>,
    round: spec_fn(real) -> real,
)
    requires
        is_odd(tan),
        is_odd(round),
        is_rounded_clip_of(fov, near, tan, m, round),
    ensures
        is_rounded_clip_of(mirrored(fov), near, tan, other, round) ==> other == (Mat4 {
            z_axis: Vec4 { x: -m.z_axis.x, ..m.z_axis },
            ..m
        }),
        is_rounded_clip_of(upended(fov), near, tan, other, round) ==> other == (Mat4 {
            z_axis: Vec4 { y: -m.z_axis.y, ..m.z_axis },
            ..m
        }),
{
    let l = tan(fov.angle_left);
    let r = tan(fov.angle_right);
    let u = tan(fov.angle_up);
    let d = tan(fov.angle_down);
    assert(tan(-fov.angle_left) == -l && tan(-fov.angle_right) == -r);
    assert(tan(-fov.angle_up) == -u && tan(-fov.angle_down) == -d);
    rounded_axes(l, r, u, d, near, m, round);
    if is_rounded_clip_of(mirrored(fov), near, tan, other, round) {
        rounded_axes(-r, -l, u, d, near, other, round);
        turned_axis(round, l, r);
    }
    if is_rounded_clip_of(upended(fov), near, tan, other, round) {
        rounded_axes(l, r, -d, -u, near, other, round);
        turned_axis(round, d, u);
    }
}

proof fn turned_axis(round: spec_fn(real) -> real, low: real, high: real)
    requires
        is_odd(round),
        round(high - low) != 0 as real,
    ensures
        round(-low - (-high)) == round(high - low),
        round(round(-low + (-high)) / round(-low - (-high))) == -round(
            round(high + low) / round(high - low),
        ),
{
    let extent = round(high - low);
    let total = round(high + low);
    assert(-low - (-high) == high - low);
    assert(-low + (-high) == -(high + low));
    assert(round(-(high + low)) == -total);
    assert((-total) / extent == -(total / extent)) by (nonlinear_arith)
        requires
            extent != 0 as real,
    ;
    assert(round(-(total / extent)) == -round(total / extent));
}

/// Whether `fov` is the placeholder of an image, in an arithmetic that rounds,
/// where `tan` and `atan` give tangents and the angles of tangents.
pub open spec fn is_rounded_placeholder(
    width: real,
    height: real,
    half_vertical: real,
    fov: Fovf<real>,
    tan: spec_fn(real) -> real,
    atan: spec_fn(real) -> real,
    round: spec_fn(real) -> real,
) -> bool {
    is_placeholder(
        width,
        height,
        half_vertical,
        fov,
        |a: real, b: real, c: real| b != 0 as real && c == round(a / b),
        |a: real, b: real, c: real| c == round(a * b),
        |a: real, b: real| b == -a,
        |angle: real, tangent: real| tangent == tan(angle),
        |tangent: real, angle: real| angle == atan(tangent),
    )
}

proof fn rounded_placeholder(
    width: real,
    height: real,
    half_vertical: real,
    fov: Fovf<real>,
    tan: spec_fn(real) -> real,
    atan: spec_fn(real) -> real,
    round: spec_fn(real) -> real,
)
    requires
        is_rounded_placeholder(width, height, half_vertical, fov, tan, atan, round),
    ensures
        height != 0 as real,
        fov.angle_right == atan(round(tan(half_vertical) * round(width / height))),
        fov.angle_left == -fov.angle_right,
        fov.angle_up == half_vertical,
        fov.angle_down == -half_vertical,
{
}

/// In exact arithmetic the matrix of the placeholder is the symmetric perspective
/// with its vertical angle and the image's ratio of width to height.
pub proof fn placeholder_matches_the_perspective(
    width: real,
    height: real,
    half_vertical: real,
    near: real,
    tan: spec_fn(real) -> real,
    atan: spec_fn(real) -> real,
    fov: Fovf<real>,
    m: Mat4<real>,
)
    requires
        is_odd(tan),
        forall|tangent: real| #[trigger] tan(atan(tangent)) == tangent,
        is_rounded_placeholder(width, height, half_vertical, fov, tan, atan, |x: real| x),
        is_rounded_clip_of(fov, near, tan, m, |x: real| x),
    ensures
        m == perspective(tan(half_vertical), width / height, near),
{
    let v = tan(half_vertical);
    let aspect = width / height;
    let h = v * aspect;
    rounded_placeholder(width, height, half_vertical, fov, tan, atan, |x: real| x);
    assert(tan(atan(h)) == h);
    assert(tan(-fov.angle_right) == -h && tan(-half_vertical) == -v);
    symmetric_fov_is_a_perspective(h, v, near, m);
    assert(v * aspect == aspect * v) by (nonlinear_arith);
}

/// Whether `value` differs from `target` by at most the fraction `error` of it.
pub open spec fn is_near(value: real, target: real, error: real) -> bool {
    target * (1 as real - error) <= value <= target * (1 as real + error)
}

/// Whether `f` gives each number that is not negative back, but for the fraction
/// `error` of it.
pub open spec fn gives_back(f: spec_fn(real) -> real, error: real) -> bool {
    forall|x: real| x >= 0 as real ==> is_near(#[trigger] f(x), x, error)
}

/// Up to rounding the matrix of the placeholder is the symmetric perspective with
/// its vertical angle and the image's ratio of width to height: where every
/// operation is off by at most the fraction `e`, and the tangent of the angle of a
/// tangent by at most `f`, both scales are as near to those of the perspective as
/// the operations leading to them allow, and nothing else differs at all. The
/// operations of single precision are off by so little where they neither overflow
/// nor underflow.
pub proof fn placeholder_matches_the_perspective_up_to_rounding(
    width: real,
    height: real,
    half_vertical: real,
    near: real,
    tan: spec_fn(real) -> real,
    atan: spec_fn(real) -> real,
    round: spec_fn(real) -> real,
    e: real,
    f: real,
    fov: Fovf<real>,
    m: Mat4<real>,
)
    requires
        (0 as real) < width,
        (0 as real) < height,
        (0 as real) < tan(half_vertical),
        (0 as real) <= e < 1 as real,
        (0 as real) <= f < 1 as real,
        is_odd(tan),
        is_odd(round),
        gives_back(round, e),
        gives_back(|tangent: real| tan(atan(tangent)), f),
        is_rounded_placeholder(width, height, half_vertical, fov, tan, atan, round),
        is_rounded_clip_of(fov, near, tan, m, round),
    ensures
        ({
            let p = perspective(tan(half_vertical), width / height, near);
            let under = 1 as real - e;
            let over = 1 as real + e;
            &&& p.x_axis.x * under / (over * over * (1 as real + f) * over) <= m.x_axis.x
                <= p.x_axis.x * over / (under * under * (1 as real - f) * under)
            &&& p.y_axis.y * under / over <= m.y_axis.y <= p.y_axis.y * over / under
            &&& m == (Mat4 {
                x_axis: Vec4 { x: m.x_axis.x, ..p.x_axis },
                y_axis: Vec4 { y: m.y_axis.y, ..p.y_axis },
                ..p
            })
        }),
{
    let one = 1 as real;
    let under = one - e;
    let over = one + e;
    let v = tan(half_vertical);
    let exact = width / height;
    let aspect = round(exact);
    let side = round(v * aspect);
    let back = |tangent: real| tan(atan(tangent));
    let h = tan(fov.angle_right);
    rounded_placeholder(width, height, half_vertical, fov, tan, atan, round);
    assert(tan(-fov.angle_right) == -h && tan(-half_vertical) == -v);
    rounded_axes(-h, h, v, -v, near, m, round);
    rounded_unsheared(round, h);
    rounded_unsheared(round, v);

    assert(exact > 0 as real) by (nonlinear_arith)
        requires
            width > 0 as real,
            height > 0 as real,
            exact == width / height,
    ;
    assert(is_near(aspect, exact, e));
    scaled_bounds(exact, one, one, exact, aspect, e);
    scaled_product(exact, under, over, aspect, v);
    let t = v * exact;
    assert(is_near(side, v * aspect, e));
    scaled_bounds(t, under, over, v * aspect, side, e);
    assert(h == back(side));
    assert(is_near(back(side), side, f));
    scaled_bounds(t, under * under, over * over, side, h, f);
    half_scale(round, t, under * under * (one - f), over * over * (one + f), h, e);
    half_scale(round, v, one, one, v, e);
    assert(v * exact == exact * v) by (nonlinear_arith);
    assert(one * under == under && one * over == over) by (nonlinear_arith)
        requires
            one == 1 as real,
    ;
}

/// What is near to a number between the multiples `low` and `high` of `t` lies
/// between the multiples that are farther off by `error`.
proof fn scaled_bounds(t: real, low: real, high: real, from: real, value: real, error: real)
    requires
        (0 as real) < t,
        (0 as real) < low,
        (0 as real) < high,
        (0 as real) <= error < 1 as real,
        t * low <= from <= t * high,
        is_near(value, from, error),
    ensures
        (0 as real) < low * (1 as real - error),
        (0 as real) < high * (1 as real + error),
        (0 as real) < value,
        t * (low * (1 as real - error)) <= value <= t * (high * (1 as real + error)),
{
    let under = 1 as real - error;
    let over = 1 as real + error;
    assert(low * under > 0 as real && high * over > 0 as real) by (nonlinear_arith)
        requires
            low > 0 as real,
            high > 0 as real,
            under > 0 as real,
            over > 0 as real,
    ;
    assert(t * (low * under) <= from * under && from * over <= t * (high * over)) by (
    nonlinear_arith)
        requires
            t * low <= from <= t * high,
            under > 0 as real,
            over > 0 as real,
    ;
    assert(t * (low * under) > 0 as real) by (nonlinear_arith)
        requires
            t > 0 as real,
            low * under > 0 as real,
    ;
}

proof fn scaled_product(t: real, low: real, high: real, value: real, v: real)
    by (nonlinear_arith)
    requires
        (0 as real) < t,
        (0 as real) < v,
        t * low <= value <= t * high,
        (0 as real) < value,
    ensures
        (0 as real) < v * t,
        (0 as real) < v * value,
        (v * t) * low <= v * value <= (v * t) * high,
{
}

/// The scale of a symmetric axis, whose edges are at a tangent between the
/// multiples `low` and `high` of `t`.
proof fn half_scale(
    round: spec_fn(real) -> real,
    t: real,
    low: real,
    high: real,
    half: real,
    e: real,
)
    requires
        (0 as real) < t,
        (0 as real) < low,
        (0 as real) < high,
        (0 as real) <= e < 1 as real,
        t * low <= half <= t * high,
        gives_back(round, e),
    ensures
        ({
            let scale = round((2 as real) / round(half - (-half)));
            let target = (1 as real) / t;
            let under = 1 as real - e;
            let over = 1 as real + e;
            target * under / (high * over) <= scale <= target * over / (low * under)
        }),
{
    let two = 2 as real;
    let under = 1 as real - e;
    let over = 1 as real + e;
    let extent = round(half - (-half));
    let exact = two / extent;
    let target = (1 as real) / t;
    let span = two * t;
    assert(half - (-half) == two * half);
    assert(span > 0 as real && span * low <= two * half <= span * high && two * half > 0 as real)
        by (nonlinear_arith)
        requires
            two == 2 as real,
            span == two * t,
            t > 0 as real,
            low > 0 as real,
            t * low <= half <= t * high,
    ;
    scaled_bounds(span, low, high, two * half, extent, e);
    let least = low * under;
    let most = high * over;
    inverse_bounds(t, least, most, extent);
    assert(exact >= 0 as real) by (nonlinear_arith)
        requires
            extent > 0 as real,
            two == 2 as real,
            exact == two / extent,
    ;
    let scale = round(exact);
    assert(is_near(scale, exact, e));
    assert(target / most * under <= exact * under && exact * over <= target / least * over) by (
    nonlinear_arith)
        requires
            target / most <= exact <= target / least,
            under > 0 as real,
            over > 0 as real,
    ;
    assert(target / most * under == target * under / most) by (nonlinear_arith)
        requires
            most > 0 as real,
    ;
    assert(target / least * over == target * over / least) by (nonlinear_arith)
        requires
            least > 0 as real,
    ;
}

proof fn inverse_bounds(t: real, low: real, high: real, extent: real)
    requires
        (0 as real) < t,
        (0 as real) < low,
        (0 as real) < high,
        (0 as real) < extent,
        ((2 as real) * t) * low <= extent <= ((2 as real) * t) * high,
    ensures
        ((1 as real) / t) / high <= (2 as real) / extent <= ((1 as real) / t) / low,
{
    let target = (1 as real) / t;
    let exact = (2 as real) / extent;
    let most = target / low;
    let least = target / high;
    assert(exact * extent == 2 as real) by (nonlinear_arith)
        requires
            extent > 0 as real,
            exact == (2 as real) / extent,
    ;
    assert(target * t == 1 as real) by (nonlinear_arith)
        requires
            t > 0 as real,
            target == (1 as real) / t,
    ;
    assert(most * low == target && least * high == target) by (nonlinear_arith)
        requires
            low > 0 as real,
            high > 0 as real,
            most == target / low,
            least == target / high,
    ;
    // Each bound, multiplied by its own end of the range, gives two.
    let shortest = ((2 as real) * t) * low;
    let longest = ((2 as real) * t) * high;
    assert(most * shortest == 2 as real && shortest > 0 as real) by (nonlinear_arith)
        requires
            most * low == target,
            target * t == 1 as real,
            shortest == ((2 as real) * t) * low,
            t > 0 as real,
            low > 0 as real,
    ;
    assert(least * longest == 2 as real && longest > 0 as real) by (nonlinear_arith)
        requires
            least * high == target,
            target * t == 1 as real,
            longest == ((2 as real) * t) * high,
            t > 0 as real,
            high > 0 as real,
    ;
    assert(exact <= most) by (nonlinear_arith)
        requires
            exact * extent == 2 as real,
            most * shortest == 2 as real,
            (0 as real) < shortest <= extent,
    ;
    assert(least <= exact) by (nonlinear_arith)
        requires
            exact * extent == 2 as real,
            least * longest == 2 as real,
            (0 as real) < extent <= longest,
    ;
}

/// The placeholder depends on the shape of the image alone: an image that is `k`
/// times as wide and `k` times as high has the same one. So it is in any
/// arithmetic that rounds.
pub proof fn placeholder_ignores_the_scale(
    width: real,
    height: real,
    k: real,
    half_vertical: real,
    tan: spec_fn(real) -> real,
    atan: spec_fn(real) -> real,
    round: spec_fn(real) -> real,
    fov: Fovf<real>,
    scaled: Fovf<real>,
)
    requires
        k != 0 as real,
        is_rounded_placeholder(width, height, half_vertical, fov, tan, atan, round),
        is_rounded_placeholder(k * width, k * height, half_vertical, scaled, tan, atan, round),
    ensures
        scaled == fov,
{
    rounded_placeholder(width, height, half_vertical, fov, tan, atan, round);
    rounded_placeholder(k * width, k * height, half_vertical, scaled, tan, atan, round);
    assert((k * width) / (k * height) == width / height) by (nonlinear_arith)
        requires
            k != 0 as real,
            height != 0 as real,
    ;
}

proof fn unsheared(scale: real, shear: real, half: real)
    by (nonlinear_arith)
    requires
        half != -half,
        scale == (2 as real) / (half - (-half)),
        shear == (half + (-half)) / (half - (-half)),
    ensures
        shear == 0 as real,
        scale == (1 as real) / half,
{
}

} // verus!
