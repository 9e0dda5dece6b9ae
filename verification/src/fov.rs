//! Fields of view, and the one that encloses every eye.

use vstd::prelude::*;

use crate::pose::Posef;
use crate::scalar::Scalar;

verus! {

/// A field of view as the runtime reports it: four independent half-angles.
#[derive(Clone, Copy, Debug, PartialEq, Eq, Structural)]
pub struct Fovf<T> {
    pub angle_left: T,
    pub angle_right: T,
    pub angle_up: T,
    pub angle_down: T,
}

/// What one eye looks from and at.
#[derive(Clone, Copy, Debug, PartialEq, Eq, Structural)]
pub struct EyeView {
    pub pose: Posef,
    pub fov: Fovf<Scalar>,
}

/// The lesser of two angles; of two that are equal, or cannot be compared, the
/// second.
pub open spec fn least(x: Scalar, y: Scalar) -> Scalar {
    if x.less(y) {
        x
    } else {
        y
    }
}

/// The greater of two angles; of two that are equal, or cannot be compared, the
/// second.
pub open spec fn greatest(x: Scalar, y: Scalar) -> Scalar {
    if y.less(x) {
        x
    } else {
        y
    }
}

/// The least of a list of angles, taken from the front.
pub open spec fn least_of(angles: Seq<Scalar>) -> Scalar
    decreases angles.len(),
{
    if angles.len() <= 1 {
        angles[0]
    } else {
        least(least_of(angles.drop_last()), angles.last())
    }
}

/// The greatest of a list of angles, taken from the front.
pub open spec fn greatest_of(angles: Seq<Scalar>) -> Scalar
    decreases angles.len(),
{
    if angles.len() <= 1 {
        angles[0]
    } else {
        greatest(greatest_of(angles.drop_last()), angles.last())
    }
}

/// The fields of view of a list of views.
pub open spec fn fovs(views: Seq<EyeView>) -> Seq<Fovf<Scalar>> {
    views.map_values(|v: EyeView| v.fov)
}

/// The left half-angles of a list of views.
pub open spec fn lefts(views: Seq<EyeView>) -> Seq<Scalar> {
    views.map_values(|v: EyeView| v.fov.angle_left)
}

/// The right half-angles of a list of views.
pub open spec fn rights(views: Seq<EyeView>) -> Seq<Scalar> {
    views.map_values(|v: EyeView| v.fov.angle_right)
}

/// The upper half-angles of a list of views.
pub open spec fn ups(views: Seq<EyeView>) -> Seq<Scalar> {
    views.map_values(|v: EyeView| v.fov.angle_up)
}

/// The lower half-angles of a list of views.
pub open spec fn downs(views: Seq<EyeView>) -> Seq<Scalar> {
    views.map_values(|v: EyeView| v.fov.angle_down)
}

/// The outermost angle of all views, on each side.
pub open spec fn outermost_fov(views: Seq<EyeView>) -> Fovf<Scalar> {
    Fovf {
        angle_left: least_of(lefts(views)),
        angle_right: greatest_of(rights(views)),
        angle_up: greatest_of(ups(views)),
        angle_down: least_of(downs(views)),
    }
}

/// Whether no angle of the list is a NaN.
pub open spec fn comparable(angles: Seq<Scalar>) -> bool {
    forall|i: int| 0 <= i < angles.len() ==> !(#[trigger] angles[i]).nan()
}

/// Whether no angle of any view is a NaN.
pub open spec fn comparable_views(views: Seq<EyeView>) -> bool {
    &&& comparable(lefts(views))
    &&& comparable(rights(views))
    &&& comparable(ups(views))
    &&& comparable(downs(views))
}

/// Whether `bound` lies at or below every angle of the list.
pub open spec fn reaches_below(bound: Scalar, angles: Seq<Scalar>) -> bool {
    forall|i: int| 0 <= i < angles.len() ==> bound.rank() <= (#[trigger] angles[i]).rank()
}

/// Whether `bound` lies at or above every angle of the list.
pub open spec fn reaches_above(bound: Scalar, angles: Seq<Scalar>) -> bool {
    forall|i: int| 0 <= i < angles.len() ==> bound.rank() >= (#[trigger] angles[i]).rank()
}

/// Whether a field of view contains every view: on each side it reaches at least
/// as far out.
pub open spec fn contains_views(fov: Fovf<Scalar>, views: Seq<EyeView>) -> bool {
    &&& reaches_below(fov.angle_left, lefts(views))
    &&& reaches_above(fov.angle_right, rights(views))
    &&& reaches_above(fov.angle_up, ups(views))
    &&& reaches_below(fov.angle_down, downs(views))
}

/// Whether each angle of a field of view is that angle of some view.
pub open spec fn touches_views(fov: Fovf<Scalar>, views: Seq<EyeView>) -> bool {
    &&& lefts(views).contains(fov.angle_left)
    &&& rights(views).contains(fov.angle_right)
    &&& ups(views).contains(fov.angle_up)
    &&& downs(views).contains(fov.angle_down)
}

fn lesser_angle(x: Scalar, y: Scalar) -> (r: Scalar)
    ensures
        r == least(x, y),
{
    if x.is_less_than(&y) {
        x
    } else {
        y
    }
}

fn greater_angle(x: Scalar, y: Scalar) -> (r: Scalar)
    ensures
        r == greatest(x, y),
{
    if y.is_less_than(&x) {
        x
    } else {
        y
    }
}

/// The least field of view that contains every supplied view.
///
/// The per-eye projections are drawn through, but culling goes by the camera's
/// own projection. Left at its default, a camera would cull geometry the eyes
/// can actually see. This one is guaranteed to contain every eye's frustum,
/// whichever way the eyes are canted, so culling by it never removes anything
/// visible. It over-includes slightly, which is the correct direction to err.
///
/// A NaN is no angle, and nothing contains it: where one is met, the angle that
/// comes later is taken.
pub fn enclosing_fov(views: &[EyeView]) -> (fov: Option<Fovf<Scalar>>)
    ensures
        views@.len() == 0 ==> fov is None,
        views@.len() > 0 ==> fov == Some(outermost_fov(views@)),
        views@.len() > 0 ==> touches_views(fov->0, views@),
        views@.len() > 0 && comparable_views(views@) ==> contains_views(fov->0, views@),
{
    if views.len() == 0 {
        return None;
    }
    let mut fov = views[0].fov;
    let mut i: usize = 1;
    while i < views.len()
        invariant
            1 <= i <= views.len(),
            fov.angle_left == least_of(lefts(views@).take(i as int)),
            fov.angle_right == greatest_of(rights(views@).take(i as int)),
            fov.angle_up == greatest_of(ups(views@).take(i as int)),
            fov.angle_down == least_of(downs(views@).take(i as int)),
        decreases views.len() - i,
    {
        proof {
            least_of_next(lefts(views@), i as int);
            greatest_of_next(rights(views@), i as int);
            greatest_of_next(ups(views@), i as int);
            least_of_next(downs(views@), i as int);
        }
        let next = views[i].fov;
        fov = Fovf {
            angle_left: lesser_angle(fov.angle_left, next.angle_left),
            angle_right: greater_angle(fov.angle_right, next.angle_right),
            angle_up: greater_angle(fov.angle_up, next.angle_up),
            angle_down: lesser_angle(fov.angle_down, next.angle_down),
        };
        i += 1;
    }
    proof {
        assert(lefts(views@).take(i as int) =~= lefts(views@));
        assert(rights(views@).take(i as int) =~= rights(views@));
        assert(ups(views@).take(i as int) =~= ups(views@));
        assert(downs(views@).take(i as int) =~= downs(views@));
        outermost_fov_bounds(views@);
    }
    Some(fov)
}

proof fn least_of_next(angles: Seq<Scalar>, i: int)
    requires
        1 <= i < angles.len(),
    ensures
        least_of(angles.take(i + 1)) == least(least_of(angles.take(i)), angles[i]),
{
    assert(angles.take(i + 1).drop_last() =~= angles.take(i));
}

proof fn greatest_of_next(angles: Seq<Scalar>, i: int)
    requires
        1 <= i < angles.len(),
    ensures
        greatest_of(angles.take(i + 1)) == greatest(greatest_of(angles.take(i)), angles[i]),
{
    assert(angles.take(i + 1).drop_last() =~= angles.take(i));
}

proof fn least_of_bounds(angles: Seq<Scalar>)
    requires
        angles.len() > 0,
    ensures
        angles.contains(least_of(angles)),
        comparable(angles) ==> reaches_below(least_of(angles), angles),
    decreases angles.len(),
{
    if angles.len() == 1 {
        assert(angles.contains(angles[0]));
    } else {
        let front = angles.drop_last();
        least_of_bounds(front);
        assert(angles.contains(angles.last()));
        assert(forall|i: int| 0 <= i < front.len() ==> front[i] == angles[i]);
        let k = choose|k: int| 0 <= k < front.len() && front[k] == least_of(front);
        assert(angles[k] == least_of(front));
        if comparable(angles) {
            assert forall|i: int| 0 <= i < front.len() implies !(#[trigger] front[i]).nan() by {
                assert(!angles[i].nan());
            }
            assert forall|i: int| 0 <= i < angles.len() implies least_of(angles).rank() <= (
            #[trigger] angles[i]).rank() by {
                if i < front.len() {
                    assert(least_of(front).rank() <= front[i].rank());
                }
            }
        }
    }
}

proof fn greatest_of_bounds(angles: Seq<Scalar>)
    requires
        angles.len() > 0,
    ensures
        angles.contains(greatest_of(angles)),
        comparable(angles) ==> reaches_above(greatest_of(angles), angles),
    decreases angles.len(),
{
    if angles.len() == 1 {
        assert(angles.contains(angles[0]));
    } else {
        let front = angles.drop_last();
        greatest_of_bounds(front);
        assert(angles.contains(angles.last()));
        assert(forall|i: int| 0 <= i < front.len() ==> front[i] == angles[i]);
        let k = choose|k: int| 0 <= k < front.len() && front[k] == greatest_of(front);
        assert(angles[k] == greatest_of(front));
        if comparable(angles) {
            assert forall|i: int| 0 <= i < front.len() implies !(#[trigger] front[i]).nan() by {
                assert(!angles[i].nan());
            }
            assert forall|i: int| 0 <= i < angles.len() implies greatest_of(angles).rank() >= (
            #[trigger] angles[i]).rank() by {
                if i < front.len() {
                    assert(greatest_of(front).rank() >= front[i].rank());
                }
            }
        }
    }
}

proof fn outermost_fov_bounds(views: Seq<EyeView>)
    requires
        views.len() > 0,
    ensures
        touches_views(outermost_fov(views), views),
        comparable_views(views) ==> contains_views(outermost_fov(views), views),
{
    least_of_bounds(lefts(views));
    greatest_of_bounds(rights(views));
    greatest_of_bounds(ups(views));
    least_of_bounds(downs(views));
}

/// The enclosing field of view contains every view, whatever the signs of their
/// angles, and it is the least that does: any other one that contains every view
/// reaches at least as far out on every side.
pub proof fn enclosing_fov_is_the_least_that_contains_every_view(
    views: Seq<EyeView>,
    other: Fovf<Scalar>,
)
    requires
        views.len() > 0,
        comparable_views(views),
    ensures
        contains_views(outermost_fov(views), views),
        contains_views(other, views) ==> {
            &&& other.angle_left.rank() <= outermost_fov(views).angle_left.rank()
            &&& other.angle_right.rank() >= outermost_fov(views).angle_right.rank()
            &&& other.angle_up.rank() >= outermost_fov(views).angle_up.rank()
            &&& other.angle_down.rank() <= outermost_fov(views).angle_down.rank()
        },
{
    outermost_fov_bounds(views);
}

/// Whether every view opens outwards: left and down at or below zero, right and
/// up at or above it.
pub open spec fn opens_outwards(views: Seq<EyeView>) -> bool {
    forall|i: int|
        0 <= i < views.len() ==> {
            let fov = (#[trigger] views[i]).fov;
            &&& fov.angle_left.rank() <= 0
            &&& fov.angle_right.rank() >= 0
            &&& fov.angle_up.rank() >= 0
            &&& fov.angle_down.rank() <= 0
        }
}

/// Of views that open outwards, the enclosing field of view takes the wider
/// half-angle on every side: none of any view has a greater absolute value.
pub proof fn enclosing_fov_is_the_widest_of_each_side(views: Seq<EyeView>)
    requires
        views.len() > 0,
        comparable_views(views),
        opens_outwards(views),
    ensures
        forall|i: int|
            0 <= i < views.len() ==> {
                let fov = (#[trigger] views[i]).fov;
                &&& fov.angle_left.size() <= outermost_fov(views).angle_left.size()
                &&& fov.angle_right.size() <= outermost_fov(views).angle_right.size()
                &&& fov.angle_up.size() <= outermost_fov(views).angle_up.size()
                &&& fov.angle_down.size() <= outermost_fov(views).angle_down.size()
            },
{
    outermost_fov_bounds(views);
    assert forall|i: int| 0 <= i < views.len() implies {
        let fov = (#[trigger] views[i]).fov;
        &&& fov.angle_left.size() <= outermost_fov(views).angle_left.size()
        &&& fov.angle_right.size() <= outermost_fov(views).angle_right.size()
        &&& fov.angle_up.size() <= outermost_fov(views).angle_up.size()
        &&& fov.angle_down.size() <= outermost_fov(views).angle_down.size()
    } by {
        assert(lefts(views)[i] == views[i].fov.angle_left);
        assert(rights(views)[i] == views[i].fov.angle_right);
        assert(ups(views)[i] == views[i].fov.angle_up);
        assert(downs(views)[i] == views[i].fov.angle_down);
    }
}

proof fn listed_in_both(a: Seq<EyeView>, b: Seq<EyeView>, i: int) -> (k: int)
    requires
        0 <= i < a.len(),
        forall|f: Fovf<Scalar>| fovs(a).contains(f) <==> fovs(b).contains(f),
    ensures
        0 <= k < b.len(),
        b[k].fov == a[i].fov,
{
    assert(fovs(a)[i] == a[i].fov);
    assert(fovs(a).contains(a[i].fov));
    let k = choose|k: int| 0 <= k < fovs(b).len() && fovs(b)[k] == a[i].fov;
    assert(fovs(b)[k] == b[k].fov);
    k
}

proof fn bound_of_one_is_bound_of_other(a: Seq<EyeView>, b: Seq<EyeView>)
    requires
        a.len() > 0,
        comparable_views(a),
        forall|f: Fovf<Scalar>| fovs(a).contains(f) <==> fovs(b).contains(f),
    ensures
        b.len() > 0,
        comparable_views(b),
        contains_views(outermost_fov(a), b),
{
    let first = listed_in_both(a, b, 0);
    outermost_fov_bounds(a);
    let fov = outermost_fov(a);
    assert forall|i: int| 0 <= i < b.len() implies ({
        let v = (#[trigger] b[i]).fov;
        &&& !v.angle_left.nan() && fov.angle_left.rank() <= v.angle_left.rank()
        &&& !v.angle_right.nan() && fov.angle_right.rank() >= v.angle_right.rank()
        &&& !v.angle_up.nan() && fov.angle_up.rank() >= v.angle_up.rank()
        &&& !v.angle_down.nan() && fov.angle_down.rank() <= v.angle_down.rank()
    }) by {
        let k = listed_in_both(b, a, i);
        assert(lefts(a)[k] == b[i].fov.angle_left);
        assert(rights(a)[k] == b[i].fov.angle_right);
        assert(ups(a)[k] == b[i].fov.angle_up);
        assert(downs(a)[k] == b[i].fov.angle_down);
    }
}

/// The enclosing field of view does not depend on the order in which the views
/// are listed, nor on how often, nor on where the eyes are: the same fields of
/// view give the same angles.
pub proof fn enclosing_fov_ignores_order(a: Seq<EyeView>, b: Seq<EyeView>)
    requires
        a.len() > 0,
        comparable_views(a),
        forall|f: Fovf<Scalar>| fovs(a).contains(f) <==> fovs(b).contains(f),
    ensures
        outermost_fov(a).angle_left.rank() == outermost_fov(b).angle_left.rank(),
        outermost_fov(a).angle_right.rank() == outermost_fov(b).angle_right.rank(),
        outermost_fov(a).angle_up.rank() == outermost_fov(b).angle_up.rank(),
        outermost_fov(a).angle_down.rank() == outermost_fov(b).angle_down.rank(),
{
    bound_of_one_is_bound_of_other(a, b);
    bound_of_one_is_bound_of_other(b, a);
    outermost_fov_bounds(a);
    outermost_fov_bounds(b);
}

} // verus!
