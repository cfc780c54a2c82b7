//! Drag handles in world space. A tool exposes some of its anchors (or, for
//! the rectangle, all four corners) as handles; dragging handle `k` to a
//! target moves the stored points so that handle `k` lands on the target.

use vstd::prelude::*;
use super::point::WorldPoint;
use super::tools::ToolKind;

verus! {

/// The four corners of the box spanned by `a` and `b`, in the fixed order
/// `(a.index, a.price)`, `(b.index, a.price)`, `(b.index, b.price)`,
/// `(a.index, b.price)`. The order does not depend on which corner is
/// visually top-left, so dragging stays consistent when the box flips.
pub open spec fn rect_corners<T>(a: WorldPoint<T>, b: WorldPoint<T>) -> Seq<WorldPoint<T>> {
    seq![
        WorldPoint { index: a.index, price: a.price },
        WorldPoint { index: b.index, price: a.price },
        WorldPoint { index: b.index, price: b.price },
        WorldPoint { index: a.index, price: b.price },
    ]
}

/// Handles of a drawing as world points. `None` for the range measure,
/// whose handles are the corners of its box in screen space.
pub open spec fn handle_anchors<T>(kind: ToolKind, pts: Seq<WorldPoint<T>>) -> Option<
    Seq<WorldPoint<T>>,
> {
    match kind {
        ToolKind::HorizontalLine | ToolKind::VerticalLine | ToolKind::HorizontalRay => Some(
            if pts.len() >= 1 {
                seq![pts[0]]
            } else {
                Seq::empty()
            },
        ),
        ToolKind::TrendLine | ToolKind::Extended | ToolKind::Ray | ToolKind::FibRetracement => Some(
            if pts.len() >= 2 {
                seq![pts[0], pts[1]]
            } else {
                Seq::empty()
            },
        ),
        ToolKind::Rectangle => Some(
            if pts.len() >= 2 {
                rect_corners(pts[0], pts[1])
            } else {
                Seq::empty()
            },
        ),
        ToolKind::RangeMeasure => None,
        ToolKind::Pitchfork | ToolKind::Polyline | ToolKind::ShortPosition
        | ToolKind::TrendChannel => Some(pts),
    }
}

/// Points after dragging handle `idx` to `target`.
pub open spec fn moved_points<T>(
    kind: ToolKind,
    pts: Seq<WorldPoint<T>>,
    idx: int,
    target: WorldPoint<T>,
) -> Seq<WorldPoint<T>> {
    if kind == ToolKind::Rectangle {
        if pts.len() < 2 {
            pts
        } else if idx == 0 {
            pts.update(0, target)
        } else if idx == 1 {
            pts.update(1, WorldPoint { index: target.index, price: pts[1].price }).update(
                0,
                WorldPoint { index: pts[0].index, price: target.price },
            )
        } else if idx == 2 {
            pts.update(1, target)
        } else if idx == 3 {
            pts.update(0, WorldPoint { index: target.index, price: pts[0].price }).update(
                1,
                WorldPoint { index: pts[1].index, price: target.price },
            )
        } else {
            pts
        }
    } else if 0 <= idx < pts.len() {
        pts.update(idx, target)
    } else {
        pts
    }
}

/// World handles of a drawing of `kind` with points `pts`.
pub fn world_handles<T: Copy>(kind: ToolKind, pts: &Vec<WorldPoint<T>>) -> (r: Option<
    Vec<WorldPoint<T>>,
>)
    ensures
        match handle_anchors(kind, pts@) {
            Some(h) => r matches Some(v) && v@ == h,
            None => r is None,
        },
{
    match kind {
        ToolKind::HorizontalLine | ToolKind::VerticalLine | ToolKind::HorizontalRay => {
            let mut v: Vec<WorldPoint<T>> = Vec::new();
            if pts.len() >= 1 {
                v.push(pts[0]);
            }
            proof {
                if pts@.len() >= 1 {
                    assert(v@ =~= seq![pts@[0]]);
                } else {
                    assert(v@ =~= Seq::<WorldPoint<T>>::empty());
                }
            }
            Some(v)
        },
        ToolKind::TrendLine | ToolKind::Extended | ToolKind::Ray | ToolKind::FibRetracement => {
            let mut v: Vec<WorldPoint<T>> = Vec::new();
            if pts.len() >= 2 {
                v.push(pts[0]);
                v.push(pts[1]);
            }
            proof {
                if pts@.len() >= 2 {
                    assert(v@ =~= seq![pts@[0], pts@[1]]);
                } else {
                    assert(v@ =~= Seq::<WorldPoint<T>>::empty());
                }
            }
            Some(v)
        },
        ToolKind::Rectangle => {
            let mut v: Vec<WorldPoint<T>> = Vec::new();
            if pts.len() >= 2 {
                let a = pts[0];
                let b = pts[1];
                v.push(WorldPoint { index: a.index, price: a.price });
                v.push(WorldPoint { index: b.index, price: a.price });
                v.push(WorldPoint { index: b.index, price: b.price });
                v.push(WorldPoint { index: a.index, price: b.price });
            }
            proof {
                if pts@.len() >= 2 {
                    assert(v@ =~= rect_corners(pts@[0], pts@[1]));
                } else {
                    assert(v@ =~= Seq::<WorldPoint<T>>::empty());
                }
            }
            Some(v)
        },
        ToolKind::RangeMeasure => None,
        _ => {
            let mut v: Vec<WorldPoint<T>> = Vec::new();
            let mut i: usize = 0;
            while i < pts.len()
                invariant
                    i <= pts@.len(),
                    v@ == pts@.subrange(0, i as int),
                decreases pts@.len() - i,
            {
                v.push(pts[i]);
                proof {
                    assert(v@ =~= pts@.subrange(0, i + 1));
                }
                i = i + 1;
            }
            proof {
                assert(v@ =~= pts@);
            }
            Some(v)
        },
    }
}

/// Drag handle `idx` of a drawing of `kind` to `target`. For the rectangle
/// the handle is a corner and the two stored corners are adjusted; for every
/// other tool handle `idx` is stored point `idx`. Out-of-range handles are
/// ignored.
pub fn apply_handle_move<T: Copy>(
    kind: ToolKind,
    pts: &mut Vec<WorldPoint<T>>,
    idx: usize,
    target: WorldPoint<T>,
)
    ensures
        final(pts)@ == moved_points(kind, old(pts)@, idx as int, target),
{
    if kind == ToolKind::Rectangle {
        if pts.len() < 2 {
            return;
        }
        if idx == 0 {
            pts.set(0, target);
        } else if idx == 1 {
            let p1 = pts[1];
            let p0 = pts[0];
            pts.set(1, WorldPoint { index: target.index, price: p1.price });
            pts.set(0, WorldPoint { index: p0.index, price: target.price });
        } else if idx == 2 {
            pts.set(1, target);
        } else if idx == 3 {
            let p0 = pts[0];
            let p1 = pts[1];
            pts.set(0, WorldPoint { index: target.index, price: p0.price });
            pts.set(1, WorldPoint { index: p1.index, price: target.price });
        }
    } else if idx < pts.len() {
        pts.set(idx, target);
    }
}

/// Dragging a handle puts exactly that handle on the target and keeps the
/// number of handles.
pub proof fn lemma_drag_lands_on_target<T>(
    kind: ToolKind,
    pts: Seq<WorldPoint<T>>,
    idx: int,
    target: WorldPoint<T>,
)
    requires
        handle_anchors(kind, pts) matches Some(h) && 0 <= idx < h.len(),
    ensures
        handle_anchors(kind, moved_points(kind, pts, idx, target)) matches Some(h2) && h2.len()
            == handle_anchors(kind, pts)->0.len() && h2[idx] == target,
{
}

/// For every tool but the rectangle, dragging handle `idx` moves stored
/// point `idx` onto the target and no other point: the number of points is
/// kept and every other handle stays where it was. An out-of-range handle
/// moves nothing.
pub proof fn lemma_drag_moves_only_that_point<T>(
    kind: ToolKind,
    pts: Seq<WorldPoint<T>>,
    idx: int,
    target: WorldPoint<T>,
)
    requires
        kind != ToolKind::Rectangle,
    ensures
        moved_points(kind, pts, idx, target).len() == pts.len(),
        forall|j: int| 0 <= j < pts.len() && j != idx ==> #[trigger] moved_points(kind, pts, idx, target)[j] == pts[j],
        0 <= idx < pts.len() ==> moved_points(kind, pts, idx, target)[idx] == target,
        !(0 <= idx < pts.len()) ==> moved_points(kind, pts, idx, target) == pts,
        handle_anchors(kind, pts) is Some && 0 <= idx < handle_anchors(kind, pts)->0.len()
            ==> forall|j: int| 0 <= j < handle_anchors(kind, pts)->0.len() && j != idx
            ==> #[trigger] handle_anchors(kind, moved_points(kind, pts, idx, target))->0[j]
            == handle_anchors(kind, pts)->0[j],
{
    let after = moved_points(kind, pts, idx, target);
    if let Some(h) = handle_anchors(kind, pts) {
        if 0 <= idx < h.len() {
            let h2 = handle_anchors(kind, after)->0;
            assert forall|j: int| 0 <= j < h.len() && j != idx implies #[trigger] h2[j] == h[j] by {
                assert(after[j] == pts[j]);
            }
        }
    }
}

/// Dragging a rectangle corner leaves the opposite corner where it was.
pub proof fn lemma_rect_opposite_corner_fixed<T>(
    pts: Seq<WorldPoint<T>>,
    idx: int,
    target: WorldPoint<T>,
)
    requires
        pts.len() >= 2,
        0 <= idx < 4,
    ensures
        ({
            let after = moved_points(ToolKind::Rectangle, pts, idx, target);
            rect_corners(after[0], after[1])[(idx + 2) % 4] == rect_corners(pts[0], pts[1])[(idx
                + 2) % 4]
        }),
{
}

} // verus!
