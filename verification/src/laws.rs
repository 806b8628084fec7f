//! Engine-wide laws, stated and proved against the transition functions.

use vstd::prelude::*;
use crate::drag::{DragState, lemma_moved_coord_compose, moved_coord};
use crate::engine::{Command, EngineModel, map_request_spec, motion_spec, set_focus_spec,
    WindowAttributes};

verus! {

/// Fold a run of per-step pointer deltas into a position, one axis at a
/// time: each step moves the position by the wrapped difference between
/// the step's pointer coordinate and the previous one (the anchor), and
/// the anchor advances to the step's coordinate.
pub open spec fn translate_steps(pos: i32, anchor: i32, ps: Seq<i32>, i: int) -> i32
    decreases ps.len() - i,
{
    if i < 0 || i >= ps.len() {
        pos
    } else {
        translate_steps(moved_coord(pos, anchor, ps[i]), ps[i], ps, i + 1)
    }
}

/// Per-step translation is cumulative: accumulating every intermediate
/// delta lands exactly where one step from the original anchor to the
/// final pointer coordinate lands.
pub proof fn lemma_translate_steps_cumulative(pos: i32, anchor: i32, ps: Seq<i32>, i: int)
    requires
        0 <= i < ps.len(),
    ensures
        translate_steps(pos, anchor, ps, i) == moved_coord(pos, anchor, ps.last()),
    decreases ps.len() - i,
{
    if i == ps.len() - 1 {
        assert(translate_steps(moved_coord(pos, anchor, ps[i]), ps[i], ps, i + 1)
            == moved_coord(pos, anchor, ps[i]));
    } else {
        lemma_translate_steps_cumulative(moved_coord(pos, anchor, ps[i]), ps[i], ps, i + 1);
        lemma_moved_coord_compose(pos, anchor, ps[i], ps.last());
    }
}

/// The engine state after a run of pointer-motion events, applied in
/// order from index `i`.
pub open spec fn run_motions_from(m: EngineModel, pts: Seq<(i32, i32)>, i: int) -> EngineModel
    decreases pts.len() - i,
{
    if i < 0 || i >= pts.len() {
        m
    } else {
        run_motions_from(motion_spec(m, pts[i].0, pts[i].1).0, pts, i + 1)
    }
}

/// For any sequence of motion events between the press that started a
/// move drag and the matching release, the dragged window's final position
/// is its initial position translated by the wrapped difference between
/// the final pointer position and the anchor recorded at the press — the
/// per-step deltas telescope, so the run has the same effect as the single
/// motion event that a coalescing dispatcher would keep.  Size and every
/// other window are untouched.
pub proof fn lemma_move_translation_cumulative(m: EngineModel, pts: Seq<(i32, i32)>, i: int)
    requires
        m.drag matches DragState::Moving { target, .. } && m.windows.dom().contains(target),
        0 <= i < pts.len(),
    ensures
        run_motions_from(m, pts, i) == motion_spec(m, pts.last().0, pts.last().1).0,
    decreases pts.len() - i,
{
    let target = m.drag->Moving_target;
    let ax = m.drag->Moving_anchor_x;
    let ay = m.drag->Moving_anchor_y;
    let m1 = motion_spec(m, pts[i].0, pts[i].1).0;
    if i == pts.len() - 1 {
    } else {
        lemma_move_translation_cumulative(m1, pts, i + 1);
        let mf_small = motion_spec(m1, pts.last().0, pts.last().1).0;
        let mf_one = motion_spec(m, pts.last().0, pts.last().1).0;
        lemma_moved_coord_compose(m.windows[target].x, ax, pts[i].0, pts.last().0);
        lemma_moved_coord_compose(m.windows[target].y, ay, pts[i].1, pts.last().1);
        assert(mf_small.windows =~= mf_one.windows);
    }
}

/// Resize never produces a width or height below one pixel, however large
/// a negative delta is applied: every resize command a motion step emits
/// carries clamped dimensions, and the registered geometry stays
/// non-degenerate.
pub proof fn lemma_resize_floor(m: EngineModel, px: i32, py: i32)
    ensures
        forall|i: int| 0 <= i < motion_spec(m, px, py).1.len()
            ==> (#[trigger] motion_spec(m, px, py).1[i] matches Command::ResizeWindow { w, h, .. }
                ==> w >= 1 && h >= 1),
{
}

/// Focus transfer is idempotent: transferring focus to the window that the
/// first transfer focused changes nothing and issues no commands, so two
/// transfers in a row to the same window produce exactly one redraw pair.
pub proof fn lemma_set_focus_idempotent(m: EngineModel, window: u64)
    ensures
        set_focus_spec(set_focus_spec(m, window).0, window) == (
            set_focus_spec(m, window).0,
            Seq::<Command>::empty(),
        ),
{
}

/// A window that bypasses management is ignored entirely: a show request
/// from it leaves the registry — and everything else — unchanged and
/// issues no command at all, so it is never registered and never receives
/// a composed border.
pub proof fn lemma_override_redirect_ignored(m: EngineModel, window: u64, a: WindowAttributes)
    requires
        a.override_redirect,
    ensures
        map_request_spec(m, window, Some(a)) == (m, Seq::<Command>::empty()),
{
}

} // verus!
