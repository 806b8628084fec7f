//! The interactive drag state machine's state and its per-step arithmetic.
//!
//! A drag is bounded by a button press and the matching release.  While it
//! runs, every pointer motion contributes the delta between the new pointer
//! position and the recorded anchor; the anchor then advances to the new
//! pointer position, so deltas accumulate one step at a time.

use vstd::prelude::*;

verus! {

/// Where the one process-wide drag stands.
///
/// While moving, the anchor is the last seen pointer position in signed
/// root coordinates.  While resizing, the anchor is the same position
/// truncated to the window system's unsigned integer width, because size
/// deltas are computed with wraparound-safe unsigned subtraction.
#[derive(Clone, Copy, PartialEq, Eq, Structural, Debug)]
pub enum DragState {
    Idle,
    Moving { target: u64, anchor_x: i32, anchor_y: i32 },
    Resizing { target: u64, anchor_w: u32, anchor_h: u32 },
}

/// The window a drag currently acts on, if one is active.
pub open spec fn drag_target(d: DragState) -> Option<u64> {
    match d {
        DragState::Idle => None,
        DragState::Moving { target, .. } => Some(target),
        DragState::Resizing { target, .. } => Some(target),
    }
}

/// One move step along one axis: the coordinate travels by the wrapped
/// difference between the new pointer position and the anchor.
pub open spec fn moved_coord(pos: i32, anchor: i32, pointer: i32) -> i32 {
    vstd::wrapping::i32_specs::wrapping_add(
        pos,
        vstd::wrapping::i32_specs::wrapping_sub(pointer, anchor),
    )
}

/// Apply one move step along one axis.  Signed wrapping arithmetic, no
/// clamping: a window may travel fully off-screen.
pub fn move_coord(pos: i32, anchor: i32, pointer: i32) -> (r: i32)
    ensures
        r == moved_coord(pos, anchor, pointer),
{
    pos.wrapping_add(pointer.wrapping_sub(anchor))
}

/// One resize step along one axis: the dimension grows by the wrapped
/// unsigned difference between pointer and anchor.  A sum that is zero,
/// or whose signed two's-complement reading is negative — a shrink past
/// nothing — is floored at one pixel instead of wrapping to a huge size.
pub open spec fn resized_dim(dim: u32, anchor: u32, pointer: u32) -> u32 {
    let grown = vstd::wrapping::u32_specs::wrapping_add(
        dim,
        vstd::wrapping::u32_specs::wrapping_sub(pointer, anchor),
    );
    if grown == 0 || grown >= 0x8000_0000 {
        1
    } else {
        grown
    }
}

/// Apply one resize step along one axis.  However large a negative delta
/// is, the result never drops below one pixel.
pub fn resize_dim(dim: u32, anchor: u32, pointer: u32) -> (r: u32)
    ensures
        r == resized_dim(dim, anchor, pointer),
        r >= 1,
{
    let grown = dim.wrapping_add(pointer.wrapping_sub(anchor));
    if grown == 0 || grown >= 0x8000_0000 {
        1
    } else {
        grown
    }
}

/// Two consecutive move steps amount to one step from the first anchor to
/// the final pointer position: per-step translation is cumulative, so the
/// path the pointer took in between does not matter.
pub proof fn lemma_moved_coord_compose(pos: i32, anchor: i32, p1: i32, p2: i32)
    ensures
        moved_coord(moved_coord(pos, anchor, p1), p1, p2) == moved_coord(pos, anchor, p2),
{
}

} // verus!
