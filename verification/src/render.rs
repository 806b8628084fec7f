//! Border compositing.
//!
//! The renderer turns a layer stack and a window geometry into a drawing
//! plan: one filled rectangle per layer, outermost first, each shrunk by
//! the thicknesses of all strictly-outer layers so the net effect is
//! concentric colored rings.  The host process paints rectangle `i` with
//! the color of layer `i` on an off-screen surface and installs the result
//! as the window's border decoration.

use vstd::prelude::*;
use crate::geom::Geometry;
use crate::theme::{Layer, layers_wf, sum_from, total_of, lemma_sum_from_nonneg,
    lemma_sum_from_le_total};

verus! {

/// An axis-aligned rectangle to fill, in border-surface coordinates.
#[derive(Clone, Copy, PartialEq, Eq, Structural, Debug)]
pub struct Rect {
    pub x: i32,
    pub y: i32,
    pub w: u32,
    pub h: u32,
}

/// The geometry bounds under which a border plan for `g` with total inset
/// `total` stays inside the machine integer ranges.
pub open spec fn fits(g: Geometry, total: int) -> bool {
    &&& i32::MIN <= g.x - total
    &&& i32::MIN <= g.y - total
    &&& g.w + 2 * total <= u32::MAX
    &&& g.h + 2 * total <= u32::MAX
}

/// The rectangle for the layer drawn at inset `inset` around `g`.
pub open spec fn ring_at(g: Geometry, inset: int) -> Rect {
    Rect {
        x: (g.x - inset) as i32,
        y: (g.y - inset) as i32,
        w: (g.w + 2 * inset) as u32,
        h: (g.h + 2 * inset) as u32,
    }
}

/// Size of the off-screen surface that covers a window of geometry `g`
/// plus a border of `total` pixels on all four sides.
pub fn surface_extent(g: &Geometry, total: i32) -> (r: (u32, u32))
    requires
        0 <= total,
        fits(*g, total as int),
    ensures
        r.0 == g.w + 2 * total,
        r.1 == g.h + 2 * total,
{
    (g.w + 2 * (total as u32), g.h + 2 * (total as u32))
}

/// Compose the border plan for geometry `g` under the layer stack `layers`.
///
/// Rectangle `i` of the result is drawn with the color of layer `i`: it
/// surrounds `g` at inset `sum_from(layers@, i)`, the summed thickness of
/// layer `i` and everything inside it, so layer 0 paints the full border
/// and each following layer paints a smaller concentric rectangle on top.
pub fn compose_border(layers: &Vec<Layer>, g: &Geometry) -> (r: Vec<Rect>)
    requires
        layers_wf(layers@),
        fits(*g, total_of(layers@)),
    ensures
        r@.len() == layers@.len(),
        forall|i: int| 0 <= i < r@.len() ==> #[trigger] r@[i] == ring_at(*g, sum_from(layers@, i)),
{
    let ghost s = layers@;
    let total = crate::theme::total_size(layers);
    let mut plan: Vec<Rect> = Vec::new();
    let mut size: i32 = total;
    let mut i: usize = 0;
    while i < layers.len()
        invariant
            layers_wf(s),
            layers@ == s,
            fits(*g, total_of(s)),
            0 <= i <= s.len(),
            size == sum_from(s, i as int),
            plan@.len() == i,
            forall|k: int| 0 <= k < i ==> #[trigger] plan@[k] == ring_at(*g, sum_from(s, k)),
        decreases s.len() - i,
    {
        proof {
            lemma_sum_from_nonneg(s, i as int);
            lemma_sum_from_nonneg(s, i + 1);
            lemma_sum_from_le_total(s, i as int);
            assert(sum_from(s, i as int) == s[i as int].size + sum_from(s, i + 1));
        }
        let rect = Rect {
            x: g.x - size,
            y: g.y - size,
            w: g.w + 2 * (size as u32),
            h: g.h + 2 * (size as u32),
        };
        plan.push(rect);
        size = size - layers[i].size;
        i = i + 1;
    }
    plan
}

} // verus!
