//! Layered border themes.
//!
//! A theme is an ordered sequence of layers, outermost first, one sequence
//! for the focused state and one for the unfocused state.  The total border
//! inset of a state is the sum of its layer thicknesses.

use vstd::prelude::*;

verus! {

/// One decorative border layer: a thickness in pixels and a color name in
/// the display server's textual color syntax.
pub struct Layer {
    pub size: i32,
    pub color: String,
}

/// The thickness of the layers of `s` from index `i` (inclusive) inward.
///
/// `sum_from(s, 0)` is the total inset of the sequence; `sum_from(s, i)` is
/// the inset at which layer `i` is drawn (its own thickness included).
pub open spec fn sum_from(s: Seq<Layer>, i: int) -> int
    decreases s.len() - i,
{
    if i < 0 || i >= s.len() {
        0
    } else {
        s[i].size + sum_from(s, i + 1)
    }
}

/// The total inset of a layer sequence.
pub open spec fn total_of(s: Seq<Layer>) -> int {
    sum_from(s, 0)
}

/// A usable layer sequence: no negative thickness, and the total inset
/// representable in the signed pixel type.
pub open spec fn layers_wf(s: Seq<Layer>) -> bool {
    &&& forall|i: int| 0 <= i < s.len() ==> 0 <= #[trigger] s[i].size
    &&& total_of(s) <= i32::MAX
}

pub proof fn lemma_sum_from_nonneg(s: Seq<Layer>, i: int)
    requires
        forall|k: int| 0 <= k < s.len() ==> 0 <= #[trigger] s[k].size,
    ensures
        0 <= sum_from(s, i),
    decreases s.len() - i,
{
    if 0 <= i < s.len() {
        lemma_sum_from_nonneg(s, i + 1);
    }
}

/// The inset shrinks (weakly) as the layer index grows.
pub proof fn lemma_sum_from_le_total(s: Seq<Layer>, i: int)
    requires
        forall|k: int| 0 <= k < s.len() ==> 0 <= #[trigger] s[k].size,
        0 <= i <= s.len(),
    ensures
        sum_from(s, i) <= total_of(s),
    decreases i,
{
    if i > 0 {
        lemma_sum_from_nonneg(s, i);
        assert(sum_from(s, i - 1) == s[i - 1].size + sum_from(s, i));
        lemma_sum_from_le_total(s, i - 1);
    }
}

/// Sum of the thicknesses of a whole layer sequence.
///
/// Every exit of this function returns exactly the configured total inset,
/// so a theme's inset always agrees with its layers.
pub fn total_size(layers: &Vec<Layer>) -> (r: i32)
    requires
        layers_wf(layers@),
    ensures
        r == total_of(layers@),
{
    let ghost s = layers@;
    let mut acc: i32 = 0;
    let mut i: usize = 0;
    while i < layers.len()
        invariant
            layers_wf(s),
            layers@ == s,
            0 <= i <= s.len(),
            acc == total_of(s) - sum_from(s, i as int),
        decreases s.len() - i,
    {
        proof {
            lemma_sum_from_nonneg(s, i as int);
            lemma_sum_from_nonneg(s, i + 1);
            lemma_sum_from_le_total(s, i + 1);
            assert(sum_from(s, i as int) == s[i as int].size + sum_from(s, i + 1));
        }
        acc = acc + layers[i].size;
        i = i + 1;
    }
    acc
}

/// A border theme: the layer stack used for a focused window and the one
/// used for an unfocused window, each ordered outermost first.
pub struct BorderTheme {
    pub focused: Vec<Layer>,
    pub unfocused: Vec<Layer>,
}

impl BorderTheme {
    pub open spec fn wf(self) -> bool {
        layers_wf(self.focused@) && layers_wf(self.unfocused@)
    }

    pub fn new(focused: Vec<Layer>, unfocused: Vec<Layer>) -> (r: BorderTheme)
        requires
            layers_wf(focused@),
            layers_wf(unfocused@),
        ensures
            r.wf(),
            r.focused == focused,
            r.unfocused == unfocused,
    {
        BorderTheme { focused, unfocused }
    }

    /// Total inset drawn around a focused window.
    pub fn focus_inset(&self) -> (r: i32)
        requires
            self.wf(),
        ensures
            r == total_of(self.focused@),
    {
        total_size(&self.focused)
    }

    /// Total inset drawn around an unfocused window.
    pub fn unfocus_inset(&self) -> (r: i32)
        requires
            self.wf(),
        ensures
            r == total_of(self.unfocused@),
    {
        total_size(&self.unfocused)
    }
}

} // verus!
