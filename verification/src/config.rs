//! Static configuration: modifier masks, border stacks, and the default
//! binding tables.  All of it is immutable input, supplied once at
//! initialization and never changed afterwards.

use vstd::prelude::*;
use crate::bindings::{KeyAction, KeyBinding, MouseAction, MouseBinding};
use crate::theme::{BorderTheme, Layer};

verus! {

/// The server's Mod1 modifier mask.
pub const MODKEY1: u32 = 8;

/// The server's Mod4 modifier mask.
pub const MODKEY2: u32 = 64;

/// The server's Shift modifier mask.
pub const SHIFT: u32 = 1;

/// Mouse focus policy: focus follows the pointer when true, otherwise a
/// focused window is also raised on click.
pub const SLOPPYFOCUS: bool = false;

pub const NUM_UNFOCUSED_BORDERS: usize = 4;

pub const NUM_FOCUSED_BORDERS: usize = 4;

/// One configured border layer: thickness in pixels and a color name in
/// the display server's textual syntax.
pub struct Border<'a> {
    pub size: i32,
    pub color: &'a str,
}

/// Thickness of the layers of `s` from index `i` (inclusive) to the end.
pub open spec fn border_sum_from(s: Seq<Border<'_>>, i: int) -> int
    decreases s.len() - i,
{
    if i < 0 || i >= s.len() {
        0
    } else {
        s[i].size + border_sum_from(s, i + 1)
    }
}

/// Total thickness of a configured border stack.
pub open spec fn border_total(s: Seq<Border<'_>>) -> int {
    border_sum_from(s, 0)
}

proof fn lemma_border_sum_from_nonneg(s: Seq<Border<'_>>, i: int)
    requires
        forall|k: int| 0 <= k < s.len() ==> 0 <= #[trigger] s[k].size,
    ensures
        0 <= border_sum_from(s, i),
    decreases s.len() - i,
{
    if 0 <= i < s.len() {
        lemma_border_sum_from_nonneg(s, i + 1);
    }
}

proof fn lemma_border_sum_from_le_total(s: Seq<Border<'_>>, i: int)
    requires
        forall|k: int| 0 <= k < s.len() ==> 0 <= #[trigger] s[k].size,
        0 <= i <= s.len(),
    ensures
        border_sum_from(s, i) <= border_total(s),
    decreases i,
{
    if i > 0 {
        lemma_border_sum_from_nonneg(s, i);
        lemma_border_sum_from_le_total(s, i - 1);
    }
}

/// A configured border stack is usable when no thickness is negative and
/// the total fits the signed pixel type.
pub open spec fn borders_wf(s: Seq<Border<'_>>) -> bool {
    &&& forall|k: int| 0 <= k < s.len() ==> 0 <= #[trigger] s[k].size
    &&& border_total(s) <= i32::MAX
}

/// The total border insets of the two focus states, computed once from the
/// configured layer stacks.
pub struct BorderInfo {
    focus_size: i32,
    unfocus_size: i32,
}

impl BorderInfo {
    pub closed spec fn spec_focus_size(self) -> i32 {
        self.focus_size
    }

    pub closed spec fn spec_unfocus_size(self) -> i32 {
        self.unfocus_size
    }

    /// Sum each stack's layer thicknesses.  The stored insets equal those
    /// sums on every path out of this constructor.
    pub fn new(
        focus: [Border; NUM_FOCUSED_BORDERS],
        unfocus: [Border; NUM_UNFOCUSED_BORDERS],
    ) -> (r: BorderInfo)
        requires
            borders_wf(focus@),
            borders_wf(unfocus@),
        ensures
            r.spec_focus_size() == border_total(focus@),
            r.spec_unfocus_size() == border_total(unfocus@),
    {
        let ghost fs = focus@;
        let mut focus_size: i32 = 0;
        let mut i: usize = 0;
        while i < NUM_FOCUSED_BORDERS
            invariant
                borders_wf(fs),
                focus@ == fs,
                fs.len() == NUM_FOCUSED_BORDERS,
                0 <= i <= fs.len(),
                focus_size == border_total(fs) - border_sum_from(fs, i as int),
            decreases fs.len() - i,
        {
            proof {
                lemma_border_sum_from_nonneg(fs, i as int);
                lemma_border_sum_from_nonneg(fs, i + 1);
                lemma_border_sum_from_le_total(fs, i + 1);
            }
            focus_size = focus_size + focus[i].size;
            i = i + 1;
        }

        let ghost us = unfocus@;
        let mut unfocus_size: i32 = 0;
        let mut j: usize = 0;
        while j < NUM_UNFOCUSED_BORDERS
            invariant
                borders_wf(us),
                unfocus@ == us,
                us.len() == NUM_UNFOCUSED_BORDERS,
                0 <= j <= us.len(),
                unfocus_size == border_total(us) - border_sum_from(us, j as int),
            decreases us.len() - j,
        {
            proof {
                lemma_border_sum_from_nonneg(us, j as int);
                lemma_border_sum_from_nonneg(us, j + 1);
                lemma_border_sum_from_le_total(us, j + 1);
            }
            unfocus_size = unfocus_size + unfocus[j].size;
            j = j + 1;
        }

        BorderInfo { focus_size, unfocus_size }
    }

    pub fn get_focus_size(&self) -> (r: i32)
        ensures
            r == self.spec_focus_size(),
    {
        self.focus_size
    }

    pub fn get_unfocus_size(&self) -> (r: i32)
        ensures
            r == self.spec_unfocus_size(),
    {
        self.unfocus_size
    }
}

/// A mouse trigger: button number and exact modifier mask.
#[derive(Clone, Copy, PartialEq, Eq, Structural, Debug)]
pub struct MouseCmd {
    pub button: u32,
    pub modifier: u32,
}

impl MouseCmd {
    pub fn new(button: u32, modifier: u32) -> (r: MouseCmd)
        ensures
            r == (MouseCmd { button, modifier }),
    {
        MouseCmd { button, modifier }
    }
}

/// A key trigger: symbolic key name and exact modifier mask.
pub struct KeyCmd<'a> {
    key: &'a str,
    modifier: u32,
}

impl<'a> KeyCmd<'a> {
    pub closed spec fn spec_key(self) -> Seq<char> {
        self.key@
    }

    pub closed spec fn spec_modifier(self) -> u32 {
        self.modifier
    }

    pub fn new(key: &'a str, modifier: u32) -> (r: KeyCmd<'a>)
        ensures
            r.spec_key() == key@,
            r.spec_modifier() == modifier,
    {
        KeyCmd { key, modifier }
    }

    pub fn get_modifier(key: KeyCmd<'a>) -> (r: u32)
        ensures
            r == key.spec_modifier(),
    {
        key.modifier
    }
}

/// The default border stacks: four two-pixel rings per focus state, in the
/// stock colors, outermost first.
pub fn default_theme() -> (r: BorderTheme)
    ensures
        r.wf(),
        r.focused@.len() == 4,
        r.unfocused@.len() == 4,
        forall|i: int| 0 <= i < 4 ==> (#[trigger] r.focused@[i]).size == 2,
        forall|i: int| 0 <= i < 4 ==> (#[trigger] r.unfocused@[i]).size == 2,
        crate::theme::total_of(r.focused@) == 8,
        crate::theme::total_of(r.unfocused@) == 8,
        r.focused@[0].color@ == "rgb:ff/00/00"@,
        r.focused@[1].color@ == "rgb:00/ff/00"@,
        r.focused@[2].color@ == "rgb:00/00/ff"@,
        r.focused@[3].color@ == "rgb:ff/ff/ff"@,
        r.unfocused@[0].color@ == "rgb:a5/a5/a5"@,
        r.unfocused@[1].color@ == "rgb:18/18/18"@,
        r.unfocused@[2].color@ == "rgb:aa/ff/33"@,
        r.unfocused@[3].color@ == "rgb:00/bb/aa"@,
{
    let mut focused: Vec<Layer> = Vec::new();
    focused.push(Layer { size: 2, color: "rgb:ff/00/00".to_owned() });
    focused.push(Layer { size: 2, color: "rgb:00/ff/00".to_owned() });
    focused.push(Layer { size: 2, color: "rgb:00/00/ff".to_owned() });
    focused.push(Layer { size: 2, color: "rgb:ff/ff/ff".to_owned() });
    let mut unfocused: Vec<Layer> = Vec::new();
    unfocused.push(Layer { size: 2, color: "rgb:a5/a5/a5".to_owned() });
    unfocused.push(Layer { size: 2, color: "rgb:18/18/18".to_owned() });
    unfocused.push(Layer { size: 2, color: "rgb:aa/ff/33".to_owned() });
    unfocused.push(Layer { size: 2, color: "rgb:00/bb/aa".to_owned() });
    proof {
        let fs = focused@;
        let us = unfocused@;
        assert(fs.len() == 4 && us.len() == 4);
        assert forall|k: int| 0 <= k < fs.len() implies 0 <= (#[trigger] fs[k]).size by {
            assert(fs[k].size == 2);
        }
        assert forall|k: int| 0 <= k < us.len() implies 0 <= (#[trigger] us[k]).size by {
            assert(us[k].size == 2);
        }
        assert(crate::theme::sum_from(fs, 4) == 0);
        assert(crate::theme::sum_from(fs, 3) == 2);
        assert(crate::theme::sum_from(fs, 2) == 4);
        assert(crate::theme::sum_from(fs, 1) == 6);
        assert(crate::theme::sum_from(fs, 0) == 8);
        assert(crate::theme::sum_from(us, 4) == 0);
        assert(crate::theme::sum_from(us, 3) == 2);
        assert(crate::theme::sum_from(us, 2) == 4);
        assert(crate::theme::sum_from(us, 1) == 6);
        assert(crate::theme::sum_from(us, 0) == 8);
    }
    BorderTheme::new(focused, unfocused)
}

/// The default key bindings, in configuration order.
pub fn default_key_bindings() -> (r: Vec<KeyBinding>)
    ensures
        r@.len() == 3,
        r@[0]@.sym == "F1"@ && r@[0]@.modifier == (MODKEY2 | SHIFT) && r@[0]@.action
            == KeyAction::Quit,
        r@[1]@.sym == "t"@ && r@[1]@.modifier == (MODKEY2 | SHIFT) && r@[1]@.action
            == KeyAction::SpawnTerminal,
        r@[2]@.sym == "r"@ && r@[2]@.modifier == MODKEY2 && r@[2]@.action
            == KeyAction::SpawnLauncher,
{
    let mut r: Vec<KeyBinding> = Vec::new();
    r.push(KeyBinding { sym: "F1".to_owned(), modifier: MODKEY2 | SHIFT, action: KeyAction::Quit });
    r.push(
        KeyBinding {
            sym: "t".to_owned(),
            modifier: MODKEY2 | SHIFT,
            action: KeyAction::SpawnTerminal,
        },
    );
    r.push(KeyBinding { sym: "r".to_owned(), modifier: MODKEY2, action: KeyAction::SpawnLauncher });
    r
}

/// The default mouse bindings, in configuration order.
pub fn default_mouse_bindings() -> (r: Vec<MouseBinding>)
    ensures
        r@ == seq![
            MouseBinding { button: 1, modifier: MODKEY2, action: MouseAction::Move },
            MouseBinding { button: 3, modifier: MODKEY2, action: MouseAction::Resize },
            MouseBinding { button: 1, modifier: 0, action: MouseAction::Raise },
        ],
{
    let mut r: Vec<MouseBinding> = Vec::new();
    r.push(MouseBinding { button: 1, modifier: MODKEY2, action: MouseAction::Move });
    r.push(MouseBinding { button: 3, modifier: MODKEY2, action: MouseAction::Resize });
    r.push(MouseBinding { button: 1, modifier: 0, action: MouseAction::Raise });
    proof {
        assert(r@ =~= seq![
            MouseBinding { button: 1, modifier: MODKEY2, action: MouseAction::Move },
            MouseBinding { button: 3, modifier: MODKEY2, action: MouseAction::Resize },
            MouseBinding { button: 1, modifier: 0, action: MouseAction::Raise },
        ]);
    }
    r
}

} // verus!
