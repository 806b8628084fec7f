//! Key and mouse bindings, and the resolver that matches events to them.
//!
//! A binding pairs a trigger — a key symbol or a mouse button, plus an
//! exact modifier mask — with an action.  Resolution is a first-match
//! lookup: triggers compare by exact equality, the earliest matching
//! entry wins, and an event with no matching entry resolves to no action.

use vstd::prelude::*;

verus! {

/// What a matched key binding asks the window manager to do.
#[derive(Clone, Copy, PartialEq, Eq, Structural, Debug)]
pub enum KeyAction {
    /// Stop the event loop and exit.
    Quit,
    /// Launch the configured terminal program.
    SpawnTerminal,
    /// Launch the configured program launcher.
    SpawnLauncher,
}

/// What a matched mouse binding asks the window manager to do.
#[derive(Clone, Copy, PartialEq, Eq, Structural, Debug)]
pub enum MouseAction {
    /// Begin an interactive move of the window under the pointer.
    Move,
    /// Begin an interactive resize of the window under the pointer.
    Resize,
    /// Focus and raise the window under the pointer.
    Raise,
}

/// A key binding: symbolic key name plus exact modifier mask.
pub struct KeyBinding {
    pub sym: String,
    pub modifier: u32,
    pub action: KeyAction,
}

/// Mathematical image of a [`KeyBinding`].
pub struct KeyBindingView {
    pub sym: Seq<char>,
    pub modifier: u32,
    pub action: KeyAction,
}

impl View for KeyBinding {
    type V = KeyBindingView;

    open spec fn view(&self) -> KeyBindingView {
        KeyBindingView { sym: self.sym@, modifier: self.modifier, action: self.action }
    }
}

/// The views of a table of key bindings, in table order.
pub open spec fn key_views(s: Seq<KeyBinding>) -> Seq<KeyBindingView> {
    s.map_values(|b: KeyBinding| b@)
}

/// A mouse binding: button number plus exact modifier mask.
#[derive(Clone, Copy, PartialEq, Eq, Structural, Debug)]
pub struct MouseBinding {
    pub button: u32,
    pub modifier: u32,
    pub action: MouseAction,
}

/// First-match key lookup from index `i` on: the action of the earliest
/// entry at or after `i` whose symbol and modifier mask both match exactly.
pub open spec fn resolve_key_from(
    s: Seq<KeyBindingView>,
    sym: Seq<char>,
    modifier: u32,
    i: int,
) -> Option<KeyAction>
    decreases s.len() - i,
{
    if i < 0 || i >= s.len() {
        None
    } else if s[i].sym == sym && s[i].modifier == modifier {
        Some(s[i].action)
    } else {
        resolve_key_from(s, sym, modifier, i + 1)
    }
}

/// What a key signal resolves to under a binding table.
pub open spec fn resolve_key_spec(
    s: Seq<KeyBindingView>,
    sym: Seq<char>,
    modifier: u32,
) -> Option<KeyAction> {
    resolve_key_from(s, sym, modifier, 0)
}

proof fn lemma_resolve_key_skip_unmatched(
    s: Seq<KeyBindingView>,
    sym: Seq<char>,
    modifier: u32,
    i: int,
)
    requires
        0 <= i <= s.len(),
        forall|k: int| 0 <= k < i ==> !((#[trigger] s[k]).sym == sym && s[k].modifier == modifier),
    ensures
        resolve_key_spec(s, sym, modifier) == resolve_key_from(s, sym, modifier, i),
    decreases i,
{
    if i > 0 {
        lemma_resolve_key_skip_unmatched(s, sym, modifier, i - 1);
    }
}

/// Look a key signal up in the binding table: exact match on symbol and
/// modifier mask, first matching entry wins, `None` when nothing matches.
pub fn resolve_key(table: &Vec<KeyBinding>, sym: &String, modifier: u32) -> (r: Option<KeyAction>)
    ensures
        r == resolve_key_spec(key_views(table@), sym@, modifier),
{
    let ghost s = key_views(table@);
    let mut i: usize = 0;
    while i < table.len()
        invariant
            s == key_views(table@),
            0 <= i <= table.len(),
            s.len() == table.len(),
            forall|k: int| 0 <= k < i
                ==> !((#[trigger] s[k]).sym == sym@ && s[k].modifier == modifier),
        decreases table.len() - i,
    {
        let entry = &table[i];
        if entry.sym == *sym && entry.modifier == modifier {
            proof {
                lemma_resolve_key_skip_unmatched(s, sym@, modifier, i as int);
            }
            return Some(entry.action);
        }
        i = i + 1;
    }
    proof {
        lemma_resolve_key_skip_unmatched(s, sym@, modifier, table.len() as int);
    }
    None
}

/// First-match mouse lookup from index `i` on.
pub open spec fn resolve_mouse_from(
    s: Seq<MouseBinding>,
    button: u32,
    modifier: u32,
    i: int,
) -> Option<MouseAction>
    decreases s.len() - i,
{
    if i < 0 || i >= s.len() {
        None
    } else if s[i].button == button && s[i].modifier == modifier {
        Some(s[i].action)
    } else {
        resolve_mouse_from(s, button, modifier, i + 1)
    }
}

/// What a button signal resolves to under a binding table.
pub open spec fn resolve_mouse_spec(
    s: Seq<MouseBinding>,
    button: u32,
    modifier: u32,
) -> Option<MouseAction> {
    resolve_mouse_from(s, button, modifier, 0)
}

proof fn lemma_resolve_mouse_skip_unmatched(
    s: Seq<MouseBinding>,
    button: u32,
    modifier: u32,
    i: int,
)
    requires
        0 <= i <= s.len(),
        forall|k: int| 0 <= k < i
            ==> !((#[trigger] s[k]).button == button && s[k].modifier == modifier),
    ensures
        resolve_mouse_spec(s, button, modifier) == resolve_mouse_from(s, button, modifier, i),
    decreases i,
{
    if i > 0 {
        lemma_resolve_mouse_skip_unmatched(s, button, modifier, i - 1);
    }
}

/// Look a button signal up in the binding table: exact match on button
/// number and modifier mask, first matching entry wins.
pub fn resolve_mouse(table: &Vec<MouseBinding>, button: u32, modifier: u32) -> (r: Option<
    MouseAction,
>)
    ensures
        r == resolve_mouse_spec(table@, button, modifier),
{
    let mut i: usize = 0;
    while i < table.len()
        invariant
            0 <= i <= table.len(),
            forall|k: int| 0 <= k < i
                ==> !((#[trigger] table@[k]).button == button && table@[k].modifier == modifier),
        decreases table.len() - i,
    {
        let entry = &table[i];
        if entry.button == button && entry.modifier == modifier {
            proof {
                lemma_resolve_mouse_skip_unmatched(table@, button, modifier, i as int);
            }
            return Some(entry.action);
        }
        i = i + 1;
    }
    proof {
        lemma_resolve_mouse_skip_unmatched(table@, button, modifier, table.len() as int);
    }
    None
}

} // verus!
