//! Trigger descriptors for key and mouse input.

use vstd::prelude::*;

verus! {

/// A mouse trigger: button number and exact modifier mask.
#[derive(Clone, Copy, PartialEq, Eq, Structural, Debug)]
pub struct MouseCmd {
    pub button: u32,
    pub modifier: u32,
}

impl MouseCmd {
    pub fn new(button: u32, modifier: u32) -> (r: MouseCmd)
        ensures
            r == (MouseCmd { button, modifier }),
    {
        MouseCmd { button, modifier }
    }
}

/// A key trigger: symbolic key name and exact modifier mask.
pub struct Key<'a> {
    key: &'a str,
    modifier: u32,
}

impl<'a> Key<'a> {
    pub closed spec fn spec_key(self) -> Seq<char> {
        self.key@
    }

    pub closed spec fn spec_modifier(self) -> u32 {
        self.modifier
    }

    pub fn new(key: &'a str, modifier: u32) -> (r: Key<'a>)
        ensures
            r.spec_key() == key@,
            r.spec_modifier() == modifier,
    {
        Key { key, modifier }
    }

    pub fn get_modifier(key: Key<'a>) -> (r: u32)
        ensures
            r == key.spec_modifier(),
    {
        key.modifier
    }
}

} // verus!
