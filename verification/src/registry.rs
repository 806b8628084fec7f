//! The window registry: every managed window and its last-known geometry.
//!
//! Windows are identified by the opaque numeric handle the display server
//! issued for them.  The registry is the single source of truth for which
//! windows the engine manages; a window that bypasses management is never
//! inserted.

use vstd::prelude::*;
use std::collections::HashMap;
use crate::geom::Geometry;

verus! {

broadcast use vstd::std_specs::hash::group_hash_axioms;

/// Every geometry of the map is well formed (no degenerate size).
pub open spec fn geoms_wf(m: Map<u64, Geometry>) -> bool {
    forall|w: u64| m.dom().contains(w) ==> (#[trigger] m[w]).wf()
}

/// Managed windows, keyed by server handle, each with its last-known
/// outer geometry.
pub struct Registry {
    m: HashMap<u64, Geometry>,
}

impl View for Registry {
    type V = Map<u64, Geometry>;

    closed spec fn view(&self) -> Map<u64, Geometry> {
        self.m@
    }
}

impl Registry {
    /// Every registered geometry is well formed (no degenerate size).
    pub open spec fn wf(self) -> bool {
        geoms_wf(self@)
    }

    pub fn new() -> (r: Registry)
        ensures
            r@ == Map::<u64, Geometry>::empty(),
            r.wf(),
    {
        Registry { m: HashMap::new() }
    }

    pub fn contains(&self, w: u64) -> (r: bool)
        ensures
            r == self@.dom().contains(w),
    {
        self.m.contains_key(&w)
    }

    /// Last-known geometry of `w`, or `None` when `w` is not managed.
    pub fn get(&self, w: u64) -> (r: Option<Geometry>)
        ensures
            match r {
                Some(g) => self@.dom().contains(w) && g == self@[w],
                None => !self@.dom().contains(w),
            },
    {
        match self.m.get(&w) {
            Some(g) => Some(*g),
            None => None,
        }
    }

    /// Register `w`, or update its geometry when already present.
    pub fn insert(&mut self, w: u64, g: Geometry)
        requires
            g.wf(),
        ensures
            final(self)@ == old(self)@.insert(w, g),
            old(self).wf() ==> final(self).wf(),
    {
        self.m.insert(w, g);
        proof {
            if old(self).wf() {
                assert forall|x: u64| self@.dom().contains(x) implies (#[trigger] self@[x]).wf() by {
                    if x != w {
                        assert(old(self)@.dom().contains(x));
                    }
                }
            }
        }
    }

    pub fn remove(&mut self, w: u64)
        ensures
            final(self)@ == old(self)@.remove(w),
            old(self).wf() ==> final(self).wf(),
    {
        self.m.remove(&w);
        proof {
            if old(self).wf() {
                assert forall|x: u64| self@.dom().contains(x) implies (#[trigger] self@[x]).wf() by {
                    assert(old(self)@.dom().contains(x));
                }
            }
        }
    }

    pub fn len(&self) -> (r: usize)
        ensures
            r == self@.dom().len(),
    {
        self.m.len()
    }
}

} // verus!
