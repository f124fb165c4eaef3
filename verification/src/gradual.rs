//! The cursor of a gradual calculation.
//!
//! A gradual calculator replays the difficulty pipeline prefix by
//! prefix: after each processed hit object it can report the
//! attributes of the map seen so far. The bookkeeping of how far the
//! replay has come lives here; each step names the prefix whose
//! attributes are due, and stepping past the last object yields
//! nothing.

use vstd::prelude::*;

use crate::math::imin;

verus! {

/// The position of a gradual calculation: how many objects of the map
/// have been processed so far.
#[derive(Clone, Copy, Debug, PartialEq, Eq, Structural)]
pub struct GradualCursor {
    /// The number of objects processed so far.
    pub idx: u32,
    /// The number of objects of the map.
    pub n_objects: u32,
}

/// The position after stepping past another `n + 1` objects, capped
/// at the end of the map.
pub open spec fn spec_next_idx(cursor: GradualCursor, n: u32) -> int {
    imin(cursor.idx + n + 1, cursor.n_objects as int)
}

impl GradualCursor {
    /// The cursor never runs past the map.
    pub open spec fn wf(&self) -> bool {
        self.idx <= self.n_objects
    }

    /// A fresh cursor at the start of a map.
    pub fn new(n_objects: u32) -> (r: Self)
        ensures
            r.idx == 0,
            r.n_objects == n_objects,
            r.wf(),
    {
        GradualCursor { idx: 0, n_objects }
    }

    /// Step past the next `n + 1` objects. Returns the length of the
    /// prefix whose attributes are now due, or nothing when every
    /// object was already processed.
    pub fn nth(&mut self, n: u32) -> (r: Option<u32>)
        requires
            old(self).wf(),
        ensures
            final(self).n_objects == old(self).n_objects,
            final(self).wf(),
            old(self).idx >= old(self).n_objects ==> {
                &&& r is None
                &&& final(self).idx == old(self).idx
            },
            old(self).idx < old(self).n_objects ==> {
                &&& final(self).idx == spec_next_idx(*old(self), n)
                &&& r == Some(final(self).idx)
            },
    {
        if self.idx >= self.n_objects {
            return None;
        }

        let room: u32 = self.n_objects - self.idx;
        let step: u32 = if n < room {
            n + 1
        } else {
            room
        };

        self.idx = self.idx + step;

        Some(self.idx)
    }

    /// Step past the next object alone.
    pub fn next(&mut self) -> (r: Option<u32>)
        requires
            old(self).wf(),
        ensures
            final(self).n_objects == old(self).n_objects,
            final(self).wf(),
            old(self).idx >= old(self).n_objects ==> {
                &&& r is None
                &&& final(self).idx == old(self).idx
            },
            old(self).idx < old(self).n_objects ==> {
                &&& final(self).idx == old(self).idx + 1
                &&& r == Some(final(self).idx)
            },
    {
        self.nth(0)
    }

    /// Step past every remaining object.
    pub fn last(&mut self) -> (r: Option<u32>)
        requires
            old(self).wf(),
        ensures
            final(self).n_objects == old(self).n_objects,
            final(self).wf(),
            old(self).idx >= old(self).n_objects ==> {
                &&& r is None
                &&& final(self).idx == old(self).idx
            },
            old(self).idx < old(self).n_objects ==> {
                &&& final(self).idx == old(self).n_objects
                &&& r == Some(final(self).idx)
            },
    {
        if self.idx >= self.n_objects {
            return None;
        }

        self.idx = self.n_objects;

        Some(self.idx)
    }
}

/// Law: gradual evaluation walks the same prefixes a direct
/// calculation would be given.
///
/// The `k`-th step of a fresh cursor (zero-based, one object per
/// step) reports the prefix of length `k + 1`; a direct calculation
/// capped at `k + 1` passed objects therefore sees exactly the same
/// objects. Both calculations being functions of that prefix, their
/// attributes coincide.
pub proof fn lemma_gradual_prefix(n_objects: u32, k: u32)
    requires
        k < n_objects,
    ensures
        spec_next_idx(GradualCursor { idx: 0u32, n_objects }, k) == k + 1,
{
}

} // verus!
