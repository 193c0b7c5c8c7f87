//! The position store: the bodies placed so far, in the order in which
//! they were accepted. It grows at the tail, shrinks at the tail, and never
//! holds two bodies that overlap.

use crate::body::PlacedBody;
use vstd::prelude::*;

verus! {

/// Some body of `existing` overlaps `candidate`.
pub open spec fn blocked_by(existing: Seq<PlacedBody>, candidate: PlacedBody) -> bool {
    exists|i: int| 0 <= i < existing.len() && (#[trigger] existing[i]).overlaps(candidate)
}

/// No two bodies of `bodies` overlap.
pub open spec fn pairwise_clear(bodies: Seq<PlacedBody>) -> bool {
    forall|i: int, j: int|
        0 <= i < j < bodies.len() ==> !(#[trigger] bodies[i]).overlaps(#[trigger] bodies[j])
}

/// Every body of `bodies` is valid.
pub open spec fn all_valid(bodies: Seq<PlacedBody>) -> bool {
    forall|i: int| 0 <= i < bodies.len() ==> (#[trigger] bodies[i]).wf()
}

/// `bodies` without its last `count` entries, or empty when it has no more
/// than `count`.
pub open spec fn without_tail(bodies: Seq<PlacedBody>, count: int) -> Seq<PlacedBody> {
    if count >= bodies.len() {
        Seq::empty()
    } else if count <= 0 {
        bodies
    } else {
        bodies.subrange(0, bodies.len() - count)
    }
}

/// The bodies placed so far, by spawn order.
pub struct PositionStore {
    bodies: Vec<PlacedBody>,
}

impl View for PositionStore {
    type V = Seq<PlacedBody>;

    closed spec fn view(&self) -> Seq<PlacedBody> {
        self.bodies@
    }
}

impl PositionStore {
    /// Every stored body is valid and no two of them overlap.
    pub open spec fn wf(&self) -> bool {
        &&& all_valid(self@)
        &&& pairwise_clear(self@)
    }

    /// A store holds no more bodies than a machine word counts.
    pub proof fn lemma_len_fits(&self)
        ensures
            self@.len() <= usize::MAX,
    {
        assert(self.bodies@.len() == self.bodies.len());
    }

    /// An empty store.
    pub fn new() -> (store: PositionStore)
        ensures
            store@ == Seq::<PlacedBody>::empty(),
            store.wf(),
    {
        PositionStore { bodies: Vec::new() }
    }

    /// The number of stored bodies.
    pub fn len(&self) -> (n: usize)
        ensures
            n == self@.len(),
    {
        self.bodies.len()
    }

    /// The body at spawn index `index`, if there is one.
    pub fn get(&self, index: usize) -> (body: Option<PlacedBody>)
        ensures
            index < self@.len() ==> body == Some(self@[index as int]),
            index >= self@.len() ==> body is None,
    {
        if index < self.bodies.len() {
            Some(self.bodies[index])
        } else {
            None
        }
    }

    /// The stored bodies, by spawn order.
    pub fn bodies(&self) -> (bodies: &Vec<PlacedBody>)
        ensures
            bodies@ == self@,
    {
        &self.bodies
    }

    /// Tests `candidate` against every stored body.
    pub fn is_blocked(&self, candidate: &PlacedBody) -> (blocked: bool)
        ensures
            blocked == blocked_by(self@, *candidate),
    {
        let mut i: usize = 0;
        while i < self.bodies.len()
            invariant
                i <= self.bodies.len(),
                forall|j: int| 0 <= j < i ==> !(#[trigger] self@[j]).overlaps(*candidate),
            decreases self.bodies.len() - i,
        {
            if self.bodies[i].collides(candidate) {
                return true;
            }
            i += 1;
        }
        false
    }

    /// Appends `body` if it is valid and overlaps no stored body, and says
    /// whether it did.
    pub fn place(&mut self, body: PlacedBody) -> (placed: bool)
        requires
            old(self).wf(),
        ensures
            final(self).wf(),
            placed == (body.wf() && !blocked_by(old(self)@, body)),
            placed ==> final(self)@ == old(self)@.push(body),
            !placed ==> final(self)@ == old(self)@,
    {
        if !body.is_valid() || self.is_blocked(&body) {
            return false;
        }
        self.bodies.push(body);
        true
    }

    /// Appends a valid body that overlaps no stored body.
    pub(crate) fn append(&mut self, body: PlacedBody)
        requires
            old(self).wf(),
            body.wf(),
            !blocked_by(old(self)@, body),
        ensures
            final(self).wf(),
            final(self)@ == old(self)@.push(body),
    {
        self.bodies.push(body);
    }

    /// Removes the last `count` bodies, or all of them when the store holds
    /// no more than `count`.
    pub fn remove_tail(&mut self, count: usize)
        requires
            old(self).wf(),
        ensures
            final(self).wf(),
            final(self)@ == without_tail(old(self)@, count as int),
    {
        let len: usize = self.bodies.len();
        if count >= len {
            self.bodies.clear();
        } else {
            self.bodies.truncate(len - count);
        }
    }

    /// Removes every body.
    pub fn clear(&mut self)
        ensures
            final(self).wf(),
            final(self)@ == Seq::<PlacedBody>::empty(),
    {
        self.bodies.clear();
    }
}

/// Any two different bodies of a well-formed store keep their distance:
/// the centres are at least as far apart as the two radii together reach.
pub proof fn lemma_stored_bodies_keep_distance(store: PositionStore, i: int, j: int)
    requires
        store.wf(),
        0 <= i < store@.len(),
        0 <= j < store@.len(),
        i != j,
    ensures
        store@[i].distance_squared(store@[j]) >= store@[i].reach_squared(store@[j]),
{
    if i < j {
        assert(!store@[i].overlaps(store@[j]));
    } else {
        assert(!store@[j].overlaps(store@[i]));
        crate::body::lemma_overlap_symmetric(store@[i], store@[j]);
    }
}

} // verus!
