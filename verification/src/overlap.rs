//! The set of colliders that currently overlap a sensor.
//!
//! The identifiers are kept in the hash set of the engine's utility library.
//! Verus does not look inside that set: what it holds has a name,
//! [`overlap_ids`], and each call into it goes through one private function
//! whose contract is taken on trust. Everything public is verified against
//! those contracts.

use vstd::prelude::*;

verus! {

/// A set of collider identifiers.
///
/// Membership is idempotent: beginning an overlap that is already recorded
/// and ending one that is not are both accepted and change nothing.
#[verifier::external_body]
pub struct OverlapSet {
    ids: bevy::utils::HashSet<u64>,
}

/// The identifiers that `set` holds.
pub uninterp spec fn overlap_ids(set: OverlapSet) -> Set<u64>;

impl View for OverlapSet {
    type V = Set<u64>;

    open spec fn view(&self) -> Set<u64> {
        overlap_ids(*self)
    }
}

impl OverlapSet {
    /// Trusted: `HashSet::default` of hashbrown, which makes a set without
    /// elements.
    #[verifier::external_body]
    fn hashed_default() -> (set: OverlapSet)
        ensures
            overlap_ids(set) == Set::<u64>::empty(),
    {
        OverlapSet { ids: bevy::utils::HashSet::default() }
    }

    /// Trusted: `HashSet::insert` of hashbrown. The value is in the set
    /// afterwards and nothing else has changed; the result says whether the
    /// value was absent before.
    #[verifier::external_body]
    fn hashed_insert(&mut self, id: u64) -> (added: bool)
        ensures
            overlap_ids(*final(self)) == overlap_ids(*old(self)).insert(id),
            added == !overlap_ids(*old(self)).contains(id),
    {
        self.ids.insert(id)
    }

    /// Trusted: `HashSet::remove` of hashbrown. The value is not in the set
    /// afterwards and nothing else has changed; the result says whether the
    /// value was present before.
    #[verifier::external_body]
    fn hashed_remove(&mut self, id: u64) -> (removed: bool)
        ensures
            overlap_ids(*final(self)) == overlap_ids(*old(self)).remove(id),
            removed == overlap_ids(*old(self)).contains(id),
    {
        self.ids.remove(&id)
    }

    /// Trusted: `HashSet::contains` of hashbrown, which says whether the set
    /// holds the value.
    #[verifier::external_body]
    fn hashed_contains(&self, id: u64) -> (found: bool)
        ensures
            found == overlap_ids(*self).contains(id),
    {
        self.ids.contains(&id)
    }

    /// Trusted: `HashSet::is_empty` of hashbrown, which says whether the set
    /// holds no element.
    #[verifier::external_body]
    fn hashed_is_empty(&self) -> (empty: bool)
        ensures
            empty == (overlap_ids(*self) == Set::<u64>::empty()),
    {
        self.ids.is_empty()
    }

    /// Trusted: `HashSet::retain` of hashbrown, which keeps exactly the
    /// elements for which the predicate holds. The predicate handed over is
    /// membership in `keep`.
    #[verifier::external_body]
    fn hashed_retain_in(&mut self, keep: &OverlapSet)
        ensures
            overlap_ids(*final(self)) == overlap_ids(*old(self)).intersect(overlap_ids(*keep)),
    {
        self.ids.retain(|id| keep.contains(*id))
    }

    /// A set that holds nothing.
    pub fn new() -> (set: OverlapSet)
        ensures
            set@ == Set::<u64>::empty(),
    {
        OverlapSet::hashed_default()
    }

    /// Records that the collider `id` began to overlap. The result is true
    /// when it was not recorded before.
    pub fn begin(&mut self, id: u64) -> (added: bool)
        ensures
            final(self)@ == old(self)@.insert(id),
            added == !old(self)@.contains(id),
            old(self)@.contains(id) ==> final(self)@ == old(self)@,
    {
        let added: bool = self.hashed_insert(id);
        proof {
            if old(self)@.contains(id) {
                assert(old(self)@.insert(id) =~= old(self)@);
            }
        }
        added
    }

    /// Records that the collider `id` ceased to overlap. The result is true
    /// when it was recorded before.
    pub fn end(&mut self, id: u64) -> (removed: bool)
        ensures
            final(self)@ == old(self)@.remove(id),
            removed == old(self)@.contains(id),
            !old(self)@.contains(id) ==> final(self)@ == old(self)@,
    {
        let removed: bool = self.hashed_remove(id);
        proof {
            if !old(self)@.contains(id) {
                assert(old(self)@.remove(id) =~= old(self)@);
            }
        }
        removed
    }

    /// Whether the collider `id` is recorded as overlapping.
    pub fn contains(&self, id: u64) -> (found: bool)
        ensures
            found == self@.contains(id),
    {
        self.hashed_contains(id)
    }

    /// Whether no collider overlaps.
    pub fn is_empty(&self) -> (empty: bool)
        ensures
            empty == (self@ == Set::<u64>::empty()),
            empty == (forall|id: u64| !self@.contains(id)),
    {
        let empty: bool = self.hashed_is_empty();
        proof {
            if forall|id: u64| !self@.contains(id) {
                assert(self@ =~= Set::<u64>::empty());
            }
        }
        empty
    }

    /// Drops every collider that `keep` does not hold.
    pub fn retain_in(&mut self, keep: &OverlapSet)
        ensures
            final(self)@ == old(self)@.intersect(keep@),
            forall|id: u64|
                final(self)@.contains(id) <==> old(self)@.contains(id) && keep@.contains(id),
    {
        self.hashed_retain_in(keep);
    }
}

/// An overlap that begins where none was recorded and then ends leaves the
/// set as it was.
pub proof fn law_begin_then_end_restores(set: Set<u64>, id: u64)
    requires
        !set.contains(id),
    ensures
        set.insert(id).remove(id) == set,
{
    assert(set.insert(id).remove(id) =~= set);
}

/// Ending an overlap that is not recorded changes nothing.
pub proof fn law_end_of_absent_is_noop(set: Set<u64>, id: u64)
    requires
        !set.contains(id),
    ensures
        set.remove(id) == set,
{
    assert(set.remove(id) =~= set);
}

/// Beginning an overlap that is already recorded changes nothing.
pub proof fn law_begin_of_present_is_noop(set: Set<u64>, id: u64)
    requires
        set.contains(id),
    ensures
        set.insert(id) == set,
{
    assert(set.insert(id) =~= set);
}

} // verus!
