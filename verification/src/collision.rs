//! Turns the physics engine's stream of collision events into the sets of
//! colliders that overlap the player's sensor, one set per category.
//!
//! The engine reports a pair of colliders in either order, may report an end
//! twice or for a collider that is already gone, and reports pairs that do not
//! concern the player at all. None of that is an error: an event that does not
//! name the sensor and a tagged collider is passed over.

use vstd::prelude::*;
use crate::overlap::OverlapSet;

verus! {

/// What a collider is to the player.
#[derive(Clone, Copy, Debug, PartialEq, Eq, Structural)]
pub enum Category {
    /// A surface to stand on.
    Ground,
    /// A region in which the player can climb.
    Climbable,
}

/// One report of the physics engine about two colliders.
#[derive(Clone, Copy, Debug, PartialEq, Eq, Structural)]
pub enum CollisionEvent {
    /// The two colliders began to overlap.
    Started(u64, u64),
    /// The two colliders ceased to overlap.
    Stopped(u64, u64),
}

impl CollisionEvent {
    /// The colliders that the event names, in the order of the report.
    pub open spec fn pair(self) -> (u64, u64) {
        match self {
            CollisionEvent::Started(a, b) => (a, b),
            CollisionEvent::Stopped(a, b) => (a, b),
        }
    }

    /// Whether the event reports the begin of an overlap.
    pub open spec fn begins(self) -> bool {
        self is Started
    }

    /// The same report with its colliders in the other order.
    pub open spec fn swapped(self) -> CollisionEvent {
        match self {
            CollisionEvent::Started(a, b) => CollisionEvent::Started(b, a),
            CollisionEvent::Stopped(a, b) => CollisionEvent::Stopped(b, a),
        }
    }
}

/// What an event means for the sensor `sensor` under the tags `tags`: the
/// category and identifier of the collider on the other side, when exactly one
/// side is the sensor and the other side carries a tag.
pub open spec fn classified(
    event: CollisionEvent,
    sensor: u64,
    tags: Map<u64, Category>,
) -> Option<(Category, u64)> {
    let (a, b) = event.pair();
    if a == sensor && b != sensor && tags.contains_key(b) {
        Some((tags[b], b))
    } else if b == sensor && a != sensor && tags.contains_key(a) {
        Some((tags[a], a))
    } else {
        None
    }
}

/// The category tags of the colliders that are alive. A collider carries at
/// most one tag.
pub struct CategoryTags {
    ground: OverlapSet,
    climbable: OverlapSet,
}

impl View for CategoryTags {
    type V = Map<u64, Category>;

    closed spec fn view(&self) -> Map<u64, Category> {
        Map::new(
            |id: u64| self.ground@.contains(id) || self.climbable@.contains(id),
            |id: u64|
                if self.ground@.contains(id) {
                    Category::Ground
                } else {
                    Category::Climbable
                },
        )
    }
}

impl CategoryTags {
    #[verifier::type_invariant]
    spec fn one_tag_each(self) -> bool {
        self.ground@.disjoint(self.climbable@)
    }

    /// No collider is tagged.
    pub fn new() -> (tags: CategoryTags)
        ensures
            tags@ == Map::<u64, Category>::empty(),
    {
        let tags = CategoryTags { ground: OverlapSet::new(), climbable: OverlapSet::new() };
        assert(tags@ =~= Map::<u64, Category>::empty());
        tags
    }

    /// Gives the collider `id` the tag `category`, in place of any tag it had.
    pub fn tag(&mut self, id: u64, category: Category)
        ensures
            final(self)@ == old(self)@.insert(id, category),
    {
        proof {
            use_type_invariant(&*self);
        }
        let mut taken = CategoryTags::new();
        std::mem::swap(self, &mut taken);
        let CategoryTags { ground, climbable } = taken;
        let mut ground = ground;
        let mut climbable = climbable;
        match category {
            Category::Ground => {
                climbable.end(id);
                ground.begin(id);
            },
            Category::Climbable => {
                ground.end(id);
                climbable.begin(id);
            },
        }
        *self = CategoryTags { ground, climbable };
        assert(self@ =~= old(self)@.insert(id, category));
    }

    /// Takes the tag of the collider `id` away, as when the collider is
    /// removed from the world.
    pub fn untag(&mut self, id: u64)
        ensures
            final(self)@ == old(self)@.remove(id),
    {
        proof {
            use_type_invariant(&*self);
        }
        let mut taken = CategoryTags::new();
        std::mem::swap(self, &mut taken);
        let CategoryTags { ground, climbable } = taken;
        let mut ground = ground;
        let mut climbable = climbable;
        ground.end(id);
        climbable.end(id);
        *self = CategoryTags { ground, climbable };
        assert(self@ =~= old(self)@.remove(id));
    }

    /// The tag that the collider `id` carries.
    pub fn category_of(&self, id: u64) -> (category: Option<Category>)
        ensures
            category == (if self@.contains_key(id) {
                Some(self@[id])
            } else {
                None
            }),
    {
        if self.ground.contains(id) {
            Some(Category::Ground)
        } else if self.climbable.contains(id) {
            Some(Category::Climbable)
        } else {
            None
        }
    }
}

/// Decides what an event means for the sensor `sensor`. Both orders of the
/// pair are looked at.
pub fn classify(
    event: &CollisionEvent,
    sensor: u64,
    tags: &CategoryTags,
) -> (found: Option<(Category, u64)>)
    ensures
        found == classified(*event, sensor, tags@),
{
    let (a, b): (u64, u64) = match event {
        CollisionEvent::Started(a, b) => (*a, *b),
        CollisionEvent::Stopped(a, b) => (*a, *b),
    };
    if a == sensor && b != sensor {
        match tags.category_of(b) {
            Some(category) => Some((category, b)),
            None => None,
        }
    } else if b == sensor && a != sensor {
        match tags.category_of(a) {
            Some(category) => Some((category, a)),
            None => None,
        }
    } else {
        None
    }
}

/// The colliders that overlap a sensor, by category.
pub struct Overlaps {
    pub ground: Set<u64>,
    pub climbable: Set<u64>,
}

impl Overlaps {
    /// The colliders recorded under `category`.
    pub open spec fn of(self, category: Category) -> Set<u64> {
        match category {
            Category::Ground => self.ground,
            Category::Climbable => self.climbable,
        }
    }

    /// Whether a ground collider overlaps.
    pub open spec fn on_ground(self) -> bool {
        exists|id: u64| self.ground.contains(id)
    }

    /// Whether a climbable collider overlaps.
    pub open spec fn in_climb_range(self) -> bool {
        exists|id: u64| self.climbable.contains(id)
    }

    /// The overlaps after the collider `id` of category `category` began to
    /// overlap.
    pub open spec fn begin(self, category: Category, id: u64) -> Overlaps {
        match category {
            Category::Ground => Overlaps {
                ground: self.ground.insert(id),
                climbable: self.climbable,
            },
            Category::Climbable => Overlaps {
                ground: self.ground,
                climbable: self.climbable.insert(id),
            },
        }
    }

    /// The overlaps after the collider `id` of category `category` ceased to
    /// overlap.
    pub open spec fn end(self, category: Category, id: u64) -> Overlaps {
        match category {
            Category::Ground => Overlaps {
                ground: self.ground.remove(id),
                climbable: self.climbable,
            },
            Category::Climbable => Overlaps {
                ground: self.ground,
                climbable: self.climbable.remove(id),
            },
        }
    }

    /// The overlaps after one event.
    pub open spec fn observe(
        self,
        event: CollisionEvent,
        sensor: u64,
        tags: Map<u64, Category>,
    ) -> Overlaps {
        match classified(event, sensor, tags) {
            None => self,
            Some((category, other)) => match event {
                CollisionEvent::Started(_, _) => self.begin(category, other),
                CollisionEvent::Stopped(_, _) => self.end(category, other),
            },
        }
    }

    /// The overlaps after all of `events`, taken in their order.
    pub open spec fn drain(
        self,
        events: Seq<CollisionEvent>,
        sensor: u64,
        tags: Map<u64, Category>,
    ) -> Overlaps
        decreases events.len(),
    {
        if events.len() == 0 {
            self
        } else {
            self.drain(events.drop_last(), sensor, tags).observe(events.last(), sensor, tags)
        }
    }

    /// The overlaps without the colliders that no longer carry the tag of the
    /// set they are in.
    pub open spec fn purge(self, tags: Map<u64, Category>) -> Overlaps {
        Overlaps {
            ground: self.ground.filter(
                |id: u64| tags.contains_key(id) && tags[id] == Category::Ground,
            ),
            climbable: self.climbable.filter(
                |id: u64| tags.contains_key(id) && tags[id] == Category::Climbable,
            ),
        }
    }
}

/// The player's sensor record: the ground and the climbable colliders that
/// overlap the sensor `sensor`.
pub struct CollisionAggregator {
    sensor: u64,
    ground: OverlapSet,
    climbable: OverlapSet,
}

impl View for CollisionAggregator {
    type V = Overlaps;

    closed spec fn view(&self) -> Overlaps {
        Overlaps { ground: self.ground@, climbable: self.climbable@ }
    }
}

impl CollisionAggregator {
    /// The identifier of the sensor that the record belongs to.
    pub closed spec fn sensor_id(&self) -> u64 {
        self.sensor
    }

    /// A record for the sensor `sensor` that nothing overlaps yet.
    pub fn new(sensor: u64) -> (record: CollisionAggregator)
        ensures
            record.sensor_id() == sensor,
            record@.ground == Set::<u64>::empty(),
            record@.climbable == Set::<u64>::empty(),
    {
        CollisionAggregator { sensor, ground: OverlapSet::new(), climbable: OverlapSet::new() }
    }

    /// The identifier of the sensor that the record belongs to.
    pub fn sensor(&self) -> (id: u64)
        ensures
            id == self.sensor_id(),
    {
        self.sensor
    }

    /// Takes one event in: a begin adds the other collider to the set of its
    /// category, an end removes it, and an event that does not concern the
    /// sensor changes nothing.
    pub fn observe(&mut self, event: &CollisionEvent, tags: &CategoryTags)
        ensures
            final(self).sensor_id() == old(self).sensor_id(),
            final(self)@ == old(self)@.observe(*event, old(self).sensor_id(), tags@),
    {
        match classify(event, self.sensor, tags) {
            None => {},
            Some((category, other)) => {
                match (event, category) {
                    (CollisionEvent::Started(_, _), Category::Ground) => {
                        self.ground.begin(other);
                    },
                    (CollisionEvent::Started(_, _), Category::Climbable) => {
                        self.climbable.begin(other);
                    },
                    (CollisionEvent::Stopped(_, _), Category::Ground) => {
                        self.ground.end(other);
                    },
                    (CollisionEvent::Stopped(_, _), Category::Climbable) => {
                        self.climbable.end(other);
                    },
                }
            },
        }
    }

    /// Takes in every event of a tick, in the order of the queue.
    pub fn drain(&mut self, events: &Vec<CollisionEvent>, tags: &CategoryTags)
        ensures
            final(self).sensor_id() == old(self).sensor_id(),
            final(self)@ == old(self)@.drain(events@, old(self).sensor_id(), tags@),
    {
        let ghost before = self@;
        let ghost sensor = self.sensor_id();
        let mut i: usize = 0;
        while i < events.len()
            invariant
                i <= events.len(),
                self.sensor_id() == sensor,
                self@ == before.drain(events@.take(i as int), sensor, tags@),
            decreases events.len() - i,
        {
            self.observe(&events[i], tags);
            proof {
                let taken = events@.take(i + 1);
                assert(taken.drop_last() =~= events@.take(i as int));
                assert(taken.last() == events@[i as int]);
            }
            i += 1;
        }
        assert(events@.take(i as int) =~= events@);
    }

    /// Drops the colliders that no longer carry the tag of the set they are
    /// in: those that left the world without a report of the end of their
    /// overlap.
    pub fn purge(&mut self, tags: &CategoryTags)
        ensures
            final(self).sensor_id() == old(self).sensor_id(),
            final(self)@ == old(self)@.purge(tags@),
    {
        proof {
            use_type_invariant(tags);
        }
        self.ground.retain_in(&tags.ground);
        self.climbable.retain_in(&tags.climbable);
        assert(self@.ground =~= old(self)@.purge(tags@).ground);
        assert(self@.climbable =~= old(self)@.purge(tags@).climbable);
    }

    /// Whether a ground collider overlaps the sensor.
    pub fn is_on_ground(&self) -> (on_ground: bool)
        ensures
            on_ground == self@.on_ground(),
    {
        let empty: bool = self.ground.is_empty();
        proof {
            if !empty {
                let id = choose|id: u64| self.ground@.contains(id);
                assert(self@.ground.contains(id));
            }
        }
        !empty
    }

    /// Whether a climbable collider overlaps the sensor.
    pub fn is_in_climb_range(&self) -> (in_range: bool)
        ensures
            in_range == self@.in_climb_range(),
    {
        let empty: bool = self.climbable.is_empty();
        proof {
            if !empty {
                let id = choose|id: u64| self.climbable@.contains(id);
                assert(self@.climbable.contains(id));
            }
        }
        !empty
    }

    /// Whether the collider `id` is recorded as overlapping under `category`.
    pub fn overlaps(&self, category: Category, id: u64) -> (found: bool)
        ensures
            found == self@.of(category).contains(id),
    {
        match category {
            Category::Ground => self.ground.contains(id),
            Category::Climbable => self.climbable.contains(id),
        }
    }
}

/// The order in which an event names its two colliders does not matter.
pub proof fn law_pair_order_is_irrelevant(
    overlaps: Overlaps,
    event: CollisionEvent,
    sensor: u64,
    tags: Map<u64, Category>,
)
    ensures
        classified(event.swapped(), sensor, tags) == classified(event, sensor, tags),
        overlaps.observe(event.swapped(), sensor, tags) == overlaps.observe(event, sensor, tags),
{
}

/// An event that does not name the sensor on exactly one side, or whose other
/// side carries no tag, changes nothing.
pub proof fn law_unmatched_event_is_ignored(
    overlaps: Overlaps,
    event: CollisionEvent,
    sensor: u64,
    tags: Map<u64, Category>,
)
    requires
        ({
            let (a, b) = event.pair();
            ||| a != sensor && b != sensor
            ||| a == sensor && b == sensor
            ||| a == sensor && !tags.contains_key(b)
            ||| b == sensor && !tags.contains_key(a)
        }),
    ensures
        classified(event, sensor, tags) is None,
        overlaps.observe(event, sensor, tags) == overlaps,
{
}

/// A begin followed by the end of the same pair, in either order of the
/// pair, leaves the overlaps as they were before the begin, provided that the
/// collider was not recorded before.
pub proof fn law_begin_then_end_restores_the_record(
    overlaps: Overlaps,
    a: u64,
    b: u64,
    sensor: u64,
    tags: Map<u64, Category>,
)
    requires
        classified(CollisionEvent::Started(a, b), sensor, tags) matches Some((category, other))
            ==> !overlaps.of(category).contains(other),
    ensures
        overlaps.observe(CollisionEvent::Started(a, b), sensor, tags).observe(
            CollisionEvent::Stopped(a, b),
            sensor,
            tags,
        ) == overlaps,
        overlaps.observe(CollisionEvent::Started(a, b), sensor, tags).observe(
            CollisionEvent::Stopped(b, a),
            sensor,
            tags,
        ) == overlaps,
{
    let begun = overlaps.observe(CollisionEvent::Started(a, b), sensor, tags);
    let ended = begun.observe(CollisionEvent::Stopped(a, b), sensor, tags);
    assert(ended.ground =~= overlaps.ground);
    assert(ended.climbable =~= overlaps.climbable);
    law_pair_order_is_irrelevant(begun, CollisionEvent::Stopped(a, b), sensor, tags);
}

/// The end of an overlap that is not recorded changes nothing, and so does
/// the begin of one that is.
pub proof fn law_repeated_event_is_noop(
    overlaps: Overlaps,
    event: CollisionEvent,
    sensor: u64,
    tags: Map<u64, Category>,
)
    requires
        classified(event, sensor, tags) matches Some((category, other)) ==> (event.begins()
            <==> overlaps.of(category).contains(other)),
    ensures
        overlaps.observe(event, sensor, tags) == overlaps,
{
    let observed = overlaps.observe(event, sensor, tags);
    assert(observed.ground =~= overlaps.ground);
    assert(observed.climbable =~= overlaps.climbable);
}

/// After a purge every recorded collider carries the tag of the set it is in,
/// no collider that does so has been dropped, and a second purge changes
/// nothing.
pub proof fn law_purge_keeps_the_tagged(overlaps: Overlaps, tags: Map<u64, Category>)
    ensures
        forall|category: Category, id: u64|
            #[trigger] overlaps.purge(tags).of(category).contains(id) <==> overlaps.of(
                category,
            ).contains(id) && tags.contains_key(id) && tags[id] == category,
        overlaps.purge(tags).purge(tags) == overlaps.purge(tags),
{
    let once = overlaps.purge(tags);
    let twice = once.purge(tags);
    assert(twice.ground =~= once.ground);
    assert(twice.climbable =~= once.climbable);
}

} // verus!
