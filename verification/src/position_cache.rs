//! The position cache: the last known position of each entity, by entity
//! identifier. Entries are overwritten, never removed.

use crate::failure::Failure;
use crate::model::views;
use crate::address::{
    lemma_entity_resource_segments, spec_component_resource, spec_entity_resource,
};
use crate::text::{
    lemma_pieces_joined, lemma_pieces_shape, lemma_pieces_single, nth_piece, piece,
};
use vstd::prelude::*;

verus! {

/// Where an entity is: its coordinates on the embedding's integer scale.
#[derive(Clone, Copy, Debug, PartialEq, Eq, Structural)]
pub struct Position {
    pub x: i64,
    pub y: i64,
    pub z: i64,
}

/// One entry of the cache.
#[derive(Debug, PartialEq, Eq)]
pub struct CachedPosition {
    pub entity_id: String,
    pub position: Position,
}

/// What a `CachedPosition` holds, as mathematical values.
pub struct CachedView {
    pub entity_id: Seq<char>,
    pub position: Position,
}

impl View for CachedPosition {
    type V = CachedView;

    open spec fn view(&self) -> CachedView {
        CachedView { entity_id: self.entity_id@, position: self.position }
    }
}

/// No two of `entries` are of the same entity.
pub open spec fn distinct_ids(entries: Seq<CachedView>) -> bool {
    forall|i: int, j: int|
        0 <= i < j < entries.len() ==> (#[trigger] entries[i]).entity_id != (
        #[trigger] entries[j]).entity_id
}

/// `entries` lists `positions` exactly: each entity of the map once, with its
/// position, and nothing else.
pub open spec fn lists(entries: Seq<CachedView>, positions: Map<Seq<char>, Position>) -> bool {
    &&& distinct_ids(entries)
    &&& forall|i: int|
        0 <= i < entries.len() ==> positions.contains_key((#[trigger] entries[i]).entity_id)
            && positions[entries[i].entity_id] == entries[i].position
    &&& forall|entity_id: Seq<char>| #[trigger]
        positions.contains_key(entity_id) ==> exists|i: int|
            0 <= i < entries.len() && (#[trigger] entries[i]).entity_id == entity_id
}

/// The mapping that a list of entries with distinct entities stands for.
pub open spec fn as_map(entries: Seq<CachedView>) -> Map<Seq<char>, Position> {
    Map::new(
        |entity_id: Seq<char>|
            exists|i: int| 0 <= i < entries.len() && (#[trigger] entries[i]).entity_id == entity_id,
        |entity_id: Seq<char>|
            entries[choose|i: int|
                0 <= i < entries.len() && (#[trigger] entries[i]).entity_id == entity_id].position,
    )
}

/// A list of entries with distinct entities lists the mapping it stands for.
pub proof fn lemma_as_map_lists(entries: Seq<CachedView>)
    requires
        distinct_ids(entries),
    ensures
        lists(entries, as_map(entries)),
{
    let positions = as_map(entries);
    assert forall|i: int| 0 <= i < entries.len() implies positions.contains_key(
        (#[trigger] entries[i]).entity_id,
    ) && positions[entries[i].entity_id] == entries[i].position by {
        let picked = choose|k: int|
            0 <= k < entries.len() && (#[trigger] entries[k]).entity_id == entries[i].entity_id;
        if picked < i {
            assert(entries[picked].entity_id != entries[i].entity_id);
        } else if i < picked {
            assert(entries[i].entity_id != entries[picked].entity_id);
        }
    }
}

/// The last known position of each entity.
#[derive(Debug)]
pub struct PositionCache {
    entries: Vec<CachedPosition>,
}

impl PositionCache {
    #[verifier::type_invariant]
    spec fn well_formed(self) -> bool {
        distinct_ids(views(self.entries@))
    }

    /// The cache as a mapping from entity identifier to position.
    pub closed spec fn view(&self) -> Map<Seq<char>, Position> {
        as_map(views(self.entries@))
    }

    /// A cache that knows no entity.
    pub fn new() -> (cache: Self)
        ensures
            cache@ == Map::<Seq<char>, Position>::empty(),
    {
        let cache = PositionCache { entries: Vec::new() };
        assert(cache@ =~= Map::<Seq<char>, Position>::empty());
        cache
    }

    /// Records where `entity_id` is, overwriting what was known of it.
    pub fn record(&mut self, entity_id: String, position: Position)
        ensures
            final(self)@ == old(self)@.insert(entity_id@, position),
    {
        proof {
            use_type_invariant(&*self);
        }
        let mut taken = PositionCache { entries: Vec::new() };
        core::mem::swap(self, &mut taken);
        let mut entries = taken.entries;
        let ghost before = views(entries@);
        let ghost id = entity_id@;
        let mut i: usize = 0;
        let mut slot: Option<usize> = None;
        while i < entries.len() && slot.is_none()
            invariant
                i <= entries.len(),
                views(entries@) == before,
                id == entity_id@,
                forall|k: int| 0 <= k < i && slot is None ==> (#[trigger] before[k]).entity_id != id,
                match slot {
                    Some(found) => found < entries.len() && before[found as int].entity_id == id,
                    None => true,
                },
            decreases entries.len() - i + if slot is None { 1int } else { 0int },
        {
            if entries[i].entity_id == entity_id {
                slot = Some(i);
            } else {
                i += 1;
            }
        }
        match slot {
            Some(found) => {
                entries.set(found, CachedPosition { entity_id, position });
            },
            None => {
                entries.push(CachedPosition { entity_id, position });
            },
        }
        let ghost after = views(entries@);
        proof {
            let at: int = match slot {
                Some(found) => found as int,
                None => before.len() as int,
            };
            assert(after[at].entity_id == id);
            assert(after.len() == before.len() || after.len() == before.len() + 1);
            assert forall|k: int| 0 <= k < after.len() && k != at implies k < before.len()
                && #[trigger] after[k] == before[k] && after[k].entity_id != id by {
                if slot is Some {
                    if k < at {
                        assert(before[k].entity_id != before[at].entity_id);
                    } else {
                        assert(before[at].entity_id != before[k].entity_id);
                    }
                }
            }
            assert(distinct_ids(after)) by {
                assert forall|a: int, b: int| 0 <= a < b < after.len() implies (
                #[trigger] after[a]).entity_id != (#[trigger] after[b]).entity_id by {
                    if a != at && b != at {
                        assert(before[a].entity_id != before[b].entity_id);
                    }
                }
            }
            lemma_as_map_lists(before);
            lemma_as_map_lists(after);
            let old_map = as_map(before);
            let new_map = as_map(after);
            assert forall|key: Seq<char>| new_map.contains_key(key) <==> old_map.insert(
                id,
                position,
            ).contains_key(key) by {
                if new_map.contains_key(key) {
                    let k = choose|k: int| 0 <= k < after.len() && (#[trigger] after[k]).entity_id == key;
                    if k != at {
                        assert(before[k].entity_id == key);
                    }
                }
                if old_map.contains_key(key) && key != id {
                    let k = choose|k: int| 0 <= k < before.len() && (#[trigger] before[k]).entity_id == key;
                    assert(k != at);
                    assert(after[k].entity_id == key);
                }
            }
            assert forall|key: Seq<char>| new_map.contains_key(key) implies new_map[key]
                == old_map.insert(id, position)[key] by {
                let k = choose|k: int| 0 <= k < after.len() && (#[trigger] after[k]).entity_id == key;
                assert(new_map[after[k].entity_id] == after[k].position);
                if k != at {
                    assert(before[k].entity_id == key);
                    assert(old_map[before[k].entity_id] == before[k].position);
                } else {
                    assert(key == id);
                }
            }
            assert(new_map =~= old_map.insert(id, position));
        }
        *self = PositionCache { entries };
    }

    /// The last known position of `entity_id`.
    pub fn get(&self, entity_id: &String) -> (found: Option<Position>)
        ensures
            found == if self@.contains_key(entity_id@) {
                Some(self@[entity_id@])
            } else {
                None
            },
    {
        proof {
            use_type_invariant(self);
            lemma_as_map_lists(views(self.entries@));
        }
        let mut i: usize = 0;
        while i < self.entries.len()
            invariant
                i <= self.entries.len(),
                forall|k: int| 0 <= k < i ==> (#[trigger] views(self.entries@)[k]).entity_id != entity_id@,
            decreases self.entries.len() - i,
        {
            if self.entries[i].entity_id == *entity_id {
                let ghost listed = views(self.entries@);
                assert(listed[i as int].entity_id == entity_id@);
                proof {
                    use_type_invariant(self);
                    lemma_as_map_lists(listed);
                }
                assert(self@.contains_key(listed[i as int].entity_id) && self@[listed[i as int].entity_id]
                    == listed[i as int].position);
                return Some(self.entries[i].position);
            }
            i += 1;
        }
        None
    }

    /// The number of entities that the cache knows.
    pub fn len(&self) -> (n: usize)
        ensures
            n == self@.dom().len(),
            self@.dom().finite(),
    {
        proof {
            use_type_invariant(self);
            lemma_listed_size(views(self.entries@));
        }
        self.entries.len()
    }

    /// The cache as it is now, as a list of its own: each entity once, with its
    /// position.
    pub fn snapshot(&self) -> (entries: Vec<CachedPosition>)
        ensures
            lists(views(entries@), self@),
    {
        proof {
            use_type_invariant(self);
            lemma_as_map_lists(views(self.entries@));
        }
        let mut out: Vec<CachedPosition> = Vec::new();
        let mut i: usize = 0;
        while i < self.entries.len()
            invariant
                i <= self.entries.len(),
                out@.len() == i,
                forall|k: int| 0 <= k < i ==> (#[trigger] out@[k])@ == self.entries@[k]@,
            decreases self.entries.len() - i,
        {
            out.push(
                CachedPosition {
                    entity_id: self.entries[i].entity_id.clone(),
                    position: self.entries[i].position,
                },
            );
            i += 1;
        }
        assert(views(out@) =~= views(self.entries@));
        out
    }
}

/// A list of entries with distinct entities stands for a finite mapping of as
/// many entities as it has entries.
pub proof fn lemma_listed_size(entries: Seq<CachedView>)
    requires
        distinct_ids(entries),
    ensures
        as_map(entries).dom().finite(),
        as_map(entries).dom().len() == entries.len(),
    decreases entries.len(),
{
    if entries.len() == 0 {
        assert(as_map(entries).dom() =~= Set::<Seq<char>>::empty());
    } else {
        let shorter = entries.drop_last();
        assert(distinct_ids(shorter)) by {
            assert forall|a: int, b: int| 0 <= a < b < shorter.len() implies (
            #[trigger] shorter[a]).entity_id != (#[trigger] shorter[b]).entity_id by {
                assert(entries[a].entity_id != entries[b].entity_id);
            }
        }
        lemma_listed_size(shorter);
        let id = entries.last().entity_id;
        assert(!as_map(shorter).dom().contains(id)) by {
            if as_map(shorter).dom().contains(id) {
                let k = choose|k: int| 0 <= k < shorter.len() && (#[trigger] shorter[k]).entity_id == id;
                assert(entries[k].entity_id != entries[entries.len() - 1].entity_id);
            }
        }
        assert(as_map(entries).dom() =~= as_map(shorter).dom().insert(id)) by {
            assert forall|key: Seq<char>| as_map(entries).dom().contains(key) <==> as_map(
                shorter,
            ).dom().insert(id).contains(key) by {
                if as_map(entries).dom().contains(key) {
                    let k = choose|k: int| 0 <= k < entries.len() && (#[trigger] entries[k]).entity_id == key;
                    if k < shorter.len() {
                        assert(shorter[k].entity_id == key);
                    }
                }
                if as_map(shorter).dom().contains(key) {
                    let k = choose|k: int| 0 <= k < shorter.len() && (#[trigger] shorter[k]).entity_id == key;
                    assert(entries[k].entity_id == key);
                }
                if key == id {
                    assert(entries[entries.len() - 1].entity_id == key);
                }
            }
        }
    }
}

/// The entity that a position event is about: the fifth segment of the
/// subject it arrived on, if the subject has that many.
pub open spec fn spec_event_entity(subject: Seq<char>) -> Option<Seq<char>> {
    piece(subject, '.', 4)
}

/// The subject on which the position of `entity_id` in `shard` is announced.
pub open spec fn spec_position_subject(shard: Seq<char>, entity_id: Seq<char>) -> Seq<char> {
    "event."@ + spec_component_resource(shard, entity_id, "position"@) + ".change"@
}

/// The subject on which an entity's position is announced names that entity,
/// where neither the shard nor the entity identifier holds a dot.
pub proof fn lemma_position_subject_names_entity(shard: Seq<char>, entity_id: Seq<char>)
    requires
        !shard.contains('.'),
        !entity_id.contains('.'),
    ensures
        spec_event_entity(spec_position_subject(shard, entity_id)) == Some(entity_id),
{
    reveal_strlit("event.");
    reveal_strlit("event");
    reveal_strlit(".");
    reveal_strlit("position");
    reveal_strlit(".change");
    reveal_strlit("change");
    let dot = seq!['.'];
    let event = "event"@;
    let entity = spec_entity_resource(shard, entity_id);
    let rest = "position"@ + dot + "change"@;
    assert("event."@ =~= event + dot);
    assert(".change"@ =~= dot + "change"@);
    assert(spec_position_subject(shard, entity_id) =~= event + dot + (entity + dot + rest));
    assert(!event.contains('.'));
    lemma_pieces_single(event, '.');
    lemma_entity_resource_segments(shard, entity_id);
    lemma_pieces_joined(event, '.', entity + dot + rest);
    lemma_pieces_joined(entity, '.', rest);
    lemma_pieces_shape(rest, '.');
}

/// The entity that a position event on `subject` is about.
pub fn event_entity(subject: &str) -> (entity_id: Result<String, Failure>)
    ensures
        match entity_id {
            Ok(found) => spec_event_entity(subject@) == Some(found@),
            Err(failure) => spec_event_entity(subject@) is None && failure
                == Failure::MalformedSubject,
        },
{
    match nth_piece(subject, '.', 4) {
        Some(found) => Ok(found),
        None => Err(Failure::MalformedSubject),
    }
}

/// Takes in a position event: records `position` for the entity that
/// `subject` names. A subject that names none leaves the cache as it is.
pub fn handle_entity_position_change(
    cache: &mut PositionCache,
    subject: &str,
    position: Position,
) -> (outcome: Result<(), Failure>)
    ensures
        match spec_event_entity(subject@) {
            Some(entity_id) => outcome is Ok && final(cache)@ == old(cache)@.insert(
                entity_id,
                position,
            ),
            None => outcome == Err::<(), Failure>(Failure::MalformedSubject) && final(cache)@ == old(
                cache,
            )@,
        },
{
    match event_entity(subject) {
        Ok(entity_id) => {
            cache.record(entity_id, position);
            Ok(())
        },
        Err(failure) => Err(failure),
    }
}

} // verus!
