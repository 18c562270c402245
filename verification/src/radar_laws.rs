//! What holds of the changes that the radar diff engine computes.

use crate::radar::{
    contact_of, delta_for, distinct_storage_ids, holder, is_holder, spec_radar_updates,
    spec_within_radius, DeltaView, SightingView, StoredView,
};
use vstd::prelude::*;

verus! {

/// No two sightings of a snapshot are of the same entity.
pub open spec fn distinct_entities(sightings: Seq<SightingView>) -> bool {
    forall|i: int, j: int|
        0 <= i < j < sightings.len() ==> (#[trigger] sightings[i]).entity_id != (
        #[trigger] sightings[j]).entity_id
}

/// The storage identifier that a change refers to, if it refers to one.
pub open spec fn storage_ref(delta: DeltaView) -> Option<Seq<char>> {
    match delta {
        DeltaView::Add(_) => None,
        DeltaView::Remove(storage_id) => Some(storage_id),
        DeltaView::Change(storage_id, _) => Some(storage_id),
    }
}

/// The entity that a change newly adds, if it adds one.
pub open spec fn added_entity(delta: DeltaView) -> Option<Seq<char>> {
    match delta {
        DeltaView::Add(contact) => Some(contact.entity_id),
        _ => None,
    }
}

/// No two of `deltas` refer to the same storage identifier, and no two add
/// the same entity.
pub open spec fn no_double_reference(deltas: Seq<DeltaView>) -> bool {
    forall|j: int, k: int|
        0 <= j < k < deltas.len() ==> {
            &&& storage_ref(#[trigger] deltas[j]) is Some ==> storage_ref(deltas[j])
                != storage_ref(#[trigger] deltas[k])
            &&& added_entity(deltas[j]) is Some ==> added_entity(deltas[j]) != added_entity(
                deltas[k],
            )
        }
}

/// For each computed change, the index of the sighting that called for it.
pub open spec fn origins(
    subject: Seq<char>,
    radius: i64,
    book: Seq<StoredView>,
    sightings: Seq<SightingView>,
) -> Seq<int>
    decreases sightings.len(),
{
    if sightings.len() == 0 {
        Seq::<int>::empty()
    } else {
        let earlier = origins(subject, radius, book, sightings.drop_last());
        if delta_for(subject, radius, book, sightings.last()) is Some {
            earlier.push(sightings.len() - 1)
        } else {
            earlier
        }
    }
}

/// Each computed change is the change of exactly one sighting: the changes
/// follow the snapshot's order, none is invented and none is left out.
pub proof fn lemma_origins(
    subject: Seq<char>,
    radius: i64,
    book: Seq<StoredView>,
    sightings: Seq<SightingView>,
)
    ensures
        origins(subject, radius, book, sightings).len() == spec_radar_updates(
            subject,
            radius,
            book,
            sightings,
        ).len(),
        forall|j: int|
            0 <= j < origins(subject, radius, book, sightings).len() ==> {
                let at = #[trigger] origins(subject, radius, book, sightings)[j];
                &&& 0 <= at < sightings.len()
                &&& delta_for(subject, radius, book, sightings[at]) == Some(
                    spec_radar_updates(subject, radius, book, sightings)[j],
                )
            },
        forall|j: int, k: int|
            0 <= j < k < origins(subject, radius, book, sightings).len() ==> origins(
                subject,
                radius,
                book,
                sightings,
            )[j] < origins(subject, radius, book, sightings)[k],
        forall|i: int|
            0 <= i < sightings.len() && (#[trigger] delta_for(
                subject,
                radius,
                book,
                sightings[i],
            )) is Some ==> exists|j: int|
                0 <= j < origins(subject, radius, book, sightings).len() && origins(
                    subject,
                    radius,
                    book,
                    sightings,
                )[j] == i,
    decreases sightings.len(),
{
    if sightings.len() > 0 {
        let shorter = sightings.drop_last();
        lemma_origins(subject, radius, book, shorter);
        let from = origins(subject, radius, book, sightings);
        let from_before = origins(subject, radius, book, shorter);
        let out = spec_radar_updates(subject, radius, book, sightings);
        let last = sightings.len() - 1;
        assert forall|j: int| 0 <= j < from.len() implies {
            let at = #[trigger] from[j];
            &&& 0 <= at < sightings.len()
            &&& delta_for(subject, radius, book, sightings[at]) == Some(out[j])
        } by {
            if j < from_before.len() {
                assert(from[j] == from_before[j]);
                assert(sightings[from_before[j]] == shorter[from_before[j]]);
            }
        }
        assert forall|j: int, k: int| 0 <= j < k < from.len() implies from[j] < from[k] by {
            if k < from_before.len() {
                assert(from[j] == from_before[j]);
                assert(from[k] == from_before[k]);
            } else {
                assert(from[j] == from_before[j]);
            }
        }
        assert forall|i: int|
            0 <= i < sightings.len() && (#[trigger] delta_for(
                subject,
                radius,
                book,
                sightings[i],
            )) is Some implies exists|j: int| 0 <= j < from.len() && from[j] == i by {
            if i < last {
                assert(sightings[i] == shorter[i]);
                let j = choose|j: int| 0 <= j < from_before.len() && from_before[j] == i;
                assert(from[j] == i);
            } else {
                assert(from[from.len() - 1] == i);
            }
        }
    }
}

/// The holder of an entity reports that entity.
pub proof fn lemma_holder_reports(book: Seq<StoredView>, entity_id: Seq<char>)
    requires
        holder(book, entity_id) is Some,
    ensures
        is_holder(book, entity_id, holder(book, entity_id)->0),
{
}

/// A candidate that is not the sensor itself, was no contact before and is
/// within the radius is added exactly once, with the geometry of its sighting.
pub proof fn lemma_new_candidate_added_once(
    subject: Seq<char>,
    radius: i64,
    book: Seq<StoredView>,
    sightings: Seq<SightingView>,
    i: int,
) -> (j: int)
    requires
        distinct_entities(sightings),
        0 <= i < sightings.len(),
        sightings[i].entity_id != subject,
        holder(book, sightings[i].entity_id) is None,
        spec_within_radius(sightings[i].vector.mag, radius),
    ensures
        0 <= j < spec_radar_updates(subject, radius, book, sightings).len(),
        spec_radar_updates(subject, radius, book, sightings)[j] == DeltaView::Add(
            contact_of(sightings[i]),
        ),
        forall|k: int|
            0 <= k < spec_radar_updates(subject, radius, book, sightings).len() && added_entity(
                #[trigger] spec_radar_updates(subject, radius, book, sightings)[k],
            ) == Some(sightings[i].entity_id) ==> k == j,
{
    lemma_origins(subject, radius, book, sightings);
    let out = spec_radar_updates(subject, radius, book, sightings);
    let from = origins(subject, radius, book, sightings);
    assert(delta_for(subject, radius, book, sightings[i]) is Some);
    let j = choose|j: int| 0 <= j < from.len() && from[j] == i;
    assert(out[j] == DeltaView::Add(contact_of(sightings[i])));
    assert forall|k: int|
        0 <= k < out.len() && added_entity(#[trigger] out[k]) == Some(
            sightings[i].entity_id,
        ) implies k == j by {
        let at = from[k];
        assert(delta_for(subject, radius, book, sightings[at]) == Some(out[k]));
        assert(sightings[at].entity_id == sightings[i].entity_id);
        assert(at == i);
    }
    j
}

/// A sighting of an entity other than the sensor that the book reports refers
/// to the storage identifier of that entity's holder, and no other change
/// refers to that storage identifier.
proof fn lemma_held_candidate_once(
    subject: Seq<char>,
    radius: i64,
    book: Seq<StoredView>,
    sightings: Seq<SightingView>,
    i: int,
) -> (j: int)
    requires
        distinct_storage_ids(book),
        distinct_entities(sightings),
        0 <= i < sightings.len(),
        sightings[i].entity_id != subject,
        holder(book, sightings[i].entity_id) is Some,
    ensures
        0 <= j < spec_radar_updates(subject, radius, book, sightings).len(),
        delta_for(subject, radius, book, sightings[i]) == Some(
            spec_radar_updates(subject, radius, book, sightings)[j],
        ),
        forall|k: int|
            0 <= k < spec_radar_updates(subject, radius, book, sightings).len() && storage_ref(
                #[trigger] spec_radar_updates(subject, radius, book, sightings)[k],
            ) == Some(book[holder(book, sightings[i].entity_id)->0].storage_id) ==> k == j,
{
    lemma_origins(subject, radius, book, sightings);
    let out = spec_radar_updates(subject, radius, book, sightings);
    let from = origins(subject, radius, book, sightings);
    let slot = holder(book, sightings[i].entity_id)->0;
    lemma_holder_reports(book, sightings[i].entity_id);
    assert(delta_for(subject, radius, book, sightings[i]) is Some);
    let j = choose|j: int| 0 <= j < from.len() && from[j] == i;
    assert forall|k: int|
        0 <= k < out.len() && storage_ref(#[trigger] out[k]) == Some(
            book[slot].storage_id,
        ) implies k == j by {
        let at = from[k];
        assert(delta_for(subject, radius, book, sightings[at]) == Some(out[k]));
        let other = holder(book, sightings[at].entity_id);
        assert(other is Some);
        lemma_holder_reports(book, sightings[at].entity_id);
        assert(book[other->0].storage_id == book[slot].storage_id);
        assert(other->0 == slot);
        assert(sightings[at].entity_id == sightings[i].entity_id);
        assert(at == i);
    }
    j
}

/// A previous contact whose entity is now outside the radius is removed
/// exactly once, under the identifier it is stored under, and nothing else
/// refers to that identifier.
pub proof fn lemma_lost_contact_removed_once(
    subject: Seq<char>,
    radius: i64,
    book: Seq<StoredView>,
    sightings: Seq<SightingView>,
    slot: int,
    i: int,
) -> (j: int)
    requires
        distinct_storage_ids(book),
        distinct_entities(sightings),
        0 <= i < sightings.len(),
        sightings[i].entity_id != subject,
        holder(book, sightings[i].entity_id) == Some(slot),
        !spec_within_radius(sightings[i].vector.mag, radius),
    ensures
        0 <= j < spec_radar_updates(subject, radius, book, sightings).len(),
        spec_radar_updates(subject, radius, book, sightings)[j] == DeltaView::Remove(book[slot].storage_id),
        forall|k: int|
            0 <= k < spec_radar_updates(subject, radius, book, sightings).len() && storage_ref(
                #[trigger] spec_radar_updates(subject, radius, book, sightings)[k],
            ) == Some(book[slot].storage_id) ==> k == j,
{
    lemma_held_candidate_once(subject, radius, book, sightings, i)
}

/// A previous contact whose entity is still within the radius is changed
/// exactly once, under the identifier it is stored under and with the
/// geometry of its sighting, and nothing else refers to that identifier.
pub proof fn lemma_kept_contact_changed_once(
    subject: Seq<char>,
    radius: i64,
    book: Seq<StoredView>,
    sightings: Seq<SightingView>,
    slot: int,
    i: int,
) -> (j: int)
    requires
        distinct_storage_ids(book),
        distinct_entities(sightings),
        0 <= i < sightings.len(),
        sightings[i].entity_id != subject,
        holder(book, sightings[i].entity_id) == Some(slot),
        spec_within_radius(sightings[i].vector.mag, radius),
    ensures
        0 <= j < spec_radar_updates(subject, radius, book, sightings).len(),
        spec_radar_updates(subject, radius, book, sightings)[j] == DeltaView::Change(book[slot].storage_id, contact_of(sightings[i])),
        forall|k: int|
            0 <= k < spec_radar_updates(subject, radius, book, sightings).len() && storage_ref(
                #[trigger] spec_radar_updates(subject, radius, book, sightings)[k],
            ) == Some(book[slot].storage_id) ==> k == j,
{
    lemma_held_candidate_once(subject, radius, book, sightings, i)
}

/// A candidate that was no contact before and is outside the radius draws no
/// change: nothing adds it.
pub proof fn lemma_far_stranger_ignored(
    subject: Seq<char>,
    radius: i64,
    book: Seq<StoredView>,
    sightings: Seq<SightingView>,
    i: int,
)
    requires
        distinct_entities(sightings),
        0 <= i < sightings.len(),
        holder(book, sightings[i].entity_id) is None,
        !spec_within_radius(sightings[i].vector.mag, radius),
    ensures
        forall|k: int|
            0 <= k < spec_radar_updates(subject, radius, book, sightings).len() ==> added_entity(
                #[trigger] spec_radar_updates(subject, radius, book, sightings)[k],
            ) != Some(sightings[i].entity_id),
{
    lemma_origins(subject, radius, book, sightings);
    let out = spec_radar_updates(subject, radius, book, sightings);
    let from = origins(subject, radius, book, sightings);
    assert forall|k: int| 0 <= k < out.len() implies added_entity(#[trigger] out[k]) != Some(
        sightings[i].entity_id,
    ) by {
        let at = from[k];
        assert(delta_for(subject, radius, book, sightings[at]) == Some(out[k]));
        if added_entity(out[k]) == Some(sightings[i].entity_id) {
            assert(sightings[at].entity_id == sightings[i].entity_id);
            assert(at == i);
        }
    }
}

/// The contact that a change carries is the contact of a sighting within the
/// radius, built in the same way whether it is added or changed: its geometry
/// does not depend on the kind of change, and its distance lies between zero
/// and the radius.
pub proof fn lemma_carried_contact_is_sighted(
    subject: Seq<char>,
    radius: i64,
    book: Seq<StoredView>,
    sightings: Seq<SightingView>,
    j: int,
) -> (i: int)
    requires
        0 <= j < spec_radar_updates(subject, radius, book, sightings).len(),
        !(spec_radar_updates(subject, radius, book, sightings)[j] is Remove),
    ensures
        0 <= i < sightings.len(),
        spec_within_radius(sightings[i].vector.mag, radius),
        match spec_radar_updates(subject, radius, book, sightings)[j] {
            DeltaView::Add(contact) => contact == contact_of(sightings[i]) && 0
                <= contact.distance <= radius,
            DeltaView::Change(_, contact) => contact == contact_of(sightings[i]) && 0
                <= contact.distance <= radius,
            DeltaView::Remove(_) => false,
        },
{
    lemma_origins(subject, radius, book, sightings);
    let out = spec_radar_updates(subject, radius, book, sightings);
    let i = origins(subject, radius, book, sightings)[j];
    assert(delta_for(subject, radius, book, sightings[i]) == Some(out[j]));
    i
}

/// There are no more changes than candidates.
pub proof fn lemma_at_most_one_change_each(
    subject: Seq<char>,
    radius: i64,
    book: Seq<StoredView>,
    sightings: Seq<SightingView>,
)
    ensures
        spec_radar_updates(subject, radius, book, sightings).len() <= sightings.len(),
    decreases sightings.len(),
{
    if sightings.len() > 0 {
        lemma_at_most_one_change_each(subject, radius, book, sightings.drop_last());
    }
}

/// The sensor's own entity is never the subject of a change: no contact that
/// is added or changed reports it, and every removal refers to an entry of
/// the book that reports another entity.
pub proof fn lemma_subject_never_reported(
    subject: Seq<char>,
    radius: i64,
    book: Seq<StoredView>,
    sightings: Seq<SightingView>,
)
    ensures
        forall|j: int|
            0 <= j < spec_radar_updates(subject, radius, book, sightings).len() ==> match (
            #[trigger] spec_radar_updates(subject, radius, book, sightings)[j]) {
                DeltaView::Add(contact) => contact.entity_id != subject,
                DeltaView::Change(_, contact) => contact.entity_id != subject,
                DeltaView::Remove(storage_id) => exists|slot: int|
                    0 <= slot < book.len() && (#[trigger] book[slot]).storage_id == storage_id
                        && book[slot].contact.entity_id != subject,
            },
{
    lemma_origins(subject, radius, book, sightings);
    let out = spec_radar_updates(subject, radius, book, sightings);
    let from = origins(subject, radius, book, sightings);
    assert forall|j: int| 0 <= j < out.len() implies match (#[trigger] out[j]) {
        DeltaView::Add(contact) => contact.entity_id != subject,
        DeltaView::Change(_, contact) => contact.entity_id != subject,
        DeltaView::Remove(storage_id) => exists|slot: int|
            0 <= slot < book.len() && (#[trigger] book[slot]).storage_id == storage_id
                && book[slot].contact.entity_id != subject,
    } by {
        let at = from[j];
        assert(delta_for(subject, radius, book, sightings[at]) == Some(out[j]));
        if out[j] is Remove {
            lemma_holder_reports(book, sightings[at].entity_id);
            let slot = holder(book, sightings[at].entity_id)->0;
            assert(book[slot].storage_id == out[j]->Remove_0);
        }
    }
}

/// No two changes refer to the same storage identifier, and no entity is
/// added twice.
pub proof fn lemma_no_double_reference(
    subject: Seq<char>,
    radius: i64,
    book: Seq<StoredView>,
    sightings: Seq<SightingView>,
    j: int,
    k: int,
)
    requires
        distinct_storage_ids(book),
        distinct_entities(sightings),
        0 <= j < k < spec_radar_updates(subject, radius, book, sightings).len(),
    ensures
        ({
            let out = spec_radar_updates(subject, radius, book, sightings);
            &&& storage_ref(out[j]) is Some ==> storage_ref(out[j]) != storage_ref(out[k])
            &&& added_entity(out[j]) is Some ==> added_entity(out[j]) != added_entity(out[k])
        }),
{
    lemma_origins(subject, radius, book, sightings);
    let out = spec_radar_updates(subject, radius, book, sightings);
    let from = origins(subject, radius, book, sightings);
    let a = from[j];
    let b = from[k];
    assert(a < b);
    assert(delta_for(subject, radius, book, sightings[a]) == Some(out[j]));
    assert(delta_for(subject, radius, book, sightings[b]) == Some(out[k]));
    assert(sightings[a].entity_id != sightings[b].entity_id);
    if storage_ref(out[j]) is Some && storage_ref(out[j]) == storage_ref(out[k]) {
        lemma_holder_reports(book, sightings[a].entity_id);
        lemma_holder_reports(book, sightings[b].entity_id);
        let x = holder(book, sightings[a].entity_id)->0;
        let y = holder(book, sightings[b].entity_id)->0;
        assert(book[x].storage_id == book[y].storage_id);
        assert(x == y);
    }
}

/// The engine keeps nothing between runs: the changes are a function of the
/// sensor, its radius, the book and the snapshot, so a second run on the same
/// values computes the same changes.
pub proof fn lemma_rerun_gives_same_changes(
    subject: Seq<char>,
    radius: i64,
    book: Seq<StoredView>,
    sightings: Seq<SightingView>,
    subject_again: Seq<char>,
    radius_again: i64,
    book_again: Seq<StoredView>,
    sightings_again: Seq<SightingView>,
)
    requires
        subject_again =~= subject,
        radius_again == radius,
        book_again =~= book,
        sightings_again =~= sightings,
    ensures
        spec_radar_updates(subject_again, radius_again, book_again, sightings_again)
            == spec_radar_updates(subject, radius, book, sightings),
{
}

/// The changes for a snapshot that lists each entity once name no storage
/// identifier twice and add no entity twice.
pub proof fn lemma_changes_name_nothing_twice(
    subject: Seq<char>,
    radius: i64,
    book: Seq<StoredView>,
    sightings: Seq<SightingView>,
)
    requires
        distinct_storage_ids(book),
        distinct_entities(sightings),
    ensures
        no_double_reference(spec_radar_updates(subject, radius, book, sightings)),
{
    let out = spec_radar_updates(subject, radius, book, sightings);
    assert forall|j: int, k: int| 0 <= j < k < out.len() implies {
        &&& storage_ref(#[trigger] out[j]) is Some ==> storage_ref(out[j]) != storage_ref(
            #[trigger] out[k],
        )
        &&& added_entity(out[j]) is Some ==> added_entity(out[j]) != added_entity(out[k])
    } by {
        lemma_no_double_reference(subject, radius, book, sightings, j, k);
    }
}

} // verus!
