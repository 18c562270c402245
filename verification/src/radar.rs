//! The radar diff engine: which entities a sensor newly sees, still sees and
//! no longer sees, as the smallest list of changes to its published contacts.
//!
//! Lengths, the sensor radius and angles are integers on the scale of the
//! embedding's vector maths; the engine only compares and carries them. A
//! length is never negative. A radius may be: nothing is within it then.

use crate::model::views;
use crate::radar_laws::{
    distinct_entities, lemma_changes_name_nothing_twice, no_double_reference,
};
use vstd::prelude::*;
use vstd::string::StringExecFns;

verus! {

/// The offset from a sensor to a target in polar form.
#[derive(Clone, Copy, Debug, PartialEq, Eq, Structural)]
pub struct TargetVector {
    pub mag: u64,
    pub azimuth: i64,
    pub elevation: i64,
}

/// A sensor's capability.
#[derive(Clone, Copy, Debug, PartialEq, Eq, Structural)]
pub struct RadarReceiver {
    pub radius: i64,
}

/// A detected entity, as published.
#[derive(Debug, PartialEq, Eq)]
pub struct RadarContact {
    pub entity_id: String,
    pub distance: u64,
    pub azimuth: i64,
    pub elevation: i64,
}

/// What a `RadarContact` holds, as mathematical values.
pub struct ContactView {
    pub entity_id: Seq<char>,
    pub distance: u64,
    pub azimuth: i64,
    pub elevation: i64,
}

impl View for RadarContact {
    type V = ContactView;

    open spec fn view(&self) -> ContactView {
        ContactView {
            entity_id: self.entity_id@,
            distance: self.distance,
            azimuth: self.azimuth,
            elevation: self.elevation,
        }
    }
}

impl Clone for RadarContact {
    fn clone(&self) -> (copy: Self)
        ensures
            copy == *self,
    {
        RadarContact {
            entity_id: self.entity_id.clone(),
            distance: self.distance,
            azimuth: self.azimuth,
            elevation: self.elevation,
        }
    }
}

/// One entry of the position snapshot, seen from the sensor: who is there and
/// the offset to it.
#[derive(Debug, PartialEq, Eq)]
pub struct Sighting {
    pub entity_id: String,
    pub vector: TargetVector,
}

/// What a `Sighting` holds, as mathematical values.
pub struct SightingView {
    pub entity_id: Seq<char>,
    pub vector: TargetVector,
}

impl View for Sighting {
    type V = SightingView;

    open spec fn view(&self) -> SightingView {
        SightingView { entity_id: self.entity_id@, vector: self.vector }
    }
}

/// A previously published contact together with the identifier it is stored
/// under.
#[derive(Debug, PartialEq, Eq)]
pub struct StoredContact {
    pub storage_id: String,
    pub contact: RadarContact,
}

/// What a `StoredContact` holds, as mathematical values.
pub struct StoredView {
    pub storage_id: Seq<char>,
    pub contact: ContactView,
}

impl View for StoredContact {
    type V = StoredView;

    open spec fn view(&self) -> StoredView {
        StoredView { storage_id: self.storage_id@, contact: self.contact@ }
    }
}

/// One change to a published contact list.
#[derive(Debug, PartialEq, Eq)]
pub enum RadarContactDelta {
    Add(RadarContact),
    Remove(String),
    Change(String, RadarContact),
}

/// What a `RadarContactDelta` holds, as mathematical values.
pub enum DeltaView {
    Add(ContactView),
    Remove(Seq<char>),
    Change(Seq<char>, ContactView),
}

impl View for RadarContactDelta {
    type V = DeltaView;

    open spec fn view(&self) -> DeltaView {
        match self {
            RadarContactDelta::Add(contact) => DeltaView::Add(contact@),
            RadarContactDelta::Remove(storage_id) => DeltaView::Remove(storage_id@),
            RadarContactDelta::Change(storage_id, contact) => DeltaView::Change(
                storage_id@,
                contact@,
            ),
        }
    }
}

/// Containment in a sensor's range: the boundary counts as inside.
pub open spec fn spec_within_radius(distance: u64, radius: i64) -> bool {
    distance as int <= radius as int
}

/// Whether a target at `distance` is within a sensor's `radius`.
pub fn within_radius(distance: u64, radius: i64) -> (inside: bool)
    ensures
        inside == spec_within_radius(distance, radius),
{
    radius >= 0 && distance <= radius as u64
}

/// A target exactly at the sensor's radius is within range.
pub proof fn lemma_boundary_is_inside(distance: u64, radius: i64)
    requires
        distance as int == radius as int,
    ensures
        spec_within_radius(distance, radius),
{
}

/// The previously published contacts of one sensor, each under its storage
/// identifier. No storage identifier occurs twice.
#[derive(Debug)]
pub struct ContactBook {
    entries: Vec<StoredContact>,
}

/// No two entries of `book` share a storage identifier.
pub open spec fn distinct_storage_ids(book: Seq<StoredView>) -> bool {
    forall|i: int, j: int|
        0 <= i < j < book.len() ==> (#[trigger] book[i]).storage_id != (#[trigger] book[j]).storage_id
}

/// The index in `book` of the entry stored under `storage_id`, if there is one.
pub open spec fn slot_of(book: Seq<StoredView>, storage_id: Seq<char>) -> Option<int> {
    if exists|i: int| 0 <= i < book.len() && (#[trigger] book[i]).storage_id == storage_id {
        Some(choose|i: int| 0 <= i < book.len() && (#[trigger] book[i]).storage_id == storage_id)
    } else {
        None
    }
}

/// `book` after storing `contact` under `storage_id`: an entry already stored
/// under that identifier is overwritten in place, a new one goes to the end.
pub open spec fn stored(book: Seq<StoredView>, storage_id: Seq<char>, contact: ContactView) -> Seq<
    StoredView,
> {
    let entry = StoredView { storage_id, contact };
    match slot_of(book, storage_id) {
        Some(i) => book.update(i, entry),
        None => book.push(entry),
    }
}

impl ContactBook {
    #[verifier::type_invariant]
    spec fn well_formed(self) -> bool {
        distinct_storage_ids(views(self.entries@))
    }

    /// The entries in the order in which their storage identifiers were first
    /// stored.
    pub closed spec fn view(&self) -> Seq<StoredView> {
        views(self.entries@)
    }

    /// A book without entries.
    pub fn new() -> (book: Self)
        ensures
            book@ == Seq::<StoredView>::empty(),
            distinct_storage_ids(book@),
    {
        let book = ContactBook { entries: Vec::new() };
        assert(views(book.entries@) =~= Seq::<StoredView>::empty());
        book
    }

    /// The number of entries.
    pub fn len(&self) -> (n: usize)
        ensures
            n == self@.len(),
            distinct_storage_ids(self@),
    {
        proof {
            use_type_invariant(self);
        }
        self.entries.len()
    }

    /// The entry at `index`, in the book's order.
    pub fn entry(&self, index: usize) -> (found: Option<&StoredContact>)
        ensures
            match found {
                Some(e) => index < self@.len() && e@ == self@[index as int],
                None => index >= self@.len(),
            },
    {
        if index < self.entries.len() {
            Some(&self.entries[index])
        } else {
            None
        }
    }

    /// Stores `contact` under `storage_id`, overwriting what was stored under
    /// that identifier before.
    pub fn insert(&mut self, storage_id: String, contact: RadarContact)
        ensures
            final(self)@ == stored(old(self)@, storage_id@, contact@),
            distinct_storage_ids(final(self)@),
    {
        proof {
            use_type_invariant(&*self);
        }
        let mut taken = ContactBook { entries: Vec::new() };
        assert(views(taken.entries@) =~= Seq::<StoredView>::empty());
        core::mem::swap(self, &mut taken);
        let mut entries = taken.entries;
        let ghost before = views(entries@);
        let mut i: usize = 0;
        let mut slot: Option<usize> = None;
        while i < entries.len() && slot.is_none()
            invariant
                i <= entries.len(),
                views(entries@) == before,
                forall|k: int| 0 <= k < i && slot is None ==> (#[trigger] before[k]).storage_id != storage_id@,
                match slot {
                    Some(found) => found < entries.len() && before[found as int].storage_id == storage_id@,
                    None => true,
                },
            decreases entries.len() - i + if slot is None { 1int } else { 0int },
        {
            if entries[i].storage_id == storage_id {
                slot = Some(i);
            } else {
                i += 1;
            }
        }
        match slot {
            Some(found) => {
                assert(views(entries@)[found as int].storage_id == storage_id@);
                assert(slot_of(before, storage_id@) == Some(found as int));
                entries.set(found, StoredContact { storage_id, contact });
            },
            None => {
                assert(slot_of(before, storage_id@) is None);
                entries.push(StoredContact { storage_id, contact });
            },
        }
        assert(views(entries@) =~= stored(before, storage_id@, contact@));
        *self = ContactBook { entries };
    }
}

/// Entry `i` of `book` is the first one whose contact is the entity
/// `entity_id`. Contacts are matched by the entity they report, never by the
/// identifier they are stored under.
pub open spec fn is_holder(book: Seq<StoredView>, entity_id: Seq<char>, i: int) -> bool {
    &&& 0 <= i < book.len()
    &&& book[i].contact.entity_id == entity_id
    &&& forall|j: int| 0 <= j < i ==> (#[trigger] book[j]).contact.entity_id != entity_id
}

/// The index of the first entry of `book` that reports `entity_id`, if any
/// entry does.
pub open spec fn holder(book: Seq<StoredView>, entity_id: Seq<char>) -> Option<int> {
    if exists|i: int| is_holder(book, entity_id, i) {
        Some(choose|i: int| is_holder(book, entity_id, i))
    } else {
        None
    }
}

/// An entity has a holder exactly if some entry of the book reports it.
pub proof fn lemma_holder_exists(book: Seq<StoredView>, entity_id: Seq<char>)
    ensures
        holder(book, entity_id) is Some <==> exists|i: int|
            0 <= i < book.len() && (#[trigger] book[i]).contact.entity_id == entity_id,
{
    if exists|i: int| 0 <= i < book.len() && (#[trigger] book[i]).contact.entity_id == entity_id {
        let i = choose|i: int|
            0 <= i < book.len() && (#[trigger] book[i]).contact.entity_id == entity_id;
        lemma_first_report(book, entity_id, i);
    }
}

/// Where entry `i` reports an entity, some entry at or before `i` is the first
/// to report it.
proof fn lemma_first_report(book: Seq<StoredView>, entity_id: Seq<char>, i: int)
    requires
        0 <= i < book.len(),
        book[i].contact.entity_id == entity_id,
    ensures
        exists|k: int| is_holder(book, entity_id, k),
    decreases i,
{
    if exists|j: int| 0 <= j < i && (#[trigger] book[j]).contact.entity_id == entity_id {
        let j = choose|j: int| 0 <= j < i && (#[trigger] book[j]).contact.entity_id == entity_id;
        lemma_first_report(book, entity_id, j);
    } else {
        assert(is_holder(book, entity_id, i));
    }
}

/// The contact that a sighting is published as.
pub open spec fn contact_of(sighting: SightingView) -> ContactView {
    ContactView {
        entity_id: sighting.entity_id,
        distance: sighting.vector.mag,
        azimuth: sighting.vector.azimuth,
        elevation: sighting.vector.elevation,
    }
}

/// The change that one sighting calls for, if any. The sensor's own entity is
/// no candidate. A candidate that the book already reports is changed while
/// in range and removed once out of range, under the identifier it is stored
/// under; one that the book does not report is added while in range.
pub open spec fn delta_for(
    subject: Seq<char>,
    radius: i64,
    book: Seq<StoredView>,
    sighting: SightingView,
) -> Option<DeltaView> {
    if sighting.entity_id == subject {
        None
    } else {
        let inside = spec_within_radius(sighting.vector.mag, radius);
        match holder(book, sighting.entity_id) {
            Some(i) => if inside {
                Some(DeltaView::Change(book[i].storage_id, contact_of(sighting)))
            } else {
                Some(DeltaView::Remove(book[i].storage_id))
            },
            None => if inside {
                Some(DeltaView::Add(contact_of(sighting)))
            } else {
                None
            },
        }
    }
}

/// The changes that a snapshot calls for: the changes of its sightings, in the
/// snapshot's order.
pub open spec fn spec_radar_updates(
    subject: Seq<char>,
    radius: i64,
    book: Seq<StoredView>,
    sightings: Seq<SightingView>,
) -> Seq<DeltaView>
    decreases sightings.len(),
{
    if sightings.len() == 0 {
        Seq::<DeltaView>::empty()
    } else {
        let earlier = spec_radar_updates(subject, radius, book, sightings.drop_last());
        match delta_for(subject, radius, book, sightings.last()) {
            Some(delta) => earlier.push(delta),
            None => earlier,
        }
    }
}

/// The first entry that reports an entity is its only holder.
pub proof fn lemma_holder_is(book: Seq<StoredView>, entity_id: Seq<char>, i: int)
    requires
        is_holder(book, entity_id, i),
    ensures
        holder(book, entity_id) == Some(i),
{
    let picked = choose|k: int| is_holder(book, entity_id, k);
    if picked < i {
        assert(book[picked].contact.entity_id != entity_id);
    } else if i < picked {
        assert(book[i].contact.entity_id != entity_id);
    }
}

impl ContactBook {
    /// The first entry whose contact reports `entity_id`.
    pub fn find_holder(&self, entity_id: &String) -> (found: Option<usize>)
        ensures
            match found {
                Some(i) => holder(self@, entity_id@) == Some(i as int),
                None => holder(self@, entity_id@) is None,
            },
    {
        let mut i: usize = 0;
        while i < self.entries.len()
            invariant
                i <= self.entries.len(),
                forall|k: int| 0 <= k < i ==> (#[trigger] self@[k]).contact.entity_id != entity_id@,
            decreases self.entries.len() - i,
        {
            if self.entries[i].contact.entity_id == *entity_id {
                assert(self@[i as int].contact.entity_id == entity_id@);
                proof {
                    lemma_holder_is(self@, entity_id@, i as int);
                }
                return Some(i);
            }
            i += 1;
        }
        assert(forall|k: int| !is_holder(self@, entity_id@, k));
        None
    }
}

/// Computes the changes to a sensor's published contacts: `entity_id` is the
/// sensor's own entity, `old_contacts` what it published before, `sightings`
/// the position snapshot as seen from the sensor.
/// For a snapshot that lists each entity once, no two changes refer to the
/// same storage identifier and no entity is added twice.
pub fn radar_updates(
    entity_id: &str,
    radar_receiver: &RadarReceiver,
    old_contacts: &ContactBook,
    sightings: &Vec<Sighting>,
) -> (out: Vec<RadarContactDelta>)
    ensures
        views(out@) == spec_radar_updates(
            entity_id@,
            radar_receiver.radius,
            old_contacts@,
            views(sightings@),
        ),
        distinct_storage_ids(old_contacts@),
        distinct_entities(views(sightings@)) ==> no_double_reference(views(out@)),
{
    proof {
        use_type_invariant(old_contacts);
        if distinct_entities(views(sightings@)) {
            lemma_changes_name_nothing_twice(
                entity_id@,
                radar_receiver.radius,
                old_contacts@,
                views(sightings@),
            );
        }
    }
    let subject = String::from_str(entity_id);
    let mut out: Vec<RadarContactDelta> = Vec::new();
    let mut i: usize = 0;
    assert(views(sightings@).take(0) =~= Seq::<SightingView>::empty());
    assert(views(out@) =~= Seq::<DeltaView>::empty());
    while i < sightings.len()
        invariant
            i <= sightings.len(),
            subject@ == entity_id@,
            views(out@) == spec_radar_updates(
                entity_id@,
                radar_receiver.radius,
                old_contacts@,
                views(sightings@).take(i as int),
            ),
        decreases sightings.len() - i,
    {
        let sighting = &sightings[i];
        let ghost seen = views(sightings@).take(i as int);
        let ghost next = views(sightings@).take(i + 1);
        let ghost before = views(out@);
        assert(next.drop_last() =~= seen);
        assert(next.last() == sighting@);
        if sighting.entity_id != subject {
            let inside = within_radius(sighting.vector.mag, radar_receiver.radius);
            match old_contacts.find_holder(&sighting.entity_id) {
                Some(slot) => {
                    let held = &old_contacts.entries[slot];
                    if inside {
                        out.push(
                            RadarContactDelta::Change(
                                held.storage_id.clone(),
                                contact_for(sighting),
                            ),
                        );
                    } else {
                        out.push(RadarContactDelta::Remove(held.storage_id.clone()));
                    }
                    assert(views(out@) =~= before.push(
                        delta_for(entity_id@, radar_receiver.radius, old_contacts@, sighting@)->0,
                    ));
                },
                None => {
                    if inside {
                        out.push(RadarContactDelta::Add(contact_for(sighting)));
                        assert(views(out@) =~= before.push(
                            delta_for(entity_id@, radar_receiver.radius, old_contacts@, sighting@)->0,
                        ));
                    }
                },
            }
        }
        i += 1;
    }
    assert(views(sightings@).take(sightings@.len() as int) =~= views(sightings@));
    out
}

/// The contact that `sighting` is published as.
pub fn contact_for(sighting: &Sighting) -> (contact: RadarContact)
    ensures
        contact@ == contact_of(sighting@),
{
    RadarContact {
        entity_id: sighting.entity_id.clone(),
        distance: sighting.vector.mag,
        azimuth: sighting.vector.azimuth,
        elevation: sighting.vector.elevation,
    }
}

} // verus!
