//! The radar handler around the diff engine: which keys a frame reads, how the
//! previous contacts are gathered from what the store returned, and which
//! commands the computed changes are published as.

use crate::address::{
    call_subject, component_key, entity_resource, request_subject, resource_path, store_key,
    spec_call_subject, spec_component_key, spec_entity_resource, spec_resource_path,
    spec_store_key, Verb,
};
use crate::command::{Command, CommandView, Payload, PayloadView};
use crate::failure::Failure;
use crate::model::{views, Lookup};
use crate::position_cache::{distinct_ids, CachedPosition, CachedView, Position};
use crate::radar::{
    radar_updates, spec_radar_updates, stored, ContactBook, ContactView, DeltaView,
    RadarContact, RadarContactDelta, RadarReceiver, Sighting, SightingView, StoredView,
    TargetVector,
};
use crate::radar_laws::distinct_entities;
use crate::text::lemma_replaced_without;
use vstd::prelude::*;
use vstd::string::StringExecFns;

verus! {

/// The resource path of a sensor's contact collection.
pub open spec fn spec_contacts_resource(resource_id: Seq<char>) -> Seq<char> {
    resource_id + "."@ + "radar_contacts"@
}

/// The command that publishes one change for the sensor at `resource_id`: an
/// addition is appended to the sensor's contact collection; a removal deletes
/// the stored contact and a change replaces it, each addressed at the contact
/// itself. Storage identifiers go out in dotted form.
pub open spec fn spec_command_for(resource_id: Seq<char>, delta: DeltaView) -> CommandView {
    match delta {
        DeltaView::Add(contact) => CommandView {
            subject: spec_call_subject(spec_contacts_resource(resource_id), Verb::Append),
            payload: PayloadView::Contact(contact),
        },
        DeltaView::Remove(storage_id) => CommandView {
            subject: spec_call_subject(spec_resource_path(storage_id), Verb::Delete),
            payload: PayloadView::ResourceId(spec_resource_path(storage_id)),
        },
        DeltaView::Change(storage_id, contact) => CommandView {
            subject: spec_call_subject(spec_resource_path(storage_id), Verb::Replace),
            payload: PayloadView::Contact(contact),
        },
    }
}

/// The commands that publish `deltas`, one for each and in their order.
pub open spec fn spec_contact_commands(resource_id: Seq<char>, deltas: Seq<DeltaView>) -> Seq<
    CommandView,
> {
    Seq::new(deltas.len(), |i: int| spec_command_for(resource_id, deltas[i]))
}

/// A storage identifier that holds no colon goes out as it is: the removal is
/// addressed to it and names it, and the change is addressed to it.
pub proof fn lemma_dotted_storage_id_goes_out_unchanged(
    resource_id: Seq<char>,
    storage_id: Seq<char>,
    contact: ContactView,
)
    requires
        !storage_id.contains(':'),
    ensures
        spec_command_for(resource_id, DeltaView::Remove(storage_id)).subject
            == spec_call_subject(storage_id, Verb::Delete),
        spec_command_for(resource_id, DeltaView::Remove(storage_id)).payload
            == PayloadView::ResourceId(storage_id),
        spec_command_for(resource_id, DeltaView::Change(storage_id, contact)).subject
            == spec_call_subject(storage_id, Verb::Replace),
{
    lemma_replaced_without(storage_id, ':', '.');
}

/// What a frame comes to once each of its commands has been tried:
/// `delivered` holds, for each command in order, whether its publish went
/// through. Every command is tried whatever became of the others, and the
/// frame fails exactly if some publish did not go through.
pub open spec fn spec_frame_outcome(delivered: Seq<bool>) -> Result<(), Failure> {
    if exists|i: int| 0 <= i < delivered.len() && !delivered[i] {
        Err(Failure::PublishFailed)
    } else {
        Ok(())
    }
}

/// What a frame comes to, given for each of its commands whether its publish
/// went through.
pub fn frame_outcome(delivered: &Vec<bool>) -> (outcome: Result<(), Failure>)
    ensures
        outcome == spec_frame_outcome(delivered@),
{
    let mut i: usize = 0;
    while i < delivered.len()
        invariant
            i <= delivered.len(),
            forall|k: int| 0 <= k < i ==> delivered@[k],
        decreases delivered.len() - i,
    {
        if !delivered[i] {
            return Err(Failure::PublishFailed);
        }
        i += 1;
    }
    Ok(())
}

/// The key of the contact set of the sensor `entity_id`.
pub fn contacts_key(shard: &str, entity_id: &str) -> (key: String)
    ensures
        key@ == spec_component_key(shard@, entity_id@, "radar_contacts"@),
{
    component_key(shard, entity_id, "radar_contacts")
}

/// The key of the receiver component of the sensor `entity_id`.
pub fn receiver_key(shard: &str, entity_id: &str) -> (key: String)
    ensures
        key@ == spec_component_key(shard@, entity_id@, "radar_receiver"@),
{
    component_key(shard, entity_id, "radar_receiver")
}

/// The key of the position component of the sensor `entity_id`.
pub fn position_key(shard: &str, entity_id: &str) -> (key: String)
    ensures
        key@ == spec_component_key(shard@, entity_id@, "position"@),
{
    component_key(shard, entity_id, "position")
}

/// The key under which the store holds the contact that the contact set
/// lists as `member`.
pub fn member_key(member: &str) -> (key: String)
    ensures
        key@ == spec_store_key(member@),
{
    store_key(member)
}

/// What a frame works on, given what the store holds as the sensor's receiver
/// and as its position: a frame for an entity that lacks either is ignored,
/// and a stored value that does not parse is a failure.
pub open spec fn spec_frame_inputs(
    receiver: Lookup<RadarReceiver>,
    position: Lookup<Position>,
) -> Result<Option<(RadarReceiver, Position)>, Failure> {
    match (receiver, position) {
        (Lookup::Missing, _) => Ok(None),
        (_, Lookup::Missing) => Ok(None),
        (Lookup::Unreadable, _) => Err(Failure::UnreadableReceiver),
        (Lookup::Found(_), Lookup::Unreadable) => Err(Failure::UnreadablePosition),
        (Lookup::Found(found_receiver), Lookup::Found(found_position)) => Ok(
            Some((found_receiver, found_position)),
        ),
    }
}

/// The receiver and the position that a frame works on, `None` where the
/// frame is to be ignored.
pub fn frame_inputs(
    receiver: Lookup<RadarReceiver>,
    position: Lookup<Position>,
) -> (inputs: Result<Option<(RadarReceiver, Position)>, Failure>)
    ensures
        inputs == spec_frame_inputs(receiver, position),
{
    match (receiver, position) {
        (Lookup::Missing, _) => Ok(None),
        (_, Lookup::Missing) => Ok(None),
        (Lookup::Unreadable, _) => Err(Failure::UnreadableReceiver),
        (Lookup::Found(_), Lookup::Unreadable) => Err(Failure::UnreadablePosition),
        (Lookup::Found(found_receiver), Lookup::Found(found_position)) => Ok(
            Some((found_receiver, found_position)),
        ),
    }
}

/// The snapshot as seen from the sensor: entry `i` of the snapshot with the
/// offset `vectors[i]` to it.
pub open spec fn spec_sightings(entries: Seq<CachedView>, vectors: Seq<TargetVector>) -> Seq<
    SightingView,
> {
    Seq::new(
        entries.len(),
        |i: int| SightingView { entity_id: entries[i].entity_id, vector: vectors[i] },
    )
}

/// Pairs each entry of a snapshot with the offset to it. There must be one
/// offset for each entry.
pub fn sightings_of(
    entries: &Vec<CachedPosition>,
    vectors: &Vec<TargetVector>,
) -> (out: Option<Vec<Sighting>>)
    ensures
        match out {
            Some(sightings) => {
                &&& entries@.len() == vectors@.len()
                &&& views(sightings@) == spec_sightings(views(entries@), vectors@)
                &&& distinct_ids(views(entries@)) ==> distinct_entities(views(sightings@))
            },
            None => entries@.len() != vectors@.len(),
        },
{
    proof {
        if distinct_ids(views(entries@)) {
            lemma_sightings_distinct(views(entries@), vectors@);
        }
    }
    if entries.len() != vectors.len() {
        return None;
    }
    let mut sightings: Vec<Sighting> = Vec::new();
    let mut i: usize = 0;
    while i < entries.len()
        invariant
            i <= entries.len(),
            entries@.len() == vectors@.len(),
            sightings@.len() == i,
            forall|k: int|
                0 <= k < i ==> (#[trigger] sightings@[k])@ == (SightingView {
                    entity_id: entries@[k].entity_id@,
                    vector: vectors@[k],
                }),
        decreases entries.len() - i,
    {
        sightings.push(Sighting { entity_id: entries[i].entity_id.clone(), vector: vectors[i] });
        i += 1;
    }
    assert(views(sightings@) =~= spec_sightings(views(entries@), vectors@));
    Some(sightings)
}

/// A snapshot that lists each entity once is seen as sightings of distinct
/// entities.
pub proof fn lemma_sightings_distinct(entries: Seq<CachedView>, vectors: Seq<TargetVector>)
    requires
        distinct_ids(entries),
    ensures
        distinct_entities(spec_sightings(entries, vectors)),
{
    let sightings = spec_sightings(entries, vectors);
    assert forall|i: int, j: int| 0 <= i < j < sightings.len() implies (
    #[trigger] sightings[i]).entity_id != (#[trigger] sightings[j]).entity_id by {
        assert(entries[i].entity_id != entries[j].entity_id);
    }
}

/// One member of a sensor's contact set and what the store returned for it.
#[derive(Debug, PartialEq, Eq)]
pub struct ContactLookup {
    pub storage_id: String,
    pub found: Lookup<RadarContact>,
}

/// What a `ContactLookup` holds, as mathematical values: the storage
/// identifier, and the contact where one was found.
pub struct ContactLookupView {
    pub storage_id: Seq<char>,
    pub found: Option<ContactView>,
}

impl View for ContactLookup {
    type V = ContactLookupView;

    open spec fn view(&self) -> ContactLookupView {
        ContactLookupView {
            storage_id: self.storage_id@,
            found: match self.found {
                Lookup::Found(contact) => Some(contact@),
                _ => None,
            },
        }
    }
}

/// The book that a list of lookups amounts to: each contact that was found is
/// stored under its identifier, in the list's order; a member whose record is
/// missing or does not parse counts as no previous contact.
pub open spec fn spec_collect_contacts(lookups: Seq<ContactLookupView>) -> Seq<StoredView>
    decreases lookups.len(),
{
    if lookups.len() == 0 {
        Seq::<StoredView>::empty()
    } else {
        let earlier = spec_collect_contacts(lookups.drop_last());
        match lookups.last().found {
            Some(contact) => stored(earlier, lookups.last().storage_id, contact),
            None => earlier,
        }
    }
}

/// Gathers the previous contacts of a sensor from what the store returned for
/// the members of its contact set.
pub fn collect_contacts(lookups: &Vec<ContactLookup>) -> (book: ContactBook)
    ensures
        book@ == spec_collect_contacts(views(lookups@)),
{
    let mut book = ContactBook::new();
    let mut i: usize = 0;
    assert(views(lookups@).take(0) =~= Seq::<ContactLookupView>::empty());
    while i < lookups.len()
        invariant
            i <= lookups.len(),
            book@ == spec_collect_contacts(views(lookups@).take(i as int)),
        decreases lookups.len() - i,
    {
        let ghost next = views(lookups@).take(i + 1);
        assert(next.drop_last() =~= views(lookups@).take(i as int));
        assert(next.last() == lookups@[i as int]@);
        match &lookups[i].found {
            Lookup::Found(contact) => {
                book.insert(lookups[i].storage_id.clone(), contact.clone());
            },
            _ => {},
        }
        i += 1;
    }
    assert(views(lookups@).take(lookups@.len() as int) =~= views(lookups@));
    book
}

/// The command that publishes `delta` for the sensor at `resource_id`.
pub fn command_for(resource_id: &str, delta: &RadarContactDelta) -> (command: Command)
    ensures
        command@ == spec_command_for(resource_id@, delta@),
{
    match delta {
        RadarContactDelta::Add(contact) => {
            let mut collection = String::from_str(resource_id);
            collection.append(".");
            collection.append("radar_contacts");
            Command {
                subject: request_subject(collection.as_str(), Verb::Append),
                payload: Payload::Contact(contact.clone()),
            }
        },
        RadarContactDelta::Remove(storage_id) => {
            let stored_at = resource_path(storage_id.as_str());
            Command {
                subject: request_subject(stored_at.as_str(), Verb::Delete),
                payload: Payload::ResourceId(stored_at),
            }
        },
        RadarContactDelta::Change(storage_id, contact) => {
            let stored_at = resource_path(storage_id.as_str());
            Command {
                subject: call_subject(stored_at.as_str(), Verb::Replace),
                payload: Payload::Contact(contact.clone()),
            }
        },
    }
}

/// The commands that publish `updates` for the sensor at `resource_id`.
pub fn contact_commands(resource_id: &str, updates: &Vec<RadarContactDelta>) -> (out: Vec<Command>)
    ensures
        views(out@) == spec_contact_commands(resource_id@, views(updates@)),
{
    let mut out: Vec<Command> = Vec::new();
    let mut i: usize = 0;
    while i < updates.len()
        invariant
            i <= updates.len(),
            out@.len() == i,
            forall|k: int| 0 <= k < i ==> (#[trigger] out@[k])@ == spec_command_for(resource_id@, updates@[k]@),
        decreases updates.len() - i,
    {
        out.push(command_for(resource_id, &updates[i]));
        i += 1;
    }
    assert(views(out@) =~= spec_contact_commands(resource_id@, views(updates@)));
    out
}

/// What a frame for the sensor `entity_id` of `shard` publishes: the commands
/// for the changes between what the sensor published before and who is in
/// range now.
pub fn handle_frame(
    shard: &str,
    entity_id: &str,
    radar_receiver: &RadarReceiver,
    old_contacts: &ContactBook,
    sightings: &Vec<Sighting>,
) -> (out: Vec<Command>)
    ensures
        views(out@) == spec_contact_commands(
            spec_entity_resource(shard@, entity_id@),
            spec_radar_updates(
                entity_id@,
                radar_receiver.radius,
                old_contacts@,
                views(sightings@),
            ),
        ),
{
    let resource_id = entity_resource(shard, entity_id);
    let updates = radar_updates(entity_id, radar_receiver, old_contacts, sightings);
    contact_commands(resource_id.as_str(), &updates)
}

} // verus!
