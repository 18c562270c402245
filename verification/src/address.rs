//! How components are addressed: colon-delimited keys for store lookups,
//! dot-delimited resource paths for message subjects, and the subjects of the
//! command protocol.

use crate::text::{
    lemma_pieces_joined, lemma_pieces_shape, lemma_pieces_single, nth_piece, occurrences, piece,
    pieces, replace_char, replaced,
};
use decscloud_common::gateway::ResProtocolRequest;
use vstd::prelude::*;
use vstd::string::StringExecFns;

verus! {

/// The verbs of the command protocol.
#[derive(Clone, Copy, Debug, PartialEq, Eq, Structural)]
pub enum Verb {
    /// Append to a collection: `new`.
    Append,
    /// Replace a component: `set`.
    Replace,
    /// Remove by resource identifier: `delete`.
    Delete,
}

/// The last segment of a command's subject.
pub open spec fn verb_name(verb: Verb) -> Seq<char> {
    match verb {
        Verb::Append => "new"@,
        Verb::Replace => "set"@,
        Verb::Delete => "delete"@,
    }
}

/// The subject on which `verb` is asked of `resource`.
pub open spec fn spec_call_subject(resource: Seq<char>, verb: Verb) -> Seq<char> {
    "call."@ + resource + "."@ + verb_name(verb)
}

/// The resource path of an entity.
pub open spec fn spec_entity_resource(shard: Seq<char>, entity_id: Seq<char>) -> Seq<char> {
    "decs.components."@ + shard + "."@ + entity_id
}

/// The resource path of one component of an entity.
pub open spec fn spec_component_resource(
    shard: Seq<char>,
    entity_id: Seq<char>,
    component: Seq<char>,
) -> Seq<char> {
    spec_entity_resource(shard, entity_id) + "."@ + component
}

/// The key under which the store holds one component of an entity.
pub open spec fn spec_component_key(
    shard: Seq<char>,
    entity_id: Seq<char>,
    component: Seq<char>,
) -> Seq<char> {
    "decs:components:"@ + shard + ":"@ + entity_id + ":"@ + component
}

/// A resource path in the form of a store key.
pub open spec fn spec_store_key(resource: Seq<char>) -> Seq<char> {
    replaced(resource, '.', ':')
}

/// A store key in the form of a resource path.
pub open spec fn spec_resource_path(key: Seq<char>) -> Seq<char> {
    replaced(key, ':', '.')
}

/// The entity that a component's resource path belongs to: its fourth
/// segment, if it has that many.
pub open spec fn spec_containing_entity(resource: Seq<char>) -> Option<Seq<char>> {
    piece(resource, '.', 3)
}

/// The subject on which `verb` is asked of `resource`.
pub fn call_subject(resource: &str, verb: Verb) -> (subject: String)
    ensures
        subject@ == spec_call_subject(resource@, verb),
{
    let mut subject = String::from_str("call.");
    subject.append(resource);
    subject.append(".");
    match verb {
        Verb::Append => subject.append("new"),
        Verb::Replace => subject.append("set"),
        Verb::Delete => subject.append("delete"),
    }
    subject
}

/// The subject of a request as `decscloud_common` writes it:
/// `ResProtocolRequest::to_string` gives, for the variants `New`, `Set` and
/// `Delete`, the text `call.`, the resource identifier, a dot and the verb's
/// name. The radar's additions and removals go out on these subjects.
#[verifier::external_body]
pub(crate) fn request_subject(resource: &str, verb: Verb) -> (subject: String)
    ensures
        subject@ == spec_call_subject(resource@, verb),
{
    let resource = resource.to_string();
    let request = match verb {
        Verb::Append => ResProtocolRequest::New(resource),
        Verb::Replace => ResProtocolRequest::Set(resource),
        Verb::Delete => ResProtocolRequest::Delete(resource),
    };
    request.to_string()
}

/// The resource path of an entity.
pub fn entity_resource(shard: &str, entity_id: &str) -> (resource: String)
    ensures
        resource@ == spec_entity_resource(shard@, entity_id@),
{
    let mut resource = String::from_str("decs.components.");
    resource.append(shard);
    resource.append(".");
    resource.append(entity_id);
    resource
}

/// The resource path of one component of an entity.
pub fn component_resource(shard: &str, entity_id: &str, component: &str) -> (resource: String)
    ensures
        resource@ == spec_component_resource(shard@, entity_id@, component@),
{
    let mut resource = entity_resource(shard, entity_id);
    resource.append(".");
    resource.append(component);
    resource
}

/// The key under which the store holds one component of an entity.
pub fn component_key(shard: &str, entity_id: &str, component: &str) -> (key: String)
    ensures
        key@ == spec_component_key(shard@, entity_id@, component@),
{
    let mut key = String::from_str("decs:components:");
    key.append(shard);
    key.append(":");
    key.append(entity_id);
    key.append(":");
    key.append(component);
    key
}

/// Rewrites a resource path to the store key of what it addresses.
pub fn store_key(resource: &str) -> (key: String)
    ensures
        key@ == spec_store_key(resource@),
{
    replace_char(resource, '.', ':')
}

/// Rewrites a store key to the resource path of what it addresses.
pub fn resource_path(key: &str) -> (resource: String)
    ensures
        resource@ == spec_resource_path(key@),
{
    replace_char(key, ':', '.')
}

/// The entity that a component's resource path belongs to.
pub fn containing_entity(resource: &str) -> (entity_id: Option<String>)
    ensures
        match entity_id {
            Some(found) => spec_containing_entity(resource@) == Some(found@),
            None => spec_containing_entity(resource@) is None,
        },
{
    nth_piece(resource, '.', 3)
}

/// The segments of an entity's resource path, where neither the shard nor the
/// entity identifier holds a dot.
pub proof fn lemma_entity_resource_segments(shard: Seq<char>, entity_id: Seq<char>)
    requires
        !shard.contains('.'),
        !entity_id.contains('.'),
    ensures
        pieces(spec_entity_resource(shard, entity_id), '.') == seq![
            "decs"@,
            "components"@,
            shard,
            entity_id,
        ],
{
    reveal_strlit("decs.components.");
    reveal_strlit("decs");
    reveal_strlit("components");
    reveal_strlit(".");
    let dot = seq!['.'];
    let decs = "decs"@;
    let components = "components"@;
    assert("decs.components."@ =~= decs + dot + components + dot);
    assert(!decs.contains('.'));
    assert(!components.contains('.'));
    let tail2 = shard + dot + entity_id;
    let tail1 = components + dot + tail2;
    assert(spec_entity_resource(shard, entity_id) =~= decs + dot + tail1);
    lemma_pieces_joined(decs, '.', tail1);
    lemma_pieces_joined(components, '.', tail2);
    lemma_pieces_joined(shard, '.', entity_id);
    lemma_pieces_single(decs, '.');
    lemma_pieces_single(components, '.');
    lemma_pieces_single(shard, '.');
    lemma_pieces_single(entity_id, '.');
    assert(pieces(spec_entity_resource(shard, entity_id), '.') =~= seq![
        decs,
        components,
        shard,
        entity_id,
    ]);
}

/// A component's resource path names its entity in the fourth segment,
/// whatever the component, where neither the shard nor the entity identifier
/// holds a dot.
pub proof fn lemma_component_names_entity(
    shard: Seq<char>,
    entity_id: Seq<char>,
    component: Seq<char>,
)
    requires
        !shard.contains('.'),
        !entity_id.contains('.'),
    ensures
        spec_containing_entity(spec_component_resource(shard, entity_id, component)) == Some(
            entity_id,
        ),
{
    reveal_strlit(".");
    let entity = spec_entity_resource(shard, entity_id);
    lemma_entity_resource_segments(shard, entity_id);
    assert(spec_component_resource(shard, entity_id, component) =~= entity + seq!['.']
        + component);
    lemma_pieces_joined(entity, '.', component);
    lemma_pieces_shape(component, '.');
}

/// A path with fewer than three dots names no entity.
pub proof fn lemma_short_path_names_none(resource: Seq<char>)
    requires
        occurrences(resource, '.') < 3,
    ensures
        spec_containing_entity(resource) is None,
{
    lemma_pieces_shape(resource, '.');
}

/// Rewriting a resource path to a store key and back gives the path again,
/// where the path holds no colon.
pub proof fn lemma_store_key_round_trip(resource: Seq<char>)
    requires
        !resource.contains(':'),
    ensures
        spec_resource_path(spec_store_key(resource)) == resource,
{
    assert forall|i: int| 0 <= i < resource.len() implies spec_resource_path(
        spec_store_key(resource),
    )[i] == resource[i] by {
        if resource[i] == ':' {
            assert(resource.contains(':'));
        }
    }
    assert(spec_resource_path(spec_store_key(resource)) =~= resource);
}

} // verus!
