//! The mining handler: an extractor's timer runs down tick by tick, and the
//! tick that empties it starts the completion sequence. The handler decides;
//! the embedding reads the store and publishes, and hands back what came of
//! it. Every publish stands alone: a failure ends the sequence where it is
//! and undoes nothing.

use crate::address::{
    call_subject, component_key, component_resource, containing_entity, spec_call_subject,
    spec_component_key, spec_component_resource, spec_containing_entity, spec_store_key,
    store_key, Verb,
};
use crate::command::{Command, CommandView, Payload, PayloadView};
use crate::components::{
    deplete_transponder, spec_deplete_transponder, spec_time_left, spec_update_extractor,
    update_extractor,
    ExtractorView, MiningExtractor, MiningResource, RadarTransponder, TransponderView,
};
use crate::failure::Failure;
use crate::model::{Lookup, LookupView};
use vstd::prelude::*;
use vstd::string::StringExecFns;

verus! {

/// The publishes of the handler, in the order in which a run makes them:
/// either the one that saves a running extractor, or the five of the
/// completion sequence.
#[derive(Clone, Copy, Debug, PartialEq, Eq, Structural)]
pub enum PublishStep {
    /// Replace the extractor by the one with less time left.
    SaveExtractor,
    /// Append the mined resource to the owner's inventory.
    CreditInventory,
    /// Delete the resource that the extractor targets.
    DeleteResource,
    /// Delete the extractor.
    DeleteExtractor,
    /// Delete the asteroid's mining lock.
    ReleaseLock,
    /// Replace the asteroid's transponder by the depleted one.
    MarkDepleted,
}

/// What the embedding is to do next.
#[derive(Debug, PartialEq, Eq)]
pub enum Next {
    /// Publish the command, then report with `after_publish` for this step.
    Publish(PublishStep, Command),
    /// Read the resource under this key, then report with `extract_resource`.
    ReadResource(String),
    /// Read the transponder under this key, then report with
    /// `transponder_read`.
    ReadTransponder(String),
    /// The frame is done.
    Finished,
    /// The frame is given up.
    Failed(Failure),
}

/// What a `Next` holds, as mathematical values.
pub enum NextView {
    Publish(PublishStep, CommandView),
    ReadResource(Seq<char>),
    ReadTransponder(Seq<char>),
    Finished,
    Failed(Failure),
}

impl View for Next {
    type V = NextView;

    open spec fn view(&self) -> NextView {
        match self {
            Next::Publish(step, command) => NextView::Publish(*step, command@),
            Next::ReadResource(key) => NextView::ReadResource(key@),
            Next::ReadTransponder(key) => NextView::ReadTransponder(key@),
            Next::Finished => NextView::Finished,
            Next::Failed(failure) => NextView::Failed(*failure),
        }
    }
}

/// The command that saves `extractor` as the extractor of `entity_id`.
pub open spec fn spec_publish_extractor(
    extractor: ExtractorView,
    shard: Seq<char>,
    entity_id: Seq<char>,
) -> CommandView {
    CommandView {
        subject: spec_call_subject(
            spec_component_resource(shard, entity_id, "extractor"@),
            Verb::Replace,
        ),
        payload: PayloadView::Extractor(extractor),
    }
}

/// The command that appends `resource` to the inventory of `entity_id`.
pub open spec fn spec_credit_inventory(
    shard: Seq<char>,
    entity_id: Seq<char>,
    resource: Seq<char>,
) -> CommandView {
    CommandView {
        subject: spec_call_subject(
            spec_component_resource(shard, entity_id, "inventory"@),
            Verb::Append,
        ),
        payload: PayloadView::Resource(resource),
    }
}

/// The command that deletes the resource at `target`.
pub open spec fn spec_delete_resource(target: Seq<char>) -> CommandView {
    CommandView {
        subject: spec_call_subject(target, Verb::Delete),
        payload: PayloadView::ResourceId(target),
    }
}

/// The command that deletes the extractor of `entity_id`.
pub open spec fn spec_delete_extractor(shard: Seq<char>, entity_id: Seq<char>) -> CommandView {
    CommandView {
        subject: spec_call_subject(
            spec_component_resource(shard, entity_id, "extractor"@),
            Verb::Delete,
        ),
        payload: PayloadView::ResourceId(spec_component_resource(shard, entity_id, "extractor"@)),
    }
}

/// The command that deletes the mining lock of `asteroid`.
pub open spec fn spec_release_lock(shard: Seq<char>, asteroid: Seq<char>) -> CommandView {
    CommandView {
        subject: spec_call_subject(
            spec_component_resource(shard, asteroid, "mining_lock"@),
            Verb::Delete,
        ),
        payload: PayloadView::ResourceId(spec_component_resource(shard, asteroid, "mining_lock"@)),
    }
}

/// The command that replaces the transponder of `asteroid` by the depleted
/// form of `old_tp`.
pub open spec fn spec_mark_depleted(
    shard: Seq<char>,
    asteroid: Seq<char>,
    old_tp: TransponderView,
) -> CommandView {
    CommandView {
        subject: spec_call_subject(
            spec_component_resource(shard, asteroid, "transponder"@),
            Verb::Replace,
        ),
        payload: PayloadView::Transponder(spec_deplete_transponder(old_tp)),
    }
}

/// What a frame of `elapsed_ms` starts with, given what the store holds as
/// the extractor of `entity_id`. Without an extractor the frame is ignored.
/// With one, its timer is taken down; while time is left the extractor is
/// saved, and once none is left the completion sequence begins with the read
/// of the resource that the extractor targets.
pub open spec fn spec_handle_frame(
    shard: Seq<char>,
    entity_id: Seq<char>,
    found: LookupView<ExtractorView>,
    elapsed_ms: nat,
) -> NextView {
    match found {
        LookupView::Missing => NextView::Finished,
        LookupView::Unreadable => NextView::Failed(Failure::UnreadableExtractor),
        LookupView::Found(extractor) => {
            let updated = spec_update_extractor(extractor, elapsed_ms);
            if spec_time_left(updated) {
                NextView::Publish(
                    PublishStep::SaveExtractor,
                    spec_publish_extractor(updated, shard, entity_id),
                )
            } else {
                NextView::ReadResource(spec_store_key(updated.target))
            }
        },
    }
}

/// How the completion sequence goes on from the read of the resource: a
/// resource that is missing ends it before anything is published.
pub open spec fn spec_extract_resource(
    shard: Seq<char>,
    entity_id: Seq<char>,
    found: LookupView<Seq<char>>,
) -> NextView {
    match found {
        LookupView::Missing => NextView::Failed(Failure::MissingTarget),
        LookupView::Unreadable => NextView::Failed(Failure::UnreadableResource),
        LookupView::Found(resource) => NextView::Publish(
            PublishStep::CreditInventory,
            spec_credit_inventory(shard, entity_id, resource),
        ),
    }
}

/// What follows the publish of `step`: nothing more where it was not
/// delivered; else the next step of the fixed order.
pub open spec fn spec_after_publish(
    step: PublishStep,
    delivered: bool,
    shard: Seq<char>,
    entity_id: Seq<char>,
    target: Seq<char>,
) -> NextView {
    if !delivered {
        NextView::Failed(Failure::PublishFailed)
    } else {
        match step {
            PublishStep::SaveExtractor => NextView::Finished,
            PublishStep::CreditInventory => NextView::Publish(
                PublishStep::DeleteResource,
                spec_delete_resource(target),
            ),
            PublishStep::DeleteResource => NextView::Publish(
                PublishStep::DeleteExtractor,
                spec_delete_extractor(shard, entity_id),
            ),
            PublishStep::DeleteExtractor => match spec_containing_entity(target) {
                Some(asteroid) => NextView::Publish(
                    PublishStep::ReleaseLock,
                    spec_release_lock(shard, asteroid),
                ),
                None => NextView::Failed(Failure::MalformedTarget),
            },
            PublishStep::ReleaseLock => match spec_containing_entity(target) {
                Some(asteroid) => NextView::ReadTransponder(
                    spec_component_key(shard, asteroid, "transponder"@),
                ),
                None => NextView::Failed(Failure::MalformedTarget),
            },
            PublishStep::MarkDepleted => NextView::Finished,
        }
    }
}

/// The transponder that a lookup yields, or why it yields none.
pub open spec fn spec_get_transponder(found: LookupView<TransponderView>) -> Result<
    TransponderView,
    Failure,
> {
    match found {
        LookupView::Missing => Err(Failure::MissingTransponder),
        LookupView::Unreadable => Err(Failure::UnreadableTransponder),
        LookupView::Found(transponder) => Ok(transponder),
    }
}

/// How the completion sequence goes on from the read of the asteroid's
/// transponder.
pub open spec fn spec_transponder_read(
    shard: Seq<char>,
    target: Seq<char>,
    found: LookupView<TransponderView>,
) -> NextView {
    match spec_get_transponder(found) {
        Err(failure) => NextView::Failed(failure),
        Ok(old_tp) => match spec_containing_entity(target) {
            Some(asteroid) => NextView::Publish(
                PublishStep::MarkDepleted,
                spec_mark_depleted(shard, asteroid, old_tp),
            ),
            None => NextView::Failed(Failure::MalformedTarget),
        },
    }
}

/// The key under which the store holds the extractor of `entity_id`.
pub fn extractor_key(shard: &str, entity_id: &str) -> (key: String)
    ensures
        key@ == spec_component_key(shard@, entity_id@, "extractor"@),
{
    component_key(shard, entity_id, "extractor")
}

/// The command that saves `extractor` as the extractor of `entity_id`.
pub fn publish_extractor(
    extractor: &MiningExtractor,
    shard: &str,
    entity_id: &str,
) -> (command: Command)
    ensures
        command@ == spec_publish_extractor(extractor@, shard@, entity_id@),
{
    let resource = component_resource(shard, entity_id, "extractor");
    Command {
        subject: call_subject(resource.as_str(), Verb::Replace),
        payload: Payload::Extractor(extractor.clone()),
    }
}

/// Starts a frame of `elapsed_ms` for `entity_id`, given what the store holds
/// as its extractor.
pub fn handle_frame(
    shard: &str,
    entity_id: &str,
    found: Lookup<MiningExtractor>,
    elapsed_ms: u32,
) -> (next: Next)
    ensures
        next@ == spec_handle_frame(
            shard@,
            entity_id@,
            found@,
            elapsed_ms as nat,
        ),
{
    match found {
        Lookup::Missing => Next::Finished,
        Lookup::Unreadable => Next::Failed(Failure::UnreadableExtractor),
        Lookup::Found(extractor) => {
            let updated = update_extractor(extractor, elapsed_ms);
            if updated.time_left() {
                Next::Publish(
                    PublishStep::SaveExtractor,
                    publish_extractor(&updated, shard, entity_id),
                )
            } else {
                Next::ReadResource(store_key(updated.target.as_str()))
            }
        },
    }
}

/// Goes on from the read of the resource that the extractor targets.
pub fn extract_resource(
    shard: &str,
    entity_id: &str,
    found: Lookup<MiningResource>,
) -> (next: Next)
    ensures
        next@ == spec_extract_resource(shard@, entity_id@, found@),
{
    match found {
        Lookup::Missing => Next::Failed(Failure::MissingTarget),
        Lookup::Unreadable => Next::Failed(Failure::UnreadableResource),
        Lookup::Found(resource) => {
            let inventory = component_resource(shard, entity_id, "inventory");
            Next::Publish(
                PublishStep::CreditInventory,
                Command {
                    subject: call_subject(inventory.as_str(), Verb::Append),
                    payload: Payload::Resource(resource),
                },
            )
        },
    }
}

/// Goes on from the publish of `step`, which was `delivered` or not.
pub fn after_publish(
    step: PublishStep,
    delivered: bool,
    shard: &str,
    entity_id: &str,
    target: &str,
) -> (next: Next)
    ensures
        next@ == spec_after_publish(step, delivered, shard@, entity_id@, target@),
{
    if !delivered {
        return Next::Failed(Failure::PublishFailed);
    }
    match step {
        PublishStep::SaveExtractor => Next::Finished,
        PublishStep::CreditInventory => Next::Publish(
            PublishStep::DeleteResource,
            Command {
                subject: call_subject(target, Verb::Delete),
                payload: Payload::ResourceId(String::from_str(target)),
            },
        ),
        PublishStep::DeleteResource => {
            let extractor = component_resource(shard, entity_id, "extractor");
            Next::Publish(
                PublishStep::DeleteExtractor,
                Command {
                    subject: call_subject(extractor.as_str(), Verb::Delete),
                    payload: Payload::ResourceId(extractor),
                },
            )
        },
        PublishStep::DeleteExtractor => match containing_entity(target) {
            Some(asteroid) => {
                let lock = component_resource(shard, asteroid.as_str(), "mining_lock");
                Next::Publish(
                    PublishStep::ReleaseLock,
                    Command {
                        subject: call_subject(lock.as_str(), Verb::Delete),
                        payload: Payload::ResourceId(lock),
                    },
                )
            },
            None => Next::Failed(Failure::MalformedTarget),
        },
        PublishStep::ReleaseLock => match containing_entity(target) {
            Some(asteroid) => Next::ReadTransponder(
                component_key(shard, asteroid.as_str(), "transponder"),
            ),
            None => Next::Failed(Failure::MalformedTarget),
        },
        PublishStep::MarkDepleted => Next::Finished,
    }
}

/// The transponder that a lookup yields, or why it yields none.
pub fn get_transponder(found: Lookup<RadarTransponder>) -> (outcome: Result<
    RadarTransponder,
    Failure,
>)
    ensures
        spec_get_transponder(found@) == match outcome {
            Ok(transponder) => Ok::<TransponderView, Failure>(transponder@),
            Err(failure) => Err::<TransponderView, Failure>(failure),
        },
{
    match found {
        Lookup::Missing => Err(Failure::MissingTransponder),
        Lookup::Unreadable => Err(Failure::UnreadableTransponder),
        Lookup::Found(transponder) => Ok(transponder),
    }
}

/// Goes on from the read of the asteroid's transponder.
pub fn transponder_read(
    shard: &str,
    target: &str,
    found: Lookup<RadarTransponder>,
) -> (next: Next)
    ensures
        next@ == spec_transponder_read(shard@, target@, found@),
{
    match get_transponder(found) {
        Err(failure) => Next::Failed(failure),
        Ok(old_tp) => match containing_entity(target) {
            Some(asteroid) => {
                let resource = component_resource(shard, asteroid.as_str(), "transponder");
                Next::Publish(
                    PublishStep::MarkDepleted,
                    Command {
                        subject: call_subject(resource.as_str(), Verb::Replace),
                        payload: Payload::Transponder(deplete_transponder(&old_tp)),
                    },
                )
            },
            None => Next::Failed(Failure::MalformedTarget),
        },
    }
}

} // verus!
