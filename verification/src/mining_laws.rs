//! What holds of the runs of the mining handler: the order of the completion
//! sequence, and where a run ends when a read or a publish fails.

use crate::address::{spec_component_key, spec_containing_entity, spec_store_key};
use crate::components::{
    spec_time_left, spec_update_extractor, ExtractorView, TransponderView,
};
use crate::failure::Failure;
use crate::mining::{
    spec_after_publish, spec_credit_inventory, spec_delete_extractor, spec_delete_resource,
    spec_extract_resource, spec_handle_frame, spec_mark_depleted, spec_publish_extractor,
    spec_release_lock, spec_transponder_read, NextView, PublishStep,
};
use crate::model::LookupView;
use vstd::prelude::*;

verus! {

/// What the embedding meets while it carries out a run: what the store holds
/// as the targeted resource and as the asteroid's transponder, and the
/// publish that the transport refuses, if it refuses one.
pub struct World {
    pub resource: LookupView<Seq<char>>,
    pub transponder: LookupView<TransponderView>,
    pub refused: Option<PublishStep>,
}

/// A step after which the embedding has nothing more to do.
pub open spec fn is_final(next: NextView) -> bool {
    next is Finished || next is Failed
}

/// What the handler says once the embedding has carried out `next` in
/// `world`.
pub open spec fn reply(
    next: NextView,
    shard: Seq<char>,
    entity_id: Seq<char>,
    target: Seq<char>,
    world: World,
) -> NextView {
    match next {
        NextView::Publish(step, _) => spec_after_publish(
            step,
            world.refused != Some(step),
            shard,
            entity_id,
            target,
        ),
        NextView::ReadResource(_) => spec_extract_resource(shard, entity_id, world.resource),
        NextView::ReadTransponder(_) => spec_transponder_read(shard, target, world.transponder),
        NextView::Finished => next,
        NextView::Failed(_) => next,
    }
}

/// The steps of a run that starts with `first`, up to its final step or to
/// `limit` further steps.
pub open spec fn run(
    first: NextView,
    shard: Seq<char>,
    entity_id: Seq<char>,
    target: Seq<char>,
    world: World,
    limit: nat,
) -> Seq<NextView>
    decreases limit,
{
    if is_final(first) || limit == 0 {
        seq![first]
    } else {
        seq![first] + run(
            reply(first, shard, entity_id, target, world),
            shard,
            entity_id,
            target,
            world,
            (limit - 1) as nat,
        )
    }
}

/// The steps of a completion sequence in which every read finds its value and
/// every publish is delivered.
pub open spec fn completion(
    shard: Seq<char>,
    entity_id: Seq<char>,
    target: Seq<char>,
    asteroid: Seq<char>,
    resource: Seq<char>,
    old_tp: TransponderView,
) -> Seq<NextView> {
    seq![
        NextView::ReadResource(spec_store_key(target)),
        NextView::Publish(
            PublishStep::CreditInventory,
            spec_credit_inventory(shard, entity_id, resource),
        ),
        NextView::Publish(PublishStep::DeleteResource, spec_delete_resource(target)),
        NextView::Publish(PublishStep::DeleteExtractor, spec_delete_extractor(shard, entity_id)),
        NextView::Publish(PublishStep::ReleaseLock, spec_release_lock(shard, asteroid)),
        NextView::ReadTransponder(spec_component_key(shard, asteroid, "transponder"@)),
        NextView::Publish(PublishStep::MarkDepleted, spec_mark_depleted(shard, asteroid, old_tp)),
        NextView::Finished,
    ]
}

/// Where in the completion sequence each of its publishes stands.
pub open spec fn place(step: PublishStep) -> int {
    match step {
        PublishStep::SaveExtractor => -1,
        PublishStep::CreditInventory => 1,
        PublishStep::DeleteResource => 2,
        PublishStep::DeleteExtractor => 3,
        PublishStep::ReleaseLock => 4,
        PublishStep::MarkDepleted => 6,
    }
}

/// The timer never runs up and never below zero. A tick empties it exactly if
/// it is at least as long as the time left: longer than the whole
/// milliseconds left, or as long as they are with nothing beyond them.
pub proof fn lemma_timer_clamped(extractor: ExtractorView, elapsed_ms: nat)
    ensures
        spec_update_extractor(extractor, elapsed_ms).remaining_ms <= extractor.remaining_ms,
        spec_update_extractor(extractor, elapsed_ms).target == extractor.target,
        extractor.remaining_ms >= elapsed_ms ==> spec_update_extractor(extractor, elapsed_ms)
            == (ExtractorView {
            remaining_ms: (extractor.remaining_ms - elapsed_ms) as nat,
            ..extractor
        }),
        !spec_time_left(spec_update_extractor(extractor, elapsed_ms)) <==> extractor.remaining_ms
            < elapsed_ms || (extractor.remaining_ms == elapsed_ms && extractor.remaining_part
            == 0),
{
}

/// While time is left after a tick, the frame saves the extractor with the
/// time that is left and does nothing else.
pub proof fn lemma_running_extractor_is_saved(
    shard: Seq<char>,
    entity_id: Seq<char>,
    extractor: ExtractorView,
    elapsed_ms: nat,
    world: World,
)
    requires
        spec_time_left(spec_update_extractor(extractor, elapsed_ms)),
        world.refused is None,
    ensures
        run(
            spec_handle_frame(shard, entity_id, LookupView::Found(extractor), elapsed_ms),
            shard,
            entity_id,
            extractor.target,
            world,
            8,
        ) == seq![
            NextView::Publish(
                PublishStep::SaveExtractor,
                spec_publish_extractor(
                    spec_update_extractor(extractor, elapsed_ms),
                    shard,
                    entity_id,
                ),
            ),
            NextView::Finished,
        ],
{
    reveal_with_fuel(run, 3);
    let first = spec_handle_frame(shard, entity_id, LookupView::Found(extractor), elapsed_ms);
    assert(run(first, shard, entity_id, extractor.target, world, 8) =~= seq![
        NextView::Publish(
            PublishStep::SaveExtractor,
            spec_publish_extractor(spec_update_extractor(extractor, elapsed_ms), shard, entity_id),
        ),
        NextView::Finished,
    ]);
}

/// The tick that empties the timer runs the completion sequence once and in
/// its fixed order, where the reads find their values, the publishes are
/// delivered and the target names an asteroid.
pub proof fn lemma_completion_in_order(
    shard: Seq<char>,
    entity_id: Seq<char>,
    extractor: ExtractorView,
    elapsed_ms: nat,
    asteroid: Seq<char>,
    resource: Seq<char>,
    old_tp: TransponderView,
    world: World,
)
    requires
        !spec_time_left(spec_update_extractor(extractor, elapsed_ms)),
        spec_containing_entity(extractor.target) == Some(asteroid),
        world.resource == LookupView::Found(resource),
        world.transponder == LookupView::Found(old_tp),
        world.refused is None,
    ensures
        run(
            spec_handle_frame(shard, entity_id, LookupView::Found(extractor), elapsed_ms),
            shard,
            entity_id,
            extractor.target,
            world,
            8,
        ) == completion(shard, entity_id, extractor.target, asteroid, resource, old_tp),
{
    reveal_with_fuel(run, 9);
    let first = spec_handle_frame(shard, entity_id, LookupView::Found(extractor), elapsed_ms);
    assert(run(first, shard, entity_id, extractor.target, world, 8) =~= completion(
        shard,
        entity_id,
        extractor.target,
        asteroid,
        resource,
        old_tp,
    ));
}

/// Where the targeted resource is missing, the run ends with that failure
/// before anything is published.
pub proof fn lemma_missing_target_publishes_nothing(
    shard: Seq<char>,
    entity_id: Seq<char>,
    extractor: ExtractorView,
    elapsed_ms: nat,
    world: World,
)
    requires
        !spec_time_left(spec_update_extractor(extractor, elapsed_ms)),
        world.resource is Missing,
    ensures
        run(
            spec_handle_frame(shard, entity_id, LookupView::Found(extractor), elapsed_ms),
            shard,
            entity_id,
            extractor.target,
            world,
            8,
        ) == seq![
            NextView::ReadResource(spec_store_key(extractor.target)),
            NextView::Failed(Failure::MissingTarget),
        ],
{
    reveal_with_fuel(run, 3);
    let first = spec_handle_frame(shard, entity_id, LookupView::Found(extractor), elapsed_ms);
    assert(run(first, shard, entity_id, extractor.target, world, 8) =~= seq![
        NextView::ReadResource(spec_store_key(extractor.target)),
        NextView::Failed(Failure::MissingTarget),
    ]);
}

/// A publish of the completion sequence that is refused ends the run there:
/// the steps before it stand as they were made, and none follows.
pub proof fn lemma_refused_publish_ends_run(
    shard: Seq<char>,
    entity_id: Seq<char>,
    extractor: ExtractorView,
    elapsed_ms: nat,
    asteroid: Seq<char>,
    resource: Seq<char>,
    old_tp: TransponderView,
    world: World,
    step: PublishStep,
)
    requires
        !spec_time_left(spec_update_extractor(extractor, elapsed_ms)),
        spec_containing_entity(extractor.target) == Some(asteroid),
        world.resource == LookupView::Found(resource),
        world.transponder == LookupView::Found(old_tp),
        world.refused == Some(step),
        step != PublishStep::SaveExtractor,
    ensures
        run(
            spec_handle_frame(shard, entity_id, LookupView::Found(extractor), elapsed_ms),
            shard,
            entity_id,
            extractor.target,
            world,
            8,
        ) == completion(shard, entity_id, extractor.target, asteroid, resource, old_tp).take(
            place(step) + 1,
        ).push(NextView::Failed(Failure::PublishFailed)),
{
    reveal_with_fuel(run, 9);
    let first = spec_handle_frame(shard, entity_id, LookupView::Found(extractor), elapsed_ms);
    assert(run(first, shard, entity_id, extractor.target, world, 8) =~= completion(
        shard,
        entity_id,
        extractor.target,
        asteroid,
        resource,
        old_tp,
    ).take(place(step) + 1).push(NextView::Failed(Failure::PublishFailed)));
}

/// Every run ends: whatever the store holds and whatever the transport
/// refuses, a frame takes at most eight steps to its final one.
pub proof fn lemma_run_ends(
    shard: Seq<char>,
    entity_id: Seq<char>,
    found: LookupView<ExtractorView>,
    elapsed_ms: nat,
    target: Seq<char>,
    world: World,
)
    ensures
        is_final(
            run(
                spec_handle_frame(shard, entity_id, found, elapsed_ms),
                shard,
                entity_id,
                target,
                world,
                8,
            ).last(),
        ),
{
    reveal_with_fuel(run, 9);
}

} // verus!
