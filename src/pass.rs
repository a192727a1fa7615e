//! Whole reconciliation passes, and what holds of every one of them.
//!
//! A pass is the sequence of steps that `operator::next` produces when a driver
//! starts it with `EventView::Begin` and answers every step: a fetch with the
//! store's answer `fetched`, a patch with the store's answer `patched`, a
//! settle wait with `EventView::Settled`. The reconciler keeps nothing between
//! passes, so running it again on the same object and store repeats the pass.

use crate::crd::{MyResourceSpecView, MyResourceView};
use crate::operator::{
    identity, next, requeues_later, EventView, Phase, ScheduleDirective, StepView, StoreError,
    RESYNC_SECS, RETRY_SECS, SETTLE_SECS,
};
use vstd::prelude::*;

verus! {

/// The event a driver sends back after performing `step`.
pub open spec fn answer(
    step: StepView,
    fetched: Result<MyResourceView, StoreError>,
    patched: Result<(), StoreError>,
) -> EventView {
    match step {
        StepView::Get { .. } => EventView::Fetched(fetched),
        StepView::ApplyPatch { .. } => EventView::Patched(patched),
        _ => EventView::Settled,
    }
}

/// The steps issued from `phase` on `event`, up to and including the first
/// `Done`, or `fuel + 1` steps, whichever is shorter.
pub open spec fn run(
    resource: MyResourceView,
    phase: Phase,
    event: EventView,
    fetched: Result<MyResourceView, StoreError>,
    patched: Result<(), StoreError>,
    fuel: nat,
) -> Seq<StepView>
    decreases fuel,
{
    let (p, st) = next(resource, phase, event);
    if fuel == 0 || st is Done {
        seq![st]
    } else {
        seq![st] + run(resource, p, answer(st, fetched, patched), fetched, patched, (fuel - 1) as nat)
    }
}

/// The steps of one pass over `resource`. Four steps are the most a pass can
/// take (fetch, patch, settle, done); `lemma_pass_ends_with_requeue` shows
/// that the last one is always the `Done`.
pub open spec fn pass(
    resource: MyResourceView,
    fetched: Result<MyResourceView, StoreError>,
    patched: Result<(), StoreError>,
) -> Seq<StepView> {
    run(resource, Phase::Start, EventView::Begin, fetched, patched, 3)
}

/// How many of `steps` are patches.
pub open spec fn count_patches(steps: Seq<StepView>) -> nat
    decreases steps.len(),
{
    if steps.len() == 0 {
        0
    } else {
        count_patches(steps.drop_last()) + if steps.last() is ApplyPatch {
            1nat
        } else {
            0nat
        }
    }
}

/// How many of `steps` are fetches.
pub open spec fn count_fetches(steps: Seq<StepView>) -> nat
    decreases steps.len(),
{
    if steps.len() == 0 {
        0
    } else {
        count_fetches(steps.drop_last()) + if steps.last() is Get {
            1nat
        } else {
            0nat
        }
    }
}

/// Every patch among `steps` writes `spec` into the object called `name`.
pub open spec fn patches_carry(steps: Seq<StepView>, name: Seq<char>, spec: MyResourceSpecView) -> bool {
    forall|i: int|
        0 <= i < steps.len() && steps[i] is ApplyPatch ==> steps[i] == (StepView::ApplyPatch {
            name,
            patch: spec,
        })
}

/// `steps` end with a `Done` that asks for another pass after a positive
/// delay, and no earlier step is a `Done`.
pub open spec fn ends_with_requeue(steps: Seq<StepView>) -> bool {
    &&& steps.len() > 0
    &&& steps.last() is Done
    &&& requeues_later(steps.last()->directive)
    &&& forall|i: int| 0 <= i < steps.len() - 1 ==> !(steps[i] is Done)
}

/// The step that ends a pass with a requeue after `secs` seconds.
pub open spec fn done(secs: u64) -> StepView {
    StepView::Done { directive: ScheduleDirective::RequeueAfter(secs) }
}

/// Every pass, spelled out case by case.
proof fn lemma_pass_cases(
    resource: MyResourceView,
    fetched: Result<MyResourceView, StoreError>,
    patched: Result<(), StoreError>,
)
    ensures
        ({
            let p = pass(resource, fetched, patched);
            match identity(resource) {
                None => p =~= seq![done(RETRY_SECS)],
                Some(name) => match fetched {
                    Err(_) => p =~= seq![StepView::Get { name }, done(RETRY_SECS)],
                    Ok(current) => if current.spec.size == resource.spec.size {
                        p =~= seq![
                            StepView::Get { name },
                            StepView::Settle { secs: SETTLE_SECS },
                            done(RESYNC_SECS),
                        ]
                    } else {
                        match patched {
                            Err(_) => p =~= seq![
                                StepView::Get { name },
                                StepView::ApplyPatch { name, patch: resource.spec },
                                done(RETRY_SECS),
                            ],
                            Ok(()) => p =~= seq![
                                StepView::Get { name },
                                StepView::ApplyPatch { name, patch: resource.spec },
                                StepView::Settle { secs: SETTLE_SECS },
                                done(RESYNC_SECS),
                            ],
                        }
                    },
                },
            }
        }),
{
    reveal_with_fuel(run, 4);
}

/// A pass over an object whose stored size already matches the snapshot's
/// issues no patch, however often it is run.
pub proof fn lemma_converged_pass_never_patches(
    resource: MyResourceView,
    current: MyResourceView,
    patched: Result<(), StoreError>,
)
    requires
        current.spec.size == resource.spec.size,
    ensures
        count_patches(pass(resource, Ok(current), patched)) == 0,
{
    lemma_pass_cases(resource, Ok(current), patched);
    reveal_with_fuel(count_patches, 5);
}

/// When the stored size differs from the snapshot's, a pass issues exactly one
/// patch, and that patch carries the snapshot's whole spec.
pub proof fn lemma_drifted_pass_patches_once(
    resource: MyResourceView,
    current: MyResourceView,
    patched: Result<(), StoreError>,
)
    requires
        identity(resource) is Some,
        current.spec.size != resource.spec.size,
    ensures
        count_patches(pass(resource, Ok(current), patched)) == 1,
        patches_carry(pass(resource, Ok(current), patched), identity(resource)->Some_0, resource.spec),
{
    lemma_pass_cases(resource, Ok(current), patched);
    reveal_with_fuel(count_patches, 5);
}

/// Every pass ends, and only its last step is a `Done`, whose directive asks
/// for another pass after a positive delay.
pub proof fn lemma_pass_ends_with_requeue(
    resource: MyResourceView,
    fetched: Result<MyResourceView, StoreError>,
    patched: Result<(), StoreError>,
)
    ensures
        ends_with_requeue(pass(resource, fetched, patched)),
{
    lemma_pass_cases(resource, fetched, patched);
}

/// When the fetch fails, the pass issues no patch and asks to be retried after
/// `RETRY_SECS`.
pub proof fn lemma_failed_fetch_never_patches(
    resource: MyResourceView,
    error: StoreError,
    patched: Result<(), StoreError>,
)
    ensures
        count_patches(pass(resource, Err(error), patched)) == 0,
        pass(resource, Err(error), patched).last() == done(RETRY_SECS),
{
    lemma_pass_cases(resource, Err(error), patched);
    reveal_with_fuel(count_patches, 5);
}

/// An object without a usable name is neither fetched nor patched, and is
/// retried after `RETRY_SECS`.
pub proof fn lemma_unnamed_object_is_retried(
    resource: MyResourceView,
    fetched: Result<MyResourceView, StoreError>,
    patched: Result<(), StoreError>,
)
    requires
        identity(resource) is None,
    ensures
        count_fetches(pass(resource, fetched, patched)) == 0,
        count_patches(pass(resource, fetched, patched)) == 0,
        pass(resource, fetched, patched) == seq![done(RETRY_SECS)],
{
    lemma_pass_cases(resource, fetched, patched);
    reveal_with_fuel(count_patches, 2);
    reveal_with_fuel(count_fetches, 2);
}

} // verus!
