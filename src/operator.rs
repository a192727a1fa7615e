//! One reconciliation pass as a state machine.
//!
//! A driver creates a `Reconciliation` from the snapshot it was handed, feeds
//! it `Event::Begin`, and then answers each returned `Step`: a `Get` with the
//! outcome of fetching the object, an `ApplyPatch` with the outcome of the
//! patch, a `Settle` by waiting and sending `Event::Settled`. A `Done` step ends
//! the pass and carries the directive that schedules the next one.

use crate::crd::{opt_string_view, MyResource, MyResourceSpec, MyResourceSpecView, MyResourceView};
use vstd::prelude::*;

verus! {

/// Namespace that every object of this controller lives in.
pub const NAMESPACE: &'static str = "default";

/// Delay before the next pass after any failure, in seconds.
pub const RETRY_SECS: u64 = 30;

/// Steady-state interval between passes, in seconds.
pub const RESYNC_SECS: u64 = 60;

/// Pause at the end of a successful pass, in seconds.
pub const SETTLE_SECS: u64 = 5;

/// When the driver should invoke reconciliation for this object again.
#[derive(Clone, Copy, Debug, PartialEq, Eq, Structural)]
pub enum ScheduleDirective {
    /// Reconcile again no later than this many seconds from now.
    RequeueAfter(u64),
    /// Reconcile again only on the next change notification.
    NoRequeue,
}

/// How a store operation failed. Every one of them is treated as transient.
#[derive(Clone, Copy, Debug, PartialEq, Eq, Structural)]
pub enum StoreError {
    NotFound,
    Conflict,
    Unavailable,
}

impl StoreError {
    /// Classifies a failed store call by the HTTP status the store answered
    /// with (`None` when no answer came back at all).
    pub fn from_status(code: Option<u16>) -> (r: StoreError)
        ensures
            r == (match code {
                Some(c) => if c == 404 {
                    StoreError::NotFound
                } else if c == 409 {
                    StoreError::Conflict
                } else {
                    StoreError::Unavailable
                },
                None => StoreError::Unavailable,
            }),
    {
        match code {
            Some(404) => StoreError::NotFound,
            Some(409) => StoreError::Conflict,
            _ => StoreError::Unavailable,
        }
    }
}

/// Where a pass stands.
#[derive(Clone, Copy, Debug, PartialEq, Eq, Structural)]
pub enum Phase {
    Start,
    AwaitingFetch,
    AwaitingPatch,
    Settling,
    Finished,
}

/// What the driver must do next.
#[derive(Debug, PartialEq, Eq)]
pub enum Step {
    /// Fetch the persisted object of this name.
    Get { name: String },
    /// Merge `patch` into the spec of the persisted object of this name.
    ApplyPatch { name: String, patch: MyResourceSpec },
    /// Wait this many seconds, then answer `Event::Settled`.
    Settle { secs: u64 },
    /// The pass is over.
    Done { directive: ScheduleDirective },
}

/// The driver's answer to the previous step.
#[derive(Debug, PartialEq, Eq)]
pub enum Event {
    /// Starts the pass.
    Begin,
    /// Outcome of a `Get`.
    Fetched(Result<MyResource, StoreError>),
    /// Outcome of an `ApplyPatch`.
    Patched(Result<(), StoreError>),
    /// The `Settle` wait has elapsed.
    Settled,
}

/// Mathematical model of `Step`.
pub enum StepView {
    Get { name: Seq<char> },
    ApplyPatch { name: Seq<char>, patch: MyResourceSpecView },
    Settle { secs: u64 },
    Done { directive: ScheduleDirective },
}

/// Mathematical model of `Event`.
pub enum EventView {
    Begin,
    Fetched(Result<MyResourceView, StoreError>),
    Patched(Result<(), StoreError>),
    Settled,
}

impl View for Step {
    type V = StepView;

    open spec fn view(&self) -> StepView {
        match self {
            Step::Get { name } => StepView::Get { name: name@ },
            Step::ApplyPatch { name, patch } => StepView::ApplyPatch { name: name@, patch: patch@ },
            Step::Settle { secs } => StepView::Settle { secs: *secs },
            Step::Done { directive } => StepView::Done { directive: *directive },
        }
    }
}

impl View for Event {
    type V = EventView;

    open spec fn view(&self) -> EventView {
        match self {
            Event::Begin => EventView::Begin,
            Event::Fetched(Ok(r)) => EventView::Fetched(Ok(r@)),
            Event::Fetched(Err(e)) => EventView::Fetched(Err(*e)),
            Event::Patched(r) => EventView::Patched(*r),
            Event::Settled => EventView::Settled,
        }
    }
}

/// The name under which an object can be reconciled: present and non-empty.
pub open spec fn identity(resource: MyResourceView) -> Option<Seq<char>> {
    match resource.name {
        Some(n) => if n.len() > 0 {
            Some(n)
        } else {
            None
        },
        None => None,
    }
}

/// Ends the pass with a requeue after `secs` seconds.
pub open spec fn finish(secs: u64) -> (Phase, StepView) {
    (Phase::Finished, StepView::Done { directive: ScheduleDirective::RequeueAfter(secs) })
}

/// The transition of a pass over `resource`: from `phase`, on `event`, to the
/// next phase and the step the driver must perform.
///
/// An object without a usable name is retried later without touching the
/// store. A failed fetch or patch ends the pass with a retry after
/// `RETRY_SECS`. When the fetched size differs from the snapshot's, the
/// snapshot's whole spec is patched in. A pass that got through waits
/// `SETTLE_SECS` and asks to be run again after `RESYNC_SECS`. An event that
/// does not answer the step last asked for ends the pass with a retry.
pub open spec fn next(resource: MyResourceView, phase: Phase, event: EventView) -> (Phase, StepView) {
    match (phase, event) {
        (Phase::Start, EventView::Begin) => match identity(resource) {
            Some(name) => (Phase::AwaitingFetch, StepView::Get { name }),
            None => finish(RETRY_SECS),
        },
        (Phase::AwaitingFetch, EventView::Fetched(Ok(current))) => match identity(resource) {
            Some(name) => if current.spec.size != resource.spec.size {
                (Phase::AwaitingPatch, StepView::ApplyPatch { name, patch: resource.spec })
            } else {
                (Phase::Settling, StepView::Settle { secs: SETTLE_SECS })
            },
            None => finish(RETRY_SECS),
        },
        (Phase::AwaitingPatch, EventView::Patched(Ok(()))) => (
            Phase::Settling,
            StepView::Settle { secs: SETTLE_SECS },
        ),
        (Phase::Settling, EventView::Settled) => finish(RESYNC_SECS),
        _ => finish(RETRY_SECS),
    }
}

/// A directive that brings the object back within a positive delay.
pub open spec fn requeues_later(d: ScheduleDirective) -> bool {
    match d {
        ScheduleDirective::RequeueAfter(secs) => secs > 0,
        ScheduleDirective::NoRequeue => false,
    }
}

/// One reconciliation pass over a snapshot of an object.
pub struct Reconciliation {
    resource: MyResource,
    phase: Phase,
}

/// Mathematical model of `Reconciliation`: its snapshot and its phase.
pub struct ReconciliationView {
    pub resource: MyResourceView,
    pub phase: Phase,
}

impl View for Reconciliation {
    type V = ReconciliationView;

    closed spec fn view(&self) -> ReconciliationView {
        ReconciliationView { resource: self.resource@, phase: self.phase }
    }
}

/// The usable name of `resource`, if it has one.
fn identity_of(resource: &MyResource) -> (r: Option<String>)
    ensures
        opt_string_view(r) == identity(resource@),
{
    match &resource.name {
        Some(n) => if n.as_str().is_empty() {
            None
        } else {
            Some(n.clone())
        },
        None => None,
    }
}

impl Reconciliation {
    /// Starts a pass over `resource`, the snapshot the driver was handed.
    pub fn new(resource: MyResource) -> (r: Reconciliation)
        ensures
            r@.resource == resource@,
            r@.phase == Phase::Start,
    {
        Reconciliation { resource, phase: Phase::Start }
    }

    /// The phase the pass is in.
    pub fn phase(&self) -> (r: Phase)
        ensures
            r == self@.phase,
    {
        self.phase
    }

    /// The snapshot this pass works from.
    pub fn resource(&self) -> (r: &MyResource)
        ensures
            r@ == self@.resource,
    {
        &self.resource
    }

    /// Takes the driver's answer and returns what it must do next.
    pub fn step(&mut self, event: Event) -> (r: Step)
        ensures
            final(self)@.resource == old(self)@.resource,
            (final(self)@.phase, r@) == next(old(self)@.resource, old(self)@.phase, event@),
            r@ is Done ==> requeues_later(r@->directive),
    {
        let (phase, step) = match (self.phase, event) {
            (Phase::Start, Event::Begin) => match identity_of(&self.resource) {
                Some(name) => (Phase::AwaitingFetch, Step::Get { name }),
                None => Self::finish(RETRY_SECS),
            },
            (Phase::AwaitingFetch, Event::Fetched(Ok(current))) => match identity_of(&self.resource) {
                Some(name) => if current.spec.size != self.resource.spec.size {
                    let patch = self.resource.spec.copy_spec();
                    (Phase::AwaitingPatch, Step::ApplyPatch { name, patch })
                } else {
                    (Phase::Settling, Step::Settle { secs: SETTLE_SECS })
                },
                None => Self::finish(RETRY_SECS),
            },
            (Phase::AwaitingPatch, Event::Patched(Ok(()))) => (
                Phase::Settling,
                Step::Settle { secs: SETTLE_SECS },
            ),
            (Phase::Settling, Event::Settled) => Self::finish(RESYNC_SECS),
            _ => Self::finish(RETRY_SECS),
        };
        self.phase = phase;
        step
    }

    /// Ends the pass with a requeue after `secs` seconds.
    fn finish(secs: u64) -> (r: (Phase, Step))
        ensures
            (r.0, r.1@) == finish(secs),
    {
        (Phase::Finished, Step::Done { directive: ScheduleDirective::RequeueAfter(secs) })
    }
}

} // verus!
