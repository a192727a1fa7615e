use resource_operator::crd::{MyResource, MyResourceSpec, MyResourceStatus};
use resource_operator::operator::{
    Event, Phase, Reconciliation, ScheduleDirective, Step, StoreError, NAMESPACE, RESYNC_SECS,
    RETRY_SECS, SETTLE_SECS,
};
use std::collections::BTreeMap;

fn spec(size: i32, message: &str) -> MyResourceSpec {
    MyResourceSpec { size, message: message.to_string(), annotations: BTreeMap::new() }
}

fn resource(name: Option<&str>, spec: MyResourceSpec) -> MyResource {
    MyResource { name: name.map(|n| n.to_string()), spec, status: None }
}

/// Runs one pass the way a driver does, answering fetches with `fetched` and
/// patches with `patched`, and returns every step the reconciler asked for.
fn drive(
    input: MyResource,
    fetched: Result<MyResource, StoreError>,
    patched: Result<(), StoreError>,
) -> Vec<Step> {
    let mut rec = Reconciliation::new(input);
    let mut event = Event::Begin;
    let mut steps = Vec::new();
    for _ in 0..10 {
        let step = rec.step(event);
        event = match &step {
            Step::Get { .. } => Event::Fetched(fetched.clone()),
            Step::ApplyPatch { .. } => Event::Patched(patched),
            Step::Settle { .. } => Event::Settled,
            Step::Done { .. } => {
                steps.push(step);
                return steps;
            }
        };
        steps.push(step);
    }
    panic!("pass did not end");
}

fn patch_count(steps: &[Step]) -> usize {
    steps.iter().filter(|s| matches!(s, Step::ApplyPatch { .. })).count()
}

fn get_count(steps: &[Step]) -> usize {
    steps.iter().filter(|s| matches!(s, Step::Get { .. })).count()
}

fn requeue(secs: u64) -> Step {
    Step::Done { directive: ScheduleDirective::RequeueAfter(secs) }
}

#[test]
fn drifted_size_patches_full_spec_then_resyncs() {
    let input = resource(Some("r1"), spec(3, "m"));
    let stored = resource(Some("r1"), spec(1, "m"));
    let steps = drive(input, Ok(stored), Ok(()));
    assert_eq!(
        steps,
        vec![
            Step::Get { name: "r1".to_string() },
            Step::ApplyPatch { name: "r1".to_string(), patch: spec(3, "m") },
            Step::Settle { secs: 5 },
            requeue(60),
        ]
    );
    assert_eq!(patch_count(&steps), 1);
}

#[test]
fn converged_size_issues_no_patch() {
    let input = resource(Some("r1"), spec(3, "m"));
    let stored = resource(Some("r1"), spec(3, "m"));
    let steps = drive(input, Ok(stored), Ok(()));
    assert_eq!(patch_count(&steps), 0);
    assert_eq!(steps.last(), Some(&requeue(60)));
}

#[test]
fn unavailable_store_requeues_after_thirty_seconds() {
    let input = resource(Some("r1"), spec(3, "m"));
    let steps = drive(input, Err(StoreError::Unavailable), Ok(()));
    assert_eq!(steps, vec![Step::Get { name: "r1".to_string() }, requeue(30)]);
    assert_eq!(patch_count(&steps), 0);
}

#[test]
fn repeated_passes_on_converged_object_never_patch() {
    for _ in 0..3 {
        let input = resource(Some("r1"), spec(7, "hello"));
        let stored = resource(Some("r1"), spec(7, "other message"));
        let steps = drive(input, Ok(stored), Ok(()));
        assert_eq!(patch_count(&steps), 0);
    }
}

#[test]
fn converged_size_ignores_message_and_annotation_drift() {
    let mut wanted = spec(2, "new");
    wanted.annotations.insert("team".to_string(), "a".to_string());
    let input = resource(Some("r1"), wanted);
    let stored = resource(Some("r1"), spec(2, "old"));
    let steps = drive(input, Ok(stored), Ok(()));
    assert_eq!(patch_count(&steps), 0);
}

#[test]
fn patch_carries_annotations_and_message() {
    let mut wanted = spec(4, "scaled");
    wanted.annotations.insert("team".to_string(), "a".to_string());
    wanted.annotations.insert("tier".to_string(), "gold".to_string());
    let input = resource(Some("obj"), wanted.clone());
    let stored = resource(Some("obj"), spec(1, "old"));
    let steps = drive(input, Ok(stored), Ok(()));
    assert_eq!(patch_count(&steps), 1);
    assert_eq!(steps[1], Step::ApplyPatch { name: "obj".to_string(), patch: wanted });
}

#[test]
fn every_pass_ends_with_positive_requeue() {
    let outcomes: Vec<(Option<&str>, Result<MyResource, StoreError>, Result<(), StoreError>)> = vec![
        (None, Ok(resource(Some("r1"), spec(1, ""))), Ok(())),
        (Some("r1"), Err(StoreError::NotFound), Ok(())),
        (Some("r1"), Err(StoreError::Unavailable), Ok(())),
        (Some("r1"), Ok(resource(Some("r1"), spec(1, ""))), Err(StoreError::Conflict)),
        (Some("r1"), Ok(resource(Some("r1"), spec(1, ""))), Ok(())),
        (Some("r1"), Ok(resource(Some("r1"), spec(9, ""))), Ok(())),
    ];
    for (name, fetched, patched) in outcomes {
        let steps = drive(resource(name, spec(9, "")), fetched, patched);
        let last = steps.last().unwrap();
        match last {
            Step::Done { directive: ScheduleDirective::RequeueAfter(secs) } => assert!(*secs > 0),
            other => panic!("pass ended with {:?}", other),
        }
        let dones = steps.iter().filter(|s| matches!(s, Step::Done { .. })).count();
        assert_eq!(dones, 1);
    }
}

#[test]
fn failed_fetch_of_any_kind_never_patches() {
    for error in [StoreError::NotFound, StoreError::Unavailable, StoreError::Conflict] {
        let steps = drive(resource(Some("r1"), spec(3, "m")), Err(error), Ok(()));
        assert_eq!(patch_count(&steps), 0);
        assert_eq!(steps.last(), Some(&requeue(RETRY_SECS)));
    }
}

#[test]
fn missing_name_touches_no_store() {
    let steps = drive(resource(None, spec(3, "m")), Ok(resource(None, spec(1, "m"))), Ok(()));
    assert_eq!(steps, vec![requeue(30)]);
    assert_eq!(get_count(&steps), 0);
    assert_eq!(patch_count(&steps), 0);
}

#[test]
fn empty_name_touches_no_store() {
    let steps = drive(resource(Some(""), spec(3, "m")), Ok(resource(None, spec(1, "m"))), Ok(()));
    assert_eq!(steps, vec![requeue(30)]);
}

#[test]
fn failed_patch_requeues_after_thirty_seconds_without_settling() {
    let input = resource(Some("r1"), spec(3, "m"));
    let stored = resource(Some("r1"), spec(1, "m"));
    for error in [StoreError::Conflict, StoreError::Unavailable] {
        let steps = drive(input.clone(), Ok(stored.clone()), Err(error));
        assert_eq!(
            steps,
            vec![
                Step::Get { name: "r1".to_string() },
                Step::ApplyPatch { name: "r1".to_string(), patch: spec(3, "m") },
                requeue(30),
            ]
        );
    }
}

#[test]
fn extreme_sizes_are_compared_exactly() {
    let steps = drive(
        resource(Some("r1"), spec(i32::MAX, "")),
        Ok(resource(Some("r1"), spec(i32::MIN, ""))),
        Ok(()),
    );
    assert_eq!(patch_count(&steps), 1);
    let steps = drive(
        resource(Some("r1"), spec(i32::MIN, "")),
        Ok(resource(Some("r1"), spec(i32::MIN, ""))),
        Ok(()),
    );
    assert_eq!(patch_count(&steps), 0);
}

#[test]
fn event_out_of_turn_ends_pass_with_retry() {
    let mut rec = Reconciliation::new(resource(Some("r1"), spec(3, "m")));
    assert_eq!(rec.step(Event::Settled), requeue(30));
    assert_eq!(rec.phase(), Phase::Finished);
    assert_eq!(rec.step(Event::Begin), requeue(30));

    let mut rec = Reconciliation::new(resource(Some("r1"), spec(3, "m")));
    assert_eq!(rec.step(Event::Begin), Step::Get { name: "r1".to_string() });
    assert_eq!(rec.step(Event::Patched(Ok(()))), requeue(30));
}

#[test]
fn phases_follow_the_pass() {
    let mut rec = Reconciliation::new(resource(Some("r1"), spec(3, "m")));
    assert_eq!(rec.phase(), Phase::Start);
    rec.step(Event::Begin);
    assert_eq!(rec.phase(), Phase::AwaitingFetch);
    rec.step(Event::Fetched(Ok(resource(Some("r1"), spec(2, "m")))));
    assert_eq!(rec.phase(), Phase::AwaitingPatch);
    rec.step(Event::Patched(Ok(())));
    assert_eq!(rec.phase(), Phase::Settling);
    rec.step(Event::Settled);
    assert_eq!(rec.phase(), Phase::Finished);
    assert_eq!(rec.resource().spec, spec(3, "m"));
}

#[test]
fn store_errors_are_classified_by_status() {
    assert_eq!(StoreError::from_status(Some(404)), StoreError::NotFound);
    assert_eq!(StoreError::from_status(Some(409)), StoreError::Conflict);
    assert_eq!(StoreError::from_status(Some(500)), StoreError::Unavailable);
    assert_eq!(StoreError::from_status(None), StoreError::Unavailable);
}

#[test]
fn spec_copy_keeps_every_field() {
    let mut s = spec(5, "msg");
    s.annotations.insert("k".to_string(), "v".to_string());
    assert_eq!(s.copy_spec(), s);
}

#[test]
fn constants_match_the_schedule() {
    assert_eq!(RETRY_SECS, 30);
    assert_eq!(RESYNC_SECS, 60);
    assert_eq!(SETTLE_SECS, 5);
    assert_eq!(NAMESPACE, "default");
}

#[test]
fn status_defaults_to_not_ready_without_message() {
    let status = MyResourceStatus::default();
    assert!(!status.ready);
    assert_eq!(status.message, None);
}
