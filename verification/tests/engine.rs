//! Drives the reconciliation machine the way a real driver does: scripted
//! API outcomes stand in for the cluster, and a counting backoff records
//! how the retry budget is used.

use deka::backoff::Backoff;
use deka::backoff::FixedIntervalBackoff;
use deka::batch::collect_batch;
use deka::errors::ApiError;
use deka::errors::ApplyError;
use deka::errors::ApplyErrors;
use deka::errors::DiscoveryError;
use deka::manifest::Gvk;
use deka::manifest::Manifest;
use deka::reconcile::ApiCall;
use deka::reconcile::Directive;
use deka::reconcile::Event;
use deka::reconcile::Reconciler;
use deka::reconcile::ResourceMapping;
use deka::reconcile::Scope;

/// Counts how the reconciliation uses the backoff, delegating to an inner
/// policy.
struct MockBackoff {
    inner: FixedIntervalBackoff,
    reset_calls: usize,
    next_backoff_calls: usize,
}

impl MockBackoff {
    fn new(inner: FixedIntervalBackoff) -> Self {
        MockBackoff { inner, reset_calls: 0, next_backoff_calls: 0 }
    }

    fn no_retries() -> Self {
        Self::new(FixedIntervalBackoff::new(0, None))
    }

    fn with_retry_limit(limit: u64) -> Self {
        Self::new(FixedIntervalBackoff::new(0, Some(limit)))
    }
}

impl Backoff for MockBackoff {
    fn reset(&mut self) {
        self.reset_calls += 1;
        self.inner.reset()
    }

    fn next_backoff(&mut self) -> Option<u64> {
        self.next_backoff_calls += 1;
        self.inner.next_backoff()
    }
}

/// One scripted outcome of an outside call.
enum ApiOutcome {
    Discovered(Result<ResourceMapping, DiscoveryError>),
    Dispatched(Result<(), ApiError>),
}

fn pods_mapping() -> ResourceMapping {
    ResourceMapping { resource: "pods".to_string(), scope: Scope::Namespaced }
}

fn services_mapping() -> ResourceMapping {
    ResourceMapping { resource: "services".to_string(), scope: Scope::Namespaced }
}

/// Feeds the next scripted discovery outcome to the machine.
fn next_discovery(rec: &mut Reconciler, outcomes: &mut Vec<ApiOutcome>) -> Directive {
    assert!(!outcomes.is_empty(), "machine discovered more than the script allows");
    match outcomes.remove(0) {
        ApiOutcome::Discovered(r) => rec.step(Event::Discovered(r)),
        ApiOutcome::Dispatched(_) => panic!("script expected a dispatch next"),
    }
}

/// Runs one reconciler to completion against scripted outcomes, recording
/// the calls issued and the sleeps taken, and panicking when the machine
/// asks for an operation the script did not anticipate.
fn drive<B: Backoff>(
    rec: &mut Reconciler,
    outcomes: Vec<ApiOutcome>,
    backoff: &mut B,
    calls: &mut Vec<ApiCall>,
    slept: &mut Vec<u64>,
) -> Result<(), ApplyError> {
    let mut outcomes = outcomes;
    let mut dir = Directive::Discover;
    loop {
        match dir {
            Directive::Discover => {
                dir = next_discovery(rec, &mut outcomes);
            }
            Directive::SleepThenDiscover(ms) => {
                slept.push(ms);
                dir = next_discovery(rec, &mut outcomes);
            }
            Directive::Call(call) => {
                calls.push(call);
                assert!(!outcomes.is_empty(), "machine called more than the script allows");
                let ev = match outcomes.remove(0) {
                    ApiOutcome::Dispatched(r) => Event::Dispatched(r),
                    ApiOutcome::Discovered(_) => panic!("script expected a discovery next"),
                };
                dir = rec.step(ev);
            }
            Directive::AskBackoff => {
                let answer = backoff.next_backoff();
                dir = rec.step(Event::BackoffAnswer(answer));
            }
            Directive::ResetAndSucceed => {
                backoff.reset();
                assert!(outcomes.is_empty(), "script outcomes left unconsumed");
                return Ok(());
            }
            Directive::Fail(e) => {
                assert!(outcomes.is_empty(), "script outcomes left unconsumed");
                return Err(e);
            }
        }
    }
}

fn manifest(
    api_version: &str,
    kind: &str,
    name: &str,
    namespace: Option<&str>,
    annotations: &[(&str, &str)],
    payload: &str,
) -> Manifest {
    Manifest {
        api_version: api_version.to_string(),
        kind: kind.to_string(),
        name: name.to_string(),
        namespace: namespace.map(|s| s.to_string()),
        annotations: annotations
            .iter()
            .map(|(k, v)| (k.to_string(), v.to_string()))
            .collect(),
        payload: payload.to_string(),
    }
}

fn pod_manifest(annotations: &[(&str, &str)], namespace: Option<&str>) -> Manifest {
    manifest("v1", "Pod", "example", namespace, annotations, "{\"kind\":\"Pod\"}")
}

fn prepare(m: &Manifest, caller_ns: Option<&str>) -> Result<Reconciler, ApplyError> {
    Reconciler::prepare(
        m,
        &"test_manager".to_string(),
        &caller_ns.map(|s| s.to_string()),
        &"default".to_string(),
    )
}

fn expected_apply(namespace: &str, resource: &str, payload: &str) -> ApiCall {
    ApiCall::Apply {
        resource: resource.to_string(),
        namespace: Some(namespace.to_string()),
        name: "example".to_string(),
        manager: "test_manager".to_string(),
        payload: payload.to_string(),
    }
}

#[test]
fn apply_1_object() {
    let m = pod_manifest(&[], None);
    let mut rec = prepare(&m, Some("test_ns")).unwrap();
    let mut b = MockBackoff::no_retries();
    let mut calls = Vec::new();
    let mut slept = Vec::new();
    let outcome = drive(
        &mut rec,
        vec![
            ApiOutcome::Discovered(Ok(pods_mapping())),
            ApiOutcome::Dispatched(Ok(())),
        ],
        &mut b,
        &mut calls,
        &mut slept,
    );
    assert!(outcome.is_ok());
    assert_eq!(calls, vec![expected_apply("test_ns", "pods", "{\"kind\":\"Pod\"}")]);
    assert_eq!(b.reset_calls, 1, "unexpected number of reset calls");
    assert_eq!(b.next_backoff_calls, 0, "unexpected number of next_backoff calls");
}

#[test]
fn apply_1_object_with_explicit_action_annotation() {
    let m = pod_manifest(&[("deka.ndrpnt.dev/action", deka::action::Action::Apply.label())], None);
    let mut rec = prepare(&m, Some("test_ns")).unwrap();
    let mut b = MockBackoff::no_retries();
    let mut calls = Vec::new();
    let mut slept = Vec::new();
    let outcome = drive(
        &mut rec,
        vec![
            ApiOutcome::Discovered(Ok(pods_mapping())),
            ApiOutcome::Dispatched(Ok(())),
        ],
        &mut b,
        &mut calls,
        &mut slept,
    );
    assert!(outcome.is_ok());
    assert_eq!(calls, vec![expected_apply("test_ns", "pods", "{\"kind\":\"Pod\"}")]);
    assert_eq!(b.reset_calls, 1, "unexpected number of reset calls");
    assert_eq!(b.next_backoff_calls, 0, "unexpected number of next_backoff calls");
}

#[test]
fn apply_1_object_with_explicit_namespace() {
    let m = pod_manifest(&[], Some("another_ns"));
    let mut rec = prepare(&m, Some("test_ns")).unwrap();
    let mut b = MockBackoff::no_retries();
    let mut calls = Vec::new();
    let mut slept = Vec::new();
    let outcome = drive(
        &mut rec,
        vec![
            ApiOutcome::Discovered(Ok(pods_mapping())),
            ApiOutcome::Dispatched(Ok(())),
        ],
        &mut b,
        &mut calls,
        &mut slept,
    );
    assert!(outcome.is_ok());
    assert_eq!(calls, vec![expected_apply("another_ns", "pods", "{\"kind\":\"Pod\"}")]);
    assert_eq!(b.reset_calls, 1, "unexpected number of reset calls");
    assert_eq!(b.next_backoff_calls, 0, "unexpected number of next_backoff calls");
}

#[test]
fn apply_1_object_with_default_client_namespace() {
    let m = pod_manifest(&[], None);
    let mut rec = prepare(&m, None).unwrap();
    let mut b = MockBackoff::no_retries();
    let mut calls = Vec::new();
    let mut slept = Vec::new();
    let outcome = drive(
        &mut rec,
        vec![
            ApiOutcome::Discovered(Ok(pods_mapping())),
            ApiOutcome::Dispatched(Ok(())),
        ],
        &mut b,
        &mut calls,
        &mut slept,
    );
    assert!(outcome.is_ok());
    assert_eq!(calls, vec![expected_apply("default", "pods", "{\"kind\":\"Pod\"}")]);
    assert_eq!(b.reset_calls, 1, "unexpected number of reset calls");
    assert_eq!(b.next_backoff_calls, 0, "unexpected number of next_backoff calls");
}

#[test]
fn delete_1_object() {
    let m = pod_manifest(&[("deka.ndrpnt.dev/action", "delete")], None);
    let mut rec = prepare(&m, Some("test_ns")).unwrap();
    let mut b = MockBackoff::no_retries();
    let mut calls = Vec::new();
    let mut slept = Vec::new();
    let outcome = drive(
        &mut rec,
        vec![
            ApiOutcome::Discovered(Ok(pods_mapping())),
            ApiOutcome::Dispatched(Ok(())),
        ],
        &mut b,
        &mut calls,
        &mut slept,
    );
    assert!(outcome.is_ok());
    assert_eq!(
        calls,
        vec![ApiCall::Delete {
            resource: "pods".to_string(),
            namespace: Some("test_ns".to_string()),
            name: "example".to_string(),
        }]
    );
    assert_eq!(b.reset_calls, 1, "unexpected number of reset calls");
    assert_eq!(b.next_backoff_calls, 0, "unexpected number of next_backoff calls");
}

#[test]
fn delete_1_object_with_missing_kind() {
    let m = pod_manifest(&[("deka.ndrpnt.dev/action", "delete")], None);
    let mut rec = prepare(&m, Some("test_ns")).unwrap();
    let mut b = MockBackoff::no_retries();
    let mut calls = Vec::new();
    let mut slept = Vec::new();
    let outcome = drive(
        &mut rec,
        vec![ApiOutcome::Discovered(Err(DiscoveryError::KindNotFound))],
        &mut b,
        &mut calls,
        &mut slept,
    );
    assert!(outcome.is_ok());
    assert!(calls.is_empty());
    assert_eq!(b.reset_calls, 1, "unexpected number of reset calls");
    assert_eq!(b.next_backoff_calls, 0, "unexpected number of next_backoff calls");
}

#[test]
fn delete_1_object_already_absent() {
    let m = pod_manifest(&[("deka.ndrpnt.dev/action", "delete")], None);
    let mut rec = prepare(&m, Some("test_ns")).unwrap();
    let mut b = MockBackoff::no_retries();
    let mut calls = Vec::new();
    let mut slept = Vec::new();
    let outcome = drive(
        &mut rec,
        vec![
            ApiOutcome::Discovered(Ok(pods_mapping())),
            ApiOutcome::Dispatched(Err(ApiError::NotFound)),
        ],
        &mut b,
        &mut calls,
        &mut slept,
    );
    assert!(outcome.is_ok());
    assert_eq!(b.reset_calls, 1, "unexpected number of reset calls");
    assert_eq!(b.next_backoff_calls, 0, "unexpected number of next_backoff calls");
}

#[test]
fn invalid_action_annotation() {
    let m = pod_manifest(&[("deka.ndrpnt.dev/action", "invalid_action")], None);
    let b = MockBackoff::no_retries();
    let prepared = prepare(&m, Some("test_ns"));
    assert_eq!(
        prepared.unwrap_err(),
        ApplyError::InvalidAction("invalid_action".to_string())
    );
    assert_eq!(b.reset_calls, 0, "unexpected number of reset calls");
    assert_eq!(b.next_backoff_calls, 0, "unexpected number of next_backoff calls");
}

#[test]
fn apply_2_objects() {
    let pod = pod_manifest(&[], None);
    let svc = manifest("v1", "Service", "example", None, &[], "{\"kind\":\"Service\"}");
    let mut b = MockBackoff::no_retries();
    let mut calls = Vec::new();
    let mut slept = Vec::new();
    let mut outcomes = Vec::new();
    for (m, mapping) in [(pod, pods_mapping()), (svc, services_mapping())] {
        let mut rec = prepare(&m, Some("test_ns")).unwrap();
        outcomes.push(drive(
            &mut rec,
            vec![ApiOutcome::Discovered(Ok(mapping)), ApiOutcome::Dispatched(Ok(()))],
            &mut b,
            &mut calls,
            &mut slept,
        ));
    }
    assert!(collect_batch(outcomes).is_ok());
    assert_eq!(
        calls,
        vec![
            expected_apply("test_ns", "pods", "{\"kind\":\"Pod\"}"),
            expected_apply("test_ns", "services", "{\"kind\":\"Service\"}"),
        ]
    );
    assert_eq!(b.reset_calls, 2, "unexpected number of reset calls");
    assert_eq!(b.next_backoff_calls, 0, "unexpected number of next_backoff calls");
}

#[test]
fn apply_0_objects() {
    let b = MockBackoff::no_retries();
    assert!(collect_batch(Vec::new()).is_ok());
    assert_eq!(b.reset_calls, 0, "unexpected number of reset calls");
    assert_eq!(b.next_backoff_calls, 0, "unexpected number of next_backoff calls");
}

#[test]
fn retry_apply_1_object_after_discovery_failure() {
    let m = pod_manifest(&[], None);
    let mut rec = prepare(&m, Some("test_ns")).unwrap();
    let mut b = MockBackoff::with_retry_limit(1);
    let mut calls = Vec::new();
    let mut slept = Vec::new();
    let outcome = drive(
        &mut rec,
        vec![
            ApiOutcome::Discovered(Err(DiscoveryError::KindNotFound)),
            ApiOutcome::Discovered(Ok(pods_mapping())),
            ApiOutcome::Dispatched(Ok(())),
        ],
        &mut b,
        &mut calls,
        &mut slept,
    );
    assert!(outcome.is_ok());
    assert_eq!(slept.len(), 1);
    assert_eq!(calls, vec![expected_apply("test_ns", "pods", "{\"kind\":\"Pod\"}")]);
    assert_eq!(b.reset_calls, 1, "unexpected number of reset calls");
    assert_eq!(b.next_backoff_calls, 1, "unexpected number of next_backoff calls");
}

#[test]
fn retry_apply_1_object_after_patch_failure() {
    let m = pod_manifest(&[], None);
    let mut rec = prepare(&m, Some("test_ns")).unwrap();
    let mut b = MockBackoff::with_retry_limit(1);
    let mut calls = Vec::new();
    let mut slept = Vec::new();
    let outcome = drive(
        &mut rec,
        vec![
            ApiOutcome::Discovered(Ok(pods_mapping())),
            ApiOutcome::Dispatched(Err(ApiError::Other("internal error".to_string()))),
            ApiOutcome::Discovered(Ok(pods_mapping())),
            ApiOutcome::Dispatched(Ok(())),
        ],
        &mut b,
        &mut calls,
        &mut slept,
    );
    assert!(outcome.is_ok());
    assert_eq!(slept.len(), 1);
    assert_eq!(
        calls,
        vec![
            expected_apply("test_ns", "pods", "{\"kind\":\"Pod\"}"),
            expected_apply("test_ns", "pods", "{\"kind\":\"Pod\"}"),
        ]
    );
    assert_eq!(b.reset_calls, 1, "unexpected number of reset calls");
    assert_eq!(b.next_backoff_calls, 1, "unexpected number of next_backoff calls");
}

#[test]
fn retry_limit_is_effective() {
    let m = pod_manifest(&[], None);
    let mut rec = prepare(&m, Some("test_ns")).unwrap();
    let mut b = MockBackoff::no_retries();
    let mut calls = Vec::new();
    let mut slept = Vec::new();
    let outcome = drive(
        &mut rec,
        vec![ApiOutcome::Discovered(Err(DiscoveryError::KindNotFound))],
        &mut b,
        &mut calls,
        &mut slept,
    );
    assert_eq!(
        outcome.unwrap_err(),
        ApplyError::Discovery(DiscoveryError::KindNotFound)
    );
    assert!(calls.is_empty());
    assert_eq!(b.reset_calls, 0, "unexpected number of reset calls");
    assert_eq!(b.next_backoff_calls, 1, "unexpected number of next_backoff calls");
}

#[test]
fn delete_exhausts_budget_after_call_failure() {
    let m = pod_manifest(&[("deka.ndrpnt.dev/action", "delete")], None);
    let mut rec = prepare(&m, Some("test_ns")).unwrap();
    let mut b = MockBackoff::no_retries();
    let mut calls = Vec::new();
    let mut slept = Vec::new();
    let outcome = drive(
        &mut rec,
        vec![
            ApiOutcome::Discovered(Ok(pods_mapping())),
            ApiOutcome::Dispatched(Err(ApiError::Other("conflict".to_string()))),
        ],
        &mut b,
        &mut calls,
        &mut slept,
    );
    assert_eq!(
        outcome.unwrap_err(),
        ApplyError::Api(ApiError::Other("conflict".to_string()))
    );
    assert_eq!(b.reset_calls, 0, "unexpected number of reset calls");
    assert_eq!(b.next_backoff_calls, 1, "unexpected number of next_backoff calls");
}

#[test]
fn batch_keeps_every_failure_and_every_success() {
    let good = pod_manifest(&[], None);
    let bad = manifest(
        "v1",
        "Pod",
        "broken",
        None,
        &[("deka.ndrpnt.dev/action", "bogus")],
        "{}",
    );
    let also_good = manifest("v1", "Service", "example", None, &[], "{\"kind\":\"Service\"}");
    let mut b = MockBackoff::no_retries();
    let mut calls = Vec::new();
    let mut slept = Vec::new();
    let mut outcomes = Vec::new();

    let mut rec = prepare(&good, Some("test_ns")).unwrap();
    outcomes.push(drive(
        &mut rec,
        vec![ApiOutcome::Discovered(Ok(pods_mapping())), ApiOutcome::Dispatched(Ok(()))],
        &mut b,
        &mut calls,
        &mut slept,
    ));
    outcomes.push(prepare(&bad, Some("test_ns")).map(|_| ()));
    let mut rec = prepare(&also_good, Some("test_ns")).unwrap();
    outcomes.push(drive(
        &mut rec,
        vec![ApiOutcome::Discovered(Ok(services_mapping())), ApiOutcome::Dispatched(Ok(()))],
        &mut b,
        &mut calls,
        &mut slept,
    ));

    let aggregate = collect_batch(outcomes).unwrap_err();
    assert_eq!(
        aggregate,
        ApplyErrors(vec![ApplyError::InvalidAction("bogus".to_string())])
    );
    assert_eq!(calls.len(), 2, "both healthy objects must still take effect");
    assert_eq!(b.reset_calls, 2, "unexpected number of reset calls");
    assert_eq!(b.next_backoff_calls, 0, "unexpected number of next_backoff calls");
}

#[test]
fn cluster_scoped_call_carries_no_namespace() {
    let m = manifest("v1", "Namespace", "example", None, &[], "{\"kind\":\"Namespace\"}");
    let mut rec = prepare(&m, Some("test_ns")).unwrap();
    let mut b = MockBackoff::no_retries();
    let mut calls = Vec::new();
    let mut slept = Vec::new();
    let outcome = drive(
        &mut rec,
        vec![
            ApiOutcome::Discovered(Ok(ResourceMapping {
                resource: "namespaces".to_string(),
                scope: Scope::Cluster,
            })),
            ApiOutcome::Dispatched(Ok(())),
        ],
        &mut b,
        &mut calls,
        &mut slept,
    );
    assert!(outcome.is_ok());
    assert_eq!(
        calls,
        vec![ApiCall::Apply {
            resource: "namespaces".to_string(),
            namespace: None,
            name: "example".to_string(),
            manager: "test_manager".to_string(),
            payload: "{\"kind\":\"Namespace\"}".to_string(),
        }]
    );
}

#[test]
fn group_version_splits_at_first_slash() {
    let g = Gvk::from_api_version("apps/v1", "Deployment");
    assert_eq!(g.group, "apps");
    assert_eq!(g.version, "v1");
    assert_eq!(g.kind, "Deployment");

    let core = Gvk::from_api_version("v1", "Pod");
    assert_eq!(core.group, "");
    assert_eq!(core.version, "v1");

    let nested = Gvk::from_api_version("a/b/c", "Widget");
    assert_eq!(nested.group, "a");
    assert_eq!(nested.version, "b/c");

    let empty = Gvk::from_api_version("", "Pod");
    assert_eq!(empty.group, "");
    assert_eq!(empty.version, "");
}

#[test]
fn annotation_first_match_wins() {
    let m = manifest(
        "v1",
        "Pod",
        "example",
        None,
        &[("deka.ndrpnt.dev/action", "delete"), ("deka.ndrpnt.dev/action", "apply")],
        "{}",
    );
    let rec = prepare(&m, None).unwrap();
    assert!(matches!(rec.action, deka::action::Action::Delete));
}

#[test]
fn fixed_interval_backoff_counts_retries() {
    let mut b = FixedIntervalBackoff::new(250, Some(2));
    assert_eq!(b.next_backoff(), Some(250));
    assert_eq!(b.next_backoff(), Some(250));
    assert_eq!(b.next_backoff(), None);
    b.reset();
    assert_eq!(b.next_backoff(), Some(250));

    let mut none: FixedIntervalBackoff = FixedIntervalBackoff::new(250, None);
    assert_eq!(none.next_backoff(), None);
}

#[test]
fn timeout_zero_waits_indefinitely() {
    let mut flags = deka::config::ApplyFlags::new("-".to_string());
    assert_eq!(flags.field_manager, "deka");
    assert_eq!(flags.timeout, 300);
    assert_eq!(flags.max_elapsed_secs(), Some(300));
    flags.timeout = 0;
    assert_eq!(flags.max_elapsed_secs(), None);
}

#[test]
fn namespace_precedence_is_total() {
    let m = pod_manifest(&[], Some("own_ns"));
    let rec = prepare(&m, Some("caller_ns")).unwrap();
    assert_eq!(rec.namespace, "own_ns");

    let m = pod_manifest(&[], None);
    let rec = prepare(&m, Some("caller_ns")).unwrap();
    assert_eq!(rec.namespace, "caller_ns");

    let rec = prepare(&m, None).unwrap();
    assert_eq!(rec.namespace, "default");
}
