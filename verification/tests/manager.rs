use klog::k8s::{DiscoveryError, ResourceInfo, ResourceType, StreamRequest};
use klog::manager::{gather_pods, PodManager};
use klog::refresh::{RefreshAction, RefreshEvent, RefreshScheduler, RefreshState};
use std::cell::RefCell;
use std::collections::HashMap;

struct MockK8s {
    pods_by_resource: HashMap<String, Vec<String>>,
    failing: Vec<String>,
    asked: RefCell<Vec<String>>,
    streamed: RefCell<Vec<(String, String, bool, String)>>,
}

impl MockK8s {
    fn new(pods_by_resource: HashMap<String, Vec<String>>) -> Self {
        Self {
            pods_by_resource,
            failing: Vec::new(),
            asked: RefCell::new(Vec::new()),
            streamed: RefCell::new(Vec::new()),
        }
    }

    fn pods_for_resource(&self, resource: &ResourceInfo) -> Result<Vec<String>, DiscoveryError> {
        let key = resource.resource_type.name().clone();
        self.asked.borrow_mut().push(key.clone());
        if self.failing.contains(&key) {
            return Err(DiscoveryError::Api(format!("{} not found", key)));
        }
        Ok(self.pods_by_resource.get(&key).cloned().unwrap_or_default())
    }

    fn stream_pod_logs(&self, request: &StreamRequest) {
        self.streamed.borrow_mut().push((
            request.pod_name.clone(),
            request.namespace.clone(),
            request.follow,
            request.filter.clone(),
        ));
    }
}

fn discover(manager: &mut PodManager, cluster: &MockK8s) -> Result<usize, DiscoveryError> {
    let mut outcomes = Vec::new();
    loop {
        let outcome = match manager.next_query(&outcomes) {
            Some(resource) => cluster.pods_for_resource(resource),
            None => break,
        };
        outcomes.push(outcome);
    }
    let requests = manager.discover_and_start_new_pods(outcomes)?;
    for request in &requests {
        cluster.stream_pod_logs(request);
    }
    Ok(requests.len())
}

fn deployment(name: &str, namespace: &str) -> ResourceInfo {
    ResourceInfo {
        resource_type: ResourceType::Deployment(name.to_string()),
        namespace: namespace.to_string(),
    }
}

fn names(pods: &[&str]) -> Vec<String> {
    pods.iter().map(|pod| pod.to_string()).collect()
}

#[test]
fn test_discover_starts_new_pods() {
    let mock = MockK8s::new(HashMap::from([(
        "deploy1".to_string(),
        vec!["pod-a".to_string()],
    )]));
    let resources = vec![ResourceInfo {
        resource_type: ResourceType::Deployment("deploy1".to_string()),
        namespace: "test-ns".to_string(),
    }];

    let mut manager = PodManager::new(resources, "test-ns".to_string(), true, "".to_string());

    discover(&mut manager, &mock).unwrap();

    assert!(manager.is_active("pod-a"));

    let streamed = mock.streamed.borrow();
    assert_eq!(streamed.len(), 1);
}

#[test]
fn test_discover_skips_existing_pods() {
    let mock = MockK8s::new(HashMap::from([(
        "deploy1".to_string(),
        vec!["pod-a".to_string()],
    )]));
    let resources = vec![ResourceInfo {
        resource_type: ResourceType::Deployment("deploy1".to_string()),
        namespace: "test-ns".to_string(),
    }];

    let mut manager = PodManager::new(resources, "test-ns".to_string(), true, "".to_string());
    manager.start_named_pods(vec!["pod-a".to_string()]);

    discover(&mut manager, &mock).unwrap();
    let streamed = mock.streamed.borrow();
    assert!(streamed.is_empty());
}

#[test]
fn test_start_pod_logs_uses_namespace() {
    let mock = MockK8s::new(HashMap::new());
    let manager = PodManager::new(vec![], "custom-ns".to_string(), true, "filter".to_string());

    let request = manager.start_pod_logs("pod-123".to_string());
    mock.stream_pod_logs(&request);

    let streamed = mock.streamed.borrow();
    assert_eq!(streamed.len(), 1);
    assert_eq!(streamed[0].1, "custom-ns");
    assert_eq!(streamed[0].3, "filter");
}

#[test]
fn test_start_pod_logs_spawns_task() {
    let mock = MockK8s::new(HashMap::new());
    let resources = vec![ResourceInfo {
        resource_type: ResourceType::Deployment("test-deploy".to_string()),
        namespace: "test-namespace".to_string(),
    }];

    let pod_manager =
        PodManager::new(resources, "test-namespace".to_string(), true, "".to_string());

    let request = pod_manager.start_pod_logs("test-pod".to_string());
    assert_eq!(request.pod_name, "test-pod");
    mock.stream_pod_logs(&request);

    let streamed = mock.streamed.borrow();
    assert_eq!(streamed.len(), 1);
}

#[test]
fn test_refresh_interval_zero_disables_refresh() {
    let mut scheduler = RefreshScheduler::new(0);
    assert_eq!(scheduler.state(), RefreshState::Disabled);
    assert!(matches!(scheduler.pending(), RefreshAction::Return));
    let result = scheduler.run_periodic_refresh(RefreshEvent::IntervalElapsed);
    assert!(matches!(result, RefreshAction::Return));
    assert_eq!(scheduler.state(), RefreshState::Disabled);
}

#[test]
fn test_refresh_respects_shutdown() {
    let mut scheduler = RefreshScheduler::new(1);
    assert_eq!(scheduler.interval_seconds(), 1);
    assert!(matches!(scheduler.pending(), RefreshAction::Wait));
    let result = scheduler.run_periodic_refresh(RefreshEvent::ShutdownObserved);
    assert!(matches!(result, RefreshAction::Return));
    assert_eq!(scheduler.state(), RefreshState::Stopped);
    assert!(matches!(scheduler.pending(), RefreshAction::Return));
}

#[test]
fn a_disabled_scheduler_never_asks_for_a_cycle() {
    let mut scheduler = RefreshScheduler::new(0);
    let events = vec![
        RefreshEvent::IntervalElapsed,
        RefreshEvent::CycleDone,
        RefreshEvent::CycleFailed(DiscoveryError::MissingSelector),
        RefreshEvent::ShutdownObserved,
        RefreshEvent::IntervalElapsed,
    ];
    for event in events {
        assert!(matches!(scheduler.run_periodic_refresh(event), RefreshAction::Return));
        assert_eq!(scheduler.state(), RefreshState::Disabled);
    }
}

#[test]
fn a_ticking_scheduler_runs_one_cycle_per_tick() {
    let mut scheduler = RefreshScheduler::new(30);
    assert_eq!(scheduler.state(), RefreshState::Ticking);
    for _ in 0..3 {
        assert!(matches!(scheduler.pending(), RefreshAction::Wait));
        assert!(matches!(
            scheduler.run_periodic_refresh(RefreshEvent::IntervalElapsed),
            RefreshAction::Discover
        ));
        assert!(matches!(
            scheduler.run_periodic_refresh(RefreshEvent::CycleDone),
            RefreshAction::Wait
        ));
        assert_eq!(scheduler.state(), RefreshState::Ticking);
    }
}

#[test]
fn a_failed_cycle_is_reported_and_the_scheduler_goes_on() {
    let mut scheduler = RefreshScheduler::new(30);
    scheduler.run_periodic_refresh(RefreshEvent::IntervalElapsed);
    match scheduler.run_periodic_refresh(RefreshEvent::CycleFailed(
        DiscoveryError::MissingSelector,
    )) {
        RefreshAction::Report(text) => {
            assert_eq!(text, "Error during periodic pod discovery: Missing selector")
        }
        other => panic!("unexpected: {:?}", other),
    }
    match scheduler.run_periodic_refresh(RefreshEvent::CycleFailed(DiscoveryError::Api(
        "timeout".to_string(),
    ))) {
        RefreshAction::Report(text) => {
            assert_eq!(text, "Error during periodic pod discovery: timeout")
        }
        other => panic!("unexpected: {:?}", other),
    }
    assert_eq!(scheduler.state(), RefreshState::Ticking);
    assert!(matches!(scheduler.pending(), RefreshAction::Wait));
    assert!(matches!(
        scheduler.run_periodic_refresh(RefreshEvent::IntervalElapsed),
        RefreshAction::Discover
    ));
}

#[test]
fn a_stopped_scheduler_stays_stopped() {
    let mut scheduler = RefreshScheduler::new(5);
    scheduler.run_periodic_refresh(RefreshEvent::ShutdownObserved);
    let events = vec![
        RefreshEvent::IntervalElapsed,
        RefreshEvent::CycleDone,
        RefreshEvent::ShutdownObserved,
        RefreshEvent::CycleFailed(DiscoveryError::MissingMatchLabels),
    ];
    for event in events {
        assert!(matches!(scheduler.run_periodic_refresh(event), RefreshAction::Return));
        assert_eq!(scheduler.state(), RefreshState::Stopped);
    }
    assert_eq!(scheduler.interval_seconds(), 5);
}

#[test]
fn shutdown_during_a_cycle_stops_the_scheduler() {
    let mut scheduler = RefreshScheduler::new(5);
    assert!(matches!(
        scheduler.run_periodic_refresh(RefreshEvent::IntervalElapsed),
        RefreshAction::Discover
    ));
    assert!(matches!(
        scheduler.run_periodic_refresh(RefreshEvent::ShutdownObserved),
        RefreshAction::Return
    ));
    assert!(matches!(
        scheduler.run_periodic_refresh(RefreshEvent::CycleDone),
        RefreshAction::Return
    ));
}

#[test]
fn a_second_cycle_on_an_unchanged_cluster_starts_nothing() {
    let mock = MockK8s::new(HashMap::from([
        ("web".to_string(), names(&["web-1", "web-2"])),
        ("api".to_string(), names(&["api-1", "web-2"])),
    ]));
    let mut manager = PodManager::new(
        vec![deployment("web", "ns"), deployment("api", "ns")],
        "ns".to_string(),
        false,
        "".to_string(),
    );
    assert_eq!(discover(&mut manager, &mock).unwrap(), 3);
    assert_eq!(mock.streamed.borrow().len(), 3);
    assert_eq!(discover(&mut manager, &mock).unwrap(), 0);
    assert_eq!(discover(&mut manager, &mock).unwrap(), 0);
    assert_eq!(mock.streamed.borrow().len(), 3);
}

#[test]
fn an_active_pod_is_not_started_again() {
    let mut manager = PodManager::new(vec![], "ns".to_string(), true, "".to_string());
    manager.start_named_pods(names(&["a"]));
    let requests = manager.start_new_pods(names(&["a", "b"]));
    assert_eq!(requests.len(), 1);
    assert_eq!(requests[0].pod_name, "b");
    assert!(manager.is_active("a"));
    assert!(manager.is_active("b"));
}

#[test]
fn a_pod_found_twice_in_one_cycle_is_started_once() {
    let mut manager = PodManager::new(vec![], "ns".to_string(), true, "".to_string());
    let requests = manager
        .discover_and_start_new_pods(vec![
            Ok(names(&["x", "y", "x"])),
            Ok(names(&[])),
            Ok(names(&["y", "z"])),
        ])
        .unwrap();
    let started: Vec<&str> = requests.iter().map(|r| r.pod_name.as_str()).collect();
    assert_eq!(started, vec!["x", "y", "z"]);
}

#[test]
fn every_stream_uses_the_one_namespace() {
    let mock = MockK8s::new(HashMap::from([
        ("web".to_string(), names(&["web-1"])),
        ("db".to_string(), names(&["db-0", "db-1"])),
    ]));
    let resources = vec![
        deployment("web", "ignored-a"),
        ResourceInfo {
            resource_type: ResourceType::StatefulSet("db".to_string()),
            namespace: "ignored-b".to_string(),
        },
    ];
    let mut manager = PodManager::new(resources, "prod".to_string(), true, "warn".to_string());
    discover(&mut manager, &mock).unwrap();
    for request in manager.start_named_pods(names(&["extra"])) {
        mock.stream_pod_logs(&request);
    }
    let streamed = mock.streamed.borrow();
    assert_eq!(streamed.len(), 4);
    for (_, namespace, follow, filter) in streamed.iter() {
        assert_eq!(namespace, "prod");
        assert!(*follow);
        assert_eq!(filter, "warn");
    }
    assert_eq!(manager.namespace(), "prod");
}

#[test]
fn one_cycle_for_a_deployment_starts_its_pod() {
    let mock = MockK8s::new(HashMap::from([("web".to_string(), names(&["web-1"]))]));
    let mut manager =
        PodManager::new(vec![deployment("web", "shop")], "shop".to_string(), true, "GET".to_string());
    assert!(!manager.is_active("web-1"));
    assert_eq!(discover(&mut manager, &mock).unwrap(), 1);
    assert!(manager.is_active("web-1"));
    assert!(!manager.is_active("web"));
    assert!(!manager.is_active("web-2"));
    let streamed = mock.streamed.borrow();
    assert_eq!(
        *streamed,
        vec![("web-1".to_string(), "shop".to_string(), true, "GET".to_string())]
    );
}

#[test]
fn a_later_cycle_leaves_a_known_pod_alone() {
    let mock = MockK8s::new(HashMap::from([("web".to_string(), names(&["web-1"]))]));
    let mut manager =
        PodManager::new(vec![deployment("web", "shop")], "shop".to_string(), true, "".to_string());
    manager.start_new_pods(names(&["web-1"]));
    assert!(manager.is_active("web-1"));
    assert_eq!(discover(&mut manager, &mock).unwrap(), 0);
    assert!(mock.streamed.borrow().is_empty());
    assert!(manager.is_active("web-1"));
}

#[test]
fn one_failure_aborts_the_whole_cycle() {
    let mut mock = MockK8s::new(HashMap::from([
        ("good".to_string(), names(&["good-1"])),
        ("late".to_string(), names(&["late-1"])),
    ]));
    mock.failing.push("bad".to_string());
    let mut manager = PodManager::new(
        vec![deployment("good", "ns"), deployment("bad", "ns"), deployment("late", "ns")],
        "ns".to_string(),
        true,
        "".to_string(),
    );
    let failure = discover(&mut manager, &mock).unwrap_err();
    assert_eq!(failure.message(), "bad not found");
    assert_eq!(*mock.asked.borrow(), vec!["good", "bad"]);
    assert!(mock.streamed.borrow().is_empty());
    assert!(!manager.is_active("good-1"));
    assert!(!manager.is_active("late-1"));

    mock.failing.clear();
    assert_eq!(discover(&mut manager, &mock).unwrap(), 2);
    assert!(manager.is_active("good-1"));
    assert!(manager.is_active("late-1"));
}

#[test]
fn the_first_failure_is_the_one_returned() {
    let outcomes = vec![
        Ok(names(&["a"])),
        Err(DiscoveryError::MissingMatchLabels),
        Ok(names(&["b"])),
        Err(DiscoveryError::MissingSelector),
    ];
    assert!(matches!(gather_pods(outcomes), Err(DiscoveryError::MissingMatchLabels)));
}

#[test]
fn found_pods_are_gathered_in_order() {
    let outcomes = vec![Ok(names(&["a", "b"])), Ok(names(&[])), Ok(names(&["a", "c"]))];
    assert_eq!(gather_pods(outcomes).unwrap(), vec!["a", "b", "a", "c"]);
    assert!(gather_pods(vec![]).unwrap().is_empty());
}

#[test]
fn workloads_are_asked_in_order_until_all_have_answered() {
    let manager = PodManager::new(
        vec![deployment("one", "ns"), deployment("two", "ns")],
        "ns".to_string(),
        true,
        "".to_string(),
    );
    assert_eq!(manager.resources().len(), 2);
    let mut outcomes = Vec::new();
    assert_eq!(manager.next_query(&outcomes).unwrap().resource_type.name(), "one");
    outcomes.push(Ok(names(&["p"])));
    assert_eq!(manager.next_query(&outcomes).unwrap().resource_type.name(), "two");
    outcomes.push(Ok(vec![]));
    assert!(manager.next_query(&outcomes).is_none());
    let failed = vec![Err(DiscoveryError::MissingSelector)];
    assert!(manager.next_query(&failed).is_none());
}

#[test]
fn a_manager_without_workloads_has_nothing_to_ask() {
    let mut manager = PodManager::new(vec![], "ns".to_string(), false, "".to_string());
    assert!(manager.next_query(&Vec::new()).is_none());
    assert!(manager.discover_and_start_new_pods(vec![]).unwrap().is_empty());
}

#[test]
fn named_pods_are_started_each_time_they_are_named() {
    let mut manager = PodManager::new(vec![], "ns".to_string(), false, "f".to_string());
    let requests = manager.start_named_pods(names(&["p", "q", "p"]));
    let started: Vec<&str> = requests.iter().map(|r| r.pod_name.as_str()).collect();
    assert_eq!(started, vec!["p", "q", "p"]);
    assert!(requests.iter().all(|r| r.namespace == "ns" && !r.follow && r.filter == "f"));
    assert!(manager.is_active("p"));
    assert!(manager.is_active("q"));
    assert!(manager.start_new_pods(names(&["q", "p"])).is_empty());
}
