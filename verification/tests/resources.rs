use klog::k8s::{
    collect_pod_names, get_pod_list, get_pod_list_for_resource, DiscoveryError, ResourceInfo,
    ResourceKind, ResourceType,
};
use klog::traits::{
    CronJob, CronJobSpec, DaemonSet, DaemonSetSpec, Deployment, DeploymentSpec, HasSpec, Job,
    JobSpec, JobTemplateSpec, LabelSelector, SpecSelector, StatefulSet, StatefulSetSpec,
};

fn create_label_selector() -> LabelSelector {
    LabelSelector {
        match_labels: Some(
            [("key".to_string(), "value".to_string())]
                .into_iter()
                .collect(),
        ),
    }
}

#[test]
fn test_resource_type_debug() {
    let deployment = ResourceType::Deployment("test-deploy".to_string());
    let debug_str = format!("{:?}", deployment);
    assert!(debug_str.contains("Deployment"));
    assert!(debug_str.contains("test-deploy"));
}

#[test]
fn test_resource_info_clone() {
    let first = ResourceInfo {
        resource_type: ResourceType::Deployment("test-deploy".to_string()),
        namespace: "test-namespace".to_string(),
    };

    let cloned = first.clone();
    assert_eq!(first.namespace, cloned.namespace);
    match (&first.resource_type, &cloned.resource_type) {
        (ResourceType::Deployment(name1), ResourceType::Deployment(name2)) => {
            assert_eq!(name1, name2);
        }
        _ => panic!("Expected both to be Deployments"),
    }
}

#[test]
fn test_spec_selector_for_deployment() {
    let selector = create_label_selector();
    let spec = DeploymentSpec {
        selector: selector.clone(),
        ..Default::default()
    };

    assert_eq!(spec.selector().unwrap(), &selector);
}

#[test]
fn test_spec_selector_for_statefulset() {
    let selector = create_label_selector();
    let spec = StatefulSetSpec {
        selector: selector.clone(),
        ..Default::default()
    };

    assert_eq!(spec.selector().unwrap(), &selector);
}

#[test]
fn test_spec_selector_for_daemonset() {
    let selector = create_label_selector();
    let spec = DaemonSetSpec {
        selector: selector.clone(),
        ..Default::default()
    };

    assert_eq!(spec.selector().unwrap(), &selector);
}

#[test]
fn test_spec_selector_for_job() {
    let selector = create_label_selector();
    let spec = JobSpec {
        selector: Some(selector.clone()),
        ..Default::default()
    };

    assert_eq!(spec.selector().unwrap(), &selector);
}

#[test]
fn test_has_spec_for_deployment() {
    let selector = create_label_selector();
    let spec = DeploymentSpec {
        selector: selector.clone(),
        ..Default::default()
    };
    let deployment = Deployment {
        spec: Some(spec),
        ..Default::default()
    };

    assert_eq!(deployment.selector().unwrap(), &selector);
}

#[test]
fn test_has_spec_for_statefulset() {
    let selector = create_label_selector();
    let spec = StatefulSetSpec {
        selector: selector.clone(),
        ..Default::default()
    };
    let statefulset = StatefulSet {
        spec: Some(spec),
        ..Default::default()
    };

    assert_eq!(statefulset.selector().unwrap(), &selector);
}

#[test]
fn test_has_spec_for_daemonset() {
    let selector = create_label_selector();
    let spec = DaemonSetSpec {
        selector: selector.clone(),
        ..Default::default()
    };
    let daemonset = DaemonSet {
        spec: Some(spec),
        ..Default::default()
    };

    assert_eq!(daemonset.selector().unwrap(), &selector);
}

#[test]
fn test_has_spec_for_job() {
    let selector = create_label_selector();
    let spec = JobSpec {
        selector: Some(selector.clone()),
        ..Default::default()
    };
    let job = Job {
        spec: Some(spec),
        ..Default::default()
    };

    assert_eq!(job.selector().unwrap(), &selector);
}

#[test]
fn a_cronjob_takes_its_selector_from_the_job_template() {
    let selector = create_label_selector();
    let spec = CronJobSpec {
        job_template: JobTemplateSpec {
            spec: Some(JobSpec { selector: Some(selector.clone()) }),
        },
    };
    assert_eq!(spec.selector().unwrap(), &selector);
    let cronjob = CronJob { spec: Some(spec) };
    assert_eq!(cronjob.selector().unwrap(), &selector);
    assert!(cronjob.spec().is_some());
}

#[test]
fn a_selector_may_be_absent_from_jobs_and_cronjobs() {
    assert!(JobSpec { selector: None }.selector().is_none());
    assert!(Job { spec: None }.selector().is_none());
    assert!(Job { spec: Some(JobSpec { selector: None }) }.selector().is_none());
    assert!(CronJobSpec::default().selector().is_none());
    assert!(CronJob { spec: None }.selector().is_none());
    let without_template = CronJob { spec: Some(CronJobSpec::default()) };
    assert!(without_template.selector().is_none());
    let without_selector = CronJob {
        spec: Some(CronJobSpec {
            job_template: JobTemplateSpec { spec: Some(JobSpec { selector: None }) },
        }),
    };
    assert!(without_selector.selector().is_none());
    assert!(Deployment { spec: None }.spec().is_none());
}

fn stateful_set_web() -> StatefulSet {
    StatefulSet {
        spec: Some(StatefulSetSpec {
            selector: LabelSelector {
                match_labels: Some(vec![("app".to_string(), "web".to_string())]),
            },
        }),
    }
}

#[test]
fn test_get_pod_list() {
    let expected_pod_list_item = "web-0";
    let statefulset = stateful_set_web();
    let match_labels = statefulset.spec.unwrap().selector.match_labels.unwrap();
    let request = get_pod_list("statefulset", &match_labels);
    assert_eq!(request.namespace, "statefulset");
    assert_eq!(request.label_selector, "app=web");
    let pod_list = collect_pod_names(vec![Some("web-0".to_string()), Some("web-1".to_string())]);
    assert_eq!(pod_list.first().unwrap(), expected_pod_list_item);
    assert_eq!(pod_list, vec!["web-0", "web-1"]);
}

#[test]
fn test_get_pod_list_for_resource() {
    let ns_name = "statefulset";
    let result = get_pod_list_for_resource(&stateful_set_web(), ns_name);
    let request = result.unwrap();
    assert_eq!(request.namespace, "statefulset");
    assert_eq!(request.label_selector, "app=web");
}

#[test]
fn labels_are_joined_with_commas_in_the_order_given() {
    let labels = vec![
        ("app".to_string(), "web".to_string()),
        ("tier".to_string(), "frontend".to_string()),
        ("track".to_string(), "stable".to_string()),
    ];
    assert_eq!(get_pod_list("ns", &labels).label_selector, "app=web,tier=frontend,track=stable");
    assert_eq!(get_pod_list("ns", &vec![]).label_selector, "");
    let odd = vec![("".to_string(), "".to_string()), ("a=b".to_string(), "c,d".to_string())];
    assert_eq!(get_pod_list("ns", &odd).label_selector, "=,a=b=c,d");
}

#[test]
fn a_workload_without_selector_is_refused() {
    let missing = get_pod_list_for_resource(&Deployment { spec: None }, "ns").unwrap_err();
    assert!(matches!(missing, DiscoveryError::MissingSelector));
    assert_eq!(missing.message(), "Missing selector");
    let job = Job { spec: Some(JobSpec { selector: None }) };
    assert!(matches!(
        get_pod_list_for_resource(&job, "ns"),
        Err(DiscoveryError::MissingSelector)
    ));
    let cronjob = CronJob { spec: Some(CronJobSpec::default()) };
    assert!(matches!(
        get_pod_list_for_resource(&cronjob, "ns"),
        Err(DiscoveryError::MissingSelector)
    ));
}

#[test]
fn a_selector_without_labels_is_refused() {
    let daemonset = DaemonSet {
        spec: Some(DaemonSetSpec { selector: LabelSelector { match_labels: None } }),
    };
    let refused = get_pod_list_for_resource(&daemonset, "ns").unwrap_err();
    assert!(matches!(refused, DiscoveryError::MissingMatchLabels));
    assert_eq!(refused.message(), "Missing match labels");
}

#[test]
fn every_kind_resolves_to_its_query() {
    let selector = create_label_selector();
    let deployment = Deployment { spec: Some(DeploymentSpec { selector: selector.clone() }) };
    let daemonset = DaemonSet { spec: Some(DaemonSetSpec { selector: selector.clone() }) };
    let job = Job { spec: Some(JobSpec { selector: Some(selector.clone()) }) };
    let cronjob = CronJob {
        spec: Some(CronJobSpec {
            job_template: JobTemplateSpec { spec: Some(JobSpec { selector: Some(selector) }) },
        }),
    };
    assert_eq!(get_pod_list_for_resource(&deployment, "a").unwrap().label_selector, "key=value");
    assert_eq!(get_pod_list_for_resource(&daemonset, "a").unwrap().label_selector, "key=value");
    assert_eq!(get_pod_list_for_resource(&job, "a").unwrap().label_selector, "key=value");
    assert_eq!(get_pod_list_for_resource(&cronjob, "a").unwrap().namespace, "a");
}

#[test]
fn an_api_failure_keeps_its_text() {
    let failure = DiscoveryError::Api("deployments.apps \"web\" not found".to_string());
    assert_eq!(failure.message(), "deployments.apps \"web\" not found");
    assert!(matches!(failure.duplicate(), DiscoveryError::Api(text) if text == failure.message()));
}

#[test]
fn a_resource_type_knows_its_kind_and_name() {
    let job = ResourceType::of(ResourceKind::Job, "migrate".to_string());
    assert!(matches!(&job, ResourceType::Job(name) if name == "migrate"));
    assert_eq!(job.kind(), ResourceKind::Job);
    assert_eq!(job.name(), "migrate");
    assert_eq!(ResourceType::CronJob("n".to_string()).kind(), ResourceKind::CronJob);
    assert_eq!(ResourceType::StatefulSet("n".to_string()).kind(), ResourceKind::StatefulSet);
    assert_eq!(ResourceType::DaemonSet("n".to_string()).kind(), ResourceKind::DaemonSet);
    assert_eq!(ResourceType::Deployment("n".to_string()).kind(), ResourceKind::Deployment);
}

fn labelled(pairs: &[(&str, &str)]) -> LabelSelector {
    LabelSelector {
        match_labels: Some(
            pairs.iter().map(|(key, value)| (key.to_string(), value.to_string())).collect(),
        ),
    }
}

#[test]
fn labels_in_key_order_are_well_formed() {
    assert!(LabelSelector { match_labels: None }.is_well_formed());
    assert!(labelled(&[]).is_well_formed());
    assert!(labelled(&[("app", "web")]).is_well_formed());
    assert!(labelled(&[("app", "web"), ("tier", "fe"), ("track", "stable")]).is_well_formed());
    assert!(labelled(&[("a", "2"), ("ab", "1"), ("b", "0")]).is_well_formed());
    assert!(labelled(&[("", "x"), ("A", "x"), ("a", "x"), ("\u{e9}", "x")]).is_well_formed());
    assert!(create_label_selector().is_well_formed());
    assert!(stateful_set_web().spec.unwrap().selector.is_well_formed());
}

#[test]
fn labels_out_of_order_or_twice_are_not_well_formed() {
    assert!(!labelled(&[("tier", "fe"), ("app", "web")]).is_well_formed());
    assert!(!labelled(&[("app", "web"), ("app", "api")]).is_well_formed());
    assert!(!labelled(&[("a", "1"), ("c", "2"), ("b", "3")]).is_well_formed());
    assert!(!labelled(&[("ab", "1"), ("a", "2")]).is_well_formed());
    assert!(!labelled(&[("a", "1"), ("b", "2"), ("b", "3")]).is_well_formed());
}

#[test]
fn labels_from_a_map_are_well_formed() {
    let mut map = std::collections::BTreeMap::new();
    for key in ["zone", "app", "tier", "App", "app.kubernetes.io/name", "\u{e9}", ""] {
        map.insert(key.to_string(), "v".to_string());
    }
    let selector = LabelSelector { match_labels: Some(map.into_iter().collect()) };
    assert!(selector.is_well_formed());
}

#[test]
fn a_mandatory_selector_is_absent_where_the_spec_is() {
    assert!(Deployment { spec: None }.selector().is_none());
    assert!(StatefulSet { spec: None }.selector().is_none());
    assert!(DaemonSet { spec: None }.selector().is_none());
}
