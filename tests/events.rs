use swimmer::events::{is_event_bearing, related_event_indices, InvolvedObject};

fn obj(kind: &str, name: &str, ns: Option<&str>) -> InvolvedObject {
    InvolvedObject {
        kind: Some(kind.to_string()),
        name: Some(name.to_string()),
        namespace: ns.map(|s| s.to_string()),
    }
}

#[test]
fn pod_event_is_found_only_in_its_namespace() {
    let events = vec![obj("Pod", "web-app-1", Some("default"))];
    let ns = Some("default".to_string());
    assert_eq!(related_event_indices(&events, "Pod", "web-app-1", &ns), vec![0]);
    let other = Some("other-ns".to_string());
    assert_eq!(related_event_indices(&events, "Pod", "web-app-1", &other), Vec::<usize>::new());
    assert!(related_event_indices(&events, "ConfigMap", "web-app-1", &ns).is_empty());
}

#[test]
fn related_events_keep_their_order_and_match_on_every_field() {
    let events = vec![
        obj("Pod", "a", Some("default")),
        obj("Pod", "b", Some("default")),
        obj("Deployment", "a", Some("default")),
        obj("Pod", "a", Some("default")),
        obj("Pod", "a", None),
        InvolvedObject { kind: None, name: Some("a".to_string()), namespace: Some("default".to_string()) },
    ];
    let ns = Some("default".to_string());
    assert_eq!(related_event_indices(&events, "Pod", "a", &ns), vec![0, 3]);
    assert_eq!(related_event_indices(&events, "Pod", "a", &None), vec![4]);
}

#[test]
fn event_bearing_kinds_are_the_twelve_workload_and_storage_kinds() {
    for k in [
        "Pod", "Deployment", "ReplicaSet", "StatefulSet", "DaemonSet", "Service", "Job", "CronJob",
        "ConfigMap", "Secret", "PersistentVolume", "PersistentVolumeClaim",
    ] {
        assert!(is_event_bearing(k), "{}", k);
    }
    for k in ["Node", "Namespace", "Ingress", "Role", "Event", "Pods", "Widget", ""] {
        assert!(!is_event_bearing(k), "{}", k);
    }
}
