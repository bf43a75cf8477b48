use swimmer::custom::parse_crd_token;
use swimmer::dispatch::{plan_delete, plan_get, plan_list, Target};
use swimmer::kinds::{ResourceKind, Scope};
use swimmer::K8sError;

const ALL: [ResourceKind; 27] = [
    ResourceKind::Pod,
    ResourceKind::Deployment,
    ResourceKind::Service,
    ResourceKind::Node,
    ResourceKind::Namespace,
    ResourceKind::ReplicaSet,
    ResourceKind::StatefulSet,
    ResourceKind::DaemonSet,
    ResourceKind::Job,
    ResourceKind::CronJob,
    ResourceKind::ConfigMap,
    ResourceKind::Secret,
    ResourceKind::Ingress,
    ResourceKind::NetworkPolicy,
    ResourceKind::PersistentVolume,
    ResourceKind::PersistentVolumeClaim,
    ResourceKind::StorageClass,
    ResourceKind::Role,
    ResourceKind::ClusterRole,
    ResourceKind::RoleBinding,
    ResourceKind::ClusterRoleBinding,
    ResourceKind::ServiceAccount,
    ResourceKind::Endpoints,
    ResourceKind::Event,
    ResourceKind::HorizontalPodAutoscaler,
    ResourceKind::LimitRange,
    ResourceKind::ResourceQuota,
];

fn namespace_required_for(e: &K8sError, kind: &str) -> bool {
    match e {
        K8sError::Api(a) => {
            a.status == "Failure"
                && a.reason == "BadRequest"
                && a.code == 400
                && a.message == format!("Namespace required for {}", kind)
        }
        _ => false,
    }
}

fn bad_request_with(e: &K8sError, message: &str) -> bool {
    match e {
        K8sError::Api(a) => a.reason == "BadRequest" && a.code == 400 && a.message == message,
        _ => false,
    }
}

#[test]
fn every_kind_is_found_under_its_names() {
    for k in ALL {
        assert_eq!(ResourceKind::from_list_name(k.list_name()), Some(k));
        assert_eq!(ResourceKind::from_detail_name(k.detail_name()), Some(k));
    }
    assert_eq!(ResourceKind::from_list_name("Pod"), None);
    assert_eq!(ResourceKind::from_detail_name("Pods"), None);
}

#[test]
fn namespaced_kinds_refuse_get_and_delete_without_namespace() {
    let mut namespaced = 0;
    for k in ALL {
        if k.scope() == Scope::Namespaced {
            namespaced += 1;
            let g = plan_get(k.detail_name(), "x".to_string(), None);
            assert!(matches!(&g, Err(e) if namespace_required_for(e, k.detail_name())));
            let d = plan_delete(k.detail_name(), "x".to_string(), None);
            assert!(matches!(&d, Err(e) if namespace_required_for(e, k.detail_name())));
        }
    }
    assert_eq!(namespaced, 21);
}

#[test]
fn cluster_scoped_kinds_ignore_a_given_namespace() {
    let mut cluster = 0;
    for k in ALL {
        if k.scope() == Scope::Cluster {
            cluster += 1;
            let g = plan_get(k.detail_name(), "x".to_string(), Some("default".to_string()));
            let p = g.ok().flatten().unwrap();
            assert!(matches!(p.target, Target::Builtin(t) if t == k));
            assert_eq!(p.namespace, None);
            assert_eq!(p.name, "x");
            let l = plan_list(k.list_name(), Some("default".to_string())).ok().flatten().unwrap();
            assert_eq!(l.namespace, None);
        }
    }
    assert_eq!(cluster, 6);
}

#[test]
fn namespaced_get_keeps_its_namespace() {
    let p = plan_get("Pod", "web-app-1".to_string(), Some("default".to_string())).ok().flatten().unwrap();
    assert!(matches!(p.target, Target::Builtin(ResourceKind::Pod)));
    assert_eq!(p.namespace, Some("default".to_string()));
}

#[test]
fn list_without_namespace_lists_everywhere() {
    let p = plan_list("Pods", None).ok().flatten().unwrap();
    assert!(matches!(p.target, Target::Builtin(ResourceKind::Pod)));
    assert_eq!(p.namespace, None);
    let q = plan_list("Deployments", Some("prod".to_string())).ok().flatten().unwrap();
    assert_eq!(q.namespace, Some("prod".to_string()));
}

#[test]
fn unknown_kinds_list_and_read_nothing_but_cannot_be_deleted() {
    assert!(matches!(plan_list("Widgets", None), Ok(None)));
    assert!(matches!(plan_get("Widget", "a".to_string(), None), Ok(None)));
    let d = plan_delete("Widget", "a".to_string(), Some("ns".to_string()));
    assert!(matches!(&d, Err(e) if bad_request_with(e, "Unsupported kind: Widget")));
}

#[test]
fn crd_token_is_parsed_into_its_segments() {
    let c = parse_crd_token("cr:apps.example.com/v1/widgets/Namespaced").ok().unwrap();
    assert_eq!(c.group, "apps.example.com");
    assert_eq!(c.version, "v1");
    assert_eq!(c.plural, "widgets");
    assert_eq!(c.scope, "Namespaced");
    assert!(c.is_namespaced());
}

#[test]
fn short_or_long_crd_tokens_are_bad_requests() {
    for t in ["cr:apps.example.com/v1/widgets", "cr:", "cr:a/b", "cr:a/b/c/d/e"] {
        let r = parse_crd_token(t);
        let msg = format!("Invalid custom resource kind: {}", t);
        assert!(matches!(&r, Err(e) if bad_request_with(e, &msg)));
        assert!(matches!(&plan_list(t, None), Err(e) if bad_request_with(e, &msg)));
        assert!(matches!(&plan_get(t, "n".to_string(), None), Err(e) if bad_request_with(e, &msg)));
    }
}

#[test]
fn custom_resources_follow_their_scope() {
    let ns = "cr:apps.example.com/v1/widgets/Namespaced";
    let g = plan_get(ns, "w".to_string(), None);
    assert!(matches!(&g, Err(e) if namespace_required_for(e, ns)));
    let l = plan_list(ns, Some("team".to_string())).ok().flatten().unwrap();
    assert!(matches!(&l.target, Target::Custom(c) if c.plural == "widgets"));
    assert_eq!(l.namespace, Some("team".to_string()));

    let cl = "cr:example.com/v1beta1/gadgets/Cluster";
    let d = plan_delete(cl, "g".to_string(), Some("team".to_string())).ok().unwrap();
    assert!(matches!(&d.target, Target::Custom(c) if c.group == "example.com" && c.version == "v1beta1"));
    assert_eq!(d.namespace, None);
}

#[test]
fn token_built_from_segments_reads_back() {
    let (g, v, p, s) = ("batch.tutorial.io", "v2", "cronjobs", "Cluster");
    let c = parse_crd_token(&format!("cr:{}/{}/{}/{}", g, v, p, s)).ok().unwrap();
    assert_eq!((c.group.as_str(), c.version.as_str(), c.plural.as_str(), c.scope.as_str()), (g, v, p, s));
    assert!(!c.is_namespaced());
    let empty_group = parse_crd_token("cr:/v1/configmaps/Namespaced").ok().unwrap();
    assert_eq!(empty_group.group, "");
}
