use swimmer::overview::overview_info;
use swimmer::parse_context_id;

fn parts(id: &str) -> (String, String, String, String) {
    parse_context_id(id)
}

#[test]
fn gke_context_is_split_into_project_region_and_name() {
    let r = parts("gke_myproj_us-central1_cluster-1");
    assert_eq!(r.0, "GKE");
    assert_eq!(r.1, "myproj");
    assert_eq!(r.2, "us-central1");
    assert_eq!(r.3, "cluster-1");
}

#[test]
fn gke_cluster_name_keeps_its_underscores() {
    let r = parts("gke_p_r_my_long_name");
    assert_eq!(r, ("GKE".to_string(), "p".to_string(), "r".to_string(), "my_long_name".to_string()));
}

#[test]
fn eks_arn_is_split_into_account_region_and_name() {
    let r = parts("arn:aws:eks:ap-northeast-1:123456789012:cluster/eks-1");
    assert_eq!(r.0, "EKS");
    assert_eq!(r.1, "123456789012");
    assert_eq!(r.2, "ap-northeast-1");
    assert_eq!(r.3, "eks-1");
}

#[test]
fn eks_name_stops_at_the_next_colon_and_loses_every_cluster_prefix() {
    let r = parts("arn:aws:eks:us-west-2:42:cluster/cluster/c9:extra");
    assert_eq!(r, ("EKS".to_string(), "42".to_string(), "us-west-2".to_string(), "c9".to_string()));
}

#[test]
fn other_contexts_keep_the_whole_id_as_name() {
    for id in ["docker-desktop", "minikube", "", "gke_only_two", "arn:aws:eks:region-only", "GKE_a_b_c"] {
        let r = parts(id);
        assert_eq!(r, ("Other".to_string(), String::new(), String::new(), id.to_string()));
    }
}

#[test]
fn overview_joins_version_and_context_parts() {
    let info = overview_info("gke_myproj_us-central1_cluster-1", "1", "28");
    assert_eq!(info.provider, "GKE");
    assert_eq!(info.project_or_account, "myproj");
    assert_eq!(info.region, "us-central1");
    assert_eq!(info.cluster_name, "cluster-1");
    assert_eq!(info.cluster_version, "1.28");
}
