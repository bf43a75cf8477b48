use swimmer::mock::mock_enabled;
use swimmer::rollout::restart_patch;
use swimmer::terminal::shell_args;
use swimmer::MockK8sClient;

#[test]
fn only_true_selects_the_mock() {
    assert!(mock_enabled(&Some("true".to_string())));
    assert!(!mock_enabled(&Some("false".to_string())));
    assert!(!mock_enabled(&Some("yes".to_string())));
    assert!(!mock_enabled(&None));
}

#[test]
fn mock_offers_fixed_contexts_and_version() {
    let m = MockK8sClient::new();
    let names = m.context_names();
    assert_eq!(names.len(), 12);
    assert_eq!(names[0], "gke_project-a_asia-northeast1_cluster-1");
    assert_eq!(names[6], "arn:aws:eks:us-west-2:123456789012:cluster/eks-cluster-3");
    assert_eq!(names[11], "custom-context-2");
    assert_eq!(m.server_version(), ("1".to_string(), "28".to_string()));
}

#[test]
fn zsh_and_bash_get_emacs_mode() {
    assert_eq!(shell_args("zsh"), vec!["-o".to_string(), "emacs".to_string()]);
    assert_eq!(shell_args("bash"), vec!["-o".to_string(), "emacs".to_string()]);
    assert!(shell_args("fish").is_empty());
    assert!(shell_args("/bin/bash").is_empty());
}

#[test]
fn restart_patch_sets_only_the_annotation() {
    let p = restart_patch("2024-01-15T10:00:00+00:00");
    assert_eq!(
        p,
        "{\"spec\":{\"template\":{\"metadata\":{\"annotations\":{\"kubectl.kubernetes.io/restartedAt\":\"2024-01-15T10:00:00+00:00\"}}}}}"
    );
    let v: serde_json::Value = serde_json::from_str(&p).unwrap();
    assert_eq!(v["spec"]["template"]["metadata"]["annotations"]["kubectl.kubernetes.io/restartedAt"], "2024-01-15T10:00:00+00:00");
}
