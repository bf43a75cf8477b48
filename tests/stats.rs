use swimmer::stats::{cluster_stats, is_node_ready, NodeCondition};

fn cond(t: &str, s: &str) -> NodeCondition {
    NodeCondition { condition_type: t.to_string(), status: s.to_string() }
}

#[test]
fn ready_and_running_counts() {
    let nodes = vec![
        vec![cond("Ready", "True")],
        vec![cond("MemoryPressure", "False"), cond("Ready", "True")],
        vec![cond("Ready", "False")],
        vec![],
        vec![cond("Ready", "Unknown")],
    ];
    let phases = vec![
        Some("Running".to_string()),
        Some("Pending".to_string()),
        None,
        Some("Running".to_string()),
        Some("running".to_string()),
        Some("Succeeded".to_string()),
    ];
    let s = cluster_stats(&nodes, &phases, 3, 2, 4);
    assert_eq!(s.total_nodes, 5);
    assert_eq!(s.ready_nodes, 2);
    assert_eq!(s.total_pods, 6);
    assert_eq!(s.running_pods, 2);
    assert_eq!(s.namespace_count, 3);
    assert_eq!(s.deployment_count, 2);
    assert_eq!(s.job_count, 4);
}

#[test]
fn empty_cluster_has_zero_counts() {
    let s = cluster_stats(&vec![], &vec![], 0, 0, 0);
    assert_eq!((s.total_nodes, s.ready_nodes, s.total_pods, s.running_pods), (0, 0, 0, 0));
}

#[test]
fn node_readiness_needs_ready_true() {
    assert!(is_node_ready(&vec![cond("Ready", "True")]));
    assert!(!is_node_ready(&vec![cond("True", "Ready")]));
    assert!(!is_node_ready(&vec![]));
}
