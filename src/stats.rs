//! Counts that summarise a cluster.

use vstd::prelude::*;
use vstd::string::*;

use crate::text::same_text;

verus! {

/// One condition that a node reports, such as `Ready` = `True`.
pub struct NodeCondition {
    pub condition_type: String,
    pub status: String,
}

/// Node, pod, namespace, deployment and job counts of a cluster.
pub struct ClusterStats {
    pub total_nodes: usize,
    pub ready_nodes: usize,
    pub total_pods: usize,
    pub running_pods: usize,
    pub namespace_count: usize,
    pub deployment_count: usize,
    pub job_count: usize,
}

/// The condition says `Ready` is `True`.
pub open spec fn is_ready_condition(c: NodeCondition) -> bool {
    c.condition_type@ == "Ready"@ && c.status@ == "True"@
}

/// A node is ready when one of its conditions is `Ready` = `True`.
pub open spec fn node_ready(conditions: Seq<NodeCondition>) -> bool {
    exists|i: int| 0 <= i < conditions.len() && is_ready_condition(#[trigger] conditions[i])
}

/// A pod is running when its phase is `Running`.
pub open spec fn pod_running(phase: Option<String>) -> bool {
    match phase {
        Some(p) => p@ == "Running"@,
        None => false,
    }
}

/// How many of the first `n` nodes are ready.
pub open spec fn ready_upto(nodes: Seq<Vec<NodeCondition>>, n: int) -> nat
    decreases n,
{
    if n <= 0 {
        0
    } else {
        ready_upto(nodes, n - 1) + if node_ready(nodes[n - 1]@) {
            1nat
        } else {
            0nat
        }
    }
}

/// How many of the first `n` pods are running.
pub open spec fn running_upto(phases: Seq<Option<String>>, n: int) -> nat
    decreases n,
{
    if n <= 0 {
        0
    } else {
        running_upto(phases, n - 1) + if pod_running(phases[n - 1]) {
            1nat
        } else {
            0nat
        }
    }
}

/// Whether a node with these conditions is ready.
pub fn is_node_ready(conditions: &Vec<NodeCondition>) -> (r: bool)
    ensures
        r == node_ready(conditions@),
{
    let mut i: usize = 0;
    while i < conditions.len()
        invariant
            i <= conditions@.len(),
            forall|j: int| 0 <= j < i ==> !is_ready_condition(#[trigger] conditions@[j]),
        decreases conditions@.len() - i,
    {
        let c = &conditions[i];
        if same_text(c.condition_type.as_str(), "Ready") && same_text(c.status.as_str(), "True") {
            return true;
        }
        i += 1;
    }
    false
}

/// Whether a pod in this phase is running.
pub fn is_pod_running(phase: &Option<String>) -> (r: bool)
    ensures
        r == pod_running(*phase),
{
    match phase {
        Some(p) => same_text(p.as_str(), "Running"),
        None => false,
    }
}

/// How many nodes, each given by its conditions, are ready.
pub fn ready_node_count(nodes: &Vec<Vec<NodeCondition>>) -> (r: usize)
    ensures
        r == ready_upto(nodes@, nodes@.len() as int),
        r <= nodes@.len(),
{
    let mut count: usize = 0;
    let mut i: usize = 0;
    while i < nodes.len()
        invariant
            i <= nodes@.len(),
            count == ready_upto(nodes@, i as int),
            count <= i,
        decreases nodes@.len() - i,
    {
        if is_node_ready(&nodes[i]) {
            count += 1;
        }
        i += 1;
    }
    count
}

/// How many pods, each given by its phase, are running.
pub fn running_pod_count(phases: &Vec<Option<String>>) -> (r: usize)
    ensures
        r == running_upto(phases@, phases@.len() as int),
        r <= phases@.len(),
{
    let mut count: usize = 0;
    let mut i: usize = 0;
    while i < phases.len()
        invariant
            i <= phases@.len(),
            count == running_upto(phases@, i as int),
            count <= i,
        decreases phases@.len() - i,
    {
        if is_pod_running(&phases[i]) {
            count += 1;
        }
        i += 1;
    }
    count
}

/// The statistics of a cluster from its nodes' conditions, its pods' phases
/// and the sizes of its namespace, deployment and job lists.
pub fn cluster_stats(
    nodes: &Vec<Vec<NodeCondition>>,
    pod_phases: &Vec<Option<String>>,
    namespace_count: usize,
    deployment_count: usize,
    job_count: usize,
) -> (r: ClusterStats)
    ensures
        r.total_nodes == nodes@.len(),
        r.ready_nodes == ready_upto(nodes@, nodes@.len() as int),
        r.total_pods == pod_phases@.len(),
        r.running_pods == running_upto(pod_phases@, pod_phases@.len() as int),
        r.namespace_count == namespace_count,
        r.deployment_count == deployment_count,
        r.job_count == job_count,
{
    ClusterStats {
        total_nodes: nodes.len(),
        ready_nodes: ready_node_count(nodes),
        total_pods: pod_phases.len(),
        running_pods: running_pod_count(pod_phases),
        namespace_count,
        deployment_count,
        job_count,
    }
}

} // verus!
