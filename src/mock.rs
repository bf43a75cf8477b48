//! The fixed stand-in for a cluster, used for offline demonstration.

use vstd::prelude::*;
use vstd::string::*;

use crate::events::opt_text;
use crate::text::same_text;

verus! {

/// A cluster that answers every request with the same hand-written objects.
pub struct MockK8sClient {}

/// Whether a mock-selection setting turns the stand-in on: only the text
/// `true` does; a missing or unreadable setting leaves it off.
pub open spec fn spec_mock_enabled(setting: Option<Seq<char>>) -> bool {
    setting == Some("true"@)
}

/// Whether the setting `setting` selects the stand-in cluster.
pub fn mock_enabled(setting: &Option<String>) -> (r: bool)
    ensures
        r == spec_mock_enabled(opt_text(*setting)),
{
    match setting {
        Some(s) => same_text(s.as_str(), "true"),
        None => false,
    }
}

impl MockK8sClient {
    pub fn new() -> (r: MockK8sClient) {
        MockK8sClient {  }
    }

    /// The context names that the stand-in offers: GKE, EKS and local clusters.
    pub fn context_names(&self) -> (r: Vec<String>)
        ensures
            r@.len() == 12,
            r@[0]@ == "gke_project-a_asia-northeast1_cluster-1"@,
            r@[4]@ == "arn:aws:eks:ap-northeast-1:123456789012:cluster/eks-cluster-1"@,
            r@[7]@ == "docker-desktop"@,
            r@[11]@ == "custom-context-2"@,
    {
        let mut r: Vec<String> = Vec::new();
        r.push(String::from_str("gke_project-a_asia-northeast1_cluster-1"));
        r.push(String::from_str("gke_project-a_asia-northeast1_cluster-2"));
        r.push(String::from_str("gke_project-b_us-central1_cluster-1"));
        r.push(String::from_str("gke_project-b_us-central1_cluster-2"));
        r.push(String::from_str("arn:aws:eks:ap-northeast-1:123456789012:cluster/eks-cluster-1"));
        r.push(String::from_str("arn:aws:eks:ap-northeast-1:123456789012:cluster/eks-cluster-2"));
        r.push(String::from_str("arn:aws:eks:us-west-2:123456789012:cluster/eks-cluster-3"));
        r.push(String::from_str("docker-desktop"));
        r.push(String::from_str("minikube"));
        r.push(String::from_str("kind-cluster"));
        r.push(String::from_str("custom-context-1"));
        r.push(String::from_str("custom-context-2"));
        r
    }

    /// The API server version that the stand-in reports, as (major, minor).
    pub fn server_version(&self) -> (r: (String, String))
        ensures
            r.0@ == "1"@,
            r.1@ == "28"@,
    {
        (String::from_str("1"), String::from_str("28"))
    }
}

} // verus!
