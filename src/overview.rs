//! What a context name tells about the cluster behind it.

use vstd::prelude::*;
use vstd::string::*;

use crate::text::{
    find_char_from, is_prefix, sep_index, slice_text, starts_with_text, trim_leading,
    trim_leading_text,
};

verus! {

/// Static facts about a cluster: provider, project or account, region, name and version.
pub struct ClusterOverviewInfo {
    pub provider: String,
    pub project_or_account: String,
    pub region: String,
    pub cluster_name: String,
    pub cluster_version: String,
}

/// `gke_<project>_<region>_<name>`, where project and region hold no `_`.
pub open spec fn is_gke_id(id: Seq<char>) -> bool {
    let p1 = sep_index(id, '_', "gke_"@.len() as int);
    is_prefix("gke_"@, id) && p1 < id.len() && sep_index(id, '_', p1 + 1) < id.len()
}

/// `arn:aws:eks:<region>:<account>:<rest>`, where region and account hold no `:`.
pub open spec fn is_eks_id(id: Seq<char>) -> bool {
    let p3 = sep_index(id, ':', "arn:aws:eks:"@.len() as int);
    is_prefix("arn:aws:eks:"@, id) && p3 < id.len() && sep_index(id, ':', p3 + 1) < id.len()
}

/// The provider, project or account, region and cluster name that a context id spells.
/// GKE ids give the text between their first three `_` separators, the cluster
/// name being all that follows; EKS ARNs give their fourth and fifth `:` fields,
/// and the sixth without leading `cluster/`; any other id is `Other`, with the
/// whole id as the cluster name.
pub open spec fn context_parts(id: Seq<char>) -> (Seq<char>, Seq<char>, Seq<char>, Seq<char>) {
    if is_gke_id(id) {
        let p1 = sep_index(id, '_', "gke_"@.len() as int);
        let p2 = sep_index(id, '_', p1 + 1);
        (
            "GKE"@,
            id.subrange("gke_"@.len() as int, p1),
            id.subrange(p1 + 1, p2),
            id.subrange(p2 + 1, id.len() as int),
        )
    } else if !is_prefix("gke_"@, id) && is_eks_id(id) {
        let p3 = sep_index(id, ':', "arn:aws:eks:"@.len() as int);
        let p4 = sep_index(id, ':', p3 + 1);
        let p5 = sep_index(id, ':', p4 + 1);
        (
            "EKS"@,
            id.subrange(p3 + 1, p4),
            id.subrange("arn:aws:eks:"@.len() as int, p3),
            trim_leading(id.subrange(p4 + 1, p5), "cluster/"@),
        )
    } else {
        ("Other"@, Seq::empty(), Seq::empty(), id)
    }
}

/// Splits a context id into (provider, project or account, region, cluster name).
pub fn parse_context_id(context_id: &str) -> (r: (String, String, String, String))
    ensures
        (r.0@, r.1@, r.2@, r.3@) == context_parts(context_id@),
{
    let n = context_id.unicode_len();
    let gke = "gke_";
    let eks = "arn:aws:eks:";
    if starts_with_text(context_id, gke) {
        let g = gke.unicode_len();
        let p1 = find_char_from(context_id, '_', g);
        if p1 < n {
            let p2 = find_char_from(context_id, '_', p1 + 1);
            if p2 < n {
                return (
                    String::from_str("GKE"),
                    slice_text(context_id, g, p1),
                    slice_text(context_id, p1 + 1, p2),
                    slice_text(context_id, p2 + 1, n),
                );
            }
        }
    } else if starts_with_text(context_id, eks) {
        let e = eks.unicode_len();
        let p3 = find_char_from(context_id, ':', e);
        if p3 < n {
            let p4 = find_char_from(context_id, ':', p3 + 1);
            if p4 < n {
                let p5 = find_char_from(context_id, ':', p4 + 1);
                let region = slice_text(context_id, e, p3);
                let account = slice_text(context_id, p3 + 1, p4);
                let last = slice_text(context_id, p4 + 1, p5);
                let cluster_name = trim_leading_text(last.as_str(), "cluster/");
                return (String::from_str("EKS"), account, region, cluster_name);
            }
        }
    }
    (String::from_str("Other"), String::new(), String::new(), String::from_str(context_id))
}

/// The overview of the cluster behind `context_id`, whose API server reports
/// version `major`.`minor`.
pub fn overview_info(context_id: &str, major: &str, minor: &str) -> (r: ClusterOverviewInfo)
    ensures
        (r.provider@, r.project_or_account@, r.region@, r.cluster_name@) == context_parts(
            context_id@,
        ),
        r.cluster_version@ == major@ + "."@ + minor@,
{
    let (provider, project_or_account, region, cluster_name) = parse_context_id(context_id);
    let cluster_version = String::from_str(major).concat(".").concat(minor);
    ClusterOverviewInfo { provider, project_or_account, region, cluster_name, cluster_version }
}

} // verus!
