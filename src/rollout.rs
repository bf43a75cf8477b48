//! The patch that restarts a deployment's pods without changing its spec.

use vstd::prelude::*;
use vstd::string::*;

verus! {

/// The annotation on the pod template whose change makes new pods.
pub open spec fn restart_patch_head() -> Seq<char> {
    "{\"spec\":{\"template\":{\"metadata\":{\"annotations\":{\"kubectl.kubernetes.io/restartedAt\":\""@
}

pub open spec fn restart_patch_tail() -> Seq<char> {
    "\"}}}}}"@
}

/// The strategic-merge patch, as JSON text, that sets the restart annotation
/// of a deployment's pod template to `timestamp` and touches nothing else.
pub fn restart_patch(timestamp: &str) -> (r: String)
    ensures
        r@ == restart_patch_head() + timestamp@ + restart_patch_tail(),
{
    String::from_str(
        "{\"spec\":{\"template\":{\"metadata\":{\"annotations\":{\"kubectl.kubernetes.io/restartedAt\":\"",
    ).concat(timestamp).concat("\"}}}}}")
}

} // verus!
