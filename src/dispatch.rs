//! Turning a kind name and an optional namespace into a scope-correct request:
//! which kind, and in which namespace, a list, get or delete is made.

use vstd::prelude::*;
use vstd::string::*;

use crate::custom::{
    crd_segments, is_crd_token, is_custom_kind, malformed_token_message, parse_crd_token,
    CustomResourceRef,
};
use crate::error::{
    bad_request, is_bad_request, is_namespace_required, require_namespace, K8sError,
};
use crate::kinds::{kind_by_detail_name, kind_by_list_name, ResourceKind, Scope};
use crate::text::{is_prefix, starts_with_text};

verus! {

/// What an operation addresses: a built-in kind or a custom resource.
pub enum Target {
    Builtin(ResourceKind),
    Custom(CustomResourceRef),
}

impl Target {
    pub open spec fn spec_namespaced(&self) -> bool {
        match self {
            Target::Builtin(k) => k.spec_scope() == Scope::Namespaced,
            Target::Custom(c) => c.spec_is_namespaced(),
        }
    }

    /// Whether instances of the target live inside a namespace.
    pub fn is_namespaced(&self) -> (r: bool)
        ensures
            r == self.spec_namespaced(),
    {
        match self {
            Target::Builtin(k) => match k.scope() {
                Scope::Namespaced => true,
                Scope::Cluster => false,
            },
            Target::Custom(c) => c.is_namespaced(),
        }
    }
}

/// A list request: what to list, and in which namespace (`None`: everywhere).
pub struct ListPlan {
    pub target: Target,
    pub namespace: Option<String>,
}

/// A request on one named instance; `namespace` is `None` for cluster-scoped kinds.
pub struct ItemPlan {
    pub target: Target,
    pub name: String,
    pub namespace: Option<String>,
}

/// The built-in kind that `kind` names, by plural or by singular name.
pub open spec fn builtin_named(kind: Seq<char>, plural: bool) -> Option<ResourceKind> {
    if plural {
        kind_by_list_name(kind)
    } else {
        kind_by_detail_name(kind)
    }
}

/// A custom-resource token that does not have four segments.
pub open spec fn is_malformed_kind(kind: Seq<char>) -> bool {
    is_custom_kind(kind) && !is_crd_token(kind)
}

/// `kind` names something: a well-formed token or a built-in kind.
pub open spec fn is_known_kind(kind: Seq<char>, plural: bool) -> bool {
    if is_custom_kind(kind) {
        is_crd_token(kind)
    } else {
        builtin_named(kind, plural) is Some
    }
}

/// The kind that `kind` names keeps its instances in namespaces.
pub open spec fn names_namespaced(kind: Seq<char>, plural: bool) -> bool {
    if is_custom_kind(kind) {
        crd_segments(kind).3 == "Namespaced"@
    } else {
        match builtin_named(kind, plural) {
            Some(k) => k.spec_scope() == Scope::Namespaced,
            None => false,
        }
    }
}

/// `t` is what `kind` names.
pub open spec fn resolves_to(kind: Seq<char>, plural: bool, t: Target) -> bool {
    match t {
        Target::Builtin(k) => !is_custom_kind(kind) && builtin_named(kind, plural) == Some(k),
        Target::Custom(c) => is_crd_token(kind) && (c.group@, c.version@, c.plural@, c.scope@)
            == crd_segments(kind),
    }
}

/// The namespace an operation uses: the given one for namespaced kinds, none otherwise.
pub open spec fn scoped_namespace(namespaced: bool, namespace: Option<String>) -> Option<
    String,
> {
    if namespaced {
        namespace
    } else {
        None
    }
}

/// What `kind` names, by plural (`plural`) or singular name; `None` when it names nothing.
pub fn resolve_kind(kind: &str, plural: bool) -> (r: Result<Option<Target>, K8sError>)
    ensures
        r is Err <==> is_malformed_kind(kind@),
        r is Err ==> is_bad_request(r->Err_0, malformed_token_message(kind@)),
        r is Ok ==> (r->Ok_0 is Some <==> is_known_kind(kind@, plural)),
        r is Ok && r->Ok_0 is Some ==> resolves_to(kind@, plural, r->Ok_0->Some_0),
        r is Ok && r->Ok_0 is Some ==> (r->Ok_0->Some_0.spec_namespaced() <==> names_namespaced(
            kind@,
            plural,
        )),
{
    if starts_with_text(kind, "cr:") {
        match parse_crd_token(kind) {
            Ok(c) => Ok(Some(Target::Custom(c))),
            Err(e) => Err(e),
        }
    } else {
        let found = if plural {
            ResourceKind::from_list_name(kind)
        } else {
            ResourceKind::from_detail_name(kind)
        };
        match found {
            Some(k) => Ok(Some(Target::Builtin(k))),
            None => Ok(None),
        }
    }
}

/// Plans a list of `kind` (a plural name or a token). Cluster-scoped kinds
/// ignore `namespace`; a namespaced kind without one is listed across all
/// namespaces. A kind that names nothing gives `Ok(None)`: an empty list.
pub fn plan_list(kind: &str, namespace: Option<String>) -> (r: Result<Option<ListPlan>, K8sError>)
    ensures
        r is Err <==> is_malformed_kind(kind@),
        r is Err ==> is_bad_request(r->Err_0, malformed_token_message(kind@)),
        r is Ok ==> (r->Ok_0 is Some <==> is_known_kind(kind@, true)),
        r is Ok && r->Ok_0 is Some ==> resolves_to(kind@, true, r->Ok_0->Some_0.target)
            && r->Ok_0->Some_0.namespace == scoped_namespace(names_namespaced(kind@, true), namespace),
{
    match resolve_kind(kind, true) {
        Err(e) => Err(e),
        Ok(None) => Ok(None),
        Ok(Some(target)) => {
            let namespace = if target.is_namespaced() {
                namespace
            } else {
                None
            };
            Ok(Some(ListPlan { target, namespace }))
        },
    }
}

/// Plans an operation on one named instance of `kind` (a singular name or a token).
/// A namespaced kind without a namespace is refused before anything is asked
/// of the cluster; a cluster-scoped kind ignores `namespace`.
fn plan_item(kind: &str, name: String, namespace: Option<String>) -> (r: Result<
    Option<ItemPlan>,
    K8sError,
>)
    ensures
        is_malformed_kind(kind@) ==> r is Err && is_bad_request(
            r->Err_0,
            malformed_token_message(kind@),
        ),
        !is_malformed_kind(kind@) && !is_known_kind(kind@, false) ==> r is Ok && r->Ok_0 is None,
        is_known_kind(kind@, false) && names_namespaced(kind@, false) && namespace is None ==> r is Err
            && is_namespace_required(r->Err_0, kind@),
        is_known_kind(kind@, false) && !(names_namespaced(kind@, false) && namespace is None) ==> r is Ok
            && r->Ok_0 is Some && resolves_to(kind@, false, r->Ok_0->Some_0.target)
            && r->Ok_0->Some_0.name == name && r->Ok_0->Some_0.namespace == scoped_namespace(
            names_namespaced(kind@, false),
            namespace,
        ),
{
    match resolve_kind(kind, false) {
        Err(e) => Err(e),
        Ok(None) => Ok(None),
        Ok(Some(target)) => {
            if target.is_namespaced() {
                match namespace {
                    None => Err(require_namespace(kind)),
                    Some(ns) => Ok(Some(ItemPlan { target, name, namespace: Some(ns) })),
                }
            } else {
                Ok(Some(ItemPlan { target, name, namespace: None }))
            }
        },
    }
}

/// Plans a read of one instance. A kind that names nothing gives `Ok(None)`:
/// the detail view shows an empty object.
pub fn plan_get(kind: &str, name: String, namespace: Option<String>) -> (r: Result<
    Option<ItemPlan>,
    K8sError,
>)
    ensures
        is_malformed_kind(kind@) ==> r is Err && is_bad_request(
            r->Err_0,
            malformed_token_message(kind@),
        ),
        !is_malformed_kind(kind@) && !is_known_kind(kind@, false) ==> r is Ok && r->Ok_0 is None,
        is_known_kind(kind@, false) && names_namespaced(kind@, false) && namespace is None ==> r is Err
            && is_namespace_required(r->Err_0, kind@),
        is_known_kind(kind@, false) && !(names_namespaced(kind@, false) && namespace is None) ==> r is Ok
            && r->Ok_0 is Some && resolves_to(kind@, false, r->Ok_0->Some_0.target)
            && r->Ok_0->Some_0.name == name && r->Ok_0->Some_0.namespace == scoped_namespace(
            names_namespaced(kind@, false),
            namespace,
        ),
{
    plan_item(kind, name, namespace)
}

/// The message of the error for a kind that cannot be deleted because it names nothing.
pub open spec fn unsupported_kind_message(kind: Seq<char>) -> Seq<char> {
    "Unsupported kind: "@ + kind
}

/// Plans a deletion of one instance. Unlike a read, a kind that names nothing
/// is a `BadRequest` naming the kind.
pub fn plan_delete(kind: &str, name: String, namespace: Option<String>) -> (r: Result<
    ItemPlan,
    K8sError,
>)
    ensures
        is_malformed_kind(kind@) ==> r is Err && is_bad_request(
            r->Err_0,
            malformed_token_message(kind@),
        ),
        !is_malformed_kind(kind@) && !is_known_kind(kind@, false) ==> r is Err && is_bad_request(
            r->Err_0,
            unsupported_kind_message(kind@),
        ),
        is_known_kind(kind@, false) && names_namespaced(kind@, false) && namespace is None ==> r is Err
            && is_namespace_required(r->Err_0, kind@),
        is_known_kind(kind@, false) && !(names_namespaced(kind@, false) && namespace is None) ==> r is Ok
            && resolves_to(kind@, false, r->Ok_0.target) && r->Ok_0.name == name
            && r->Ok_0.namespace == scoped_namespace(names_namespaced(kind@, false), namespace),
{
    match plan_item(kind, name, namespace) {
        Err(e) => Err(e),
        Ok(Some(p)) => Ok(p),
        Ok(None) => Err(bad_request(String::from_str("Unsupported kind: ").concat(kind))),
    }
}

/// For every singular name of a built-in kind: when the kind is namespaced, a
/// read or a deletion without a namespace is refused with `NamespaceRequired`;
/// when it is cluster-scoped, a namespace that is given is dropped without error.
pub proof fn law_namespace_scope(kind: Seq<char>, k: ResourceKind, namespace: Option<String>)
    requires
        kind_by_detail_name(kind) == Some(k),
    ensures
        is_known_kind(kind, false),
        !is_malformed_kind(kind),
        k.spec_scope() == Scope::Namespaced ==> names_namespaced(kind, false),
        k.spec_scope() == Scope::Cluster ==> !names_namespaced(kind, false) && scoped_namespace(
            names_namespaced(kind, false),
            namespace,
        ) is None,
{
    reveal_strlit("cr:");
    if is_prefix("cr:"@, kind) {
        assert(kind.subrange(0, 3)[0] == 'c');
        reveal_strlit("ClusterRole");
        reveal_strlit("ClusterRoleBinding");
        reveal_strlit("ClusterRoleBindings");
        reveal_strlit("ClusterRoles");
        reveal_strlit("ConfigMap");
        reveal_strlit("ConfigMaps");
        reveal_strlit("CronJob");
        reveal_strlit("CronJobs");
        reveal_strlit("DaemonSet");
        reveal_strlit("DaemonSets");
        reveal_strlit("Deployment");
        reveal_strlit("Deployments");
        reveal_strlit("Endpoints");
        reveal_strlit("Event");
        reveal_strlit("Events");
        reveal_strlit("HorizontalPodAutoscaler");
        reveal_strlit("HorizontalPodAutoscalers");
        reveal_strlit("Ingress");
        reveal_strlit("Ingresses");
        reveal_strlit("Job");
        reveal_strlit("Jobs");
        reveal_strlit("LimitRange");
        reveal_strlit("LimitRanges");
        reveal_strlit("Namespace");
        reveal_strlit("Namespaces");
        reveal_strlit("NetworkPolicies");
        reveal_strlit("NetworkPolicy");
        reveal_strlit("Node");
        reveal_strlit("Nodes");
        reveal_strlit("PersistentVolume");
        reveal_strlit("PersistentVolumeClaim");
        reveal_strlit("PersistentVolumeClaims");
        reveal_strlit("PersistentVolumes");
        reveal_strlit("Pod");
        reveal_strlit("Pods");
        reveal_strlit("ReplicaSet");
        reveal_strlit("ReplicaSets");
        reveal_strlit("ResourceQuota");
        reveal_strlit("ResourceQuotas");
        reveal_strlit("Role");
        reveal_strlit("RoleBinding");
        reveal_strlit("RoleBindings");
        reveal_strlit("Roles");
        reveal_strlit("Secret");
        reveal_strlit("Secrets");
        reveal_strlit("Service");
        reveal_strlit("ServiceAccount");
        reveal_strlit("ServiceAccounts");
        reveal_strlit("Services");
        reveal_strlit("StatefulSet");
        reveal_strlit("StatefulSets");
        reveal_strlit("StorageClass");
        reveal_strlit("StorageClasses");
        assert(false);
    }
}

} // verus!
