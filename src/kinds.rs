//! The closed table of built-in resource kinds: names, scope and whether
//! their detail view carries related events.

use vstd::prelude::*;

use crate::text::same_text;

verus! {

/// Whether a kind's instances live inside a namespace or are cluster-global.
#[derive(PartialEq, Eq, Structural, Clone, Copy, Debug)]
pub enum Scope {
    Namespaced,
    Cluster,
}

/// A built-in resource kind.
#[derive(PartialEq, Eq, Structural, Clone, Copy, Debug)]
pub enum ResourceKind {
    Pod,
    Deployment,
    Service,
    Node,
    Namespace,
    ReplicaSet,
    StatefulSet,
    DaemonSet,
    Job,
    CronJob,
    ConfigMap,
    Secret,
    Ingress,
    NetworkPolicy,
    PersistentVolume,
    PersistentVolumeClaim,
    StorageClass,
    Role,
    ClusterRole,
    RoleBinding,
    ClusterRoleBinding,
    ServiceAccount,
    Endpoints,
    Event,
    HorizontalPodAutoscaler,
    LimitRange,
    ResourceQuota,
}

impl ResourceKind {
    /// The plural name under which the kind is listed.
    pub open spec fn spec_list_name(self) -> Seq<char> {
        match self {
            ResourceKind::Pod => "Pods"@,
            ResourceKind::Deployment => "Deployments"@,
            ResourceKind::Service => "Services"@,
            ResourceKind::Node => "Nodes"@,
            ResourceKind::Namespace => "Namespaces"@,
            ResourceKind::ReplicaSet => "ReplicaSets"@,
            ResourceKind::StatefulSet => "StatefulSets"@,
            ResourceKind::DaemonSet => "DaemonSets"@,
            ResourceKind::Job => "Jobs"@,
            ResourceKind::CronJob => "CronJobs"@,
            ResourceKind::ConfigMap => "ConfigMaps"@,
            ResourceKind::Secret => "Secrets"@,
            ResourceKind::Ingress => "Ingresses"@,
            ResourceKind::NetworkPolicy => "NetworkPolicies"@,
            ResourceKind::PersistentVolume => "PersistentVolumes"@,
            ResourceKind::PersistentVolumeClaim => "PersistentVolumeClaims"@,
            ResourceKind::StorageClass => "StorageClasses"@,
            ResourceKind::Role => "Roles"@,
            ResourceKind::ClusterRole => "ClusterRoles"@,
            ResourceKind::RoleBinding => "RoleBindings"@,
            ResourceKind::ClusterRoleBinding => "ClusterRoleBindings"@,
            ResourceKind::ServiceAccount => "ServiceAccounts"@,
            ResourceKind::Endpoints => "Endpoints"@,
            ResourceKind::Event => "Events"@,
            ResourceKind::HorizontalPodAutoscaler => "HorizontalPodAutoscalers"@,
            ResourceKind::LimitRange => "LimitRanges"@,
            ResourceKind::ResourceQuota => "ResourceQuotas"@,
        }
    }

    /// The singular name under which one instance is read.
    pub open spec fn spec_detail_name(self) -> Seq<char> {
        match self {
            ResourceKind::Pod => "Pod"@,
            ResourceKind::Deployment => "Deployment"@,
            ResourceKind::Service => "Service"@,
            ResourceKind::Node => "Node"@,
            ResourceKind::Namespace => "Namespace"@,
            ResourceKind::ReplicaSet => "ReplicaSet"@,
            ResourceKind::StatefulSet => "StatefulSet"@,
            ResourceKind::DaemonSet => "DaemonSet"@,
            ResourceKind::Job => "Job"@,
            ResourceKind::CronJob => "CronJob"@,
            ResourceKind::ConfigMap => "ConfigMap"@,
            ResourceKind::Secret => "Secret"@,
            ResourceKind::Ingress => "Ingress"@,
            ResourceKind::NetworkPolicy => "NetworkPolicy"@,
            ResourceKind::PersistentVolume => "PersistentVolume"@,
            ResourceKind::PersistentVolumeClaim => "PersistentVolumeClaim"@,
            ResourceKind::StorageClass => "StorageClass"@,
            ResourceKind::Role => "Role"@,
            ResourceKind::ClusterRole => "ClusterRole"@,
            ResourceKind::RoleBinding => "RoleBinding"@,
            ResourceKind::ClusterRoleBinding => "ClusterRoleBinding"@,
            ResourceKind::ServiceAccount => "ServiceAccount"@,
            ResourceKind::Endpoints => "Endpoints"@,
            ResourceKind::Event => "Event"@,
            ResourceKind::HorizontalPodAutoscaler => "HorizontalPodAutoscaler"@,
            ResourceKind::LimitRange => "LimitRange"@,
            ResourceKind::ResourceQuota => "ResourceQuota"@,
        }
    }

    /// Where the kind's instances live.
    pub open spec fn spec_scope(self) -> Scope {
        match self {
            ResourceKind::Pod => Scope::Namespaced,
            ResourceKind::Deployment => Scope::Namespaced,
            ResourceKind::Service => Scope::Namespaced,
            ResourceKind::Node => Scope::Cluster,
            ResourceKind::Namespace => Scope::Cluster,
            ResourceKind::ReplicaSet => Scope::Namespaced,
            ResourceKind::StatefulSet => Scope::Namespaced,
            ResourceKind::DaemonSet => Scope::Namespaced,
            ResourceKind::Job => Scope::Namespaced,
            ResourceKind::CronJob => Scope::Namespaced,
            ResourceKind::ConfigMap => Scope::Namespaced,
            ResourceKind::Secret => Scope::Namespaced,
            ResourceKind::Ingress => Scope::Namespaced,
            ResourceKind::NetworkPolicy => Scope::Namespaced,
            ResourceKind::PersistentVolume => Scope::Cluster,
            ResourceKind::PersistentVolumeClaim => Scope::Namespaced,
            ResourceKind::StorageClass => Scope::Cluster,
            ResourceKind::Role => Scope::Namespaced,
            ResourceKind::ClusterRole => Scope::Cluster,
            ResourceKind::RoleBinding => Scope::Namespaced,
            ResourceKind::ClusterRoleBinding => Scope::Cluster,
            ResourceKind::ServiceAccount => Scope::Namespaced,
            ResourceKind::Endpoints => Scope::Namespaced,
            ResourceKind::Event => Scope::Namespaced,
            ResourceKind::HorizontalPodAutoscaler => Scope::Namespaced,
            ResourceKind::LimitRange => Scope::Namespaced,
            ResourceKind::ResourceQuota => Scope::Namespaced,
        }
    }

    /// Whether the detail view of an instance lists its related events.
    pub open spec fn spec_event_bearing(self) -> bool {
        match self {
            ResourceKind::Pod => true,
            ResourceKind::Deployment => true,
            ResourceKind::Service => true,
            ResourceKind::Node => false,
            ResourceKind::Namespace => false,
            ResourceKind::ReplicaSet => true,
            ResourceKind::StatefulSet => true,
            ResourceKind::DaemonSet => true,
            ResourceKind::Job => true,
            ResourceKind::CronJob => true,
            ResourceKind::ConfigMap => true,
            ResourceKind::Secret => true,
            ResourceKind::Ingress => false,
            ResourceKind::NetworkPolicy => false,
            ResourceKind::PersistentVolume => true,
            ResourceKind::PersistentVolumeClaim => true,
            ResourceKind::StorageClass => false,
            ResourceKind::Role => false,
            ResourceKind::ClusterRole => false,
            ResourceKind::RoleBinding => false,
            ResourceKind::ClusterRoleBinding => false,
            ResourceKind::ServiceAccount => false,
            ResourceKind::Endpoints => false,
            ResourceKind::Event => false,
            ResourceKind::HorizontalPodAutoscaler => false,
            ResourceKind::LimitRange => false,
            ResourceKind::ResourceQuota => false,
        }
    }

    /// The plural name under which the kind is listed.
    pub fn list_name(&self) -> (r: &'static str)
        ensures
            r@ == self.spec_list_name(),
    {
        match self {
            ResourceKind::Pod => "Pods",
            ResourceKind::Deployment => "Deployments",
            ResourceKind::Service => "Services",
            ResourceKind::Node => "Nodes",
            ResourceKind::Namespace => "Namespaces",
            ResourceKind::ReplicaSet => "ReplicaSets",
            ResourceKind::StatefulSet => "StatefulSets",
            ResourceKind::DaemonSet => "DaemonSets",
            ResourceKind::Job => "Jobs",
            ResourceKind::CronJob => "CronJobs",
            ResourceKind::ConfigMap => "ConfigMaps",
            ResourceKind::Secret => "Secrets",
            ResourceKind::Ingress => "Ingresses",
            ResourceKind::NetworkPolicy => "NetworkPolicies",
            ResourceKind::PersistentVolume => "PersistentVolumes",
            ResourceKind::PersistentVolumeClaim => "PersistentVolumeClaims",
            ResourceKind::StorageClass => "StorageClasses",
            ResourceKind::Role => "Roles",
            ResourceKind::ClusterRole => "ClusterRoles",
            ResourceKind::RoleBinding => "RoleBindings",
            ResourceKind::ClusterRoleBinding => "ClusterRoleBindings",
            ResourceKind::ServiceAccount => "ServiceAccounts",
            ResourceKind::Endpoints => "Endpoints",
            ResourceKind::Event => "Events",
            ResourceKind::HorizontalPodAutoscaler => "HorizontalPodAutoscalers",
            ResourceKind::LimitRange => "LimitRanges",
            ResourceKind::ResourceQuota => "ResourceQuotas",
        }
    }

    /// The singular name under which one instance is read.
    pub fn detail_name(&self) -> (r: &'static str)
        ensures
            r@ == self.spec_detail_name(),
    {
        match self {
            ResourceKind::Pod => "Pod",
            ResourceKind::Deployment => "Deployment",
            ResourceKind::Service => "Service",
            ResourceKind::Node => "Node",
            ResourceKind::Namespace => "Namespace",
            ResourceKind::ReplicaSet => "ReplicaSet",
            ResourceKind::StatefulSet => "StatefulSet",
            ResourceKind::DaemonSet => "DaemonSet",
            ResourceKind::Job => "Job",
            ResourceKind::CronJob => "CronJob",
            ResourceKind::ConfigMap => "ConfigMap",
            ResourceKind::Secret => "Secret",
            ResourceKind::Ingress => "Ingress",
            ResourceKind::NetworkPolicy => "NetworkPolicy",
            ResourceKind::PersistentVolume => "PersistentVolume",
            ResourceKind::PersistentVolumeClaim => "PersistentVolumeClaim",
            ResourceKind::StorageClass => "StorageClass",
            ResourceKind::Role => "Role",
            ResourceKind::ClusterRole => "ClusterRole",
            ResourceKind::RoleBinding => "RoleBinding",
            ResourceKind::ClusterRoleBinding => "ClusterRoleBinding",
            ResourceKind::ServiceAccount => "ServiceAccount",
            ResourceKind::Endpoints => "Endpoints",
            ResourceKind::Event => "Event",
            ResourceKind::HorizontalPodAutoscaler => "HorizontalPodAutoscaler",
            ResourceKind::LimitRange => "LimitRange",
            ResourceKind::ResourceQuota => "ResourceQuota",
        }
    }

    /// Where the kind's instances live.
    pub fn scope(&self) -> (r: Scope)
        ensures
            r == self.spec_scope(),
    {
        match self {
            ResourceKind::Pod => Scope::Namespaced,
            ResourceKind::Deployment => Scope::Namespaced,
            ResourceKind::Service => Scope::Namespaced,
            ResourceKind::Node => Scope::Cluster,
            ResourceKind::Namespace => Scope::Cluster,
            ResourceKind::ReplicaSet => Scope::Namespaced,
            ResourceKind::StatefulSet => Scope::Namespaced,
            ResourceKind::DaemonSet => Scope::Namespaced,
            ResourceKind::Job => Scope::Namespaced,
            ResourceKind::CronJob => Scope::Namespaced,
            ResourceKind::ConfigMap => Scope::Namespaced,
            ResourceKind::Secret => Scope::Namespaced,
            ResourceKind::Ingress => Scope::Namespaced,
            ResourceKind::NetworkPolicy => Scope::Namespaced,
            ResourceKind::PersistentVolume => Scope::Cluster,
            ResourceKind::PersistentVolumeClaim => Scope::Namespaced,
            ResourceKind::StorageClass => Scope::Cluster,
            ResourceKind::Role => Scope::Namespaced,
            ResourceKind::ClusterRole => Scope::Cluster,
            ResourceKind::RoleBinding => Scope::Namespaced,
            ResourceKind::ClusterRoleBinding => Scope::Cluster,
            ResourceKind::ServiceAccount => Scope::Namespaced,
            ResourceKind::Endpoints => Scope::Namespaced,
            ResourceKind::Event => Scope::Namespaced,
            ResourceKind::HorizontalPodAutoscaler => Scope::Namespaced,
            ResourceKind::LimitRange => Scope::Namespaced,
            ResourceKind::ResourceQuota => Scope::Namespaced,
        }
    }

    /// Whether the detail view of an instance lists its related events.
    pub fn is_event_bearing(&self) -> (r: bool)
        ensures
            r == self.spec_event_bearing(),
    {
        match self {
            ResourceKind::Pod => true,
            ResourceKind::Deployment => true,
            ResourceKind::Service => true,
            ResourceKind::Node => false,
            ResourceKind::Namespace => false,
            ResourceKind::ReplicaSet => true,
            ResourceKind::StatefulSet => true,
            ResourceKind::DaemonSet => true,
            ResourceKind::Job => true,
            ResourceKind::CronJob => true,
            ResourceKind::ConfigMap => true,
            ResourceKind::Secret => true,
            ResourceKind::Ingress => false,
            ResourceKind::NetworkPolicy => false,
            ResourceKind::PersistentVolume => true,
            ResourceKind::PersistentVolumeClaim => true,
            ResourceKind::StorageClass => false,
            ResourceKind::Role => false,
            ResourceKind::ClusterRole => false,
            ResourceKind::RoleBinding => false,
            ResourceKind::ClusterRoleBinding => false,
            ResourceKind::ServiceAccount => false,
            ResourceKind::Endpoints => false,
            ResourceKind::Event => false,
            ResourceKind::HorizontalPodAutoscaler => false,
            ResourceKind::LimitRange => false,
            ResourceKind::ResourceQuota => false,
        }
    }

    /// The kind listed under the plural name `s`, if any.
    pub fn from_list_name(s: &str) -> (r: Option<ResourceKind>)
        ensures
            r == kind_by_list_name(s@),
            r is Some ==> r->Some_0.spec_list_name() == s@,
    {
        if same_text(s, "Pods") {
            return Some(ResourceKind::Pod);
        }
        if same_text(s, "Deployments") {
            return Some(ResourceKind::Deployment);
        }
        if same_text(s, "Services") {
            return Some(ResourceKind::Service);
        }
        if same_text(s, "Nodes") {
            return Some(ResourceKind::Node);
        }
        if same_text(s, "Namespaces") {
            return Some(ResourceKind::Namespace);
        }
        if same_text(s, "ReplicaSets") {
            return Some(ResourceKind::ReplicaSet);
        }
        if same_text(s, "StatefulSets") {
            return Some(ResourceKind::StatefulSet);
        }
        if same_text(s, "DaemonSets") {
            return Some(ResourceKind::DaemonSet);
        }
        if same_text(s, "Jobs") {
            return Some(ResourceKind::Job);
        }
        if same_text(s, "CronJobs") {
            return Some(ResourceKind::CronJob);
        }
        if same_text(s, "ConfigMaps") {
            return Some(ResourceKind::ConfigMap);
        }
        if same_text(s, "Secrets") {
            return Some(ResourceKind::Secret);
        }
        if same_text(s, "Ingresses") {
            return Some(ResourceKind::Ingress);
        }
        if same_text(s, "NetworkPolicies") {
            return Some(ResourceKind::NetworkPolicy);
        }
        if same_text(s, "PersistentVolumes") {
            return Some(ResourceKind::PersistentVolume);
        }
        if same_text(s, "PersistentVolumeClaims") {
            return Some(ResourceKind::PersistentVolumeClaim);
        }
        if same_text(s, "StorageClasses") {
            return Some(ResourceKind::StorageClass);
        }
        if same_text(s, "Roles") {
            return Some(ResourceKind::Role);
        }
        if same_text(s, "ClusterRoles") {
            return Some(ResourceKind::ClusterRole);
        }
        if same_text(s, "RoleBindings") {
            return Some(ResourceKind::RoleBinding);
        }
        if same_text(s, "ClusterRoleBindings") {
            return Some(ResourceKind::ClusterRoleBinding);
        }
        if same_text(s, "ServiceAccounts") {
            return Some(ResourceKind::ServiceAccount);
        }
        if same_text(s, "Endpoints") {
            return Some(ResourceKind::Endpoints);
        }
        if same_text(s, "Events") {
            return Some(ResourceKind::Event);
        }
        if same_text(s, "HorizontalPodAutoscalers") {
            return Some(ResourceKind::HorizontalPodAutoscaler);
        }
        if same_text(s, "LimitRanges") {
            return Some(ResourceKind::LimitRange);
        }
        if same_text(s, "ResourceQuotas") {
            return Some(ResourceKind::ResourceQuota);
        }
        None
    }

    /// The kind read under the singular name `s`, if any.
    pub fn from_detail_name(s: &str) -> (r: Option<ResourceKind>)
        ensures
            r == kind_by_detail_name(s@),
            r is Some ==> r->Some_0.spec_detail_name() == s@,
    {
        if same_text(s, "Pod") {
            return Some(ResourceKind::Pod);
        }
        if same_text(s, "Deployment") {
            return Some(ResourceKind::Deployment);
        }
        if same_text(s, "Service") {
            return Some(ResourceKind::Service);
        }
        if same_text(s, "Node") {
            return Some(ResourceKind::Node);
        }
        if same_text(s, "Namespace") {
            return Some(ResourceKind::Namespace);
        }
        if same_text(s, "ReplicaSet") {
            return Some(ResourceKind::ReplicaSet);
        }
        if same_text(s, "StatefulSet") {
            return Some(ResourceKind::StatefulSet);
        }
        if same_text(s, "DaemonSet") {
            return Some(ResourceKind::DaemonSet);
        }
        if same_text(s, "Job") {
            return Some(ResourceKind::Job);
        }
        if same_text(s, "CronJob") {
            return Some(ResourceKind::CronJob);
        }
        if same_text(s, "ConfigMap") {
            return Some(ResourceKind::ConfigMap);
        }
        if same_text(s, "Secret") {
            return Some(ResourceKind::Secret);
        }
        if same_text(s, "Ingress") {
            return Some(ResourceKind::Ingress);
        }
        if same_text(s, "NetworkPolicy") {
            return Some(ResourceKind::NetworkPolicy);
        }
        if same_text(s, "PersistentVolume") {
            return Some(ResourceKind::PersistentVolume);
        }
        if same_text(s, "PersistentVolumeClaim") {
            return Some(ResourceKind::PersistentVolumeClaim);
        }
        if same_text(s, "StorageClass") {
            return Some(ResourceKind::StorageClass);
        }
        if same_text(s, "Role") {
            return Some(ResourceKind::Role);
        }
        if same_text(s, "ClusterRole") {
            return Some(ResourceKind::ClusterRole);
        }
        if same_text(s, "RoleBinding") {
            return Some(ResourceKind::RoleBinding);
        }
        if same_text(s, "ClusterRoleBinding") {
            return Some(ResourceKind::ClusterRoleBinding);
        }
        if same_text(s, "ServiceAccount") {
            return Some(ResourceKind::ServiceAccount);
        }
        if same_text(s, "Endpoints") {
            return Some(ResourceKind::Endpoints);
        }
        if same_text(s, "Event") {
            return Some(ResourceKind::Event);
        }
        if same_text(s, "HorizontalPodAutoscaler") {
            return Some(ResourceKind::HorizontalPodAutoscaler);
        }
        if same_text(s, "LimitRange") {
            return Some(ResourceKind::LimitRange);
        }
        if same_text(s, "ResourceQuota") {
            return Some(ResourceKind::ResourceQuota);
        }
        None
    }
}

/// The built-in kind listed under the plural name `s`, if any.
pub open spec fn kind_by_list_name(s: Seq<char>) -> Option<ResourceKind> {
    if s == "Pods"@ {
        Some(ResourceKind::Pod)
    } else if s == "Deployments"@ {
        Some(ResourceKind::Deployment)
    } else if s == "Services"@ {
        Some(ResourceKind::Service)
    } else if s == "Nodes"@ {
        Some(ResourceKind::Node)
    } else if s == "Namespaces"@ {
        Some(ResourceKind::Namespace)
    } else if s == "ReplicaSets"@ {
        Some(ResourceKind::ReplicaSet)
    } else if s == "StatefulSets"@ {
        Some(ResourceKind::StatefulSet)
    } else if s == "DaemonSets"@ {
        Some(ResourceKind::DaemonSet)
    } else if s == "Jobs"@ {
        Some(ResourceKind::Job)
    } else if s == "CronJobs"@ {
        Some(ResourceKind::CronJob)
    } else if s == "ConfigMaps"@ {
        Some(ResourceKind::ConfigMap)
    } else if s == "Secrets"@ {
        Some(ResourceKind::Secret)
    } else if s == "Ingresses"@ {
        Some(ResourceKind::Ingress)
    } else if s == "NetworkPolicies"@ {
        Some(ResourceKind::NetworkPolicy)
    } else if s == "PersistentVolumes"@ {
        Some(ResourceKind::PersistentVolume)
    } else if s == "PersistentVolumeClaims"@ {
        Some(ResourceKind::PersistentVolumeClaim)
    } else if s == "StorageClasses"@ {
        Some(ResourceKind::StorageClass)
    } else if s == "Roles"@ {
        Some(ResourceKind::Role)
    } else if s == "ClusterRoles"@ {
        Some(ResourceKind::ClusterRole)
    } else if s == "RoleBindings"@ {
        Some(ResourceKind::RoleBinding)
    } else if s == "ClusterRoleBindings"@ {
        Some(ResourceKind::ClusterRoleBinding)
    } else if s == "ServiceAccounts"@ {
        Some(ResourceKind::ServiceAccount)
    } else if s == "Endpoints"@ {
        Some(ResourceKind::Endpoints)
    } else if s == "Events"@ {
        Some(ResourceKind::Event)
    } else if s == "HorizontalPodAutoscalers"@ {
        Some(ResourceKind::HorizontalPodAutoscaler)
    } else if s == "LimitRanges"@ {
        Some(ResourceKind::LimitRange)
    } else if s == "ResourceQuotas"@ {
        Some(ResourceKind::ResourceQuota)
    } else {
        None
    }
}

/// The built-in kind read under the singular name `s`, if any.
pub open spec fn kind_by_detail_name(s: Seq<char>) -> Option<ResourceKind> {
    if s == "Pod"@ {
        Some(ResourceKind::Pod)
    } else if s == "Deployment"@ {
        Some(ResourceKind::Deployment)
    } else if s == "Service"@ {
        Some(ResourceKind::Service)
    } else if s == "Node"@ {
        Some(ResourceKind::Node)
    } else if s == "Namespace"@ {
        Some(ResourceKind::Namespace)
    } else if s == "ReplicaSet"@ {
        Some(ResourceKind::ReplicaSet)
    } else if s == "StatefulSet"@ {
        Some(ResourceKind::StatefulSet)
    } else if s == "DaemonSet"@ {
        Some(ResourceKind::DaemonSet)
    } else if s == "Job"@ {
        Some(ResourceKind::Job)
    } else if s == "CronJob"@ {
        Some(ResourceKind::CronJob)
    } else if s == "ConfigMap"@ {
        Some(ResourceKind::ConfigMap)
    } else if s == "Secret"@ {
        Some(ResourceKind::Secret)
    } else if s == "Ingress"@ {
        Some(ResourceKind::Ingress)
    } else if s == "NetworkPolicy"@ {
        Some(ResourceKind::NetworkPolicy)
    } else if s == "PersistentVolume"@ {
        Some(ResourceKind::PersistentVolume)
    } else if s == "PersistentVolumeClaim"@ {
        Some(ResourceKind::PersistentVolumeClaim)
    } else if s == "StorageClass"@ {
        Some(ResourceKind::StorageClass)
    } else if s == "Role"@ {
        Some(ResourceKind::Role)
    } else if s == "ClusterRole"@ {
        Some(ResourceKind::ClusterRole)
    } else if s == "RoleBinding"@ {
        Some(ResourceKind::RoleBinding)
    } else if s == "ClusterRoleBinding"@ {
        Some(ResourceKind::ClusterRoleBinding)
    } else if s == "ServiceAccount"@ {
        Some(ResourceKind::ServiceAccount)
    } else if s == "Endpoints"@ {
        Some(ResourceKind::Endpoints)
    } else if s == "Event"@ {
        Some(ResourceKind::Event)
    } else if s == "HorizontalPodAutoscaler"@ {
        Some(ResourceKind::HorizontalPodAutoscaler)
    } else if s == "LimitRange"@ {
        Some(ResourceKind::LimitRange)
    } else if s == "ResourceQuota"@ {
        Some(ResourceKind::ResourceQuota)
    } else {
        None
    }
}

} // verus!
