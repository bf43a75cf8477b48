//! Cluster resource access: kind dispatch, custom-resource tokens, event
//! correlation, cluster overview and statistics, a time-bounded client cache
//! and a registry of live watches.

mod order;
mod text;

pub mod cache;
pub mod crd;
pub mod custom;
pub mod dispatch;
pub mod error;
pub mod events;
pub mod kinds;
pub mod mock;
pub mod overview;
pub mod rollout;
pub mod stats;
pub mod terminal;
pub mod watch;

pub use error::K8sError;
pub use mock::MockK8sClient;
pub use overview::{parse_context_id, ClusterOverviewInfo};
pub use stats::ClusterStats;
