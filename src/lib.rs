//! Administration and cross-cluster replication logic for an append-only,
//! stream-oriented event log.
//!
//! The replication engine is split into pure, verified steps: resolving what
//! the operator selected into an index stream and a limit (`selection`),
//! classifying the entries read from that index, live records versus links
//! to deleted streams (`link`, `strategy`), converting records into write
//! payloads (`record`), and grouping those payloads into bounded,
//! order-preserving append batches (`batch`). `destination` models what the
//! appends leave in the destination log and proves that order is kept.
//! Network I/O is left to the caller, which feeds records in and performs the
//! appends handed back.
//!
//! Around the engine: the administration API's data types (`model`), the
//! reconciliation of declared subscriptions and projection kinds
//! (`compliance`), and the streams read when listing (`listing`).

pub mod error;
pub mod text;
pub mod selection;
pub mod record;
pub mod link;
pub mod batch;
pub mod destination;
pub mod strategy;
pub mod model;
pub mod compliance;
pub mod listing;
pub mod options;

pub use error::CerberusError;
pub use selection::{Limit, ReadPlan, Selection, get_export_selection, get_limit, get_stream_name, resolve, tail_start};
pub use record::{EventData, IndexEntry, Record, record_to_event_data};
pub use link::{LinkTarget, parse_link, parse_link_text};
pub use batch::{Append, BATCH_CAPACITY, StreamBatcher, plan_stream_copy};
pub use strategy::{CategoryStep, CategoryTracker, EntryKind, classify_entry, route_type_entry};
pub use model::{
    Args, ClusterMember, ClusterMembers, ClusterState, Cmd, Credentials, CroppedProjectionInfo,
    NamedConsumerStrategy, NodeInfo, Projection, ProjectionConf, ProjectionConfig,
    ProjectionCreationSuccess, Projections, SubscriptionConfig, SubscriptionDetail,
    UpdateProjectionConf, User,
};
pub use compliance::{PersistentSubscriptionSettings, ProjectionType, SubscriptionStrategy, is_valid_kind};
