use vstd::prelude::*;
use crate::model::{NamedConsumerStrategy, SubscriptionConfig};
use crate::text::text_equals;

verus! {

/// Consumer strategy as written in a compliance file.
#[derive(Debug, Clone, Copy, PartialEq, Eq, Structural)]
pub enum SubscriptionStrategy {
    RoundRobin,
    DispatchToSingle,
    Pinned,
}

impl Default for SubscriptionStrategy {
    fn default() -> (r: SubscriptionStrategy)
        ensures
            r == SubscriptionStrategy::RoundRobin,
    {
        SubscriptionStrategy::RoundRobin
    }
}

/// The desired settings of a persistent subscription, as written in a
/// compliance file; a setting left out takes the server's default.
#[derive(Debug, Clone, Copy, PartialEq, Eq, Structural)]
pub struct PersistentSubscriptionSettings {
    pub resolve_link: bool,
    pub start_from: i64,
    pub extra_stats: bool,
    pub msg_timeout_in_ms: Option<usize>,
    pub max_retry_count: Option<usize>,
    pub live_buffer_size: Option<usize>,
    pub read_batch_size: Option<usize>,
    pub buffer_size: Option<usize>,
    pub checkpoint_after_in_ms: Option<usize>,
    pub min_checkpoint_count: Option<usize>,
    pub max_checkpoint_count: Option<usize>,
    pub max_subs_count: Option<usize>,
    pub strategy: SubscriptionStrategy,
}

pub open spec fn or_default(v: Option<usize>, d: usize) -> usize {
    match v {
        Some(x) => x,
        None => d,
    }
}

pub open spec fn named_strategy(s: SubscriptionStrategy) -> NamedConsumerStrategy {
    match s {
        SubscriptionStrategy::RoundRobin => NamedConsumerStrategy::RoundRobin,
        SubscriptionStrategy::DispatchToSingle => NamedConsumerStrategy::DispatchToSingle,
        SubscriptionStrategy::Pinned => NamedConsumerStrategy::Pinned,
    }
}

/// The full server configuration that desired settings stand for.
pub open spec fn sub_config_of(s: PersistentSubscriptionSettings) -> SubscriptionConfig {
    SubscriptionConfig {
        resolve_linktos: s.resolve_link,
        start_from: s.start_from,
        message_timeout_milliseconds: or_default(s.msg_timeout_in_ms, 10_000),
        extra_statistics: s.extra_stats,
        max_retry_count: or_default(s.max_retry_count, 10),
        live_buffer_size: or_default(s.live_buffer_size, 500),
        buffer_size: or_default(s.buffer_size, 500),
        read_batch_size: or_default(s.read_batch_size, 20),
        check_point_after_milliseconds: or_default(s.checkpoint_after_in_ms, 1_000),
        min_check_point_count: or_default(s.min_checkpoint_count, 10),
        max_check_point_count: or_default(s.max_checkpoint_count, 500),
        max_subscriber_count: or_default(s.max_subs_count, 10),
        named_consumer_strategy: named_strategy(s.strategy),
    }
}

/// What reconciling one subscription with the server calls for.
#[derive(Debug, Clone, Copy, PartialEq, Eq, Structural)]
pub enum SubscriptionAction {
    /// The subscription does not exist: create it with this configuration.
    Create(SubscriptionConfig),
    /// It exists with another configuration: replace it with this one.
    Update(SubscriptionConfig),
    /// It exists with the desired configuration.
    UpToDate,
}

impl PersistentSubscriptionSettings {
    /// The full server configuration these settings stand for.
    pub fn to_sub_config(&self) -> (r: SubscriptionConfig)
        ensures
            r == sub_config_of(*self),
    {
        let named_consumer_strategy = match self.strategy {
            SubscriptionStrategy::RoundRobin => NamedConsumerStrategy::RoundRobin,
            SubscriptionStrategy::DispatchToSingle => NamedConsumerStrategy::DispatchToSingle,
            SubscriptionStrategy::Pinned => NamedConsumerStrategy::Pinned,
        };
        SubscriptionConfig {
            resolve_linktos: self.resolve_link,
            start_from: self.start_from,
            message_timeout_milliseconds: self.msg_timeout_in_ms.unwrap_or(10_000),
            extra_statistics: self.extra_stats,
            max_retry_count: self.max_retry_count.unwrap_or(10),
            live_buffer_size: self.live_buffer_size.unwrap_or(500),
            buffer_size: self.buffer_size.unwrap_or(500),
            read_batch_size: self.read_batch_size.unwrap_or(20),
            check_point_after_milliseconds: self.checkpoint_after_in_ms.unwrap_or(1_000),
            min_check_point_count: self.min_checkpoint_count.unwrap_or(10),
            max_check_point_count: self.max_checkpoint_count.unwrap_or(500),
            max_subscriber_count: self.max_subs_count.unwrap_or(10),
            named_consumer_strategy,
        }
    }
}

/// Compares desired settings with the configuration the server has, if
/// any. The server's starting point is kept: it is not reconciled.
pub fn reconcile_subscription(
    settings: &PersistentSubscriptionSettings,
    live: Option<SubscriptionConfig>,
) -> (r: SubscriptionAction)
    ensures
        live is None ==> r == SubscriptionAction::Create(sub_config_of(*settings)),
        live is Some ==> {
            let current = live->Some_0;
            let wanted = SubscriptionConfig { start_from: current.start_from, ..sub_config_of(*settings) };
            &&& wanted == current ==> r == SubscriptionAction::UpToDate
            &&& wanted != current ==> r == SubscriptionAction::Update(wanted)
        },
{
    let mut conf = settings.to_sub_config();
    match live {
        None => SubscriptionAction::Create(conf),
        Some(current) => {
            conf.start_from = current.start_from;
            if conf == current {
                SubscriptionAction::UpToDate
            } else {
                SubscriptionAction::Update(conf)
            }
        },
    }
}

/// How long a projection runs.
#[derive(Debug, Clone, Copy, PartialEq, Eq, Structural)]
pub enum ProjectionType {
    Continuous,
    OneTime,
}

impl ProjectionType {
    /// The name the server uses for this kind of projection.
    pub fn get_human_string(self) -> (r: &'static str)
        ensures
            self == ProjectionType::Continuous ==> r@ == "continuous"@,
            self == ProjectionType::OneTime ==> r@ == "onetime"@,
    {
        match self {
            ProjectionType::Continuous => "continuous",
            ProjectionType::OneTime => "onetime",
        }
    }
}

/// The projection kinds by which projections can be listed.
pub open spec fn is_projection_kind(s: Seq<char>) -> bool {
    s == "any"@ || s == "transient"@ || s == "onetime"@ || s == "continuous"@
        || s == "all-non-transient"@
}

/// Whether `submitted` names a kind by which projections can be listed.
pub fn is_valid_kind(submitted: &str) -> (r: bool)
    ensures
        r == is_projection_kind(submitted@),
{
    text_equals(submitted, "any") || text_equals(submitted, "transient") || text_equals(
        submitted,
        "onetime",
    ) || text_equals(submitted, "continuous") || text_equals(submitted, "all-non-transient")
}

} // verus!
