use vstd::prelude::*;

verus! {

/// How a persistent subscription hands events to its consumers.
#[derive(Debug, Clone, Copy, PartialEq, Eq, Structural)]
pub enum NamedConsumerStrategy {
    RoundRobin,
    DispatchToSingle,
    Pinned,
}

/// The settings of a persistent subscription, as the server describes them.
#[derive(Debug, Clone, Copy, PartialEq, Eq, Structural)]
pub struct SubscriptionConfig {
    pub resolve_linktos: bool,
    pub start_from: i64,
    pub message_timeout_milliseconds: usize,
    pub extra_statistics: bool,
    pub max_retry_count: usize,
    pub live_buffer_size: usize,
    pub buffer_size: usize,
    pub read_batch_size: usize,
    pub check_point_after_milliseconds: usize,
    pub min_check_point_count: usize,
    pub max_check_point_count: usize,
    pub max_subscriber_count: usize,
    pub named_consumer_strategy: NamedConsumerStrategy,
}

/// The server's defaults for a persistent subscription.
pub open spec fn default_subscription_config() -> SubscriptionConfig {
    SubscriptionConfig {
        resolve_linktos: false,
        start_from: 0,
        message_timeout_milliseconds: 10_000,
        extra_statistics: false,
        max_retry_count: 10,
        live_buffer_size: 500,
        buffer_size: 500,
        read_batch_size: 20,
        check_point_after_milliseconds: 1_000,
        min_check_point_count: 10,
        max_check_point_count: 500,
        max_subscriber_count: 10,
        named_consumer_strategy: NamedConsumerStrategy::RoundRobin,
    }
}

impl Default for SubscriptionConfig {
    fn default() -> (r: SubscriptionConfig)
        ensures
            r == default_subscription_config(),
    {
        SubscriptionConfig {
            resolve_linktos: false,
            start_from: 0,
            message_timeout_milliseconds: 10_000,
            extra_statistics: false,
            max_retry_count: 10,
            live_buffer_size: 500,
            buffer_size: 500,
            read_batch_size: 20,
            check_point_after_milliseconds: 1_000,
            min_check_point_count: 10,
            max_check_point_count: 500,
            max_subscriber_count: 10,
            named_consumer_strategy: NamedConsumerStrategy::RoundRobin,
        }
    }
}

/// A persistent subscription: the stream and group it serves, and its settings.
#[derive(Debug)]
pub struct SubscriptionDetail {
    pub event_stream_id: String,
    pub group_name: String,
    pub config: SubscriptionConfig,
}

/// A projection's query and whether it may emit events.
#[derive(Debug)]
pub struct ProjectionConfig {
    pub name: String,
    pub query: String,
    pub emit_enabled: bool,
}

/// What is needed to create a projection.
#[derive(Debug)]
pub struct ProjectionConf {
    pub name: Option<String>,
    pub kind: String,
    pub enabled: bool,
    pub emit: bool,
    pub checkpoints: bool,
    pub track_emitted_streams: bool,
    pub script: String,
}

/// What is needed to change a projection's query.
#[derive(Debug)]
pub struct UpdateProjectionConf {
    pub name: String,
    pub emit: bool,
    pub track_emitted_streams: bool,
    pub query: String,
}

/// A node's version, state and projection mode.
#[derive(Debug)]
pub struct NodeInfo {
    pub version: String,
    pub state: String,
    pub projections_mode: String,
}

#[derive(Debug)]
pub struct Projection {
    pub name: String,
    pub mode: String,
    pub status: String,
}

#[derive(Debug)]
pub struct Projections {
    pub projections: Vec<Projection>,
}

/// The server's answer to a projection creation.
#[derive(Debug)]
pub struct ProjectionCreationSuccess {
    pub msg_type: usize,
    pub name: String,
}

/// A projection's status and, for a faulted one, the reason.
#[derive(Debug)]
pub struct CroppedProjectionInfo {
    pub status: String,
    pub reason: Option<String>,
}

/// One node of a cluster, as gossip describes it.
#[derive(Debug)]
pub struct ClusterMember {
    pub external_tcp_ip: String,
    pub external_http_ip: String,
    pub external_tcp_port: u16,
    pub external_http_port: u16,
    pub internal_tcp_port: u16,
    pub internal_http_port: u16,
    pub state: String,
    pub is_alive: bool,
}

#[derive(Debug)]
pub struct ClusterMembers {
    pub members: Vec<ClusterMember>,
}

/// Whether a node belongs to a cluster, and if so, its members.
#[derive(Debug)]
pub enum ClusterState {
    Cluster(ClusterMembers),
    ProblematicClusterNode,
    NoCluster,
}

/// The login under which operations run.
#[derive(Debug, Clone)]
pub struct User {
    pub login: String,
    pub password: Option<String>,
}

/// A login and password pair, the password empty when none was given.
#[derive(Debug)]
pub struct Credentials {
    pub login: String,
    pub password: String,
}

impl User {
    /// The user given by the `--login` and `--password` options: none
    /// without a login.
    pub fn from_args(login: Option<&str>, password: Option<&str>) -> (r: Option<User>)
        ensures
            login is None <==> r is None,
            r is Some ==> r->Some_0.login@ == login->Some_0@ && (password is None <==> r->Some_0.password is None)
                && (password is Some ==> r->Some_0.password->Some_0@ == password->Some_0@),
    {
        match login {
            None => None,
            Some(l) => {
                let password = match password {
                    None => None,
                    Some(p) => Some(p.to_owned()),
                };
                Some(User { login: l.to_owned(), password })
            },
        }
    }

    pub fn to_credentials(&self) -> (r: Credentials)
        ensures
            r.login@ == self.login@,
            self.password is None ==> r.password@ == Seq::<char>::empty(),
            self.password is Some ==> r.password@ == self.password->Some_0@,
    {
        let password = match &self.password {
            None => String::new(),
            Some(p) => p.clone(),
        };
        Credentials { login: self.login.clone(), password }
    }
}

/// The sub-commands of the command line.
#[derive(Debug, Clone, Copy, PartialEq, Eq, Structural)]
pub enum Cmd {
    Check,
}

/// The global command-line options.
#[derive(Debug)]
pub struct Args {
    pub host: String,
    pub port: u16,
    pub http_port: u16,
    pub login: Option<String>,
    pub password: Option<String>,
    pub cmd: Cmd,
}

} // verus!
