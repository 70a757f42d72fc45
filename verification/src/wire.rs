//! Types exchanged between the agent, the manager and its services.

use crate::text::{concat, decimal_string};
use vstd::prelude::*;

verus! {

/// The name of an agent plugin.
#[derive(Debug, PartialEq, Eq, Hash)]
pub struct PluginName(pub String);

impl View for PluginName {
    type V = Seq<char>;

    open spec fn view(&self) -> Seq<char> {
        self.0@
    }
}

impl Clone for PluginName {
    fn clone(&self) -> (r: Self)
        ensures
            r == *self,
    {
        PluginName(self.0.clone())
    }
}

impl PluginName {
    /// The name as `Display` writes it.
    pub fn to_string(&self) -> (r: String)
        ensures
            r@ == self@,
    {
        self.0.clone()
    }
}

impl From<PluginName> for String {
    fn from(name: PluginName) -> (r: String)
        ensures
            r@ == name@,
    {
        name.0
    }
}

impl vstd::std_specs::convert::FromSpecImpl<PluginName> for String {
    open spec fn obeys_from_spec() -> bool {
        true
    }

    open spec fn from_spec(name: PluginName) -> String {
        name.0
    }
}

impl PluginName {
    /// Builds a value holding a copy of `name`.
    pub fn new(name: &str) -> (r: PluginName)
        ensures
            r@ == name@,
    {
        PluginName(String::from_str(name))
    }
}

/// A fully qualified domain name of a host.
#[derive(Debug, PartialEq, Eq, Hash, PartialOrd, Ord)]
pub struct Fqdn(pub String);

impl View for Fqdn {
    type V = Seq<char>;

    open spec fn view(&self) -> Seq<char> {
        self.0@
    }
}

impl Clone for Fqdn {
    fn clone(&self) -> (r: Self)
        ensures
            r == *self,
    {
        Fqdn(self.0.clone())
    }
}

impl Fqdn {
    /// The name as `Display` writes it.
    pub fn to_string(&self) -> (r: String)
        ensures
            r@ == self@,
    {
        self.0.clone()
    }
}

impl From<Fqdn> for String {
    fn from(name: Fqdn) -> (r: String)
        ensures
            r@ == name@,
    {
        name.0
    }
}

impl vstd::std_specs::convert::FromSpecImpl<Fqdn> for String {
    open spec fn obeys_from_spec() -> bool {
        true
    }

    open spec fn from_spec(name: Fqdn) -> String {
        name.0
    }
}

/// The id of an agent session.
#[derive(Debug, PartialEq, Eq, Hash)]
pub struct Id(pub String);

impl View for Id {
    type V = Seq<char>;

    open spec fn view(&self) -> Seq<char> {
        self.0@
    }
}

impl Clone for Id {
    fn clone(&self) -> (r: Self)
        ensures
            r == *self,
    {
        Id(self.0.clone())
    }
}

impl Id {
    /// The id as `Display` writes it.
    pub fn to_string(&self) -> (r: String)
        ensures
            r@ == self@,
    {
        self.0.clone()
    }
}

impl Id {
    /// Builds a value holding a copy of `name`.
    pub fn new(name: &str) -> (r: Id)
        ensures
            r@ == name@,
    {
        Id(String::from_str(name))
    }
}

/// The sequence number of a message within an agent session.
#[derive(Debug, Clone, Copy, PartialEq, Eq)]
pub struct SessionSeq(pub u64);

impl From<u64> for SessionSeq {
    fn from(n: u64) -> (r: SessionSeq)
        ensures
            r == SessionSeq(n),
    {
        SessionSeq(n)
    }
}

impl vstd::std_specs::convert::FromSpecImpl<u64> for SessionSeq {
    open spec fn obeys_from_spec() -> bool {
        true
    }

    open spec fn from_spec(n: u64) -> SessionSeq {
        SessionSeq(n)
    }
}

impl Default for SessionSeq {
    fn default() -> (r: SessionSeq)
        ensures
            r == SessionSeq(0),
    {
        SessionSeq(0)
    }
}

impl SessionSeq {
    /// Moves to the next sequence number.
    pub fn increment(&mut self)
        requires
            old(self).0 < u64::MAX,
        ensures
            final(self).0 == old(self).0 + 1,
    {
        self.0 = self.0 + 1;
    }
}

/// Query parameters of a list request to the API: every list asks for all its objects
/// (`limit=0`) first, and by default for nothing more.
pub trait FlatQuery {
    fn query() -> (r: Vec<(&'static str, &'static str)>)
        ensures
            r@.len() >= 1,
            r@[0].0@ == "limit"@ && r@[0].1@ == "0"@,
        default_ensures
            r@.len() == 1,
            r@[0].0@ == "limit"@ && r@[0].1@ == "0"@,
    {
        vec![("limit", "0")]
    }
}

/// The name of an agent action.
#[derive(Debug, Eq, PartialEq, Hash)]
pub struct ActionName(pub String);

impl View for ActionName {
    type V = Seq<char>;

    open spec fn view(&self) -> Seq<char> {
        self.0@
    }
}

impl Clone for ActionName {
    fn clone(&self) -> (r: Self)
        ensures
            r == *self,
    {
        ActionName(self.0.clone())
    }
}

impl ActionName {
    /// The name as `Display` writes it.
    pub fn to_string(&self) -> (r: String)
        ensures
            r@ == self@,
    {
        self.0.clone()
    }
}

impl ActionName {
    /// Builds a value holding a copy of `name`.
    pub fn new(name: &str) -> (r: ActionName)
        ensures
            r@ == name@,
    {
        ActionName(String::from_str(name))
    }
}

/// The id of a running agent action.
#[derive(Debug, PartialEq, Eq, Hash)]
pub struct ActionId(pub String);

impl View for ActionId {
    type V = Seq<char>;

    open spec fn view(&self) -> Seq<char> {
        self.0@
    }
}

impl Clone for ActionId {
    fn clone(&self) -> (r: Self)
        ensures
            r == *self,
    {
        ActionId(self.0.clone())
    }
}

impl ActionId {
    /// The id as `Display` writes it.
    pub fn to_string(&self) -> (r: String)
        ensures
            r@ == self@,
    {
        self.0.clone()
    }
}

/// A record's content type id and id, which name it across the API.
#[derive(Debug, Clone, Copy, PartialEq, Eq)]
pub struct CompositeId(pub u32, pub u32);

impl CompositeId {
    /// The two ids separated by a colon, as `Display` writes them.
    pub fn to_string(&self) -> (r: String)
        ensures
            r@ == crate::text::decimal(self.0 as nat) + seq![':'] + crate::text::decimal(self.1 as nat),
    {
        let mut s = decimal_string(self.0 as u64);
        proof {
            reveal_strlit(":");
        }
        s.append(":");
        let t = decimal_string(self.1 as u64);
        s.append(t.as_str());
        s
    }
}

/// Records that have a `CompositeId`.
pub trait ToCompositeId {
    fn composite_id(&self) -> CompositeId;
}

/// Records that have a label.
pub trait Label {
    fn label(&self) -> &str;
}

/// Records served from an endpoint of the API.
pub trait EndpointName {
    fn endpoint_name() -> &'static str;
}

/// The type of lock.
#[derive(Clone, Copy, Debug, Eq, PartialEq, Hash)]
pub enum LockType {
    Read,
    Write,
}

/// The action associated with a `LockChange`.
#[derive(Clone, Copy, Debug, Eq, PartialEq, Hash)]
pub enum LockAction {
    Add,
    Remove,
}

/// A change to be applied to `Locks`.
#[derive(Debug, Eq, PartialEq, Hash)]
pub struct LockChange {
    pub uuid: String,
    pub job_id: u64,
    pub content_type_id: u32,
    pub item_id: u32,
    pub description: String,
    pub lock_type: LockType,
    pub action: LockAction,
}

impl ToCompositeId for LockChange {
    fn composite_id(&self) -> (r: CompositeId)
        ensures
            r == CompositeId(self.content_type_id, self.item_id),
    {
        CompositeId(self.content_type_id, self.item_id)
    }
}

/// The metadata object returned by a fetch call.
#[derive(Clone, Copy, Debug)]
pub struct Meta {
    pub limit: u32,
    pub next: Option<u32>,
    pub offset: u32,
    pub previous: Option<u32>,
    pub total_count: u32,
}

/// The metadata and the objects returned by a fetch call.
#[derive(Debug)]
pub struct ApiList<T> {
    pub meta: Meta,
    pub objects: Vec<T>,
}

/// The arguments of an available action.
#[derive(Clone, Copy, Debug, PartialEq)]
pub struct ActionArgs {
    pub host_id: Option<u64>,
    pub target_id: Option<u64>,
}

/// An available action from `/api/action/`.
#[derive(Debug, PartialEq)]
pub struct AvailableAction {
    pub args: Option<ActionArgs>,
    pub composite_id: String,
    pub class_name: Option<String>,
    pub confirmation: Option<String>,
    pub display_group: u64,
    pub display_order: u64,
    pub long_description: String,
    pub state: Option<String>,
    pub verb: String,
}

impl EndpointName for AvailableAction {
    fn endpoint_name() -> (r: &'static str)
        ensures
            r@ == "action"@,
    {
        "action"
    }
}

/// A `NtpConfiguration` record from `/api/ntp_configuration/`.
#[derive(Debug)]
pub struct NtpConfiguration {
    pub content_type_id: u32,
    pub id: u32,
    pub immutable_state: bool,
    pub label: String,
    pub not_deleted: Option<bool>,
    pub resource_uri: String,
    pub state: String,
    pub state_modified_at: String,
}

impl EndpointName for NtpConfiguration {
    fn endpoint_name() -> (r: &'static str)
        ensures
            r@ == "ntp_configuration"@,
    {
        "ntp_configuration"
    }
}

/// A client mount of a host.
#[derive(Debug)]
pub struct ClientMount {
    pub filesystem_name: String,
    pub mountpoint: Option<String>,
    pub state: String,
}

/// A Host record from `/api/host/`.
#[derive(Debug)]
pub struct Host {
    pub address: String,
    pub boot_time: Option<String>,
    pub client_mounts: Option<Vec<ClientMount>>,
    pub content_type_id: u32,
    pub corosync_configuration: Option<String>,
    pub corosync_ring0: String,
    pub fqdn: String,
    pub id: u32,
    pub immutable_state: bool,
    pub install_method: String,
    pub label: String,
    pub lnet_configuration: String,
    pub member_of_active_filesystem: bool,
    pub needs_update: bool,
    pub nids: Option<Vec<String>>,
    pub nodename: String,
    pub pacemaker_configuration: Option<String>,
    pub private_key: Option<String>,
    pub private_key_passphrase: Option<String>,
    pub properties: String,
    pub resource_uri: String,
    pub root_pw: Option<String>,
    pub server_profile: ServerProfile,
    pub state: String,
    pub state_modified_at: String,
}

impl FlatQuery for Host {}

impl ToCompositeId for Host {
    fn composite_id(&self) -> (r: CompositeId)
        ensures
            r == CompositeId(self.content_type_id, self.id),
    {
        CompositeId(self.content_type_id, self.id)
    }
}

impl Label for Host {
    fn label(&self) -> (r: &str)
        ensures
            r@ == self.label@,
    {
        self.label.as_str()
    }
}

impl crate::db::Id for Host {
    fn id(&self) -> (r: u32)
        ensures
            r == self.id,
    {
        self.id
    }
}

impl EndpointName for Host {
    fn endpoint_name() -> (r: &'static str)
        ensures
            r@ == "host"@,
    {
        "host"
    }
}

/// A server profile record from `/api/server_profile/`.
#[derive(Debug)]
pub struct ServerProfile {
    pub corosync: bool,
    pub corosync2: bool,
    pub default: bool,
    pub initial_state: String,
    pub managed: bool,
    pub name: String,
    pub ntp: bool,
    pub pacemaker: bool,
    pub repolist: Vec<String>,
    pub resource_uri: String,
    pub ui_description: String,
    pub ui_name: String,
    pub user_selectable: bool,
    pub worker: bool,
}

impl FlatQuery for ServerProfile {}

impl EndpointName for ServerProfile {
    fn endpoint_name() -> (r: &'static str)
        ensures
            r@ == "server_profile"@,
    {
        "server_profile"
    }
}

/// One test of a host profile.
#[derive(Debug)]
pub struct ProfileTest {
    pub description: String,
    pub error: String,
    pub pass: bool,
    pub test: String,
}

/// A command record from `/api/command/`.
#[derive(Debug)]
pub struct Command {
    pub cancelled: bool,
    pub complete: bool,
    pub created_at: String,
    pub errored: bool,
    pub id: u32,
    pub jobs: Vec<String>,
    pub logs: String,
    pub message: String,
    pub resource_uri: String,
}

impl EndpointName for Command {
    fn endpoint_name() -> (r: &'static str)
        ensures
            r@ == "command"@,
    {
        "command"
    }
}

/// A lock held by a job.
#[derive(Debug)]
pub struct JobLock {
    pub locked_item_content_type_id: u32,
    pub locked_item_id: u32,
    pub locked_item_uri: String,
    pub resource_uri: String,
}

/// A transition available on a job.
#[derive(Debug)]
pub struct AvailableTransition {
    pub label: String,
    pub state: String,
}

/// A named check and its outcome.
#[derive(Debug)]
pub struct Check {
    pub name: String,
    pub value: bool,
}

/// The outcome of the checks of a host.
#[derive(Debug)]
pub struct HostValididity {
    pub address: String,
    pub status: Vec<Check>,
    pub valid: bool,
}

/// The tunables of a filesystem.
#[derive(Debug)]
pub struct FilesystemConfParams {
    pub llite_max_cached_mb: Option<String>,
    pub llite_max_read_ahead_mb: Option<String>,
    pub llite_max_read_ahead_whole_mb: Option<String>,
    pub llite_statahead_max: Option<String>,
    pub sys_at_early_margin: Option<String>,
    pub sys_at_extra: Option<String>,
    pub sys_at_history: Option<String>,
    pub sys_at_max: Option<String>,
    pub sys_at_min: Option<String>,
    pub sys_ldlm_timeout: Option<String>,
    pub sys_timeout: Option<String>,
}

/// The tunables of an MDT.
#[derive(Debug, PartialEq)]
pub struct MdtConfParams {
    pub lov_qos_prio_free: Option<String>,
    pub lov_qos_threshold_rr: Option<String>,
    pub lov_stripecount: Option<String>,
    pub lov_stripesize: Option<String>,
    pub mdt_mds_mds_threads_max: Option<String>,
    pub mdt_mds_mds_threads_min: Option<String>,
    pub mdt_mds_mds_readpage_threads_max: Option<String>,
    pub mdt_mds_mds_readpage_threads_min: Option<String>,
    pub mdt_mds_mds_setattr_threads_max: Option<String>,
    pub mdt_mds_mds_setattr_threads_min: Option<String>,
    pub mdt_hsm_control: Option<String>,
}

/// The tunables of an OST.
#[derive(Debug, PartialEq)]
pub struct OstConfParams {
    pub osc_active: Option<String>,
    pub osc_max_dirty_mb: Option<String>,
    pub osc_max_pages_per_rpc: Option<String>,
    pub osc_max_rpcs_in_flight: Option<String>,
    pub ost_oss_ost_threads_max: Option<String>,
    pub ost_oss_ost_threads_min: Option<String>,
    pub ost_oss_ost_create_threads_max: Option<String>,
    pub ost_oss_ost_create_threads_min: Option<String>,
    pub ost_oss_ost_io_threads_max: Option<String>,
    pub ost_oss_ost_io_threads_min: Option<String>,
    pub ost_read_cache_enable: Option<String>,
    pub ost_readcache_max_filesize: Option<String>,
    pub ost_sync_journal: Option<String>,
    pub ost_sync_on_lock_cancel: Option<String>,
    pub ost_writethrough_cache_enable: Option<String>,
}

/// A Volume record from `/api/volume/`.
#[derive(Debug)]
pub struct Volume {
    pub filesystem_type: Option<String>,
    pub id: u32,
    pub kind: String,
    pub label: String,
    pub resource_uri: String,
    pub size: Option<i64>,
    pub status: Option<String>,
    pub storage_resource: Option<String>,
    pub usable_for_lustre: bool,
    pub volume_nodes: Vec<VolumeNode>,
}

impl FlatQuery for Volume {}

impl Label for Volume {
    fn label(&self) -> (r: &str)
        ensures
            r@ == self.label@,
    {
        self.label.as_str()
    }
}

impl crate::db::Id for Volume {
    fn id(&self) -> (r: u32)
        ensures
            r == self.id,
    {
        self.id
    }
}

impl EndpointName for Volume {
    fn endpoint_name() -> (r: &'static str)
        ensures
            r@ == "volume"@,
    {
        "volume"
    }
}

/// A VolumeNode record from `/api/volume_node/`.
#[derive(Debug)]
pub struct VolumeNode {
    pub host: String,
    pub host_id: u32,
    pub host_label: String,
    pub id: u32,
    pub path: String,
    pub primary: bool,
    pub resource_uri: String,
    pub _use: bool,
    pub volume_id: u32,
}

impl FlatQuery for VolumeNode {}

impl EndpointName for VolumeNode {
    fn endpoint_name() -> (r: &'static str)
        ensures
            r@ == "volume_node"@,
    {
        "volume_node"
    }
}

/// The tunables of a target.
#[derive(Debug)]
pub enum TargetConfParam {
    MdtConfParam(MdtConfParams),
    OstConfParam(OstConfParams),
}

/// A volume, or the uri it is served at.
#[derive(Debug)]
pub enum VolumeOrResourceUri {
    ResourceUri(String),
    Volume(Volume),
}

/// The kind of a target.
#[derive(Clone, Copy, Debug, Eq, PartialEq)]
pub enum TargetKind {
    Mgt,
    Mdt,
    Ost,
}

/// The short form of a filesystem.
#[derive(Debug)]
pub struct FilesystemShort {
    pub id: u32,
    pub name: String,
}

/// A Target record from `/api/target/`.
#[derive(Debug)]
pub struct Target<T> {
    pub active_host: Option<String>,
    pub active_host_name: String,
    pub conf_params: Option<T>,
    pub content_type_id: u32,
    pub failover_server_name: String,
    pub failover_servers: Vec<String>,
    pub filesystem: Option<String>,
    pub filesystem_id: Option<u32>,
    pub filesystem_name: Option<String>,
    pub filesystems: Option<Vec<FilesystemShort>>,
    pub ha_label: Option<String>,
    pub id: u32,
    pub immutable_state: bool,
    pub index: Option<u32>,
    pub inode_count: Option<u64>,
    pub inode_size: Option<u32>,
    pub kind: TargetKind,
    pub label: String,
    pub name: String,
    pub primary_server: String,
    pub primary_server_name: String,
    pub resource_uri: String,
    pub state: String,
    pub state_modified_at: String,
    pub uuid: Option<String>,
    pub volume: VolumeOrResourceUri,
    pub volume_name: String,
}

impl<T> FlatQuery for Target<T> {
    fn query() -> (r: Vec<(&'static str, &'static str)>)
        ensures
            r@.len() == 2,
            r@[0].0@ == "limit"@ && r@[0].1@ == "0"@,
            r@[1].0@ == "dehydrate__volume"@ && r@[1].1@ == "false"@,
    {
        vec![("limit", "0"), ("dehydrate__volume", "false")]
    }
}

impl<T> ToCompositeId for Target<T> {
    fn composite_id(&self) -> (r: CompositeId)
        ensures
            r == CompositeId(self.content_type_id, self.id),
    {
        CompositeId(self.content_type_id, self.id)
    }
}

impl<T> Label for Target<T> {
    fn label(&self) -> (r: &str)
        ensures
            r@ == self.label@,
    {
        self.label.as_str()
    }
}

impl<T> EndpointName for Target<T> {
    fn endpoint_name() -> (r: &'static str)
        ensures
            r@ == "target"@,
    {
        "target"
    }
}

/// The `hsm_control` parameter of an MDT.
#[derive(Debug, PartialEq)]
pub struct HsmControlParamMdt {
    pub id: String,
    pub kind: String,
    pub resource: String,
    pub conf_params: MdtConfParams,
}

/// An HSM control parameter, used for HSM actions.
#[derive(Debug, PartialEq)]
pub struct HsmControlParam {
    pub long_description: String,
    pub param_key: String,
    pub param_value: String,
    pub verb: String,
    pub mdt: HsmControlParamMdt,
}

/// The type of an alert.
#[derive(Clone, Copy, Debug, PartialEq, Eq)]
pub enum AlertType {
    AlertState,
    LearnEvent,
    AlertEvent,
    SyslogEvent,
    ClientConnectEvent,
    CommandRunningAlert,
    CommandSuccessfulAlert,
    CommandCancelledAlert,
    CommandErroredAlert,
    CorosyncUnknownPeersAlert,
    CorosyncToManyPeersAlert,
    CorosyncNoPeersAlert,
    CorosyncStoppedAlert,
    StonithNotEnabledAlert,
    PacemakerStoppedAlert,
    HostContactAlert,
    HostOfflineAlert,
    HostRebootEvent,
    UpdatesAvailableAlert,
    TargetOfflineAlert,
    TargetFailoverAlert,
    TargetRecoveryAlert,
    StorageResourceOffline,
    StorageResourceAlert,
    StorageResourceLearnEvent,
    PowerControlDeviceUnavailableAlert,
    IpmiBmcUnavailableAlert,
    LNetOfflineAlert,
    LNetNidsChangedAlert,
    StratagemUnconfiguredAlert,
    NtpOutOfSyncAlert,
}

/// The severity of an alert, from the least to the most severe.
#[derive(Copy, Clone, Debug, PartialOrd, Ord, PartialEq, Eq)]
pub enum AlertSeverity {
    DEBUG,
    INFO,
    WARNING,
    ERROR,
    CRITICAL,
}

/// An Alert record from `/api/alert/`.
#[derive(Debug)]
pub struct Alert {
    pub _message: Option<String>,
    pub active: Option<bool>,
    pub affected: Option<Vec<String>>,
    pub alert_item: String,
    pub alert_item_id: Option<i32>,
    pub alert_item_str: String,
    pub alert_type: String,
    pub begin: String,
    pub dismissed: bool,
    pub end: Option<String>,
    pub id: u32,
    pub lustre_pid: Option<i32>,
    pub message: String,
    pub record_type: AlertType,
    pub resource_uri: String,
    pub severity: AlertSeverity,
    pub variant: String,
}

impl FlatQuery for Alert {
    fn query() -> (r: Vec<(&'static str, &'static str)>)
        ensures
            r@.len() == 2,
            r@[0].0@ == "limit"@ && r@[0].1@ == "0"@,
            r@[1].0@ == "active"@ && r@[1].1@ == "true"@,
    {
        vec![("limit", "0"), ("active", "true")]
    }
}

impl EndpointName for Alert {
    fn endpoint_name() -> (r: &'static str)
        ensures
            r@ == "alert"@,
    {
        "alert"
    }
}

/// A `StratagemConfiguration` record from `/api/stratagem_configuration/`.
#[derive(Debug)]
pub struct StratagemConfiguration {
    pub content_type_id: u32,
    pub filesystem: String,
    pub id: u32,
    pub immutable_state: bool,
    pub interval: u64,
    pub label: String,
    pub not_deleted: Option<bool>,
    pub purge_duration: Option<u64>,
    pub report_duration: Option<u64>,
    pub resource_uri: String,
    pub state: String,
    pub state_modified_at: String,
}

impl EndpointName for StratagemConfiguration {
    fn endpoint_name() -> (r: &'static str)
        ensures
            r@ == "stratagem_configuration"@,
    {
        "stratagem_configuration"
    }
}

#[verifier::external_type_specification]
#[verifier::external_body]
pub struct ExJsonValue(serde_json::Value);

/// The payload from the agent; one or many can be packed into an `Envelope`.
#[derive(Debug)]
pub enum Message {
    Data {
        fqdn: Fqdn,
        plugin: PluginName,
        session_id: Id,
        session_seq: SessionSeq,
        body: serde_json::Value,
    },
    SessionCreateRequest {
        fqdn: Fqdn,
        plugin: PluginName,
    },
}

/// `Envelope` of `Message`s sent to the manager.
#[derive(Debug)]
pub struct Envelope {
    pub messages: Vec<Message>,
    pub server_boot_time: String,
    pub client_start_time: String,
}

impl Envelope {
    /// An envelope of messages, with the start time of the client and the boot time of
    /// the server.
    pub fn new(messages: Vec<Message>, client_start_time: String, server_boot_time: String) -> (r: Envelope)
        ensures
            r.messages == messages,
            r.server_boot_time == server_boot_time,
            r.client_start_time == client_start_time,
    {
        Envelope { messages, server_boot_time, client_start_time }
    }
}

/// A message from the manager to an agent.
#[derive(Debug)]
pub enum ManagerMessage {
    SessionCreateResponse {
        fqdn: Fqdn,
        plugin: PluginName,
        session_id: Id,
    },
    Data {
        fqdn: Fqdn,
        plugin: PluginName,
        session_id: Id,
        body: serde_json::Value,
    },
    SessionTerminate {
        fqdn: Fqdn,
        plugin: PluginName,
        session_id: Id,
    },
    SessionTerminateAll {
        fqdn: Fqdn,
    },
}

/// The messages from the manager to an agent.
#[derive(Debug)]
pub struct ManagerMessages {
    pub messages: Vec<ManagerMessage>,
}

/// A message to a service plugin of the manager.
#[derive(Debug)]
pub enum PluginMessage {
    SessionTerminate {
        fqdn: Fqdn,
        plugin: PluginName,
        session_id: Id,
    },
    SessionCreate {
        fqdn: Fqdn,
        plugin: PluginName,
        session_id: Id,
    },
    Data {
        fqdn: Fqdn,
        plugin: PluginName,
        session_id: Id,
        session_seq: SessionSeq,
        body: serde_json::Value,
    },
}

/// Things we can do with actions.
#[derive(Debug)]
pub enum Action {
    ActionStart {
        action: ActionName,
        args: serde_json::Value,
        id: ActionId,
    },
    ActionCancel {
        id: ActionId,
    },
}

/// The id of an action, whichever it is.
pub open spec fn action_id(a: Action) -> ActionId {
    match a {
        Action::ActionStart { id, .. } => id,
        Action::ActionCancel { id } => id,
    }
}

impl Action {
    /// The id of the action.
    pub fn get_id(&self) -> (r: &ActionId)
        ensures
            *r == action_id(*self),
    {
        match self {
            Action::ActionStart { id, .. } => id,
            Action::ActionCancel { id } => id,
        }
    }
}

/// The result of running the action on an agent.
#[derive(Debug)]
pub struct ActionResult {
    pub id: ActionId,
    pub result: Result<serde_json::Value, String>,
}

/// The result of an agent action.
pub type AgentResult = Result<serde_json::Value, String>;

/// The profiles of a host, as `/api/host_profile/` answers.
#[derive(Debug)]
pub struct HostProfileWrapper {
    pub host_profiles: Option<HostProfile>,
    pub error: Option<String>,
    pub traceback: Option<String>,
}

/// The profiles of a host and the tests of each.
#[derive(Debug)]
pub struct HostProfile {
    pub address: String,
    pub host: u32,
    pub profiles: std::collections::HashMap<String, Vec<ProfileTest>>,
    pub profiles_valid: bool,
    pub resource_uri: String,
}

impl EndpointName for HostProfile {
    fn endpoint_name() -> (r: &'static str)
        ensures
            r@ == "host_profile"@,
    {
        "host_profile"
    }
}

/// A Job record from `/api/job/`.
#[derive(Debug)]
pub struct Job<T> {
    pub available_transitions: Vec<AvailableTransition>,
    pub cancelled: bool,
    pub class_name: String,
    pub commands: Vec<String>,
    pub created_at: String,
    pub description: String,
    pub errored: bool,
    pub id: u32,
    pub modified_at: String,
    pub read_locks: Vec<JobLock>,
    pub resource_uri: String,
    pub state: String,
    pub step_results: std::collections::HashMap<String, T>,
    pub steps: Vec<String>,
    pub wait_for: Vec<String>,
    pub write_locks: Vec<JobLock>,
}

/// The job that tests a host.
pub type TestHostJob = Job<HostValididity>;

impl<T> EndpointName for Job<T> {
    fn endpoint_name() -> (r: &'static str)
        ensures
            r@ == "job"@,
    {
        "job"
    }
}

/// A metadata target.
pub type Mdt = Target<MdtConfParams>;

/// A management target.
pub type Mgt = Target<Option<TargetConfParam>>;

/// An object storage target.
pub type Ost = Target<OstConfParams>;

} // verus!
