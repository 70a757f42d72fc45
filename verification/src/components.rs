//! States of the services and components that the agent manages.

use crate::text::{concat, decimal_string, join_strings, str_lt};
use core::cmp::Ordering;
use vstd::prelude::*;

verus! {

/// An element of a component, for component checks.
#[derive(Debug, PartialEq)]
pub struct ElementState {
    pub name: String,
    pub configurable: bool,
}

impl Default for ElementState {
    fn default() -> (r: ElementState)
        ensures
            r.name@ == Seq::<char>::empty(),
            !r.configurable,
    {
        ElementState { name: String::new(), configurable: false }
    }
}

/// Whether a unit file is enabled.
#[derive(Clone, Copy, Debug, Eq, PartialEq)]
pub enum UnitFileState {
    Disabled,
    Enabled,
}

/// Whether a unit is active.
#[derive(Clone, Copy, Debug, Eq, PartialEq)]
pub enum ActiveState {
    Inactive,
    Active,
}

/// The run state of a service.
#[derive(Clone, Copy, Debug, Eq, PartialEq)]
pub enum RunState {
    Stopped,
    Enabled,
    Started,
    /// Enabled and started.
    Setup,
}

impl Default for RunState {
    fn default() -> (r: RunState)
        ensures
            r == RunState::Stopped,
    {
        RunState::Stopped
    }
}

/// The name of a run state, as `Debug` writes it.
pub open spec fn run_state_name(r: RunState) -> Seq<char> {
    match r {
        RunState::Stopped => "Stopped"@,
        RunState::Enabled => "Enabled"@,
        RunState::Started => "Started"@,
        RunState::Setup => "Setup"@,
    }
}

fn run_state_str(r: RunState) -> (s: &'static str)
    ensures
        s@ == run_state_name(r),
{
    match r {
        RunState::Stopped => "Stopped",
        RunState::Enabled => "Enabled",
        RunState::Started => "Started",
        RunState::Setup => "Setup",
    }
}

/// Whether a service is configured, and how it runs when it is.
#[derive(Clone, Copy, Debug, Eq, PartialEq)]
pub enum ServiceState {
    Unconfigured,
    Configured(RunState),
}

impl Default for ServiceState {
    fn default() -> (r: ServiceState)
        ensures
            r == ServiceState::Unconfigured,
    {
        ServiceState::Unconfigured
    }
}

/// The text of a service state, as `Display` writes it.
pub open spec fn service_state_text(s: ServiceState) -> Seq<char> {
    match s {
        ServiceState::Unconfigured => "Unconfigured"@,
        ServiceState::Configured(r) => run_state_name(r),
    }
}

impl ServiceState {
    /// The state as `Display` writes it.
    pub fn to_string(&self) -> (r: String)
        ensures
            r@ == service_state_text(*self),
    {
        match self {
            ServiceState::Unconfigured => String::from_str("Unconfigured"),
            ServiceState::Configured(r) => String::from_str(run_state_str(*r)),
        }
    }
}

/// A pacemaker resource agent type: standard:provider:ocftype
/// (e.g. ocf:heartbeat:ZFS, or stonith:fence_ipmilan).
#[derive(Debug, PartialEq)]
pub struct ResourceAgentType {
    /// e.g. ocf, lsb, stonith
    pub standard: String,
    /// e.g. heartbeat, lustre, chroma
    pub provider: Option<String>,
    /// e.g. Lustre, ZFS
    pub ocftype: String,
}

/// The text of an optional string, empty when there is none.
pub open spec fn text_or_empty(x: Option<&str>) -> Seq<char> {
    match x {
        Some(s) => s@,
        None => Seq::empty(),
    }
}

/// The text of a resource agent type, as `Display` writes it.
pub open spec fn agent_type_text(t: ResourceAgentType) -> Seq<char> {
    match t.provider {
        Some(p) => t.standard@ + seq![':'] + p@ + seq![':'] + t.ocftype@,
        None => t.standard@ + seq![':'] + t.ocftype@,
    }
}

impl ResourceAgentType {
    /// A resource agent type; a missing standard or ocftype is left empty.
    pub fn new(standard: Option<&str>, provider: Option<&str>, ocftype: Option<&str>) -> (r: ResourceAgentType)
        ensures
            r.standard@ == text_or_empty(standard),
            crate::db::opt_string_view(r.provider) == (match provider {
                Some(p) => Some(p@),
                None => None,
            }),
            r.ocftype@ == text_or_empty(ocftype),
    {
        let standard = match standard {
            Some(s) => String::from_str(s),
            None => String::new(),
        };
        let provider = match provider {
            Some(p) => Some(String::from_str(p)),
            None => None,
        };
        let ocftype = match ocftype {
            Some(s) => String::from_str(s),
            None => String::new(),
        };
        ResourceAgentType { standard, provider, ocftype }
    }

    /// The type as `Display` writes it.
    pub fn to_string(&self) -> (r: String)
        ensures
            r@ == agent_type_text(*self),
    {
        proof {
            reveal_strlit(":");
        }
        let mut s = concat(self.standard.as_str(), ":");
        match &self.provider {
            Some(p) => {
                s.append(p.as_str());
                s.append(":");
            },
            None => {},
        }
        s.append(self.ocftype.as_str());
        s
    }

    /// Whether the type is written as `other`.
    pub fn eq_str(&self, other: &str) -> (r: bool)
        ensures
            r == (agent_type_text(*self) == other@),
    {
        let s = self.to_string();
        crate::text::str_eq(s.as_str(), other)
    }
}

/// Information about a pacemaker resource agent.
#[derive(Debug)]
pub struct ResourceAgentInfo {
    pub agent: ResourceAgentType,
    pub group: Option<String>,
    pub id: String,
    pub args: std::collections::HashMap<String, String>,
}

/// How a component is configured.
#[derive(Clone, Copy, Debug, Eq, PartialEq)]
pub enum ConfigState {
    Unknown,
    /// The component is in its default configuration.
    Default,
    /// The configuration matches what IML would do.
    IML,
    Other,
}

impl Default for ConfigState {
    fn default() -> (r: ConfigState)
        ensures
            r == ConfigState::Unknown,
    {
        ConfigState::Unknown
    }
}

/// The text of a configuration state, as `Display` writes it.
pub open spec fn config_state_text(c: ConfigState) -> Seq<char> {
    match c {
        ConfigState::Unknown => "Unknown"@,
        ConfigState::Default => "Default"@,
        ConfigState::IML => "IML"@,
        ConfigState::Other => "Other"@,
    }
}

impl ConfigState {
    /// The state as `Display` writes it.
    pub fn to_string(&self) -> (r: String)
        ensures
            r@ == config_state_text(*self),
    {
        let s = match self {
            ConfigState::Unknown => "Unknown",
            ConfigState::Default => "Default",
            ConfigState::IML => "IML",
            ConfigState::Other => "Other",
        };
        String::from_str(s)
    }
}

/// The state of a component: its service, its configuration and its elements.
#[derive(Debug, PartialEq)]
pub struct ComponentState<T> {
    pub service: ServiceState,
    pub config: ConfigState,
    pub elements: Vec<ElementState>,
    pub info: String,
    pub state: T,
}

/// An OST pool: a named set of OSTs of a filesystem.
#[derive(Debug, Eq)]
pub struct OstPool {
    pub name: String,
    pub filesystem: String,
    pub osts: Vec<String>,
}

impl Default for OstPool {
    fn default() -> (r: OstPool)
        ensures
            r.name@ == Seq::<char>::empty(),
            r.filesystem@ == Seq::<char>::empty(),
            r.osts@ == Seq::<String>::empty(),
    {
        OstPool { name: String::new(), filesystem: String::new(), osts: Vec::new() }
    }
}

/// The text of an OST pool, as `Display` writes it: `filesystem.name [ost, ost]`.
pub open spec fn ost_pool_text(p: OstPool) -> Seq<char> {
    p.filesystem@ + seq!['.'] + p.name@ + seq![' ', '['] + crate::text::join(crate::text::strings_view(p.osts@), seq![',', ' ']) + seq![']']
}

impl OstPool {
    /// The pool as `Display` writes it.
    pub fn to_string(&self) -> (r: String)
        ensures
            r@ == ost_pool_text(*self),
    {
        proof {
            reveal_strlit(".");
            reveal_strlit(" [");
            reveal_strlit(", ");
            reveal_strlit("]");
            assert(", "@ =~= seq![',', ' ']);
            assert(" ["@ =~= seq![' ', '[']);
            assert("."@ =~= seq!['.']);
            assert("]"@ =~= seq![']']);
        }
        let mut s = concat(self.filesystem.as_str(), ".");
        s.append(self.name.as_str());
        s.append(" [");
        let osts = join_strings(&self.osts, ", ");
        s.append(osts.as_str());
        s.append("]");
        assert(s@ =~= ost_pool_text(*self));
        s
    }
}

impl PartialEq for OstPool {
    fn eq(&self, other: &OstPool) -> (r: bool) {
        self.filesystem == other.filesystem && self.name == other.name
    }
}

impl vstd::std_specs::cmp::PartialEqSpecImpl for OstPool {
    open spec fn obeys_eq_spec() -> bool {
        true
    }

    open spec fn eq_spec(&self, other: &OstPool) -> bool {
        self.filesystem@ == other.filesystem@ && self.name@ == other.name@
    }
}

/// An OST pool record from `/api/ostpool/`.
#[derive(Debug, PartialEq)]
pub struct OstPoolApi {
    pub id: u32,
    pub resource_uri: String,
    pub ost: OstPool,
}

impl Default for OstPoolApi {
    fn default() -> (r: OstPoolApi)
        ensures
            r.id == 0,
            r.resource_uri@ == Seq::<char>::empty(),
            r.ost.name@ == Seq::<char>::empty(),
            r.ost.filesystem@ == Seq::<char>::empty(),
            r.ost.osts@ == Seq::<String>::empty(),
    {
        OstPoolApi { id: 0, resource_uri: String::new(), ost: OstPool::default() }
    }
}

impl crate::wire::EndpointName for OstPoolApi {
    fn endpoint_name() -> (r: &'static str)
        ensures
            r@ == "ostpool"@,
    {
        "ostpool"
    }
}

impl crate::wire::FlatQuery for OstPoolApi {}

impl OstPoolApi {
    /// The pool as `Display` writes it: `[#id] filesystem.name [ost, ost]`.
    pub fn to_string(&self) -> (r: String)
        ensures
            r@ == seq!['[', '#'] + crate::text::decimal(self.id as nat) + seq![']', ' ']
                + ost_pool_text(self.ost),
    {
        proof {
            reveal_strlit("[#");
            reveal_strlit("] ");
        }
        let mut s = String::from_str("[#");
        let id = decimal_string(self.id as u64);
        s.append(id.as_str());
        s.append("] ");
        let pool = self.ost.to_string();
        s.append(pool.as_str());
        s
    }
}

/// The order of OST pools: by filesystem, then by name, each compared character by character.
pub open spec fn pool_order(a: OstPool, b: OstPool) -> Ordering {
    if crate::text::text_lt(a.filesystem@, b.filesystem@) {
        Ordering::Less
    } else if crate::text::text_lt(b.filesystem@, a.filesystem@) {
        Ordering::Greater
    } else if crate::text::text_lt(a.name@, b.name@) {
        Ordering::Less
    } else if crate::text::text_lt(b.name@, a.name@) {
        Ordering::Greater
    } else {
        Ordering::Equal
    }
}

impl OstPool {
    /// Orders pools by filesystem, then by name, as `Ord` does.
    pub fn compare(&self, other: &OstPool) -> (r: Ordering)
        ensures
            r == pool_order(*self, *other),
    {
        if str_lt(self.filesystem.as_str(), other.filesystem.as_str()) {
            Ordering::Less
        } else if str_lt(other.filesystem.as_str(), self.filesystem.as_str()) {
            Ordering::Greater
        } else if str_lt(self.name.as_str(), other.name.as_str()) {
            Ordering::Less
        } else if str_lt(other.name.as_str(), self.name.as_str()) {
            Ordering::Greater
        } else {
            Ordering::Equal
        }
    }
}

impl PartialOrd for OstPool {
    fn partial_cmp(&self, other: &OstPool) -> (r: Option<Ordering>) {
        Some(self.compare(other))
    }
}

impl vstd::std_specs::cmp::PartialOrdSpecImpl for OstPool {
    open spec fn obeys_partial_cmp_spec() -> bool {
        true
    }

    open spec fn partial_cmp_spec(&self, other: &OstPool) -> Option<Ordering> {
        Some(pool_order(*self, *other))
    }
}

/// Two pools are ordered `Equal` exactly when they are equal: same filesystem and same name.
pub proof fn lemma_pool_order_agrees_with_eq(a: OstPool, b: OstPool)
    ensures
        (pool_order(a, b) == Ordering::Equal) == (a.filesystem@ == b.filesystem@ && a.name@ == b.name@),
{
    crate::text::lemma_text_trichotomy(a.filesystem@, b.filesystem@);
    crate::text::lemma_text_trichotomy(a.name@, b.name@);
}

} // verus!
