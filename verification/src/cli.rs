//! The manager's command line: its errors, its filesystem commands, and the
//! choice of hosts on which to detect filesystems.

use crate::wire::{Command, Host};
use vstd::prelude::*;

verus! {

/// Why a duration could not be read.
#[derive(Clone, Copy, Debug, PartialEq, Eq)]
pub enum DurationParseError {
    NoUnit,
    InvalidUnit,
    InvalidValue,
}

/// The message of a duration error, as `Display` writes it.
pub open spec fn duration_error_text(e: DurationParseError) -> Seq<char> {
    match e {
        DurationParseError::NoUnit => "No unit specified."@,
        DurationParseError::InvalidUnit => "Invalid unit. Valid units include 'h' and 'd'."@,
        DurationParseError::InvalidValue => "Invalid value specified. Must be a valid integer."@,
    }
}

impl DurationParseError {
    /// The message of the error, as `Display` writes it.
    pub fn to_string(&self) -> (r: String)
        ensures
            r@ == duration_error_text(*self),
    {
        let s = match self {
            DurationParseError::NoUnit => "No unit specified.",
            DurationParseError::InvalidUnit => "Invalid unit. Valid units include 'h' and 'd'.",
            DurationParseError::InvalidValue => "Invalid value specified. Must be a valid integer.",
        };
        String::from_str(s)
    }
}

/// The outcome codes of a request to run stratagem.
#[derive(Clone, Copy, Debug, PartialEq, Eq)]
pub enum RunStratagemCommandResult {
    DurationOrderError,
    FilesystemRequired,
    FilesystemDoesNotExist,
    FilesystemUnavailable,
    InvalidArgument,
    PurgeDurationTooBig,
    ReportDurationTooBig,
    PurgeDurationTooSmall,
    ReportDurationTooSmall,
    Mdt0NotFound,
    Mdt0NotMounted,
    StratagemServerProfileNotInstalled,
    StratagemClientProfileNotInstalled,
    RequiredFieldsMissing,
    ServerError,
    UnknownError,
}

/// A request to run stratagem that the manager refused.
#[derive(Debug)]
pub struct RunStratagemValidationError {
    pub code: RunStratagemCommandResult,
    pub message: String,
}

impl RunStratagemValidationError {
    /// The message of the error, as `Display` writes it.
    pub fn to_string(&self) -> (r: String)
        ensures
            r@ == self.message@,
    {
        self.message.clone()
    }
}

/// The filesystem commands; `P` is the type of the OST pool subcommands.
#[derive(Debug)]
pub enum FilesystemCommand<P> {
    /// List all configured filesystems.
    List,
    /// Show a filesystem.
    Show { fsname: String },
    /// OST pools.
    Pool { command: P },
    /// Detect existing filesystems.
    Detect { hosts: Option<String> },
}

/// The host names of the host list expression `input`, or the message of the error that
/// stops its parsing, as `hostlist_parser::parse` gives them.
pub uninterp spec fn hostlist_expansion(input: Seq<char>) -> Result<Seq<Seq<char>>, Seq<char>>;

/// Expands a host list expression with `hostlist_parser::parse`; its error is turned into
/// its `Display` text. The contract claims only that the outcome depends on the input
/// alone, named `hostlist_expansion`.
#[verifier::external_body]
fn expand_hostlist(input: &str) -> (r: Result<Vec<String>, String>)
    ensures
        match r {
            Ok(v) => hostlist_expansion(input@) == Ok::<Seq<Seq<char>>, Seq<char>>(crate::text::strings_view(v@)),
            Err(e) => hostlist_expansion(input@) == Err::<Seq<Seq<char>>, Seq<char>>(e@),
        },
{
    hostlist_parser::parse(input).map_err(|e| format!("{}", e))
}

/// Expands a host list expression such as `oss[1-2].local` into host names.
pub fn parse_hostlist(input: &str) -> (r: Result<Vec<String>, String>)
    ensures
        match r {
            Ok(v) => hostlist_expansion(input@) == Ok::<Seq<Seq<char>>, Seq<char>>(crate::text::strings_view(v@)),
            Err(e) => hostlist_expansion(input@) == Err::<Seq<Seq<char>>, Seq<char>>(e@),
        },
{
    expand_hostlist(input)
}

/// The resource uri of the last of `hosts` whose node name or fqdn is `name`.
pub open spec fn uri_of_host_named(hosts: Seq<Host>, name: Seq<char>) -> Option<Seq<char>>
    decreases hosts.len(),
{
    if hosts.len() == 0 {
        None
    } else if hosts.last().nodename@ == name || hosts.last().fqdn@ == name {
        Some(hosts.last().resource_uri@)
    } else {
        uri_of_host_named(hosts.drop_last(), name)
    }
}

/// The resource uris of the named hosts, in the order of `names`, leaving out the names
/// that no host has.
pub open spec fn uris_of_hosts_named(names: Seq<Seq<char>>, hosts: Seq<Host>) -> Seq<Seq<char>>
    decreases names.len(),
{
    if names.len() == 0 {
        Seq::empty()
    } else {
        let rest = uris_of_hosts_named(names.drop_last(), hosts);
        match uri_of_host_named(hosts, names.last()) {
            Some(u) => rest.push(u),
            None => rest,
        }
    }
}

fn uri_of_host(hosts: &Vec<Host>, name: &str) -> (r: Option<String>)
    ensures
        crate::db::opt_string_view(r) == uri_of_host_named(hosts@, name@),
{
    let mut i: usize = hosts.len();
    assert(hosts@.take(i as int) =~= hosts@);
    while i > 0
        invariant
            i <= hosts@.len(),
            uri_of_host_named(hosts@, name@) == uri_of_host_named(hosts@.take(i as int), name@),
        decreases i,
    {
        let h = &hosts[i - 1];
        proof {
            assert(hosts@.take(i as int).last() == hosts@[i - 1]);
            assert(hosts@.take(i as int).drop_last() =~= hosts@.take(i - 1));
        }
        if crate::text::str_eq(h.nodename.as_str(), name) || crate::text::str_eq(h.fqdn.as_str(), name) {
            return Some(h.resource_uri.clone());
        }
        i = i - 1;
    }
    None
}

/// The resource uris of the hosts named in `names`: each name is looked up among the
/// node names and fqdns of `hosts`, the last host that has it winning.
pub fn host_resource_uris(names: &Vec<String>, hosts: &Vec<Host>) -> (r: Vec<String>)
    ensures
        crate::text::strings_view(r@) == uris_of_hosts_named(crate::text::strings_view(names@), hosts@),
{
    let ghost nv = crate::text::strings_view(names@);
    let mut r: Vec<String> = Vec::new();
    let mut i: usize = 0;
    while i < names.len()
        invariant
            nv == crate::text::strings_view(names@),
            i <= names@.len(),
            crate::text::strings_view(r@) == uris_of_hosts_named(nv.take(i as int), hosts@),
        decreases names@.len() - i,
    {
        proof {
            assert(nv.take(i + 1).drop_last() =~= nv.take(i as int));
            assert(nv.take(i + 1).last() == names@[i as int]@);
        }
        match uri_of_host(hosts, names[i].as_str()) {
            Some(u) => {
                let ghost before = r@;
                r.push(u);
                proof {
                    assert(crate::text::strings_view(r@) =~= crate::text::strings_view(before).push(r@.last()@));
                }
            },
            None => {},
        }
        i = i + 1;
    }
    proof {
        assert(nv.take(names@.len() as int) =~= nv);
    }
    r
}

/// The arguments of the job that detects filesystems: the uris of the hosts to look on,
/// or none to look on every host.
pub fn detect_targets_args(uris: Vec<String>) -> (r: Vec<(String, Vec<String>)>)
    ensures
        uris@.len() == 0 ==> r@.len() == 0,
        uris@.len() != 0 ==> r@.len() == 1 && r@[0].0@ == "hosts"@ && r@[0].1 == uris,
{
    if uris.len() == 0 {
        Vec::new()
    } else {
        vec![(String::from_str("hosts"), uris)]
    }
}

/// A job sent to the manager: its class and its arguments.
#[derive(Debug, PartialEq)]
pub struct SendJob {
    pub class_name: String,
    pub args: Vec<(String, Vec<String>)>,
}

/// A command sent to the manager: its message and its jobs.
#[derive(Debug, PartialEq)]
pub struct SendCmd {
    pub message: String,
    pub jobs: Vec<SendJob>,
}

/// The hosts on which to detect filesystems: none when no host list is given (every host
/// is then looked on), else the uris of the listed hosts that are known, in the order of the
/// list; the error of the host list when it does not parse.
pub open spec fn detect_hosts(hosts: Option<Seq<char>>, all_hosts: Seq<Host>) -> Result<Seq<Seq<char>>, Seq<char>> {
    match hosts {
        None => Ok(Seq::empty()),
        Some(hl) => match hostlist_expansion(hl) {
            Ok(names) => Ok(uris_of_hosts_named(names, all_hosts)),
            Err(e) => Err(e),
        },
    }
}

/// The command that detects existing filesystems on the hosts of the host list `hosts`
/// (on every host when there is none), given the hosts known to the manager: one job of
/// class `DetectTargetsJob`, whose `hosts` argument holds the uris of the listed hosts and
/// is left out when there are none. Fails with the message of the host list's error when
/// it does not parse.
pub fn detect_filesystem_command(hosts: Option<String>, all_hosts: &Vec<Host>) -> (r: Result<SendCmd, String>)
    ensures
        match r {
            Ok(c) => {
                &&& detect_hosts(crate::db::opt_string_view(hosts), all_hosts@) matches Ok(uris)
                &&& c.message@ == "Detecting filesystems"@
                &&& c.jobs@.len() == 1
                &&& c.jobs@[0].class_name@ == "DetectTargetsJob"@
                &&& uris.len() == 0 ==> c.jobs@[0].args@.len() == 0
                &&& uris.len() != 0 ==> c.jobs@[0].args@.len() == 1 && c.jobs@[0].args@[0].0@ == "hosts"@
                    && crate::text::strings_view(c.jobs@[0].args@[0].1@) == uris
            },
            Err(e) => detect_hosts(crate::db::opt_string_view(hosts), all_hosts@) == Err::<Seq<Seq<char>>, Seq<char>>(e@),
        },
{
    let uris = match hosts {
        Some(hl) => match parse_hostlist(hl.as_str()) {
            Ok(names) => host_resource_uris(&names, all_hosts),
            Err(e) => {
                return Err(e);
            },
        },
        None => Vec::new(),
    };
    proof {
        assert(uris@.len() == 0 ==> crate::text::strings_view(uris@) =~= Seq::<Seq<char>>::empty());
    }
    let args = detect_targets_args(uris);
    let job = SendJob { class_name: String::from_str("DetectTargetsJob"), args };
    let mut jobs: Vec<SendJob> = Vec::new();
    jobs.push(job);
    Ok(SendCmd { message: String::from_str("Detecting filesystems"), jobs })
}

/// The errors of the command line. An error raised by the system or by another library is
/// held by its message, as its `Display` writes it.
#[derive(Debug)]
pub enum ImlManagerCliError {
    ApiError(String),
    ClientRequestError(String),
    CombineEasyError(String),
    /// The kind of object that was asked for and does not exist.
    DoesNotExist(String),
    /// The commands that failed.
    FailedCommandError(Vec<Command>),
    IntParseError(String),
    IoError(String),
    ParseDurationError(DurationParseError),
    ReqwestError(String),
    RunStratagemValidationError(RunStratagemValidationError),
    SerdeJsonError(String),
    TokioJoinError(String),
    TokioTimerError(String),
}

/// The message listing failed commands: a heading line, then the message of each command
/// on a line of its own.
pub open spec fn failed_commands_text(cmds: Seq<Command>) -> Seq<char>
    decreases cmds.len(),
{
    if cmds.len() == 0 {
        "The following commands have failed:\n"@
    } else {
        failed_commands_text(cmds.drop_last()) + cmds.last().message@ + "\n"@
    }
}

/// The message of a command line error, as `Display` writes it.
pub open spec fn cli_error_text(e: ImlManagerCliError) -> Seq<char> {
    match e {
        ImlManagerCliError::ApiError(m) => m@,
        ImlManagerCliError::ClientRequestError(m) => m@,
        ImlManagerCliError::CombineEasyError(m) => m@,
        ImlManagerCliError::DoesNotExist(what) => what@ + " does not exist"@,
        ImlManagerCliError::FailedCommandError(xs) => failed_commands_text(xs@),
        ImlManagerCliError::IntParseError(m) => m@,
        ImlManagerCliError::IoError(m) => m@,
        ImlManagerCliError::ParseDurationError(d) => duration_error_text(d),
        ImlManagerCliError::ReqwestError(m) => m@,
        ImlManagerCliError::RunStratagemValidationError(v) => v.message@,
        ImlManagerCliError::SerdeJsonError(m) => m@,
        ImlManagerCliError::TokioJoinError(m) => m@,
        ImlManagerCliError::TokioTimerError(m) => m@,
    }
}

fn failed_commands_message(xs: &Vec<Command>) -> (r: String)
    ensures
        r@ == failed_commands_text(xs@),
{
    let mut s = String::from_str("The following commands have failed:\n");
    let mut i: usize = 0;
    while i < xs.len()
        invariant
            i <= xs@.len(),
            s@ == failed_commands_text(xs@.take(i as int)),
        decreases xs@.len() - i,
    {
        proof {
            assert(xs@.take(i + 1).drop_last() =~= xs@.take(i as int));
        }
        s.append(xs[i].message.as_str());
        s.append("\n");
        i = i + 1;
    }
    proof {
        assert(xs@.take(xs@.len() as int) =~= xs@);
    }
    s
}

impl ImlManagerCliError {
    /// The message of the error, as `Display` writes it.
    pub fn to_string(&self) -> (r: String)
        ensures
            r@ == cli_error_text(*self),
    {
        match self {
            ImlManagerCliError::ApiError(m) => m.clone(),
            ImlManagerCliError::ClientRequestError(m) => m.clone(),
            ImlManagerCliError::CombineEasyError(m) => m.clone(),
            ImlManagerCliError::DoesNotExist(what) => crate::text::concat(what.as_str(), " does not exist"),
            ImlManagerCliError::FailedCommandError(xs) => failed_commands_message(xs),
            ImlManagerCliError::IntParseError(m) => m.clone(),
            ImlManagerCliError::IoError(m) => m.clone(),
            ImlManagerCliError::ParseDurationError(d) => d.to_string(),
            ImlManagerCliError::ReqwestError(m) => m.clone(),
            ImlManagerCliError::RunStratagemValidationError(v) => v.to_string(),
            ImlManagerCliError::SerdeJsonError(m) => m.clone(),
            ImlManagerCliError::TokioJoinError(m) => m.clone(),
            ImlManagerCliError::TokioTimerError(m) => m.clone(),
        }
    }
}

} // verus!
