//! The errors of the agent and their messages.

use crate::wire::PluginName;
use vstd::prelude::*;

verus! {

/// The text that `Debug` writes for a string: the string quoted, with its special
/// characters escaped.
pub uninterp spec fn string_debug(s: Seq<char>) -> Seq<char>;

/// Formats `s` with `format!("{:?}", ..)`. The contract claims only that the text depends
/// on the string alone, named `string_debug`.
#[verifier::external_body]
fn debug_string(s: &str) -> (r: String)
    ensures
        r@ == string_debug(s@),
{
    format!("{:?}", s)
}

/// The text that `Debug` writes for a plugin name: the name of the type around the
/// quoted name.
pub open spec fn plugin_name_debug(name: Seq<char>) -> Seq<char> {
    "PluginName("@ + string_debug(name) + ")"@
}

/// The plugin name as `Debug` writes it.
fn debug_plugin_name(name: &PluginName) -> (r: String)
    ensures
        r@ == plugin_name_debug(name@),
{
    let mut s = crate::text::concat("PluginName(", debug_string(name.0.as_str()).as_str());
    s.append(")");
    s
}

/// No session is open for a plugin.
#[derive(Debug)]
pub struct NoSessionError(pub PluginName);

impl NoSessionError {
    /// The message of the error, as `Display` writes it.
    pub fn to_string(&self) -> (r: String)
        ensures
            r@ == "No session found for "@ + plugin_name_debug(self.0@),
    {
        let d = debug_plugin_name(&self.0);
        crate::text::concat("No session found for ", d.as_str())
    }
}

/// No plugin of a name is registered.
#[derive(Debug)]
pub struct NoPluginError(pub PluginName);

impl NoPluginError {
    /// The message of the error, as `Display` writes it.
    pub fn to_string(&self) -> (r: String)
        ensures
            r@ == "Plugin in registry not found for "@ + plugin_name_debug(self.0@),
    {
        let d = debug_plugin_name(&self.0);
        crate::text::concat("Plugin in registry not found for ", d.as_str())
    }
}

/// A required value is missing.
#[derive(Debug)]
pub struct RequiredError(pub String);

impl RequiredError {
    /// The message of the error, as `Display` writes it: the quoted value.
    pub fn to_string(&self) -> (r: String)
        ensures
            r@ == string_debug(self.0@),
    {
        debug_string(self.0.as_str())
    }
}

/// An error reported by the cluster information base.
#[derive(Debug)]
pub struct CibError(pub String);

impl CibError {
    /// The message of the error, as `Display` writes it.
    pub fn to_string(&self) -> (r: String)
        ensures
            r@ == self.0@,
    {
        self.0.clone()
    }
}

/// The errors of the agent. An error raised by the system or by another library is held by
/// its message, as its `Display` writes it.
#[derive(Debug)]
pub enum ImlAgentError {
    ImlFsError(String),
    Io(String),
    Serde(String),
    Reqwest(String),
    UrlParseError(String),
    Utf8Error(String),
    FromUtf8Error(String),
    TokioTimerError(String),
    TokioJoinError(String),
    AddrParseError(String),
    ParseIntError(String),
    NoSessionError(NoSessionError),
    NoPluginError(NoPluginError),
    RequiredError(RequiredError),
    OneshotCanceled(String),
    LiblustreError(String),
    LustreCollectorError(String),
    CmdError(String),
    SendError,
    InvalidUriParts(String),
    InvalidUri(String),
    InvalidHeaderValue(String),
    NativeTls(String),
    XmlError(String),
    FmtError(String),
    CibError(CibError),
    UnexpectedStatusError,
    MarkerNotFound,
}

/// The message of an agent error, as `Display` writes it: the message of the error it
/// holds, or a fixed text for the errors that hold none.
pub open spec fn agent_error_text(e: ImlAgentError) -> Seq<char> {
    match e {
        ImlAgentError::ImlFsError(m) => m@,
        ImlAgentError::Io(m) => m@,
        ImlAgentError::Serde(m) => m@,
        ImlAgentError::Reqwest(m) => m@,
        ImlAgentError::UrlParseError(m) => m@,
        ImlAgentError::Utf8Error(m) => m@,
        ImlAgentError::FromUtf8Error(m) => m@,
        ImlAgentError::TokioTimerError(m) => m@,
        ImlAgentError::TokioJoinError(m) => m@,
        ImlAgentError::AddrParseError(m) => m@,
        ImlAgentError::ParseIntError(m) => m@,
        ImlAgentError::OneshotCanceled(m) => m@,
        ImlAgentError::LiblustreError(m) => m@,
        ImlAgentError::LustreCollectorError(m) => m@,
        ImlAgentError::CmdError(m) => m@,
        ImlAgentError::InvalidUriParts(m) => m@,
        ImlAgentError::InvalidUri(m) => m@,
        ImlAgentError::InvalidHeaderValue(m) => m@,
        ImlAgentError::NativeTls(m) => m@,
        ImlAgentError::XmlError(m) => m@,
        ImlAgentError::FmtError(m) => m@,
        ImlAgentError::NoSessionError(x) => "No session found for "@ + plugin_name_debug(x.0@),
        ImlAgentError::NoPluginError(x) => "Plugin in registry not found for "@ + plugin_name_debug(x.0@),
        ImlAgentError::RequiredError(x) => string_debug(x.0@),
        ImlAgentError::CibError(x) => x.0@,
        ImlAgentError::SendError => "Rx went away"@,
        ImlAgentError::UnexpectedStatusError => "Unexpected status code"@,
        ImlAgentError::MarkerNotFound => "Marker not found"@,
    }
}

impl ImlAgentError {
    /// The message of the error, as `Display` writes it.
    pub fn to_string(&self) -> (r: String)
        ensures
            r@ == agent_error_text(*self),
    {
        match self {
            ImlAgentError::ImlFsError(m) => m.clone(),
            ImlAgentError::Io(m) => m.clone(),
            ImlAgentError::Serde(m) => m.clone(),
            ImlAgentError::Reqwest(m) => m.clone(),
            ImlAgentError::UrlParseError(m) => m.clone(),
            ImlAgentError::Utf8Error(m) => m.clone(),
            ImlAgentError::FromUtf8Error(m) => m.clone(),
            ImlAgentError::TokioTimerError(m) => m.clone(),
            ImlAgentError::TokioJoinError(m) => m.clone(),
            ImlAgentError::AddrParseError(m) => m.clone(),
            ImlAgentError::ParseIntError(m) => m.clone(),
            ImlAgentError::OneshotCanceled(m) => m.clone(),
            ImlAgentError::LiblustreError(m) => m.clone(),
            ImlAgentError::LustreCollectorError(m) => m.clone(),
            ImlAgentError::CmdError(m) => m.clone(),
            ImlAgentError::InvalidUriParts(m) => m.clone(),
            ImlAgentError::InvalidUri(m) => m.clone(),
            ImlAgentError::InvalidHeaderValue(m) => m.clone(),
            ImlAgentError::NativeTls(m) => m.clone(),
            ImlAgentError::XmlError(m) => m.clone(),
            ImlAgentError::FmtError(m) => m.clone(),
            ImlAgentError::NoSessionError(x) => x.to_string(),
            ImlAgentError::NoPluginError(x) => x.to_string(),
            ImlAgentError::RequiredError(x) => x.to_string(),
            ImlAgentError::CibError(x) => x.to_string(),
            ImlAgentError::SendError => String::from_str("Rx went away"),
            ImlAgentError::UnexpectedStatusError => String::from_str("Unexpected status code"),
            ImlAgentError::MarkerNotFound => String::from_str("Marker not found"),
        }
    }
}

} // verus!
