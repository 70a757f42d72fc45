//! The agent's ntp plugin: reading the state of the time services from
//! the output of the commands that report it.

use crate::components::RunState;
use crate::time::{Offset, State, Synced};
use vstd::prelude::*;

verus! {

/// The output of `busctl get-property ... NTPSynchronized` when the clock is synchronised.
pub const NTP_SYNCED_OUTPUT: &'static str = "b true";

/// The output of `busctl get-property ... NTPSynchronized` when the clock is not synchronised.
pub const NTP_UNSYNCED_OUTPUT: &'static str = "b false";

/// The line of `ntpstat` that gives the offset.
pub const NTP_OFFSET_PATTERN: &'static str = "time correct to within (.+)\n";

/// The line of `chronyc ntpdata` that gives the offset.
pub const CHRONY_OFFSET_PATTERN: &'static str = "Offset          : [+-](.+)\n";

/// The line of the ntp configuration that IML writes.
pub const IML_MARKER: &'static str = "# IML_EDIT";

/// What the synchronisation output says, if it is one of the two known answers.
pub open spec fn synced_of_output(output: Seq<char>) -> Option<Synced> {
    if output == NTP_SYNCED_OUTPUT@ {
        Some(Synced::Synced)
    } else if output == NTP_UNSYNCED_OUTPUT@ {
        Some(Synced::Unsynced)
    } else {
        None
    }
}

/// Reads the synchronisation state from the trimmed output of `busctl`.
pub fn parse_ntp_synced(output: &str) -> (r: Option<Synced>)
    ensures
        r == synced_of_output(output@),
{
    if crate::text::str_eq(output, NTP_SYNCED_OUTPUT) {
        Some(Synced::Synced)
    } else if crate::text::str_eq(output, NTP_UNSYNCED_OUTPUT) {
        Some(Synced::Unsynced)
    } else {
        None
    }
}

/// The text of the first capture group of the leftmost match of the regular expression
/// `pattern` in `text`, as the `regex` crate finds it; `None` when the pattern does not
/// compile, does not match, or its first group takes no part in the match.
pub uninterp spec fn regex_first_group(pattern: Seq<char>, text: Seq<char>) -> Option<Seq<char>>;

/// Compiles `pattern` with `regex::Regex::new`, and takes the first capture group of
/// `Regex::captures` on `text`. The contract claims only that the result is a function of
/// the two texts, named `regex_first_group`.
#[verifier::external_body]
fn first_capture(pattern: &str, text: &str) -> (r: Option<String>)
    ensures
        crate::db::opt_string_view(r) == regex_first_group(pattern@, text@),
{
    let re = regex::Regex::new(pattern).ok()?;
    let caps = re.captures(text)?;
    caps.get(1).map(|m| m.as_str().to_string())
}

/// The offset held by a captured text.
pub fn offset_from_capture(cap: Option<String>) -> (r: Option<Offset>)
    ensures
        crate::time::opt_offset_view(r) == crate::db::opt_string_view(cap),
{
    match cap {
        Some(s) => Some(Offset(s)),
        None => None,
    }
}

/// Reads the offset from the output of `ntpstat`.
pub fn parse_ntp_time_offset(output: &str) -> (r: Option<Offset>)
    ensures
        crate::time::opt_offset_view(r) == regex_first_group(NTP_OFFSET_PATTERN@, output@),
{
    offset_from_capture(first_capture(NTP_OFFSET_PATTERN, output))
}

/// Reads the offset from the output of `chronyc ntpdata`.
pub fn parse_chrony_time_offset(output: &str) -> (r: Option<Offset>)
    ensures
        crate::time::opt_offset_view(r) == regex_first_group(CHRONY_OFFSET_PATTERN@, output@),
{
    offset_from_capture(first_capture(CHRONY_OFFSET_PATTERN, output))
}

/// Whether some line of the ntp configuration holds the marker that IML writes.
pub open spec fn configured_by_iml(lines: Seq<Seq<char>>) -> bool {
    exists|i: int| 0 <= i < lines.len() && crate::text::contains_text(#[trigger] lines[i], IML_MARKER@)
}

/// Whether IML configured ntp, given the lines of the ntp configuration.
pub fn is_ntp_configured_by_iml(lines: &Vec<String>) -> (r: bool)
    ensures
        r == configured_by_iml(crate::text::strings_view(lines@)),
{
    let ghost v = crate::text::strings_view(lines@);
    let mut i: usize = 0;
    while i < lines.len()
        invariant
            v == crate::text::strings_view(lines@),
            i <= lines@.len(),
            forall|j: int| 0 <= j < i ==> !crate::text::contains_text(#[trigger] v[j], IML_MARKER@),
        decreases lines@.len() - i,
    {
        if crate::text::str_contains(lines[i].as_str(), IML_MARKER) {
            assert(crate::text::contains_text(v[i as int], IML_MARKER@));
            return true;
        }
        i = i + 1;
    }
    false
}

/// The agent's ntp plugin.
#[derive(Debug)]
pub struct Ntp;

/// Creates the ntp plugin.
pub fn create() -> (r: Ntp)
    ensures
        r == Ntp,
{
    Ntp
}

/// The state the plugin reports: whether IML configured ntp, the run states of ntpd and
/// chronyd, and the synchronisation and offset that each reports.
pub fn time_state(
    configured: bool,
    run_states: (RunState, RunState),
    ntpd: (Option<Synced>, Option<Offset>),
    chronyd: (Option<Synced>, Option<Offset>),
) -> (r: State)
    ensures
        r == (State {
            iml_configured: configured,
            ntp: (run_states.0, ntpd.0, ntpd.1),
            chrony: (run_states.1, chronyd.0, chronyd.1),
        }),
{
    let (ntp_run_state, chrony_run_state) = run_states;
    let (ntp_synced, ntp_offset) = ntpd;
    let (chrony_synced, chrony_offset) = chronyd;
    State {
        iml_configured: configured,
        ntp: (ntp_run_state, ntp_synced, ntp_offset),
        chrony: (chrony_run_state, chrony_synced, chrony_offset),
    }
}

/// `busctl` answers `b true` when the clock is synchronised and `b false` when it is not;
/// any other output says nothing.
pub proof fn lemma_synced_outputs(output: Seq<char>)
    ensures
        synced_of_output(output) == Some(Synced::Synced) <==> output == "b true"@,
        synced_of_output(output) == Some(Synced::Unsynced) <==> output == "b false"@,
        synced_of_output(output) is None <==> (output != "b true"@ && output != "b false"@),
{
    reveal_strlit("b true");
    reveal_strlit("b false");
    assert("b true"@ != "b false"@) by {
        assert("b true"@[2] != "b false"@[2]);
    }
}

/// IML configured ntp exactly when some line of the configuration holds `# IML_EDIT`.
pub proof fn lemma_configured_marker(lines: Seq<Seq<char>>)
    ensures
        configured_by_iml(lines) <==> exists|i: int| 0 <= i < lines.len() && crate::text::contains_text(#[trigger] lines[i], "# IML_EDIT"@),
{
}

} // verus!
