//! Time synchronisation state reported by the agent.

use crate::components::RunState;
use vstd::prelude::*;

verus! {

/// Whether the clock of a host is synchronised.
#[derive(Clone, Copy, Debug, PartialEq, Eq)]
pub enum Synced {
    Synced,
    Unsynced,
}

/// The offset of a clock from its time source, as the time service reports it.
#[derive(Debug, PartialEq, Eq)]
pub struct Offset(pub String);

impl View for Offset {
    type V = Seq<char>;

    open spec fn view(&self) -> Seq<char> {
        self.0@
    }
}

impl From<String> for Offset {
    fn from(s: String) -> (r: Offset)
        ensures
            r == Offset(s),
    {
        Offset(s)
    }
}

impl vstd::std_specs::convert::FromSpecImpl<String> for Offset {
    open spec fn obeys_from_spec() -> bool {
        true
    }

    open spec fn from_spec(s: String) -> Offset {
        Offset(s)
    }
}

/// The view of an optional offset.
pub open spec fn opt_offset_view(x: Option<Offset>) -> Option<Seq<char>> {
    match x {
        Some(o) => Some(o@),
        None => None,
    }
}

/// The time synchronisation state of a host: whether IML configured ntp, and the run
/// state, synchronisation and offset of ntpd and of chronyd.
#[derive(Debug, PartialEq)]
pub struct State {
    pub iml_configured: bool,
    pub ntp: (RunState, Option<Synced>, Option<Offset>),
    pub chrony: (RunState, Option<Synced>, Option<Offset>),
}

} // verus!
