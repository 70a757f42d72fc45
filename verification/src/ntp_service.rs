//! The ntp service of the manager: raising and lowering the alert that a host's
//! clock is out of sync, from the time states its agent reports.

use crate::time::Synced;
use vstd::prelude::*;

verus! {

/// A managed host in one of these states can hold an out-of-sync alert.
pub open spec fn is_valid_state(s: Seq<char>) -> bool {
    s == "monitored"@ || s == "managed"@ || s == "working"@
}

/// Whether a managed host in state `mh_state` can hold an out-of-sync alert.
pub fn valid_state(mh_state: String) -> (r: bool)
    ensures
        r == is_valid_state(mh_state@),
{
    let s = mh_state.as_str();
    crate::text::str_eq(s, "monitored") || crate::text::str_eq(s, "managed")
        || crate::text::str_eq(s, "working")
}

/// What to do first on a reported time state.
#[derive(Clone, Copy, Debug, PartialEq, Eq)]
pub enum NtpAlertStep {
    /// The clock is in sync again: make the active alert with this id inactive.
    LowerAlert(i32),
    /// The clock is out of sync: look the host up, to raise an alert for it.
    LookUpHost,
    /// Nothing to do.
    Nothing,
}

/// The first step on a reported synchronisation, given the id of the host's active
/// out-of-sync alert, if it has one.
pub open spec fn alert_step(active_alert: Option<i32>, synced: Option<Synced>) -> NtpAlertStep {
    match (active_alert, synced) {
        (Some(id), Some(Synced::Synced)) => NtpAlertStep::LowerAlert(id),
        (_, Some(Synced::Unsynced)) => NtpAlertStep::LookUpHost,
        _ => NtpAlertStep::Nothing,
    }
}

/// Decides the first step on a reported synchronisation of ntpd.
pub fn ntp_alert_step(active_alert: Option<i32>, synced: Option<Synced>) -> (r: NtpAlertStep)
    ensures
        r == alert_step(active_alert, synced),
{
    match (active_alert, synced) {
        (Some(id), Some(Synced::Synced)) => NtpAlertStep::LowerAlert(id),
        (_, Some(Synced::Unsynced)) => NtpAlertStep::LookUpHost,
        _ => NtpAlertStep::Nothing,
    }
}

/// The managed host's id, content type id and state, from its row; a host without a
/// content type id is not considered.
pub fn host_items_of_row(row: Option<(i32, Option<i32>, String)>) -> (r: Option<(i32, i32, String)>)
    ensures
        r == (match row {
            Some((id, Some(ct), state)) => Some((id, ct, state)),
            _ => None,
        }),
{
    match row {
        Some((id, Some(ct), state)) => Some((id, ct, state)),
        _ => None,
    }
}

/// The alert to raise for an out-of-sync host, as (content type id, managed host id):
/// one is raised when the host is found in a valid state and has no active alert.
pub open spec fn alert_to_raise(active_alert: Option<i32>, host: Option<(i32, i32, String)>) -> Option<(i32, i32)> {
    match host {
        Some((mh_id, ct_id, state)) => if is_valid_state(state@) && active_alert is None {
            Some((ct_id, mh_id))
        } else {
            None
        },
        None => None,
    }
}

/// Decides whether to raise an alert for an out-of-sync host.
pub fn ntp_alert_to_raise(active_alert: Option<i32>, host: Option<(i32, i32, String)>) -> (r: Option<(i32, i32)>)
    ensures
        r == alert_to_raise(active_alert, host),
{
    match host {
        Some((mh_id, ct_id, state)) => {
            if valid_state(state) && active_alert.is_none() {
                Some((ct_id, mh_id))
            } else {
                None
            }
        },
        None => None,
    }
}

/// The message of the alert raised for `fqdn`.
pub fn out_of_sync_message(fqdn: &str) -> (r: String)
    ensures
        r@ == "Ntp is out of sync on server "@ + fqdn@,
{
    crate::text::concat("Ntp is out of sync on server ", fqdn)
}

/// The record type of the alert that a host's clock is out of sync.
pub const NTP_ALERT_RECORD_TYPE: &'static str = "NtpOutOfSyncAlert";

/// The severity with which the out-of-sync alert is raised.
pub const NTP_ALERT_SEVERITY: i32 = 40;

/// The columns of the alert state row that raising an out-of-sync alert inserts; its
/// beginning is the time of the insertion.
#[derive(Debug, PartialEq, Eq)]
pub struct NewNtpAlert {
    pub record_type: String,
    pub variant: String,
    pub alert_item_id: i32,
    pub alert_type: String,
    pub message: String,
    pub active: bool,
    pub dismissed: bool,
    pub severity: i32,
    pub alert_item_type_id: i32,
}

/// The row that raises an out-of-sync alert for the host `fqdn`, whose managed host id
/// is `item_id` and content type id `item_type_id`: active, not dismissed, of the ntp
/// record and alert type, with an empty variant.
pub fn new_ntp_alert(fqdn: &str, item_type_id: i32, item_id: i32) -> (r: NewNtpAlert)
    ensures
        r.record_type@ == NTP_ALERT_RECORD_TYPE@,
        r.variant@ == "{}"@,
        r.alert_item_id == item_id,
        r.alert_type@ == NTP_ALERT_RECORD_TYPE@,
        r.message@ == "Ntp is out of sync on server "@ + fqdn@,
        r.active,
        !r.dismissed,
        r.severity == NTP_ALERT_SEVERITY,
        r.alert_item_type_id == item_type_id,
{
    NewNtpAlert {
        record_type: String::from_str(NTP_ALERT_RECORD_TYPE),
        variant: String::from_str("{}"),
        alert_item_id: item_id,
        alert_type: String::from_str(NTP_ALERT_RECORD_TYPE),
        message: out_of_sync_message(fqdn),
        active: true,
        dismissed: false,
        severity: NTP_ALERT_SEVERITY,
        alert_item_type_id: item_type_id,
    }
}

/// Exactly the managed hosts in the states `monitored`, `managed` and `working` can hold an
/// out-of-sync alert: for such a host with no active alert one is raised, and for a host in
/// any other state (`unconfigured`, `removed`, ...) none is.
pub proof fn lemma_valid_states(state: String, mh_id: i32, ct_id: i32)
    ensures
        is_valid_state(state@) <==> (state@ == "monitored"@ || state@ == "managed"@ || state@ == "working"@),
        alert_to_raise(None, Some((mh_id, ct_id, state))) == (if state@ == "monitored"@ || state@ == "managed"@
            || state@ == "working"@ {
            Some((ct_id, mh_id))
        } else {
            None
        }),
{
}

/// A host never gets a second out-of-sync alert: while one is active, none is raised,
/// whatever the host's record says.
pub proof fn lemma_no_second_alert(id: i32, host: Option<(i32, i32, String)>)
    ensures
        alert_to_raise(Some(id), host) is None,
{
}

/// An alert is lowered only when the host reports its clock in sync, and only the active
/// one; an alert is looked into only when the host reports it out of sync.
pub proof fn lemma_alert_steps(active_alert: Option<i32>, synced: Option<Synced>)
    ensures
        alert_step(active_alert, synced) matches NtpAlertStep::LowerAlert(id)
            ==> active_alert == Some(id) && synced == Some(Synced::Synced),
        alert_step(active_alert, synced) == NtpAlertStep::LookUpHost <==> synced == Some(Synced::Unsynced),
{
}

} // verus!
