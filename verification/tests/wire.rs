use iml::components::{
    ConfigState, OstPool, OstPoolApi, ResourceAgentType, RunState, ServiceState,
};
use iml::db::{
    AlertStateRecord, FsRecord, Id, ManagedOstRecord, Name, NotDeleted, OstPoolRecord,
};
use iml::warp_drive::RecordId;
use iml::wire::{
    ActionId, ActionName, Alert, AlertSeverity, CompositeId, EndpointName, FlatQuery, Fqdn,
    PluginName, SessionSeq, Volume,
};
use std::cmp::Ordering;

#[test]
fn session_seq_increments() {
    let mut s = SessionSeq::default();
    assert_eq!(s, SessionSeq(0));
    s.increment();
    s.increment();
    assert_eq!(s, SessionSeq(2));
    assert_eq!(SessionSeq::from(7), SessionSeq(7));
}

#[test]
fn names_display_as_their_text() {
    assert_eq!(PluginName::new("ntp").to_string(), "ntp");
    assert_eq!(Fqdn("oss1.local".to_string()).to_string(), "oss1.local");
    assert_eq!(ActionName::new("start").to_string(), "start");
    assert_eq!(ActionId("42".to_string()).to_string(), "42");
    assert_eq!(String::from(PluginName::new("corosync")), "corosync");
    assert_eq!(String::from(Fqdn("mds1".to_string())), "mds1");
}

#[test]
fn composite_id_display() {
    assert_eq!(CompositeId(12, 345).to_string(), "12:345");
    assert_eq!(CompositeId(0, 4294967295).to_string(), "0:4294967295");
}

#[test]
fn endpoint_names_and_queries() {
    assert_eq!(Volume::endpoint_name(), "volume");
    assert_eq!(Alert::endpoint_name(), "alert");
    assert_eq!(<Alert as FlatQuery>::query(), vec![("limit", "0"), ("active", "true")]);
    assert_eq!(<Volume as FlatQuery>::query(), vec![("limit", "0")]);
}

#[test]
fn alert_severity_orders_from_debug_to_critical() {
    assert!(AlertSeverity::DEBUG < AlertSeverity::INFO);
    assert!(AlertSeverity::ERROR < AlertSeverity::CRITICAL);
}

fn fs_record(not_deleted: Option<bool>) -> FsRecord {
    FsRecord {
        id: 3,
        state_modified_at: String::new(),
        state: "available".to_string(),
        immutable_state: false,
        name: "fs".to_string(),
        mgs_id: 1,
        mdt_next_index: 1,
        ost_next_index: 2,
        not_deleted,
        content_type_id: None,
    }
}

#[test]
fn records_are_deleted_unless_marked_not_deleted() {
    assert!(fs_record(Some(true)).not_deleted());
    assert!(!fs_record(Some(true)).deleted());
    assert!(fs_record(Some(false)).deleted());
    assert!(fs_record(None).deleted());
    assert_eq!(fs_record(None).id(), 3);
    let ost = ManagedOstRecord { managedtarget_ptr_id: 9, index: 0, filesystem_id: 3 };
    assert!(ost.not_deleted());
    assert_eq!(ost.id(), 9);
}

#[test]
fn table_names() {
    assert_eq!(FsRecord::table_name().0, "chroma_core_managedfilesystem");
    assert_eq!(OstPoolRecord::table_name().to_string(), "chroma_core_ostpool");
}

#[test]
fn alert_state_active_when_set() {
    let mut a = AlertStateRecord {
        id: 1,
        alert_item_type_id: None,
        alert_item_id: None,
        alert_type: "NtpOutOfSyncAlert".to_string(),
        begin: String::new(),
        end: None,
        active: Some(false),
        dismissed: false,
        severity: 40,
        record_type: "NtpOutOfSyncAlert".to_string(),
        variant: None,
        lustre_pid: None,
        message: None,
    };
    assert!(a.is_active());
    a.active = None;
    assert!(!a.is_active());
}

#[test]
fn record_id_deref() {
    assert_eq!(RecordId::Host(5).id(), 5);
    assert_eq!(RecordId::LnetConfiguration(17).id(), 17);
}

#[test]
fn resource_agent_type_display() {
    let t = ResourceAgentType::new(Some("ocf"), Some("heartbeat"), Some("ZFS"));
    assert_eq!(t.to_string(), "ocf:heartbeat:ZFS");
    assert!(t.eq_str("ocf:heartbeat:ZFS"));
    assert!(!t.eq_str("ocf:ZFS"));
    let t = ResourceAgentType::new(Some("stonith"), None, Some("fence_ipmilan"));
    assert_eq!(t.to_string(), "stonith:fence_ipmilan");
    let t = ResourceAgentType::new(None, None, None);
    assert_eq!(t.standard, "");
    assert_eq!(t.to_string(), ":");
}

#[test]
fn service_and_config_state_display() {
    assert_eq!(ServiceState::default().to_string(), "Unconfigured");
    assert_eq!(ServiceState::Configured(RunState::Setup).to_string(), "Setup");
    assert_eq!(ConfigState::default().to_string(), "Unknown");
    assert_eq!(ConfigState::IML.to_string(), "IML");
    assert_eq!(RunState::default(), RunState::Stopped);
}

fn pool(fs: &str, name: &str, osts: &[&str]) -> OstPool {
    OstPool {
        name: name.to_string(),
        filesystem: fs.to_string(),
        osts: osts.iter().map(|x| x.to_string()).collect(),
    }
}

#[test]
fn ost_pool_display() {
    assert_eq!(
        pool("fs1", "pool1", &["OST0000", "OST0001"]).to_string(),
        "fs1.pool1 [OST0000, OST0001]"
    );
    assert_eq!(pool("fs1", "empty", &[]).to_string(), "fs1.empty []");
    let api = OstPoolApi { id: 7, resource_uri: String::new(), ost: pool("fs", "p", &["a"]) };
    assert_eq!(api.to_string(), "[#7] fs.p [a]");
}

#[test]
fn ost_pools_equal_and_ordered_by_filesystem_then_name() {
    assert!(pool("fs1", "a", &["x"]) == pool("fs1", "a", &["y", "z"]));
    assert!(pool("fs1", "a", &[]) != pool("fs2", "a", &[]));
    assert_eq!(pool("fs1", "b", &[]).compare(&pool("fs2", "a", &[])), Ordering::Less);
    assert_eq!(pool("fs1", "b", &[]).compare(&pool("fs1", "a", &[])), Ordering::Greater);
    assert_eq!(pool("fs1", "a", &["x"]).compare(&pool("fs1", "a", &[])), Ordering::Equal);
    assert_eq!(pool("fs", "a", &[]).compare(&pool("fs1", "a", &[])), Ordering::Less);
}

#[test]
fn pools_partially_ordered_as_compared() {
    assert_eq!(pool("fs1", "b", &[]).partial_cmp(&pool("fs2", "a", &[])), Some(Ordering::Less));
    assert!(pool("fs1", "b", &[]) > pool("fs1", "a", &[]));
    assert!(pool("fs1", "a", &["x"]) <= pool("fs1", "a", &[]));
}
