use iml::agent_error::{CibError, ImlAgentError, NoPluginError, NoSessionError, RequiredError};
use iml::cli::{
    detect_filesystem_command, detect_targets_args, ImlManagerCliError, host_resource_uris, parse_hostlist, DurationParseError,
    RunStratagemCommandResult, RunStratagemValidationError,
};
use iml::ntp_service::{
    host_items_of_row, new_ntp_alert, ntp_alert_step, ntp_alert_to_raise, out_of_sync_message, valid_state,
    NtpAlertStep,
};
use iml::time::Synced;
use iml::wire::{Command, Host, PluginName, ServerProfile};

#[test]
fn valid_managed_host_states() {
    assert!(valid_state("monitored".to_string()));
    assert!(valid_state("managed".to_string()));
    assert!(valid_state("working".to_string()));
    assert!(!valid_state("removed".to_string()));
    assert!(!valid_state("Managed".to_string()));
}

#[test]
fn alert_lowered_when_synced_again() {
    assert_eq!(ntp_alert_step(Some(4), Some(Synced::Synced)), NtpAlertStep::LowerAlert(4));
    assert_eq!(ntp_alert_step(None, Some(Synced::Synced)), NtpAlertStep::Nothing);
    assert_eq!(ntp_alert_step(Some(4), Some(Synced::Unsynced)), NtpAlertStep::LookUpHost);
    assert_eq!(ntp_alert_step(None, None), NtpAlertStep::Nothing);
}

#[test]
fn alert_raised_only_once_for_valid_hosts() {
    let host = Some((10, 33, "managed".to_string()));
    assert_eq!(ntp_alert_to_raise(None, host.clone()), Some((33, 10)));
    assert_eq!(ntp_alert_to_raise(Some(1), host), None);
    assert_eq!(ntp_alert_to_raise(None, Some((10, 33, "removed".to_string()))), None);
    assert_eq!(ntp_alert_to_raise(None, None), None);
}

#[test]
fn host_row_needs_content_type() {
    assert_eq!(
        host_items_of_row(Some((1, Some(2), "managed".to_string()))),
        Some((1, 2, "managed".to_string()))
    );
    assert_eq!(host_items_of_row(Some((1, None, "managed".to_string()))), None);
    assert_eq!(host_items_of_row(None), None);
}

#[test]
fn alert_message() {
    assert_eq!(out_of_sync_message("oss1"), "Ntp is out of sync on server oss1");
}

#[test]
fn agent_error_messages() {
    assert_eq!(
        NoSessionError(PluginName::new("ntp")).to_string(),
        "No session found for PluginName(\"ntp\")"
    );
    assert_eq!(
        NoPluginError(PluginName::new("x")).to_string(),
        "Plugin in registry not found for PluginName(\"x\")"
    );
    assert_eq!(RequiredError("fqdn".to_string()).to_string(), "\"fqdn\"");
    assert_eq!(CibError("bad cib".to_string()).to_string(), "bad cib");
}

#[test]
fn cli_error_messages() {
    assert_eq!(DurationParseError::NoUnit.to_string(), "No unit specified.");
    assert_eq!(
        DurationParseError::InvalidUnit.to_string(),
        "Invalid unit. Valid units include 'h' and 'd'."
    );
    let e = RunStratagemValidationError {
        code: RunStratagemCommandResult::Mdt0NotFound,
        message: "MDT0 not found".to_string(),
    };
    assert_eq!(e.to_string(), "MDT0 not found");
}

#[test]
fn hostlist_expansion() {
    assert_eq!(
        parse_hostlist("oss[1-2].local").unwrap(),
        vec!["oss1.local".to_string(), "oss2.local".to_string()]
    );
    assert!(parse_hostlist("oss[2").is_err());
}

fn api_host(nodename: &str, fqdn: &str, uri: &str) -> Host {
    Host {
        address: String::new(),
        boot_time: None,
        client_mounts: None,
        content_type_id: 1,
        corosync_configuration: None,
        corosync_ring0: String::new(),
        fqdn: fqdn.to_string(),
        id: 1,
        immutable_state: false,
        install_method: String::new(),
        label: nodename.to_string(),
        lnet_configuration: String::new(),
        member_of_active_filesystem: false,
        needs_update: false,
        nids: None,
        nodename: nodename.to_string(),
        pacemaker_configuration: None,
        private_key: None,
        private_key_passphrase: None,
        properties: String::new(),
        resource_uri: uri.to_string(),
        root_pw: None,
        server_profile: ServerProfile {
            corosync: false,
            corosync2: false,
            default: false,
            initial_state: String::new(),
            managed: true,
            name: String::new(),
            ntp: true,
            pacemaker: false,
            repolist: vec![],
            resource_uri: String::new(),
            ui_description: String::new(),
            ui_name: String::new(),
            user_selectable: true,
            worker: false,
        },
        state: String::new(),
        state_modified_at: String::new(),
    }
}

#[test]
fn detect_hosts_by_node_name_or_fqdn() {
    let hosts = vec![
        api_host("oss1", "oss1.local", "/api/host/1/"),
        api_host("oss2", "oss2.local", "/api/host/2/"),
    ];
    let names = vec!["oss2.local".to_string(), "mds9".to_string(), "oss1".to_string()];
    let uris = host_resource_uris(&names, &hosts);
    assert_eq!(uris, vec!["/api/host/2/".to_string(), "/api/host/1/".to_string()]);

    let args = detect_targets_args(uris.clone());
    assert_eq!(args, vec![("hosts".to_string(), uris)]);
    assert!(detect_targets_args(vec![]).is_empty());
}

#[test]
fn new_alert_row_for_an_out_of_sync_host() {
    let a = new_ntp_alert("oss1", 7, 3);
    assert_eq!(a.record_type, "NtpOutOfSyncAlert");
    assert_eq!(a.alert_type, "NtpOutOfSyncAlert");
    assert_eq!(a.variant, "{}");
    assert_eq!(a.alert_item_id, 3);
    assert_eq!(a.alert_item_type_id, 7);
    assert_eq!(a.message, "Ntp is out of sync on server oss1");
    assert!(a.active);
    assert!(!a.dismissed);
    assert_eq!(a.severity, 40);
}

#[test]
fn agent_error_enum_messages() {
    assert_eq!(ImlAgentError::Io("disk gone".to_string()).to_string(), "disk gone");
    assert_eq!(ImlAgentError::SendError.to_string(), "Rx went away");
    assert_eq!(ImlAgentError::UnexpectedStatusError.to_string(), "Unexpected status code");
    assert_eq!(ImlAgentError::MarkerNotFound.to_string(), "Marker not found");
    assert_eq!(
        ImlAgentError::NoSessionError(NoSessionError(PluginName::new("ntp"))).to_string(),
        "No session found for PluginName(\"ntp\")"
    );
    assert_eq!(ImlAgentError::RequiredError(RequiredError("x".to_string())).to_string(), "\"x\"");
    assert_eq!(ImlAgentError::CibError(CibError("bad".to_string())).to_string(), "bad");
}

#[test]
fn detect_filesystem_command_for_listed_hosts() {
    let hosts = vec![
        api_host("oss1", "oss1.local", "/api/host/1/"),
        api_host("oss2", "oss2.local", "/api/host/2/"),
    ];
    let cmd = detect_filesystem_command(Some("oss[1-3]".to_string()), &hosts).unwrap();
    assert_eq!(cmd.message, "Detecting filesystems");
    assert_eq!(cmd.jobs.len(), 1);
    assert_eq!(cmd.jobs[0].class_name, "DetectTargetsJob");
    assert_eq!(
        cmd.jobs[0].args,
        vec![("hosts".to_string(), vec!["/api/host/1/".to_string(), "/api/host/2/".to_string()])]
    );

    let all = detect_filesystem_command(None, &hosts).unwrap();
    assert!(all.jobs[0].args.is_empty());
    let unknown = detect_filesystem_command(Some("mds1".to_string()), &hosts).unwrap();
    assert!(unknown.jobs[0].args.is_empty());
    assert!(detect_filesystem_command(Some("oss[2".to_string()), &hosts).is_err());
}

fn command(message: &str) -> Command {
    Command {
        cancelled: false,
        complete: true,
        created_at: String::new(),
        errored: true,
        id: 1,
        jobs: vec![],
        logs: String::new(),
        message: message.to_string(),
        resource_uri: String::new(),
    }
}

#[test]
fn manager_cli_error_messages() {
    assert_eq!(
        ImlManagerCliError::FailedCommandError(vec![command("Start fs"), command("Stop fs")]).to_string(),
        "The following commands have failed:\nStart fs\nStop fs\n"
    );
    assert_eq!(
        ImlManagerCliError::FailedCommandError(vec![]).to_string(),
        "The following commands have failed:\n"
    );
    assert_eq!(ImlManagerCliError::DoesNotExist("Filesystem".to_string()).to_string(), "Filesystem does not exist");
    assert_eq!(
        ImlManagerCliError::ParseDurationError(DurationParseError::NoUnit).to_string(),
        "No unit specified."
    );
    assert_eq!(ImlManagerCliError::IoError("gone".to_string()).to_string(), "gone");
}
