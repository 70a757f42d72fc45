use iml::components::RunState;
use iml::ntp::{
    create, is_ntp_configured_by_iml, parse_chrony_time_offset, parse_ntp_synced,
    parse_ntp_time_offset, time_state, Ntp,
};
use iml::time::{Offset, State, Synced};

#[test]
fn test_is_ntp_synced() {
    let s = r#"b true"#;

    assert_eq!(parse_ntp_synced(s), Some(Synced::Synced));
}

#[test]
fn test_is_ntp_not_synced() {
    let s = r#"b false"#;

    assert_eq!(parse_ntp_synced(s), Some(Synced::Unsynced));
}

#[test]
fn test_bad_output() {
    let s = r#"b tr"#;

    assert_eq!(parse_ntp_synced(s), None);
}

#[test]
fn test_get_ntp_time_offset() {
    let s = r#"synchronised to NTP server (10.73.10.10) at stratum 12
time correct to within 949 ms
polling server every 64 s"#;

    assert_eq!(parse_ntp_time_offset(s), Some("949 ms".to_string().into()));
}

#[test]
fn test_get_chrony_time_offset() {
    let s = r#"

Remote address  : 10.73.10.10 (0A490A0A)
Remote port     : 123
Local address   : 10.73.10.12 (0A490A0C)
Leap status     : Normal
Version         : 4
Mode            : Server
Stratum         : 11
Poll interval   : 4 (16 seconds)
Precision       : -25 (0.000000030 seconds)
Root delay      : 0.000000 seconds
Root dispersion : 0.011124 seconds
Reference ID    : 7F7F0100 ()
Reference time  : Fri Sep 13 08:03:04 2019
Offset          : +0.000026767 seconds
Peer delay      : 0.000403893 seconds
Peer dispersion : 0.000000056 seconds
Response time   : 0.000079196 seconds
Jitter asymmetry: +0.00
NTP tests       : 111 111 1111
Interleaved     : No
Authenticated   : No
TX timestamping : Kernel
RX timestamping : Kernel
Total TX        : 1129
Total RX        : 1129
Total valid RX  : 1129"#;

    assert_eq!(
        parse_chrony_time_offset(s),
        Some("0.000026767 seconds".to_string().into())
    );
}

#[test]
fn ntp_offset_missing_without_newline() {
    let s = "time correct to within 949 ms";

    assert_eq!(parse_ntp_time_offset(s), None);
}

#[test]
fn chrony_offset_missing_when_not_reported() {
    let s = "Remote address  : 10.73.10.10\nStratum         : 11\n";

    assert_eq!(parse_chrony_time_offset(s), None);
}

#[test]
fn chrony_negative_offset() {
    let s = "Offset          : -0.5 seconds\n";

    assert_eq!(parse_chrony_time_offset(s), Some(Offset("0.5 seconds".to_string())));
}

#[test]
fn synced_output_must_be_exact() {
    assert_eq!(parse_ntp_synced("b true\n"), None);
    assert_eq!(parse_ntp_synced(""), None);
}

#[test]
fn test_session_state_with_ntp_configured_by_iml() {
    let r = time_state(
        true,
        (RunState::Setup, RunState::Stopped),
        (Some(Synced::Synced), Some("949 ms".to_string().into())),
        (Some(Synced::Unsynced), None),
    );

    assert_eq!(
        r,
        State {
            iml_configured: true,
            ntp: (
                RunState::Setup,
                Some(Synced::Synced),
                Some("949 ms".to_string().into())
            ),
            chrony: (RunState::Stopped, Some(Synced::Unsynced), None)
        }
    );
}

#[test]
fn ntp_configured_by_iml_marker() {
    let lines = vec![
        "server 0.pool.ntp.org".to_string(),
        "server 10.0.0.1 iburst # IML_EDIT".to_string(),
    ];
    assert!(is_ntp_configured_by_iml(&lines));

    let lines = vec!["server 0.pool.ntp.org".to_string(), "# IML_EDI".to_string()];
    assert!(!is_ntp_configured_by_iml(&lines));

    assert!(!is_ntp_configured_by_iml(&vec![]));
}

#[test]
fn create_gives_the_plugin() {
    let plugin: Ntp = create();
    assert_eq!(format!("{:?}", plugin), "Ntp");
}
