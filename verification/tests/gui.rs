use iml::filesystem_page::{
    update as page_update, PageAction, PageModel, PageMsg,
    clients_text, files_created, targets_with_rows, fs_targets, space_used, stats_url, is_fs_target, mgs_index, remove_target, replace_target, split_fs_targets,
    update_stats, InfluxResponse, InfluxResult, InfluxSeries, Stats,
};
use iml::inode_table::{
    update as inode_update, InodeAction, InodeMsg, InodeTableModel,
    get_date_time, inodes_from_results, inodes_url, last_known_scan, InfluxResult as InodeResult,
    InfluxResults, InfluxSeries as InodeSeries,
};
use iml::name_order::sort_targets_by_name;
use iml::wire::{FilesystemShort, Target, TargetKind, VolumeOrResourceUri};

#[test]
fn inodes_from_first_series() {
    let data = InfluxResults {
        results: vec![
            InodeResult {
                statement_id: 0,
                series: Some(vec![
                    InodeSeries {
                        name: "stratagem_scan".to_string(),
                        columns: vec![],
                        values: vec![(1, "0".to_string(), 10, 4096), (1, "1000".to_string(), 3, 12)],
                    },
                    InodeSeries { name: String::new(), columns: vec![], values: vec![(2, "x".to_string(), 1, 1)] },
                ]),
            },
            InodeResult { statement_id: 1, series: None },
        ],
    };
    let inodes = inodes_from_results(&data);
    assert_eq!(inodes.len(), 2);
    assert_eq!(inodes[1].uid, "1000");
    assert_eq!(inodes[1].count, 3);
    assert_eq!(inodes[0].size, 4096);

    let none = InfluxResults { results: vec![InodeResult { statement_id: 0, series: None }] };
    assert!(inodes_from_results(&none).is_empty());
}

#[test]
fn scan_time_in_utc() {
    assert_eq!(get_date_time(0), "Thursday, January 01, 1970 00:00:00 UTC");
    let data = InfluxResults {
        results: vec![InodeResult {
            statement_id: 0,
            series: Some(vec![InodeSeries {
                name: String::new(),
                columns: vec![],
                values: vec![(1_000_000_000, "0".to_string(), 1, 1)],
            }]),
        }],
    };
    assert_eq!(
        last_known_scan(&inodes_from_results(&data)),
        Some("Thursday, January 01, 1970 00:00:01 UTC".to_string())
    );
    assert_eq!(last_known_scan(&vec![]), None);
}

#[test]
fn stats_from_first_row() {
    let mut stats = Stats::default();
    let response = InfluxResponse {
        results: vec![InfluxResult {
            series: Some(vec![InfluxSeries {
                values: vec![("t".to_string(), Some(100), Some(40), Some(30), Some(10), Some(5), Some(2))],
            }]),
        }],
    };
    update_stats(&mut stats, &response);
    assert_eq!(stats.bytes_total, Some(100));
    assert_eq!(stats.files_free, Some(5));
    assert_eq!(stats.clients, Some(2));

    update_stats(&mut stats, &InfluxResponse { results: vec![] });
    assert_eq!(stats.bytes_total, Some(100));
}

#[test]
fn clients_text_shows_dashes_when_unknown() {
    assert_eq!(clients_text(None), "---");
    assert_eq!(clients_text(Some(12)), "12");
}

fn target(id: u32, kind: TargetKind, fs_id: Option<u32>, served: &[u32]) -> Target<()> {
    Target {
        active_host: None,
        active_host_name: String::new(),
        conf_params: None,
        content_type_id: 1,
        failover_server_name: String::new(),
        failover_servers: vec![],
        filesystem: None,
        filesystem_id: fs_id,
        filesystem_name: None,
        filesystems: if served.is_empty() {
            None
        } else {
            Some(served.iter().map(|x| FilesystemShort { id: *x, name: String::new() }).collect())
        },
        ha_label: None,
        id,
        immutable_state: false,
        index: None,
        inode_count: None,
        inode_size: None,
        kind,
        label: String::new(),
        name: format!("t{}", id),
        primary_server: String::new(),
        primary_server_name: String::new(),
        resource_uri: format!("/api/target/{}/", id),
        state: String::new(),
        state_modified_at: String::new(),
        uuid: None,
        volume: VolumeOrResourceUri::ResourceUri(String::new()),
        volume_name: String::new(),
    }
}

#[test]
fn targets_of_a_filesystem() {
    assert!(is_fs_target(1, &target(1, TargetKind::Ost, Some(1), &[])));
    assert!(is_fs_target(1, &target(2, TargetKind::Mgt, None, &[3, 1])));
    assert!(!is_fs_target(1, &target(3, TargetKind::Mdt, Some(2), &[2])));

    let xs = vec![
        target(1, TargetKind::Mgt, None, &[1, 2]),
        target(2, TargetKind::Mdt, Some(1), &[]),
        target(3, TargetKind::Ost, Some(2), &[]),
        target(4, TargetKind::Ost, Some(1), &[]),
        target(5, TargetKind::Ost, Some(1), &[]),
    ];
    let (mgt, mdts, osts) = split_fs_targets(1, xs);
    assert_eq!(mgt.iter().map(|t| t.id).collect::<Vec<_>>(), vec![1]);
    assert_eq!(mdts.iter().map(|t| t.id).collect::<Vec<_>>(), vec![2]);
    assert_eq!(osts.iter().map(|t| t.id).collect::<Vec<_>>(), vec![4, 5]);
    assert_eq!(mgs_index(&mgt, "/api/target/1/"), Some(0));
    assert_eq!(mgs_index(&osts, "/api/target/4/"), None);
}

#[test]
fn targets_replaced_and_removed_by_id() {
    let mut xs = vec![target(1, TargetKind::Ost, Some(1), &[]), target(2, TargetKind::Ost, Some(1), &[])];
    let mut t = target(2, TargetKind::Ost, Some(1), &[]);
    t.name = "renamed".to_string();
    assert!(replace_target(&mut xs, t));
    assert_eq!(xs[1].name, "renamed");
    assert!(!replace_target(&mut xs, target(9, TargetKind::Ost, Some(1), &[])));
    assert_eq!(xs.len(), 2);
    remove_target(&mut xs, 1);
    assert_eq!(xs.iter().map(|t| t.id).collect::<Vec<_>>(), vec![2]);
}

fn named(id: u32, kind: TargetKind, name: &str) -> Target<()> {
    let mut t = target(id, kind, Some(1), &[]);
    t.name = name.to_string();
    t
}

#[test]
fn targets_sorted_by_natural_name_order() {
    let xs = vec![
        named(1, TargetKind::Ost, "fs-OST000a"),
        named(2, TargetKind::Ost, "OST10"),
        named(3, TargetKind::Ost, "OST2"),
        named(4, TargetKind::Ost, "OST1"),
    ];
    let names: Vec<String> = sort_targets_by_name(xs).into_iter().map(|t| t.name).collect();
    assert_eq!(names, vec!["OST1", "OST2", "OST10", "fs-OST000a"]);
    assert!(sort_targets_by_name::<()>(vec![]).is_empty());
}

#[test]
fn equal_names_keep_their_order() {
    let xs = vec![named(1, TargetKind::Ost, "OST2"), named(2, TargetKind::Ost, "OST1"), named(3, TargetKind::Ost, "OST2")];
    let ids: Vec<u32> = sort_targets_by_name(xs).into_iter().map(|t| t.id).collect();
    assert_eq!(ids, vec![2, 1, 3]);
}

#[test]
fn page_targets_split_and_sorted() {
    let xs = vec![
        named(1, TargetKind::Mdt, "MDT10"),
        named(2, TargetKind::Mgt, "MGS"),
        named(3, TargetKind::Ost, "OST11"),
        named(4, TargetKind::Mdt, "MDT9"),
        named(5, TargetKind::Ost, "OST3"),
        target(6, TargetKind::Ost, Some(2), &[]),
    ];
    let (mgt, mdts, osts) = fs_targets(1, xs);
    assert_eq!(mgt.iter().map(|t| t.id).collect::<Vec<_>>(), vec![2]);
    assert_eq!(mdts.iter().map(|t| t.id).collect::<Vec<_>>(), vec![4, 1]);
    assert_eq!(osts.iter().map(|t| t.id).collect::<Vec<_>>(), vec![5, 3]);
}

#[test]
fn stats_url_names_the_filesystem() {
    let query = format!(
            r#"SELECT SUM(b_total), SUM(b_free), SUM(b_avail),
                    SUM(f_total), SUM(f_free),
                    SUM(clients)
               FROM (SELECT LAST(bytes_total) AS b_total
                          , LAST(bytes_free) AS b_free
                          , LAST(bytes_avail) AS b_avail
                          , LAST(files_total) AS f_total
                          , LAST(files_free) AS f_free
                      FROM target
                      WHERE "kind" = 'OST' AND "fs" = '{fs_name}'
                      GROUP BY target)
                   , (SELECT LAST(connected_clients) AS clients
                      FROM target
                      WHERE "fs"='{fs_name}' AND "kind"='MDT'
                      GROUP BY target)"#,
            fs_name = "testfs"
        );
    assert_eq!(stats_url("testfs"), format!(r#"/influx?db=iml_stats&q={}"#, query));
}

#[test]
fn space_and_files_used() {
    assert_eq!(space_used(Some(40), Some(100), Some(30)), Some((60, 30)));
    assert_eq!(space_used(Some(140), Some(100), Some(30)), Some((0, 30)));
    assert_eq!(space_used(Some(40), Some(100), None), None);
    assert_eq!(space_used(None, Some(100), Some(30)), None);
    assert_eq!(files_created(Some(5), Some(10)), Some((5, 10)));
    assert_eq!(files_created(Some(5), None), None);
}

#[test]
fn inodes_url_names_the_filesystem() {
    assert_eq!(
        inodes_url("fs1"),
        format!("influx/db=iml_stratagem_scans&epoch=ns&q=SELECT%20counter_name,%20count,%20size%20FROM%20stratagem_scan%20WHERE%20group_name=%27user_distribution%27%20and%20fs_name=%27{}%27%20limit%2020", "fs1")
    );
}

#[test]
fn rows_shown_for_targets_with_rows() {
    let xs = vec![
        target(1, TargetKind::Ost, Some(1), &[]),
        target(2, TargetKind::Ost, Some(1), &[]),
        target(3, TargetKind::Ost, Some(1), &[]),
    ];
    assert_eq!(targets_with_rows(&xs, &vec![3, 1, 9]), vec![0, 2]);
    assert!(targets_with_rows(&xs, &vec![]).is_empty());
}

fn page() -> PageModel<()> {
    PageModel {
        fs_id: 1,
        fs_name: "fs1".to_string(),
        mgt: vec![],
        mdts: vec![],
        osts: vec![],
        rows: vec![],
        stats: Stats::default(),
        stats_refetch_scheduled: false,
    }
}

fn ids(xs: &[Target<()>]) -> Vec<u32> {
    xs.iter().map(|t| t.id).collect()
}

#[test]
fn page_sets_adds_and_removes_targets() {
    let mut m = page();
    let xs = vec![
        named(1, TargetKind::Ost, "OST10"),
        named(2, TargetKind::Ost, "OST2"),
        named(3, TargetKind::Mgt, "MGS"),
        target(4, TargetKind::Mdt, Some(2), &[]),
    ];
    assert_eq!(page_update(&mut m, PageMsg::SetTargets(xs)), PageAction::UpdatePaging);
    assert_eq!(ids(&m.osts), vec![2, 1]);
    assert_eq!(ids(&m.mgt), vec![3]);
    assert!(m.mdts.is_empty());
    let mut rows = m.rows.clone();
    rows.sort();
    assert_eq!(rows, vec![1, 2, 3, 4]);

    let mut changed = named(1, TargetKind::Ost, "OST10");
    changed.label = "new".to_string();
    assert_eq!(page_update(&mut m, PageMsg::AddTarget(changed)), PageAction::UpdatePaging);
    assert_eq!(m.osts[1].label, "new");
    assert_eq!(m.rows.len(), 4);

    assert_eq!(page_update(&mut m, PageMsg::AddTarget(named(7, TargetKind::Ost, "OST7"))), PageAction::UpdatePaging);
    assert_eq!(ids(&m.osts), vec![2, 1]);
    assert!(m.rows.contains(&7));

    assert_eq!(page_update(&mut m, PageMsg::AddTarget(target(8, TargetKind::Ost, Some(2), &[]))), PageAction::Nothing);
    assert!(!m.rows.contains(&8));

    assert_eq!(page_update(&mut m, PageMsg::RemoveTarget(2)), PageAction::UpdatePaging);
    assert_eq!(ids(&m.osts), vec![1]);
    assert!(!m.rows.contains(&2));
    assert!(m.rows.contains(&1));
}

#[test]
fn page_fetches_statistics() {
    let mut m = page();
    match page_update(&mut m, PageMsg::FetchStats) {
        PageAction::FetchStats(url) => assert_eq!(url, stats_url("fs1")),
        other => panic!("unexpected {:?}", other),
    }
    assert!(!m.stats_refetch_scheduled);
    let response = InfluxResponse {
        results: vec![InfluxResult {
            series: Some(vec![InfluxSeries { values: vec![("t".to_string(), Some(9), None, None, None, None, Some(3))] }]),
        }],
    };
    assert_eq!(page_update(&mut m, PageMsg::StatsFetched(Ok(response))), PageAction::ScheduleStatsFetch);
    assert_eq!(m.stats.bytes_total, Some(9));
    assert_eq!(m.stats.clients, Some(3));
    assert!(m.stats_refetch_scheduled);
    assert_eq!(
        page_update(&mut m, PageMsg::StatsFetched(Err("timeout".to_string()))),
        PageAction::ReportErrorAndScheduleStatsFetch("timeout".to_string())
    );
    assert_eq!(m.stats.bytes_total, Some(9));
    assert_eq!(page_update(&mut m, PageMsg::Noop), PageAction::Nothing);
}

fn inode_model() -> InodeTableModel {
    InodeTableModel {
        inodes: vec![],
        destroyed: false,
        refetch_scheduled: true,
        request_pending: false,
        last_known_scan: None,
        fs_name: "fs1".to_string(),
    }
}

#[test]
fn inode_table_fetches_and_keeps_counts() {
    let mut m = inode_model();
    assert_eq!(inode_update(&mut m, InodeMsg::FetchInodes), InodeAction::Fetch(inodes_url("fs1")));
    assert!(m.request_pending);
    assert!(!m.refetch_scheduled);
    let data = InfluxResults {
        results: vec![InodeResult {
            statement_id: 0,
            series: Some(vec![InodeSeries {
                name: String::new(),
                columns: vec![],
                values: vec![(0, "1000".to_string(), 3, 12)],
            }]),
        }],
    };
    assert_eq!(inode_update(&mut m, InodeMsg::InodesFetched(Ok(data))), InodeAction::ScheduleFetch);
    assert_eq!(m.inodes.len(), 1);
    assert_eq!(m.last_known_scan, Some(get_date_time(0)));
    assert!(!m.request_pending);
    assert!(m.refetch_scheduled);

    assert_eq!(
        inode_update(&mut m, InodeMsg::InodesFetched(Err("down".to_string()))),
        InodeAction::ReportErrorAndScheduleFetch("down".to_string())
    );
    assert_eq!(m.inodes.len(), 1);
    assert_eq!(inode_update(&mut m, InodeMsg::OnFetchError("down".to_string())), InodeAction::LogError("down".to_string()));
    assert_eq!(inode_update(&mut m, InodeMsg::Noop), InodeAction::Nothing);
}

#[test]
fn destroyed_inode_table_ignores_messages() {
    let mut m = inode_model();
    inode_update(&mut m, InodeMsg::FetchInodes);
    assert_eq!(inode_update(&mut m, InodeMsg::Destroy), InodeAction::AbortRequest);
    assert!(m.destroyed);
    assert!(m.inodes.is_empty());
    assert!(!m.refetch_scheduled);
    assert_eq!(inode_update(&mut m, InodeMsg::FetchInodes), InodeAction::Nothing);
    assert!(!m.request_pending);
    let mut idle = inode_model();
    assert_eq!(inode_update(&mut idle, InodeMsg::Destroy), InodeAction::Nothing);
}
