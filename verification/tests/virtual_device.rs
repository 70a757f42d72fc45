use iml::db::{Device, DeviceHost, DeviceId, DeviceIds, DeviceType, MountPath, Paths, Size};
use iml::virtual_device::{compute_virtual_device_changes, is_virtual_device, Change, DeviceHosts, Devices};
use iml::wire::Fqdn;

fn id(s: &str) -> DeviceId {
    DeviceId(s.to_string())
}

fn fqdn(s: &str) -> Fqdn {
    Fqdn(s.to_string())
}

fn device(name: &str, device_type: DeviceType, parents: &[&str]) -> Device {
    Device {
        id: id(name),
        size: Size(1024),
        usable_for_lustre: true,
        device_type,
        parents: DeviceIds(parents.iter().map(|p| id(p)).collect()),
        children: DeviceIds(vec![]),
    }
}

fn host(device: &str, on: &str, path: &str) -> DeviceHost {
    DeviceHost {
        device_id: id(device),
        fqdn: fqdn(on),
        local: true,
        paths: Paths(vec![path.to_string()]),
        mount_path: MountPath(None),
        fs_type: Some("linux_raid_member".to_string()),
        fs_label: None,
        fs_uuid: Some("1234".to_string()),
    }
}

fn devices(xs: Vec<Device>) -> Devices {
    let mut d = Devices::new();
    for x in xs {
        d.insert(x);
    }
    d
}

fn hosts(xs: Vec<DeviceHost>) -> DeviceHosts {
    let mut d = DeviceHosts::new();
    for x in xs {
        d.insert(x);
    }
    d
}

fn raid_devices() -> Devices {
    devices(vec![
        device("sda", DeviceType::ScsiDevice, &[]),
        device("sdb", DeviceType::ScsiDevice, &[]),
        device("md0", DeviceType::MdRaid, &["sda", "sdb"]),
    ])
}

fn raid_on_oss1() -> DeviceHosts {
    hosts(vec![
        host("sda", "oss1", "/dev/sda"),
        host("sdb", "oss1", "/dev/sdb"),
        host("md0", "oss1", "/dev/md0"),
    ])
}

#[test]
fn vd_with_shared_parents_added_to_oss2() {
    let db = hosts(vec![host("sda", "oss2", "/dev/sda"), host("sdb", "oss2", "/dev/sdb")]);

    let r = compute_virtual_device_changes(
        &fqdn("oss1"),
        &raid_devices(),
        &raid_on_oss1(),
        &Devices::new(),
        &db,
    );

    assert_eq!(r.len(), 1);
    match r.get(&id("md0"), &fqdn("oss2")) {
        Some(Change::Add(h)) => {
            assert_eq!(h.device_id, id("md0"));
            assert_eq!(h.fqdn, fqdn("oss2"));
            assert!(h.local);
            assert_eq!(h.paths, Paths(vec!["/dev/md0".to_string()]));
            assert_eq!(h.mount_path, MountPath(None));
            assert_eq!(h.fs_type, Some("linux_raid_member".to_string()));
            assert_eq!(h.fs_label, None);
            assert_eq!(h.fs_uuid, Some("1234".to_string()));
        }
        other => panic!("unexpected change {:?}", other),
    }
}

#[test]
fn vd_with_no_shared_parents_not_added_to_oss2() {
    let db = hosts(vec![host("sda", "oss2", "/dev/sda")]);

    let r = compute_virtual_device_changes(
        &fqdn("oss1"),
        &raid_devices(),
        &raid_on_oss1(),
        &Devices::new(),
        &db,
    );

    assert_eq!(r.len(), 0);
}

#[test]
fn vd_with_shared_parents_updated_on_oss2() {
    let db = hosts(vec![
        host("sda", "oss2", "/dev/sda"),
        host("sdb", "oss2", "/dev/sdb"),
        host("md0", "oss2", "/dev/md127"),
    ]);

    let r = compute_virtual_device_changes(
        &fqdn("oss1"),
        &raid_devices(),
        &raid_on_oss1(),
        &Devices::new(),
        &db,
    );

    assert_eq!(r.len(), 1);
    match r.get(&id("md0"), &fqdn("oss2")) {
        Some(Change::Update(h)) => {
            assert_eq!(h.paths, Paths(vec!["/dev/md0".to_string()]));
            assert_eq!(h.fqdn, fqdn("oss2"));
        }
        other => panic!("unexpected change {:?}", other),
    }
}

#[test]
fn vd_with_shared_parents_removed_from_oss2_when_parent_disappears() {
    let db = hosts(vec![host("sda", "oss2", "/dev/sda"), host("md0", "oss2", "/dev/md0")]);

    let r = compute_virtual_device_changes(
        &fqdn("oss1"),
        &raid_devices(),
        &raid_on_oss1(),
        &Devices::new(),
        &db,
    );

    assert_eq!(r.len(), 1);
    match r.get(&id("md0"), &fqdn("oss2")) {
        Some(Change::Remove(h)) => {
            assert_eq!(h.device_id, id("md0"));
            assert_eq!(h.fqdn, fqdn("oss2"));
            assert_eq!(h.paths, Paths(vec![]));
            assert_eq!(h.fs_type, None);
            assert_eq!(h.fs_uuid, None);
        }
        other => panic!("unexpected change {:?}", other),
    }
}

#[test]
fn vd_with_two_levels_of_shared_parents_added_to_oss2() {
    let devs = devices(vec![
        device("sda", DeviceType::ScsiDevice, &[]),
        device("sdb", DeviceType::ScsiDevice, &[]),
        device("md0", DeviceType::MdRaid, &["sda", "sdb"]),
        device("vg0", DeviceType::VolumeGroup, &["md0"]),
    ]);
    let incoming = hosts(vec![
        host("sda", "oss1", "/dev/sda"),
        host("sdb", "oss1", "/dev/sdb"),
        host("md0", "oss1", "/dev/md0"),
        host("vg0", "oss1", "/dev/vg0"),
    ]);
    let db = hosts(vec![
        host("sda", "oss2", "/dev/sda"),
        host("sdb", "oss2", "/dev/sdb"),
        host("md0", "oss2", "/dev/md0"),
    ]);

    let r = compute_virtual_device_changes(&fqdn("oss1"), &devs, &incoming, &Devices::new(), &db);

    assert_eq!(r.len(), 2);
    assert!(matches!(r.get(&id("md0"), &fqdn("oss2")), Some(Change::Update(_))));
    match r.get(&id("vg0"), &fqdn("oss2")) {
        Some(Change::Add(h)) => assert_eq!(h.paths, Paths(vec!["/dev/vg0".to_string()])),
        other => panic!("unexpected change {:?}", other),
    }
}

#[test]
fn vd_missing_a_grandparent_is_not_added() {
    let devs = devices(vec![
        device("sda", DeviceType::ScsiDevice, &[]),
        device("sdb", DeviceType::ScsiDevice, &[]),
        device("md0", DeviceType::MdRaid, &["sda", "sdb"]),
        device("vg0", DeviceType::VolumeGroup, &["md0"]),
    ]);
    let incoming = hosts(vec![
        host("sda", "oss1", "/dev/sda"),
        host("sdb", "oss1", "/dev/sdb"),
        host("md0", "oss1", "/dev/md0"),
        host("vg0", "oss1", "/dev/vg0"),
    ]);
    let db = hosts(vec![host("sda", "oss2", "/dev/sda"), host("md0", "oss2", "/dev/md0")]);

    let r = compute_virtual_device_changes(&fqdn("oss1"), &devs, &incoming, &Devices::new(), &db);

    assert_eq!(r.len(), 1);
    assert!(matches!(r.get(&id("md0"), &fqdn("oss2")), Some(Change::Remove(_))));
    assert!(r.get(&id("vg0"), &fqdn("oss2")).is_none());
}

#[test]
fn vd_added_on_reporting_host_when_not_reported() {
    let incoming = hosts(vec![host("sda", "oss1", "/dev/sda"), host("sdb", "oss1", "/dev/sdb")]);

    let r = compute_virtual_device_changes(
        &fqdn("oss1"),
        &raid_devices(),
        &incoming,
        &Devices::new(),
        &DeviceHosts::new(),
    );

    assert_eq!(r.len(), 1);
    match r.get(&id("md0"), &fqdn("oss1")) {
        Some(Change::Add(h)) => {
            assert_eq!(h.paths, Paths(vec![]));
            assert_eq!(h.fs_type, None);
        }
        other => panic!("unexpected change {:?}", other),
    }
}

#[test]
fn vd_removed_from_reporting_host_when_parent_gone() {
    let incoming = hosts(vec![host("sda", "oss1", "/dev/sda")]);
    let db = hosts(vec![host("md0", "oss1", "/dev/md0")]);

    let r = compute_virtual_device_changes(
        &fqdn("oss1"),
        &raid_devices(),
        &incoming,
        &Devices::new(),
        &db,
    );

    assert_eq!(r.len(), 1);
    assert!(matches!(r.get(&id("md0"), &fqdn("oss1")), Some(Change::Remove(_))));
}

#[test]
fn only_virtual_devices_change() {
    let devs = devices(vec![
        device("sda", DeviceType::ScsiDevice, &[]),
        device("sda1", DeviceType::Partition, &["sda"]),
    ]);
    let incoming = hosts(vec![host("sda", "oss1", "/dev/sda")]);
    let db = hosts(vec![host("sda", "oss2", "/dev/sda"), host("sda1", "oss2", "/dev/sda1")]);

    let r = compute_virtual_device_changes(&fqdn("oss1"), &devs, &incoming, &Devices::new(), &db);

    assert_eq!(r.len(), 0);
}

#[test]
fn devices_insert_replaces_same_id() {
    let mut d = Devices::new();
    d.insert(device("md0", DeviceType::MdRaid, &["sda"]));
    d.insert(device("md0", DeviceType::Zpool, &[]));
    assert_eq!(d.len(), 1);
    assert_eq!(d.get(&id("md0")).map(|x| x.device_type), Some(DeviceType::Zpool));
    assert!(d.get(&id("sda")).is_none());
}

#[test]
fn changes_into_entries_lists_each_key_once() {
    let db = hosts(vec![host("sda", "oss2", "/dev/sda"), host("sdb", "oss2", "/dev/sdb")]);
    let r = compute_virtual_device_changes(
        &fqdn("oss1"),
        &raid_devices(),
        &raid_on_oss1(),
        &Devices::new(),
        &db,
    );
    let entries = r.into_entries();
    assert_eq!(entries.len(), 1);
    assert_eq!((entries[0].0).0, id("md0"));
    assert_eq!((entries[0].0).1, fqdn("oss2"));
}

#[test]
fn device_type_names_round_trip() {
    for t in [
        DeviceType::ScsiDevice,
        DeviceType::Partition,
        DeviceType::MdRaid,
        DeviceType::Mpath,
        DeviceType::VolumeGroup,
        DeviceType::LogicalVolume,
        DeviceType::Zpool,
        DeviceType::Dataset,
    ] {
        assert_eq!(DeviceType::from_name(&t.to_string()), Some(t));
    }
    assert_eq!(DeviceType::MdRaid.to_string(), "mdraid");
    assert_eq!(DeviceType::VolumeGroup.to_string(), "vg");
    assert_eq!(DeviceType::from_name("raid"), None);
}

#[test]
fn virtual_device_types() {
    for t in [DeviceType::MdRaid, DeviceType::VolumeGroup, DeviceType::Dataset, DeviceType::Zpool] {
        assert!(is_virtual_device(&device("v", t, &[])));
    }
    for t in [DeviceType::ScsiDevice, DeviceType::Partition, DeviceType::Mpath, DeviceType::LogicalVolume] {
        assert!(!is_virtual_device(&device("p", t, &[])));
    }
}

#[test]
fn changes_into_entries_in_key_order() {
    let devs = devices(vec![
        device("sda", DeviceType::ScsiDevice, &[]),
        device("sdb", DeviceType::ScsiDevice, &[]),
        device("md1", DeviceType::MdRaid, &["sda", "sdb"]),
        device("md0", DeviceType::MdRaid, &["sda", "sdb"]),
    ]);
    let incoming = hosts(vec![
        host("sda", "oss1", "/dev/sda"),
        host("sdb", "oss1", "/dev/sdb"),
        host("md1", "oss1", "/dev/md1"),
        host("md0", "oss1", "/dev/md0"),
    ]);
    let db = hosts(vec![
        host("sda", "oss3", "/dev/sda"),
        host("sdb", "oss3", "/dev/sdb"),
        host("sda", "oss2", "/dev/sda"),
        host("sdb", "oss2", "/dev/sdb"),
    ]);
    let r = compute_virtual_device_changes(&fqdn("oss1"), &devs, &incoming, &Devices::new(), &db);
    let keys: Vec<(String, String)> =
        r.into_entries().into_iter().map(|((d, h), _)| (d.0, h.0)).collect();
    assert_eq!(
        keys,
        vec![
            ("md0".to_string(), "oss2".to_string()),
            ("md0".to_string(), "oss3".to_string()),
            ("md1".to_string(), "oss2".to_string()),
            ("md1".to_string(), "oss3".to_string()),
        ]
    );
}
