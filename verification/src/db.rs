//! Records of the manager's database.

use crate::text::str_eq;
use crate::wire::Fqdn;
use vstd::prelude::*;

verus! {

/// Records that have an id.
pub trait Id {
    /// Returns the id.
    fn id(&self) -> u32;
}

/// Records that can be marked deleted.
pub trait NotDeleted {
    /// Whether the record is not deleted.
    spec fn is_not_deleted(&self) -> bool;

    /// Returns if the record is not deleted.
    fn not_deleted(&self) -> (r: bool)
        ensures
            r == self.is_not_deleted(),
    ;

    /// Returns if the record is deleted.
    fn deleted(&self) -> (r: bool)
        ensures
            r == !self.is_not_deleted(),
    {
        !self.not_deleted()
    }
}

/// A record is not deleted when its `not_deleted` column holds `true`.
pub open spec fn not_deleted_column(x: Option<bool>) -> bool {
    x == Some(true)
}

fn not_deleted(x: Option<bool>) -> (r: bool)
    ensures
        r == not_deleted_column(x),
{
    match x {
        Some(b) => b,
        None => false,
    }
}

/// The name of a `chroma` table.
#[derive(Debug, PartialEq, Eq)]
pub struct TableName<'a>(pub &'a str);

impl<'a> TableName<'a> {
    /// The name as `Display` writes it.
    pub fn to_string(&self) -> (r: String)
        ensures
            r@ == self.0@,
    {
        String::from_str(self.0)
    }
}

/// Records stored in a `chroma` table.
pub trait Name {
    /// Get the name of a `chroma` table.
    fn table_name() -> TableName<'static>;
}

/// Record from the `chroma_core_managedfilesystem` table.
#[derive(Debug)]
pub struct FsRecord {
    pub id: u32,
    pub state_modified_at: String,
    pub state: String,
    pub immutable_state: bool,
    pub name: String,
    pub mgs_id: u32,
    pub mdt_next_index: u32,
    pub ost_next_index: u32,
    pub not_deleted: Option<bool>,
    pub content_type_id: Option<u32>,
}

impl Id for FsRecord {
    fn id(&self) -> (r: u32)
        ensures
            r == self.id,
    {
        self.id
    }
}

impl NotDeleted for FsRecord {
    open spec fn is_not_deleted(&self) -> bool {
        not_deleted_column(self.not_deleted)
    }

    fn not_deleted(&self) -> (r: bool) {
        not_deleted(self.not_deleted)
    }
}

impl Name for FsRecord {
    fn table_name() -> (r: TableName<'static>)
        ensures
            r.0@ == "chroma_core_managedfilesystem"@,
    {
        TableName("chroma_core_managedfilesystem")
    }
}

/// Record from the `chroma_core_volume` table.
#[derive(Debug)]
pub struct VolumeRecord {
    pub id: u32,
    pub storage_resource_id: Option<u32>,
    pub size: Option<u64>,
    pub label: String,
    pub filesystem_type: Option<String>,
    pub not_deleted: Option<bool>,
    pub usable_for_lustre: bool,
}

impl Id for VolumeRecord {
    fn id(&self) -> (r: u32)
        ensures
            r == self.id,
    {
        self.id
    }
}

impl NotDeleted for VolumeRecord {
    open spec fn is_not_deleted(&self) -> bool {
        not_deleted_column(self.not_deleted)
    }

    fn not_deleted(&self) -> (r: bool) {
        not_deleted(self.not_deleted)
    }
}

impl Name for VolumeRecord {
    fn table_name() -> (r: TableName<'static>)
        ensures
            r.0@ == "chroma_core_volume"@,
    {
        TableName("chroma_core_volume")
    }
}

/// Record from the `chroma_core_volumenode` table.
#[derive(Debug)]
pub struct VolumeNodeRecord {
    pub id: u32,
    pub volume_id: u32,
    pub host_id: u32,
    pub path: String,
    pub storage_resource_id: Option<u32>,
    pub primary: bool,
    pub _use: bool,
    pub not_deleted: Option<bool>,
}

impl Id for VolumeNodeRecord {
    fn id(&self) -> (r: u32)
        ensures
            r == self.id,
    {
        self.id
    }
}

impl NotDeleted for VolumeNodeRecord {
    open spec fn is_not_deleted(&self) -> bool {
        not_deleted_column(self.not_deleted)
    }

    fn not_deleted(&self) -> (r: bool) {
        not_deleted(self.not_deleted)
    }
}

impl crate::wire::Label for VolumeNodeRecord {
    fn label(&self) -> (r: &str)
        ensures
            r@ == self.path@,
    {
        self.path.as_str()
    }
}

impl Name for VolumeNodeRecord {
    fn table_name() -> (r: TableName<'static>)
        ensures
            r.0@ == "chroma_core_volumenode"@,
    {
        TableName("chroma_core_volumenode")
    }
}

/// Record from the `chroma_core_managedtargetmount` table.
#[derive(Debug)]
pub struct ManagedTargetMountRecord {
    pub id: u32,
    pub host_id: u32,
    pub mount_point: Option<String>,
    pub volume_node_id: u32,
    pub primary: bool,
    pub target_id: u32,
    pub not_deleted: Option<bool>,
}

impl Id for ManagedTargetMountRecord {
    fn id(&self) -> (r: u32)
        ensures
            r == self.id,
    {
        self.id
    }
}

impl NotDeleted for ManagedTargetMountRecord {
    open spec fn is_not_deleted(&self) -> bool {
        not_deleted_column(self.not_deleted)
    }

    fn not_deleted(&self) -> (r: bool) {
        not_deleted(self.not_deleted)
    }
}

impl Name for ManagedTargetMountRecord {
    fn table_name() -> (r: TableName<'static>)
        ensures
            r.0@ == "chroma_core_managedtargetmount"@,
    {
        TableName("chroma_core_managedtargetmount")
    }
}

/// Record from the `chroma_core_managedtarget` table.
#[derive(Debug)]
pub struct ManagedTargetRecord {
    pub id: u32,
    pub state_modified_at: String,
    pub state: String,
    pub immutable_state: bool,
    pub name: Option<String>,
    pub uuid: Option<String>,
    pub ha_label: Option<String>,
    pub volume_id: u32,
    pub inode_size: Option<u32>,
    pub bytes_per_inode: Option<u32>,
    pub inode_count: Option<u64>,
    pub reformat: bool,
    pub active_mount_id: Option<u32>,
    pub not_deleted: Option<bool>,
    pub content_type_id: Option<u32>,
}

impl Id for ManagedTargetRecord {
    fn id(&self) -> (r: u32)
        ensures
            r == self.id,
    {
        self.id
    }
}

impl NotDeleted for ManagedTargetRecord {
    open spec fn is_not_deleted(&self) -> bool {
        not_deleted_column(self.not_deleted)
    }

    fn not_deleted(&self) -> (r: bool) {
        not_deleted(self.not_deleted)
    }
}

impl Name for ManagedTargetRecord {
    fn table_name() -> (r: TableName<'static>)
        ensures
            r.0@ == "chroma_core_managedtarget"@,
    {
        TableName("chroma_core_managedtarget")
    }
}

/// Record from the `chroma_core_ostpool` table.
#[derive(Debug)]
pub struct OstPoolRecord {
    pub id: u32,
    pub name: String,
    pub filesystem_id: u32,
    pub not_deleted: Option<bool>,
    pub content_type_id: Option<u32>,
}

impl Id for OstPoolRecord {
    fn id(&self) -> (r: u32)
        ensures
            r == self.id,
    {
        self.id
    }
}

impl NotDeleted for OstPoolRecord {
    open spec fn is_not_deleted(&self) -> bool {
        not_deleted_column(self.not_deleted)
    }

    fn not_deleted(&self) -> (r: bool) {
        not_deleted(self.not_deleted)
    }
}

impl Name for OstPoolRecord {
    fn table_name() -> (r: TableName<'static>)
        ensures
            r.0@ == "chroma_core_ostpool"@,
    {
        TableName("chroma_core_ostpool")
    }
}

impl crate::wire::Label for OstPoolRecord {
    fn label(&self) -> (r: &str)
        ensures
            r@ == self.name@,
    {
        self.name.as_str()
    }
}

/// Record from the `chroma_core_ostpool_osts` table.
#[derive(Debug)]
pub struct OstPoolOstsRecord {
    pub id: u32,
    pub ostpool_id: u32,
    pub managedost_id: u32,
}

impl Id for OstPoolOstsRecord {
    fn id(&self) -> (r: u32)
        ensures
            r == self.id,
    {
        self.id
    }
}

impl Name for OstPoolOstsRecord {
    fn table_name() -> (r: TableName<'static>)
        ensures
            r.0@ == "chroma_core_ostpool_osts"@,
    {
        TableName("chroma_core_ostpool_osts")
    }
}

/// Record from the `chroma_core_managedost` table.
#[derive(Debug)]
pub struct ManagedOstRecord {
    pub managedtarget_ptr_id: u32,
    pub index: u32,
    pub filesystem_id: u32,
}

impl Id for ManagedOstRecord {
    fn id(&self) -> (r: u32)
        ensures
            r == self.managedtarget_ptr_id,
    {
        self.managedtarget_ptr_id
    }
}

impl NotDeleted for ManagedOstRecord {
    open spec fn is_not_deleted(&self) -> bool {
        true
    }

    fn not_deleted(&self) -> (r: bool) {
        true
    }
}

impl Name for ManagedOstRecord {
    fn table_name() -> (r: TableName<'static>)
        ensures
            r.0@ == "chroma_core_managedost"@,
    {
        TableName("chroma_core_managedost")
    }
}

/// Record from the `chroma_core_managedmdt` table.
#[derive(Debug)]
pub struct ManagedMdtRecord {
    pub managedtarget_ptr_id: u32,
    pub index: u32,
    pub filesystem_id: u32,
}

impl Id for ManagedMdtRecord {
    fn id(&self) -> (r: u32)
        ensures
            r == self.managedtarget_ptr_id,
    {
        self.managedtarget_ptr_id
    }
}

impl NotDeleted for ManagedMdtRecord {
    open spec fn is_not_deleted(&self) -> bool {
        true
    }

    fn not_deleted(&self) -> (r: bool) {
        true
    }
}

impl Name for ManagedMdtRecord {
    fn table_name() -> (r: TableName<'static>)
        ensures
            r.0@ == "chroma_core_managedmdt"@,
    {
        TableName("chroma_core_managedmdt")
    }
}

/// Record from the `chroma_core_managedhost` table.
#[derive(Debug)]
pub struct ManagedHostRecord {
    pub id: u32,
    pub state_modified_at: String,
    pub state: String,
    pub immutable_state: bool,
    pub not_deleted: Option<bool>,
    pub content_type_id: Option<u32>,
    pub address: String,
    pub fqdn: String,
    pub nodename: String,
    pub boot_time: Option<String>,
    pub server_profile_id: Option<String>,
    pub needs_update: bool,
    pub install_method: String,
    pub properties: String,
    pub corosync_ring0: String,
}

impl Id for ManagedHostRecord {
    fn id(&self) -> (r: u32)
        ensures
            r == self.id,
    {
        self.id
    }
}

impl NotDeleted for ManagedHostRecord {
    open spec fn is_not_deleted(&self) -> bool {
        not_deleted_column(self.not_deleted)
    }

    fn not_deleted(&self) -> (r: bool) {
        not_deleted(self.not_deleted)
    }
}

impl Name for ManagedHostRecord {
    fn table_name() -> (r: TableName<'static>)
        ensures
            r.0@ == "chroma_core_managedhost"@,
    {
        TableName("chroma_core_managedhost")
    }
}

/// Record from the `chroma_core_alertstate` table.
#[derive(Debug)]
pub struct AlertStateRecord {
    pub id: u32,
    pub alert_item_type_id: Option<u32>,
    pub alert_item_id: Option<u32>,
    pub alert_type: String,
    pub begin: String,
    pub end: Option<String>,
    pub active: Option<bool>,
    pub dismissed: bool,
    pub severity: u32,
    pub record_type: String,
    pub variant: Option<String>,
    pub lustre_pid: Option<u32>,
    pub message: Option<String>,
}

impl AlertStateRecord {
    /// Whether the alert is active: its `active` column is set, whatever it holds.
    pub fn is_active(&self) -> (r: bool)
        ensures
            r == self.active is Some,
    {
        self.active.is_some()
    }
}

impl Id for AlertStateRecord {
    fn id(&self) -> (r: u32)
        ensures
            r == self.id,
    {
        self.id
    }
}

impl Name for AlertStateRecord {
    fn table_name() -> (r: TableName<'static>)
        ensures
            r.0@ == "chroma_core_alertstate"@,
    {
        TableName("chroma_core_alertstate")
    }
}

/// Record from the `chroma_core_stratagemconfiguration` table.
#[derive(Debug)]
pub struct StratagemConfiguration {
    pub id: u32,
    pub filesystem_id: u32,
    pub interval: u64,
    pub report_duration: Option<u64>,
    pub purge_duration: Option<u64>,
    pub immutable_state: bool,
    pub not_deleted: Option<bool>,
    pub state: String,
}

impl Id for StratagemConfiguration {
    fn id(&self) -> (r: u32)
        ensures
            r == self.id,
    {
        self.id
    }
}

impl NotDeleted for StratagemConfiguration {
    open spec fn is_not_deleted(&self) -> bool {
        not_deleted_column(self.not_deleted)
    }

    fn not_deleted(&self) -> (r: bool) {
        not_deleted(self.not_deleted)
    }
}

impl Name for StratagemConfiguration {
    fn table_name() -> (r: TableName<'static>)
        ensures
            r.0@ == "chroma_core_stratagemconfiguration"@,
    {
        TableName("chroma_core_stratagemconfiguration")
    }
}

/// Record from the `chroma_core_lnetconfiguration` table.
#[derive(Debug)]
pub struct LnetConfigurationRecord {
    pub id: u32,
    pub state: String,
    pub host_id: u32,
    pub immutable_state: bool,
    pub not_deleted: Option<bool>,
    pub content_type_id: Option<u32>,
}

impl Id for LnetConfigurationRecord {
    fn id(&self) -> (r: u32)
        ensures
            r == self.id,
    {
        self.id
    }
}

impl NotDeleted for LnetConfigurationRecord {
    open spec fn is_not_deleted(&self) -> bool {
        not_deleted_column(self.not_deleted)
    }

    fn not_deleted(&self) -> (r: bool) {
        not_deleted(self.not_deleted)
    }
}

impl Name for LnetConfigurationRecord {
    fn table_name() -> (r: TableName<'static>)
        ensures
            r.0@ == "chroma_core_lnetconfiguration"@,
    {
        TableName("chroma_core_lnetconfiguration")
    }
}

/// The id of a block or virtual device.
#[derive(Debug, PartialEq, Eq)]
pub struct DeviceId(pub String);

impl Clone for DeviceId {
    fn clone(&self) -> (r: Self)
        ensures
            r == *self,
    {
        DeviceId(self.0.clone())
    }
}

impl View for DeviceId {
    type V = Seq<char>;

    open spec fn view(&self) -> Seq<char> {
        self.0@
    }
}

/// The views of a list of device ids.
pub open spec fn ids_view(ids: Seq<DeviceId>) -> Seq<Seq<char>> {
    ids.map_values(|d: DeviceId| d@)
}

/// The view of an optional string.
pub open spec fn opt_string_view(x: Option<String>) -> Option<Seq<char>> {
    match x {
        Some(s) => Some(s@),
        None => None,
    }
}

/// A set of device ids.
#[derive(Debug, PartialEq, Eq)]
pub struct DeviceIds(pub Vec<DeviceId>);

impl View for DeviceIds {
    type V = Seq<Seq<char>>;

    open spec fn view(&self) -> Seq<Seq<char>> {
        ids_view(self.0@)
    }
}

/// The size of a device in bytes.
#[derive(Debug, PartialEq, Eq)]
pub struct Size(pub u64);

/// The current type of devices we support.
#[derive(Debug, Clone, Copy, PartialEq, Eq, Hash)]
pub enum DeviceType {
    ScsiDevice,
    Partition,
    MdRaid,
    Mpath,
    VolumeGroup,
    LogicalVolume,
    Zpool,
    Dataset,
}

/// The name under which a device type is written and stored.
pub open spec fn device_type_name(t: DeviceType) -> Seq<char> {
    match t {
        DeviceType::ScsiDevice => "scsi"@,
        DeviceType::Partition => "partition"@,
        DeviceType::MdRaid => "mdraid"@,
        DeviceType::Mpath => "mpath"@,
        DeviceType::VolumeGroup => "vg"@,
        DeviceType::LogicalVolume => "lv"@,
        DeviceType::Zpool => "zpool"@,
        DeviceType::Dataset => "dataset"@,
    }
}

/// The device type stored under `name`, if any.
pub open spec fn device_type_of_name(name: Seq<char>) -> Option<DeviceType> {
    if name == "scsi"@ {
        Some(DeviceType::ScsiDevice)
    } else if name == "partition"@ {
        Some(DeviceType::Partition)
    } else if name == "mdraid"@ {
        Some(DeviceType::MdRaid)
    } else if name == "mpath"@ {
        Some(DeviceType::Mpath)
    } else if name == "vg"@ {
        Some(DeviceType::VolumeGroup)
    } else if name == "lv"@ {
        Some(DeviceType::LogicalVolume)
    } else if name == "zpool"@ {
        Some(DeviceType::Zpool)
    } else if name == "dataset"@ {
        Some(DeviceType::Dataset)
    } else {
        None
    }
}

impl DeviceType {
    /// The name of the device type, as `Display` writes it.
    pub fn to_string(&self) -> (r: String)
        ensures
            r@ == device_type_name(*self),
    {
        let s = match self {
            DeviceType::ScsiDevice => "scsi",
            DeviceType::Partition => "partition",
            DeviceType::MdRaid => "mdraid",
            DeviceType::Mpath => "mpath",
            DeviceType::VolumeGroup => "vg",
            DeviceType::LogicalVolume => "lv",
            DeviceType::Zpool => "zpool",
            DeviceType::Dataset => "dataset",
        };
        String::from_str(s)
    }

    /// The device type stored under `name`; `None` for an unknown name.
    pub fn from_name(name: &str) -> (r: Option<DeviceType>)
        ensures
            r == device_type_of_name(name@),
    {
        if str_eq(name, "scsi") {
            Some(DeviceType::ScsiDevice)
        } else if str_eq(name, "partition") {
            Some(DeviceType::Partition)
        } else if str_eq(name, "mdraid") {
            Some(DeviceType::MdRaid)
        } else if str_eq(name, "mpath") {
            Some(DeviceType::Mpath)
        } else if str_eq(name, "vg") {
            Some(DeviceType::VolumeGroup)
        } else if str_eq(name, "lv") {
            Some(DeviceType::LogicalVolume)
        } else if str_eq(name, "zpool") {
            Some(DeviceType::Zpool)
        } else if str_eq(name, "dataset") {
            Some(DeviceType::Dataset)
        } else {
            None
        }
    }
}

/// Reading back the name a device type is stored under gives that device type.
pub proof fn lemma_device_type_name_roundtrip(t: DeviceType)
    ensures
        device_type_of_name(device_type_name(t)) == Some(t),
{
    reveal_strlit("scsi");
    reveal_strlit("partition");
    reveal_strlit("mdraid");
    reveal_strlit("mpath");
    reveal_strlit("vg");
    reveal_strlit("lv");
    reveal_strlit("zpool");
    reveal_strlit("dataset");
    let n = device_type_name(t);
    match t {
        DeviceType::ScsiDevice => {},
        DeviceType::Partition => {
            assert(n.len() != "scsi"@.len());
        },
        DeviceType::MdRaid => {
            assert(n.len() != "scsi"@.len());
            assert(n.len() != "partition"@.len());
        },
        DeviceType::Mpath => {
            assert(n.len() != "scsi"@.len());
            assert(n.len() != "partition"@.len());
            assert(n.len() != "mdraid"@.len());
        },
        DeviceType::VolumeGroup => {
            assert(n.len() != "scsi"@.len());
            assert(n.len() != "partition"@.len());
            assert(n.len() != "mdraid"@.len());
            assert(n.len() != "mpath"@.len());
        },
        DeviceType::LogicalVolume => {
            assert(n.len() != "scsi"@.len());
            assert(n.len() != "partition"@.len());
            assert(n.len() != "mdraid"@.len());
            assert(n.len() != "mpath"@.len());
            assert(n[0] != "vg"@[0]);
        },
        DeviceType::Zpool => {
            assert(n.len() != "scsi"@.len());
            assert(n.len() != "partition"@.len());
            assert(n.len() != "mdraid"@.len());
            assert(n[0] != "mpath"@[0]);
            assert(n.len() != "vg"@.len());
            assert(n.len() != "lv"@.len());
        },
        DeviceType::Dataset => {
            assert(n.len() != "scsi"@.len());
            assert(n.len() != "partition"@.len());
            assert(n.len() != "mdraid"@.len());
            assert(n.len() != "mpath"@.len());
            assert(n.len() != "vg"@.len());
            assert(n.len() != "lv"@.len());
            assert(n.len() != "zpool"@.len());
        },
    }
}

/// The name each device type is stored under, and the device type each stored name reads
/// back as: `scsi`, `partition`, `mdraid`, `mpath`, `vg`, `lv`, `zpool` and `dataset`.
pub proof fn lemma_device_type_names()
    ensures
        device_type_name(DeviceType::ScsiDevice) == "scsi"@,
        device_type_name(DeviceType::Partition) == "partition"@,
        device_type_name(DeviceType::MdRaid) == "mdraid"@,
        device_type_name(DeviceType::Mpath) == "mpath"@,
        device_type_name(DeviceType::VolumeGroup) == "vg"@,
        device_type_name(DeviceType::LogicalVolume) == "lv"@,
        device_type_name(DeviceType::Zpool) == "zpool"@,
        device_type_name(DeviceType::Dataset) == "dataset"@,
        device_type_of_name("scsi"@) == Some(DeviceType::ScsiDevice),
        device_type_of_name("partition"@) == Some(DeviceType::Partition),
        device_type_of_name("mdraid"@) == Some(DeviceType::MdRaid),
        device_type_of_name("mpath"@) == Some(DeviceType::Mpath),
        device_type_of_name("vg"@) == Some(DeviceType::VolumeGroup),
        device_type_of_name("lv"@) == Some(DeviceType::LogicalVolume),
        device_type_of_name("zpool"@) == Some(DeviceType::Zpool),
        device_type_of_name("dataset"@) == Some(DeviceType::Dataset),
{
    lemma_device_type_name_roundtrip(DeviceType::ScsiDevice);
    lemma_device_type_name_roundtrip(DeviceType::Partition);
    lemma_device_type_name_roundtrip(DeviceType::MdRaid);
    lemma_device_type_name_roundtrip(DeviceType::Mpath);
    lemma_device_type_name_roundtrip(DeviceType::VolumeGroup);
    lemma_device_type_name_roundtrip(DeviceType::LogicalVolume);
    lemma_device_type_name_roundtrip(DeviceType::Zpool);
    lemma_device_type_name_roundtrip(DeviceType::Dataset);
}

/// A device (block or virtual); these are unique per cluster.
#[derive(Debug, PartialEq, Eq)]
pub struct Device {
    pub id: DeviceId,
    pub size: Size,
    pub usable_for_lustre: bool,
    pub device_type: DeviceType,
    pub parents: DeviceIds,
    pub children: DeviceIds,
}

/// What the contracts know of a `Device`.
pub struct DeviceView {
    pub id: Seq<char>,
    pub size: u64,
    pub usable_for_lustre: bool,
    pub device_type: DeviceType,
    pub parents: Seq<Seq<char>>,
    pub children: Seq<Seq<char>>,
}

impl View for Device {
    type V = DeviceView;

    open spec fn view(&self) -> DeviceView {
        DeviceView {
            id: self.id@,
            size: self.size.0,
            usable_for_lustre: self.usable_for_lustre,
            device_type: self.device_type,
            parents: self.parents@,
            children: self.children@,
        }
    }
}

/// The paths through which a device is reached on a host.
#[derive(Debug, PartialEq, Eq)]
pub struct Paths(pub Vec<String>);

impl View for Paths {
    type V = Seq<Seq<char>>;

    open spec fn view(&self) -> Seq<Seq<char>> {
        crate::text::strings_view(self.0@)
    }
}

/// Where a device is mounted, if it is.
#[derive(Debug, PartialEq, Eq)]
pub struct MountPath(pub Option<String>);

impl View for MountPath {
    type V = Option<Seq<char>>;

    open spec fn view(&self) -> Option<Seq<char>> {
        opt_string_view(self.0)
    }
}

/// A pointer to a `Device` present on a host.
/// Stores mount_path and paths to reach the pointed to `Device`.
#[derive(Debug, PartialEq, Eq)]
pub struct DeviceHost {
    pub device_id: DeviceId,
    pub fqdn: Fqdn,
    pub local: bool,
    pub paths: Paths,
    pub mount_path: MountPath,
    pub fs_type: Option<String>,
    pub fs_label: Option<String>,
    pub fs_uuid: Option<String>,
}

/// What the contracts know of a `DeviceHost`.
pub struct DeviceHostView {
    pub device_id: Seq<char>,
    pub fqdn: Seq<char>,
    pub local: bool,
    pub paths: Seq<Seq<char>>,
    pub mount_path: Option<Seq<char>>,
    pub fs_type: Option<Seq<char>>,
    pub fs_label: Option<Seq<char>>,
    pub fs_uuid: Option<Seq<char>>,
}

impl View for DeviceHost {
    type V = DeviceHostView;

    open spec fn view(&self) -> DeviceHostView {
        DeviceHostView {
            device_id: self.device_id@,
            fqdn: self.fqdn@,
            local: self.local,
            paths: self.paths@,
            mount_path: self.mount_path@,
            fs_type: opt_string_view(self.fs_type),
            fs_label: opt_string_view(self.fs_label),
            fs_uuid: opt_string_view(self.fs_uuid),
        }
    }
}

impl Name for Device {
    fn table_name() -> (r: TableName<'static>)
        ensures
            r.0@ == "chroma_core_device"@,
    {
        TableName("chroma_core_device")
    }
}

impl Name for DeviceHost {
    fn table_name() -> (r: TableName<'static>)
        ensures
            r.0@ == "chroma_core_devicehost"@,
    {
        TableName("chroma_core_devicehost")
    }
}

} // verus!
