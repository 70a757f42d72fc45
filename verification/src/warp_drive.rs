//! Identifiers of the records that the warp drive service streams to its clients.

use vstd::prelude::*;

verus! {

/// The id of a record, tagged with the kind of the record.
#[derive(Clone, Copy, Debug, Hash, PartialEq, Eq)]
pub enum RecordId {
    ActiveAlert(u32),
    Filesystem(u32),
    Host(u32),
    ManagedTargetMount(u32),
    OstPool(u32),
    OstPoolOsts(u32),
    StratagemConfig(u32),
    Target(u32),
    Volume(u32),
    VolumeNode(u32),
    LnetConfiguration(u32),
}

/// The numeric id held by a record id, whatever its kind.
pub open spec fn record_id_value(x: RecordId) -> u32 {
    match x {
        RecordId::ActiveAlert(v) => v,
        RecordId::Filesystem(v) => v,
        RecordId::Host(v) => v,
        RecordId::ManagedTargetMount(v) => v,
        RecordId::OstPool(v) => v,
        RecordId::OstPoolOsts(v) => v,
        RecordId::StratagemConfig(v) => v,
        RecordId::Target(v) => v,
        RecordId::Volume(v) => v,
        RecordId::VolumeNode(v) => v,
        RecordId::LnetConfiguration(v) => v,
    }
}

impl RecordId {
    /// The numeric id, as `Deref` gives it.
    pub fn id(&self) -> (r: u32)
        ensures
            r == record_id_value(*self),
    {
        match self {
            RecordId::ActiveAlert(x) | RecordId::Filesystem(x) | RecordId::Host(x)
            | RecordId::ManagedTargetMount(x) | RecordId::OstPool(x) | RecordId::OstPoolOsts(x)
            | RecordId::StratagemConfig(x) | RecordId::Target(x) | RecordId::Volume(x)
            | RecordId::VolumeNode(x) | RecordId::LnetConfiguration(x) => *x,
        }
    }
}

} // verus!
