//! Placement of virtual devices (md raids, volume groups, zpools and
//! datasets) on the hosts where all of their parent devices are present.

use crate::db::{
    Device, DeviceHost, DeviceHostView, DeviceId, DeviceIds, DeviceType, DeviceView, MountPath,
    Paths,
};
use crate::text::{clone_opt_string, clone_strings};
use crate::wire::Fqdn;
use vstd::prelude::*;

verus! {

/// A change to apply to a stored record.
#[derive(Debug, PartialEq, Eq)]
pub enum Change<T> {
    Add(T),
    Update(T),
    Remove(T),
}

impl<T: View> View for Change<T> {
    type V = Change<T::V>;

    open spec fn view(&self) -> Change<T::V> {
        match self {
            Change::Add(x) => Change::Add(x@),
            Change::Update(x) => Change::Update(x@),
            Change::Remove(x) => Change::Remove(x@),
        }
    }
}

/// The devices known on the cluster, keyed by their id.
pub struct Devices {
    items: Vec<Device>,
}

/// The key under which a device host is stored: the device's id and the host's name.
pub type HostKey = (Seq<char>, Seq<char>);

impl Devices {
    #[verifier::type_invariant]
    closed spec fn wf(self) -> bool {
        forall|i: int, j: int|
            0 <= i < j < self.items@.len() ==> self.items@[i].id@ != self.items@[j].id@
    }

    /// The position of the device with id `k`.
    closed spec fn at(self, k: Seq<char>, i: int) -> bool {
        0 <= i < self.items@.len() && self.items@[i].id@ == k
    }

    /// An empty set of devices.
    pub fn new() -> (r: Devices)
        ensures
            r@ == Map::<Seq<char>, DeviceView>::empty(),
    {
        let r = Devices { items: Vec::new() };
        assert(r@ =~= Map::<Seq<char>, DeviceView>::empty());
        r
    }

    /// The number of devices.
    pub fn len(&self) -> (n: usize)
        ensures
            n == self@.len(),
    {
        proof {
            use_type_invariant(self);
            self.lemma_len();
        }
        self.items.len()
    }

    proof fn lemma_at(self, i: int)
        requires
            self.wf(),
            0 <= i < self.items@.len(),
        ensures
            self@.contains_key(self.items@[i].id@),
            self@[self.items@[i].id@] == self.items@[i]@,
    {
        let k = self.items@[i].id@;
        assert(self.at(k, i));
        let j = choose|j: int| self.at(k, j);
        assert(j == i);
    }

    proof fn lemma_len(self)
        requires
            self.wf(),
        ensures
            self@.dom().finite(),
            self@.len() == self.items@.len(),
        decreases self.items@.len(),
    {
        let ks = self.items@.map_values(|d: Device| d.id@);
        assert forall|i: int, j: int| 0 <= i < j < ks.len() implies ks[i] != ks[j] by {}
        assert(ks.no_duplicates());
        ks.unique_seq_to_set();
        assert(self@.dom() =~= ks.to_set()) by {
            assert forall|k: Seq<char>| self@.dom().contains(k) implies ks.to_set().contains(k) by {
                let i = choose|i: int| self.at(k, i);
                assert(ks[i] == k);
            }
            assert forall|k: Seq<char>| ks.to_set().contains(k) implies self@.dom().contains(k) by {
                let i = choose|i: int| 0 <= i < ks.len() && ks[i] == k;
                assert(self.at(k, i));
            }
        }
        vstd::seq_lib::seq_to_set_is_finite(ks);
    }

    fn index_of(&self, id: &DeviceId) -> (r: Option<usize>)
        ensures
            match r {
                Some(i) => self.at(id@, i as int),
                None => !self@.contains_key(id@),
            },
    {
        let mut i: usize = 0;
        while i < self.items.len()
            invariant
                i <= self.items@.len(),
                forall|j: int| 0 <= j < i ==> self.items@[j].id@ != id@,
            decreases self.items@.len() - i,
        {
            if self.items[i].id.0 == id.0 {
                return Some(i);
            }
            i = i + 1;
        }
        None
    }

    /// The device with the given id, if there is one.
    pub fn get(&self, id: &DeviceId) -> (r: Option<&Device>)
        ensures
            r is Some <==> self@.contains_key(id@),
            r matches Some(d) ==> d@ == self@[id@],
    {
        proof {
            use_type_invariant(self);
        }
        match self.index_of(id) {
            Some(i) => {
                proof {
                    self.lemma_at(i as int);
                }
                Some(&self.items[i])
            },
            None => None,
        }
    }

    /// Stores a device, replacing the one with the same id.
    pub fn insert(&mut self, d: Device)
        ensures
            final(self)@ == old(self)@.insert(d.id@, d@),
    {
        proof {
            use_type_invariant(&*self);
        }
        let ghost old_items = self.items@;
        let ghost k = d.id@;
        let ghost dv = d@;
        match self.index_of(&d.id) {
            Some(i) => {
                let mut items = Vec::new();
                std::mem::swap(&mut items, &mut self.items);
                items.set(i, d);
                self.items = items;
                proof {
                    assert forall|q: Seq<char>| #[trigger] self@.contains_key(q) == old(self)@.insert(k, dv).contains_key(q) by {
                        if self@.contains_key(q) {
                            let j = choose|j: int| self.at(q, j);
                            if j != i {
                                assert(old(self).at(q, j));
                            }
                        }
                        if old(self)@.contains_key(q) && q != k {
                            let j = choose|j: int| old(self).at(q, j);
                            assert(self.at(q, j));
                        }
                        if q == k {
                            assert(self.at(q, i as int));
                        }
                    }
                    assert forall|q: Seq<char>| self@.contains_key(q) implies #[trigger] self@[q] == old(self)@.insert(k, dv)[q] by {
                        let j = choose|j: int| self.at(q, j);
                        self.lemma_at(j);
                        if j != i {
                            old(self).lemma_at(j);
                        }
                    }
                    assert(self@ =~= old(self)@.insert(k, dv));
                }
            },
            None => {
                let mut items = Vec::new();
                std::mem::swap(&mut items, &mut self.items);
                items.push(d);
                proof {
                    assert forall|j: int| 0 <= j < old_items.len() implies old_items[j].id@ != k by {
                        if old_items[j].id@ == k {
                            assert(old(self).at(k, j));
                        }
                    }
                    assert(items@ == old_items.push(d));
                }
                self.items = items;
                proof {
                    let n = old_items.len() as int;
                    assert forall|q: Seq<char>| #[trigger] self@.contains_key(q) == old(self)@.insert(k, dv).contains_key(q) by {
                        if self@.contains_key(q) {
                            let j = choose|j: int| self.at(q, j);
                            if j != n {
                                assert(old(self).at(q, j));
                            }
                        }
                        if old(self)@.contains_key(q) {
                            let j = choose|j: int| old(self).at(q, j);
                            assert(self.at(q, j));
                        }
                        if q == k {
                            assert(self.at(q, n));
                        }
                    }
                    assert forall|q: Seq<char>| self@.contains_key(q) implies #[trigger] self@[q] == old(self)@.insert(k, dv)[q] by {
                        let j = choose|j: int| self.at(q, j);
                        self.lemma_at(j);
                        if j != n {
                            old(self).lemma_at(j);
                        }
                    }
                    assert(self@ =~= old(self)@.insert(k, dv));
                }
            },
        }
    }
}

impl Devices {
    /// The device stored under a key has that key as its id.
    pub proof fn lemma_key_is_id(&self, k: Seq<char>)
        requires
            self@.contains_key(k),
        ensures
            self@[k].id == k,
    {
        let i = choose|i: int| self.at(k, i);
        assert(self.at(k, i));
    }
}

impl View for Devices {
    type V = Map<Seq<char>, DeviceView>;

    closed spec fn view(&self) -> Map<Seq<char>, DeviceView> {
        Map::new(
            |k: Seq<char>| exists|i: int| self.at(k, i),
            |k: Seq<char>| self.items@[choose|i: int| self.at(k, i)]@,
        )
    }
}

/// The key of a stored device host.
pub open spec fn host_key(h: DeviceHost) -> HostKey {
    (h.device_id@, h.fqdn@)
}

/// The device hosts known on the cluster, keyed by device id and host name.
pub struct DeviceHosts {
    items: Vec<DeviceHost>,
}

impl DeviceHosts {
    #[verifier::type_invariant]
    closed spec fn wf(self) -> bool {
        forall|i: int, j: int|
            0 <= i < j < self.items@.len() ==> host_key(self.items@[i]) != host_key(self.items@[j])
    }

    closed spec fn at(self, k: HostKey, i: int) -> bool {
        0 <= i < self.items@.len() && host_key(self.items@[i]) == k
    }

    /// The host names of the entries before position `n`.
    closed spec fn hosts_before(self, n: int) -> Set<Seq<char>> {
        Set::new(|h: Seq<char>| exists|i: int| 0 <= i < n && i < self.items@.len() && self.items@[i].fqdn@ == h)
    }

    /// An empty set of device hosts.
    pub fn new() -> (r: DeviceHosts)
        ensures
            r@ == Map::<HostKey, DeviceHostView>::empty(),
    {
        let r = DeviceHosts { items: Vec::new() };
        assert(r@ =~= Map::<HostKey, DeviceHostView>::empty());
        r
    }

    /// The number of device hosts.
    pub fn len(&self) -> (n: usize)
        ensures
            n == self@.len(),
    {
        proof {
            use_type_invariant(self);
            self.lemma_len();
        }
        self.items.len()
    }

    proof fn lemma_at(self, i: int)
        requires
            self.wf(),
            0 <= i < self.items@.len(),
        ensures
            self@.contains_key(host_key(self.items@[i])),
            self@[host_key(self.items@[i])] == self.items@[i]@,
    {
        let k = host_key(self.items@[i]);
        assert(self.at(k, i));
        let j = choose|j: int| self.at(k, j);
        assert(j == i);
    }

    proof fn lemma_len(self)
        requires
            self.wf(),
        ensures
            self@.dom().finite(),
            self@.len() == self.items@.len(),
    {
        let ks = self.items@.map_values(|d: DeviceHost| host_key(d));
        assert forall|i: int, j: int| 0 <= i < j < ks.len() implies ks[i] != ks[j] by {}
        assert(ks.no_duplicates());
        ks.unique_seq_to_set();
        assert(self@.dom() =~= ks.to_set()) by {
            assert forall|k: HostKey| self@.dom().contains(k) implies ks.to_set().contains(k) by {
                let i = choose|i: int| self.at(k, i);
                assert(ks[i] == k);
            }
            assert forall|k: HostKey| ks.to_set().contains(k) implies self@.dom().contains(k) by {
                let i = choose|i: int| 0 <= i < ks.len() && ks[i] == k;
                assert(self.at(k, i));
            }
        }
        vstd::seq_lib::seq_to_set_is_finite(ks);
    }

    fn index_of(&self, id: &DeviceId, fqdn: &Fqdn) -> (r: Option<usize>)
        ensures
            match r {
                Some(i) => self.at((id@, fqdn@), i as int),
                None => !self@.contains_key((id@, fqdn@)),
            },
    {
        let mut i: usize = 0;
        while i < self.items.len()
            invariant
                i <= self.items@.len(),
                forall|j: int| 0 <= j < i ==> host_key(self.items@[j]) != (id@, fqdn@),
            decreases self.items@.len() - i,
        {
            if self.items[i].device_id.0 == id.0 && self.items[i].fqdn.0 == fqdn.0 {
                return Some(i);
            }
            i = i + 1;
        }
        None
    }

    /// Whether a device host is stored for the device on the host.
    pub fn contains_key(&self, id: &DeviceId, fqdn: &Fqdn) -> (r: bool)
        ensures
            r == self@.contains_key((id@, fqdn@)),
    {
        self.index_of(id, fqdn).is_some()
    }

    /// The device host stored for the device on the host, if there is one.
    pub fn get(&self, id: &DeviceId, fqdn: &Fqdn) -> (r: Option<&DeviceHost>)
        ensures
            r is Some <==> self@.contains_key((id@, fqdn@)),
            r matches Some(h) ==> h@ == self@[(id@, fqdn@)],
    {
        proof {
            use_type_invariant(self);
        }
        match self.index_of(id, fqdn) {
            Some(i) => {
                proof {
                    self.lemma_at(i as int);
                }
                Some(&self.items[i])
            },
            None => None,
        }
    }

    /// Stores a device host, replacing the one with the same device id and host name.
    pub fn insert(&mut self, d: DeviceHost)
        ensures
            final(self)@ == old(self)@.insert(host_key(d), d@),
    {
        proof {
            use_type_invariant(&*self);
        }
        let ghost old_items = self.items@;
        let ghost k = host_key(d);
        let ghost dv = d@;
        match self.index_of(&d.device_id, &d.fqdn) {
            Some(i) => {
                let mut items = Vec::new();
                std::mem::swap(&mut items, &mut self.items);
                items.set(i, d);
                self.items = items;
                proof {
                    assert forall|q: HostKey| #[trigger] self@.contains_key(q) == old(self)@.insert(k, dv).contains_key(q) by {
                        if self@.contains_key(q) {
                            let j = choose|j: int| self.at(q, j);
                            if j != i {
                                assert(old(self).at(q, j));
                            }
                        }
                        if old(self)@.contains_key(q) && q != k {
                            let j = choose|j: int| old(self).at(q, j);
                            assert(self.at(q, j));
                        }
                        if q == k {
                            assert(self.at(q, i as int));
                        }
                    }
                    assert forall|q: HostKey| self@.contains_key(q) implies #[trigger] self@[q] == old(self)@.insert(k, dv)[q] by {
                        let j = choose|j: int| self.at(q, j);
                        self.lemma_at(j);
                        if j != i {
                            old(self).lemma_at(j);
                        }
                    }
                    assert(self@ =~= old(self)@.insert(k, dv));
                }
            },
            None => {
                let mut items = Vec::new();
                std::mem::swap(&mut items, &mut self.items);
                items.push(d);
                proof {
                    assert forall|j: int| 0 <= j < old_items.len() implies host_key(old_items[j]) != k by {
                        if host_key(old_items[j]) == k {
                            assert(old(self).at(k, j));
                        }
                    }
                    assert(items@ == old_items.push(d));
                }
                self.items = items;
                proof {
                    let n = old_items.len() as int;
                    assert forall|q: HostKey| #[trigger] self@.contains_key(q) == old(self)@.insert(k, dv).contains_key(q) by {
                        if self@.contains_key(q) {
                            let j = choose|j: int| self.at(q, j);
                            if j != n {
                                assert(old(self).at(q, j));
                            }
                        }
                        if old(self)@.contains_key(q) {
                            let j = choose|j: int| old(self).at(q, j);
                            assert(self.at(q, j));
                        }
                        if q == k {
                            assert(self.at(q, n));
                        }
                    }
                    assert forall|q: HostKey| self@.contains_key(q) implies #[trigger] self@[q] == old(self)@.insert(k, dv)[q] by {
                        let j = choose|j: int| self.at(q, j);
                        self.lemma_at(j);
                        if j != n {
                            old(self).lemma_at(j);
                        }
                    }
                    assert(self@ =~= old(self)@.insert(k, dv));
                }
            },
        }
    }
}

impl DeviceHosts {
    /// The device host stored under a key is that of the key's device and host.
    pub proof fn lemma_key_is_device_and_host(&self, k: HostKey)
        requires
            self@.contains_key(k),
        ensures
            self@[k].device_id == k.0,
            self@[k].fqdn == k.1,
    {
        let i = choose|i: int| self.at(k, i);
        assert(self.at(k, i));
    }
}

impl View for DeviceHosts {
    type V = Map<HostKey, DeviceHostView>;

    closed spec fn view(&self) -> Map<HostKey, DeviceHostView> {
        Map::new(
            |k: HostKey| exists|i: int| self.at(k, i),
            |k: HostKey| self.items@[choose|i: int| self.at(k, i)]@,
        )
    }
}

/// One computed change, with the key it is stored under.
pub type ChangeEntry = ((DeviceId, Fqdn), Change<DeviceHost>);

/// The key of a computed change.
pub open spec fn entry_key(e: ChangeEntry) -> HostKey {
    (e.0.0@, e.0.1@)
}

/// Changes to device hosts, keyed by device id and host name.
pub struct DeviceHostChanges {
    items: Vec<ChangeEntry>,
}

impl DeviceHostChanges {
    #[verifier::type_invariant]
    closed spec fn wf(self) -> bool {
        forall|i: int, j: int|
            0 <= i < j < self.items@.len() ==> entry_key(self.items@[i]) != entry_key(self.items@[j])
    }

    closed spec fn at(self, k: HostKey, i: int) -> bool {
        0 <= i < self.items@.len() && entry_key(self.items@[i]) == k
    }

    /// No changes.
    pub fn new() -> (r: DeviceHostChanges)
        ensures
            r@ == Map::<HostKey, Change<DeviceHostView>>::empty(),
    {
        let r = DeviceHostChanges { items: Vec::new() };
        assert(r@ =~= Map::<HostKey, Change<DeviceHostView>>::empty());
        r
    }

    proof fn lemma_at(self, i: int)
        requires
            self.wf(),
            0 <= i < self.items@.len(),
        ensures
            self@.contains_key(entry_key(self.items@[i])),
            self@[entry_key(self.items@[i])] == self.items@[i].1@,
    {
        let k = entry_key(self.items@[i]);
        assert(self.at(k, i));
        let j = choose|j: int| self.at(k, j);
        assert(j == i);
    }

    proof fn lemma_len(self)
        requires
            self.wf(),
        ensures
            self@.dom().finite(),
            self@.len() == self.items@.len(),
    {
        let ks = self.items@.map_values(|e: ChangeEntry| entry_key(e));
        assert forall|i: int, j: int| 0 <= i < j < ks.len() implies ks[i] != ks[j] by {}
        assert(ks.no_duplicates());
        ks.unique_seq_to_set();
        assert(self@.dom() =~= ks.to_set()) by {
            assert forall|k: HostKey| self@.dom().contains(k) implies ks.to_set().contains(k) by {
                let i = choose|i: int| self.at(k, i);
                assert(ks[i] == k);
            }
            assert forall|k: HostKey| ks.to_set().contains(k) implies self@.dom().contains(k) by {
                let i = choose|i: int| 0 <= i < ks.len() && ks[i] == k;
                assert(self.at(k, i));
            }
        }
        vstd::seq_lib::seq_to_set_is_finite(ks);
    }

    /// The number of changes.
    pub fn len(&self) -> (n: usize)
        ensures
            n == self@.len(),
    {
        proof {
            use_type_invariant(self);
            self.lemma_len();
        }
        self.items.len()
    }

    /// The change computed for the device on the host, if there is one.
    pub fn get(&self, id: &DeviceId, fqdn: &Fqdn) -> (r: Option<&Change<DeviceHost>>)
        ensures
            r is Some <==> self@.contains_key((id@, fqdn@)),
            r matches Some(c) ==> c@ == self@[(id@, fqdn@)],
    {
        proof {
            use_type_invariant(self);
        }
        let mut i: usize = 0;
        while i < self.items.len()
            invariant
                self.wf(),
                i <= self.items@.len(),
                forall|j: int| 0 <= j < i ==> entry_key(self.items@[j]) != (id@, fqdn@),
            decreases self.items@.len() - i,
        {
            if (self.items[i].0).0.0 == id.0 && (self.items[i].0).1.0 == fqdn.0 {
                proof {
                    self.lemma_at(i as int);
                }
                return Some(&self.items[i].1);
            }
            i = i + 1;
        }
        None
    }

    /// Records a change under a key that holds none yet.
    fn add(&mut self, id: DeviceId, fqdn: Fqdn, c: Change<DeviceHost>)
        requires
            !old(self)@.contains_key((id@, fqdn@)),
        ensures
            final(self)@ == old(self)@.insert((id@, fqdn@), c@),
    {
        proof {
            use_type_invariant(&*self);
        }
        let ghost old_items = self.items@;
        let ghost k = (id@, fqdn@);
        let ghost cv = c@;
        let mut items = Vec::new();
        std::mem::swap(&mut items, &mut self.items);
        items.push(((id, fqdn), c));
        proof {
            assert forall|j: int| 0 <= j < old_items.len() implies entry_key(old_items[j]) != k by {
                if entry_key(old_items[j]) == k {
                    assert(old(self).at(k, j));
                }
            }
        }
        self.items = items;
        proof {
            let n = old_items.len() as int;
            assert(entry_key(self.items@[n]) == k);
            assert forall|q: HostKey| #[trigger] self@.contains_key(q) == old(self)@.insert(k, cv).contains_key(q) by {
                if self@.contains_key(q) {
                    let j = choose|j: int| self.at(q, j);
                    if j != n {
                        assert(old(self).at(q, j));
                    }
                }
                if old(self)@.contains_key(q) {
                    let j = choose|j: int| old(self).at(q, j);
                    assert(self.at(q, j));
                }
                if q == k {
                    assert(self.at(q, n));
                }
            }
            assert forall|q: HostKey| self@.contains_key(q) implies #[trigger] self@[q] == old(self)@.insert(k, cv)[q] by {
                let j = choose|j: int| self.at(q, j);
                self.lemma_at(j);
                if j != n {
                    old(self).lemma_at(j);
                }
            }
            assert(self@ =~= old(self)@.insert(k, cv));
        }
    }

    /// The changes as a list of keyed entries, each key once, in the order of their keys:
    /// by device id, then by host name.
    pub fn into_entries(self) -> (r: Vec<ChangeEntry>)
        ensures
            r@.len() == self@.len(),
            forall|i: int, j: int|
                0 <= i < j < r@.len() ==> key_lt(entry_key(#[trigger] r@[i]), entry_key(#[trigger] r@[j])),
            forall|i: int, j: int|
                0 <= i < j < r@.len() ==> entry_key(r@[i]) != entry_key(r@[j]),
            forall|i: int|
                0 <= i < r@.len() ==> self@.contains_key(entry_key(#[trigger] r@[i]))
                    && self@[entry_key(r@[i])] == r@[i].1@,
            forall|k: HostKey|
                self@.contains_key(k) ==> exists|i: int| 0 <= i < r@.len() && entry_key(r@[i]) == k,
    {
        proof {
            use_type_invariant(&self);
            self.lemma_len();
            assert forall|i: int| 0 <= i < self.items@.len() implies self@.contains_key(entry_key(#[trigger] self.items@[i]))
                && self@[entry_key(self.items@[i])] == self.items@[i].1@ by {
                self.lemma_at(i);
            }
            assert forall|k: HostKey| self@.contains_key(k) implies exists|i: int| 0 <= i < self.items@.len() && entry_key(self.items@[i]) == k by {
                let i = choose|i: int| self.at(k, i);
                assert(self.at(k, i));
            }
        }
        let ghost orig = self.items@;
        let mut items = self.items;
        let mut r: Vec<ChangeEntry> = Vec::new();
        assert(orig.take(orig.len() as int) =~= orig);
        while items.len() > 0
            invariant
                items@ == orig.take(items@.len() as int),
                items@.len() <= orig.len(),
                r@.len() + items@.len() == orig.len(),
                forall|i: int, j: int| 0 <= i < j < orig.len() ==> entry_key(orig[i]) != entry_key(orig[j]),
                forall|i: int, j: int|
                    0 <= i < j < r@.len() ==> key_lt(entry_key(#[trigger] r@[i]), entry_key(#[trigger] r@[j])),
                forall|k: int|
                    0 <= k < r@.len() ==> exists|j: int| items@.len() <= j < orig.len() && #[trigger] r@[k] == orig[j],
                forall|j: int| items@.len() <= j < orig.len() ==> r@.contains(#[trigger] orig[j]),
            decreases items@.len(),
        {
            let ghost n = items@.len() - 1;
            let e = items.pop().unwrap();
            proof {
                assert(items@ =~= orig.take(n));
                assert(e == orig[n]);
                assert forall|k: int| 0 <= k < r@.len() implies entry_key(r@[k]) != entry_key(e) by {
                    let j = choose|j: int| n + 1 <= j < orig.len() && r@[k] == orig[j];
                }
            }
            let mut p: usize = 0;
            let mut done = false;
            while !done && p < r.len()
                invariant
                    p <= r@.len(),
                    forall|q: int| 0 <= q < p ==> key_lt(entry_key(#[trigger] r@[q]), entry_key(e)),
                    done ==> p < r@.len() && !key_lt(entry_key(r@[p as int]), entry_key(e)),
                decreases (r@.len() - p) * 2 + (if done { 0int } else { 1int }),
            {
                if entry_key_lt(&r[p], &e) {
                    p = p + 1;
                } else {
                    done = true;
                }
            }
            let ghost before = r@;
            proof {
                if p < before.len() {
                    lemma_key_order(entry_key(before[p as int]), entry_key(e), entry_key(e));
                    assert forall|q: int| p <= q < before.len() implies key_lt(entry_key(e), entry_key(#[trigger] before[q])) by {
                        if q > p {
                            assert(key_lt(entry_key(before[p as int]), entry_key(before[q])));
                            lemma_key_order(entry_key(e), entry_key(before[p as int]), entry_key(before[q]));
                        }
                    }
                }
            }
            r.insert(p, e);
            proof {
                assert(r@ == before.insert(p as int, e));
                assert forall|i: int, j: int| 0 <= i < j < r@.len() implies key_lt(entry_key(#[trigger] r@[i]), entry_key(#[trigger] r@[j])) by {
                    if i < p && j < p {
                        assert(r@[i] == before[i] && r@[j] == before[j]);
                    } else if i < p && j == p {
                    } else if i < p {
                        assert(r@[i] == before[i] && r@[j] == before[j - 1]);
                        assert(key_lt(entry_key(before[i]), entry_key(e)));
                        assert(key_lt(entry_key(e), entry_key(before[j - 1])));
                        lemma_key_order(entry_key(before[i]), entry_key(e), entry_key(before[j - 1]));
                    } else if i == p {
                        assert(r@[j] == before[j - 1]);
                    } else {
                        assert(r@[i] == before[i - 1] && r@[j] == before[j - 1]);
                    }
                }
                assert forall|k: int| 0 <= k < r@.len() implies exists|j: int| n <= j < orig.len() && #[trigger] r@[k] == orig[j] by {
                    if k < p {
                        assert(r@[k] == before[k]);
                    } else if k == p {
                        assert(r@[k] == orig[n]);
                    } else {
                        assert(r@[k] == before[k - 1]);
                    }
                }
                assert forall|j: int| n <= j < orig.len() implies r@.contains(#[trigger] orig[j]) by {
                    if j == n {
                        assert(r@[p as int] == orig[n]);
                    } else {
                        let k = choose|k: int| 0 <= k < before.len() && before[k] == orig[j];
                        if k < p {
                            assert(r@[k] == orig[j]);
                        } else {
                            assert(r@[k + 1] == orig[j]);
                        }
                    }
                }
            }
        }
        proof {
            assert forall|i: int, j: int| 0 <= i < j < r@.len() implies entry_key(r@[i]) != entry_key(r@[j]) by {
                lemma_key_order(entry_key(r@[i]), entry_key(r@[j]), entry_key(r@[j]));
            }
            assert forall|i: int| 0 <= i < r@.len() implies self@.contains_key(entry_key(#[trigger] r@[i]))
                && self@[entry_key(r@[i])] == r@[i].1@ by {
                let j = choose|j: int| 0 <= j < orig.len() && r@[i] == orig[j];
                assert(self.items@[j] == r@[i]);
            }
            assert forall|k: HostKey| self@.contains_key(k) implies exists|i: int| 0 <= i < r@.len() && entry_key(r@[i]) == k by {
                let j = choose|j: int| 0 <= j < self.items@.len() && entry_key(self.items@[j]) == k;
                assert(r@.contains(orig[j]));
                let i = choose|i: int| 0 <= i < r@.len() && r@[i] == orig[j];
            }
        }
        r
    }
}

/// The order of the keys of device hosts: by device id, then by host name.
pub open spec fn key_lt(a: HostKey, b: HostKey) -> bool {
    crate::text::text_lt(a.0, b.0) || (a.0 == b.0 && crate::text::text_lt(a.1, b.1))
}

/// The order of the keys is strict, total and transitive.
pub proof fn lemma_key_order(a: HostKey, b: HostKey, c: HostKey)
    ensures
        !key_lt(a, a),
        key_lt(a, b) ==> !key_lt(b, a),
        a != b ==> key_lt(a, b) || key_lt(b, a),
        key_lt(a, b) && key_lt(b, c) ==> key_lt(a, c),
{
    crate::text::lemma_text_trichotomy(a.0, a.0);
    crate::text::lemma_text_trichotomy(a.1, a.1);
    crate::text::lemma_text_trichotomy(a.0, b.0);
    crate::text::lemma_text_trichotomy(a.1, b.1);
    if key_lt(a, b) && key_lt(b, c) {
        if crate::text::text_lt(a.0, b.0) && crate::text::text_lt(b.0, c.0) {
            crate::text::lemma_text_lt_transitive(a.0, b.0, c.0);
        } else if a.0 == b.0 && b.0 == c.0 {
            crate::text::lemma_text_lt_transitive(a.1, b.1, c.1);
        }
    }
}

/// Whether the key of `a` comes before that of `b`.
fn entry_key_lt(a: &ChangeEntry, b: &ChangeEntry) -> (r: bool)
    ensures
        r == key_lt(entry_key(*a), entry_key(*b)),
{
    let ida = (a.0).0.0.as_str();
    let idb = (b.0).0.0.as_str();
    crate::text::str_lt(ida, idb) || (crate::text::str_eq(ida, idb) && crate::text::str_lt((a.0).1.0.as_str(), (b.0).1.0.as_str()))
}

impl View for DeviceHostChanges {
    type V = Map<HostKey, Change<DeviceHostView>>;

    closed spec fn view(&self) -> Map<HostKey, Change<DeviceHostView>> {
        Map::new(
            |k: HostKey| exists|i: int| self.at(k, i),
            |k: HostKey| self.items@[choose|i: int| self.at(k, i)].1@,
        )
    }
}

/// `p` is one of the parents of the device `child` in `devs`.
pub open spec fn parent_of(devs: Map<Seq<char>, DeviceView>, child: Seq<char>, p: Seq<char>) -> bool {
    devs.contains_key(child) && devs[child].parents.contains(p)
}

/// The `i`-th step of `path` goes from a device to one of its parents.
pub open spec fn chain_step(devs: Map<Seq<char>, DeviceView>, path: Seq<Seq<char>>, i: int) -> bool {
    parent_of(devs, path[i], path[i + 1])
}

/// `path` starts at a parent of `start` and climbs from each device to one of its parents.
pub open spec fn parent_chain(
    devs: Map<Seq<char>, DeviceView>,
    start: Seq<char>,
    path: Seq<Seq<char>>,
) -> bool {
    &&& path.len() > 0
    &&& parent_of(devs, start, path[0])
    &&& forall|i: int| 0 <= i < path.len() - 1 ==> #[trigger] chain_step(devs, path, i)
}

/// `a` is a parent of `start`, or a parent of one of its ancestors.
pub open spec fn is_ancestor(devs: Map<Seq<char>, DeviceView>, start: Seq<char>, a: Seq<char>) -> bool {
    exists|path: Seq<Seq<char>>| #[trigger] parent_chain(devs, start, path) && path.last() == a
}

/// Every ancestor of `start` has a device host on `host`.
pub open spec fn parents_on_host(
    devs: Map<Seq<char>, DeviceView>,
    start: Seq<char>,
    hosts: Map<HostKey, DeviceHostView>,
    host: Seq<char>,
) -> bool {
    forall|a: Seq<char>| #[trigger] is_ancestor(devs, start, a) ==> hosts.contains_key((a, host))
}

proof fn lemma_parent_is_ancestor(devs: Map<Seq<char>, DeviceView>, start: Seq<char>, p: Seq<char>)
    requires
        parent_of(devs, start, p),
    ensures
        is_ancestor(devs, start, p),
{
    let path = seq![p];
    assert(parent_chain(devs, start, path));
}

proof fn lemma_ancestor_extend(
    devs: Map<Seq<char>, DeviceView>,
    start: Seq<char>,
    a: Seq<char>,
    p: Seq<char>,
)
    requires
        is_ancestor(devs, start, a),
        parent_of(devs, a, p),
    ensures
        is_ancestor(devs, start, p),
{
    let path = choose|path: Seq<Seq<char>>| #[trigger] parent_chain(devs, start, path) && path.last() == a;
    let q = path.push(p);
    assert forall|i: int| 0 <= i < q.len() - 1 implies #[trigger] chain_step(devs, q, i) by {
        if i < path.len() - 1 {
            assert(chain_step(devs, path, i));
        }
    }
    assert(parent_chain(devs, start, q));
    assert(q.last() == p);
}

proof fn lemma_chain_in_closed(
    devs: Map<Seq<char>, DeviceView>,
    start: Seq<char>,
    vis: Seq<Seq<char>>,
    path: Seq<Seq<char>>,
)
    requires
        parent_chain(devs, start, path),
        forall|p: Seq<char>| parent_of(devs, start, p) ==> vis.contains(p),
        forall|x: Seq<char>, p: Seq<char>|
            vis.contains(x) && #[trigger] parent_of(devs, x, p) ==> vis.contains(p),
    ensures
        vis.contains(path.last()),
    decreases path.len(),
{
    if path.len() > 1 {
        let q = path.drop_last();
        assert forall|i: int| 0 <= i < q.len() - 1 implies #[trigger] chain_step(devs, q, i) by {
            assert(chain_step(devs, path, i));
        }
        lemma_chain_in_closed(devs, start, vis, q);
        assert(chain_step(devs, path, path.len() - 2));
    }
}

/// The ids of the parents of all devices of `items`, in order.
pub open spec fn all_parents(items: Seq<Device>) -> Seq<Seq<char>>
    decreases items.len(),
{
    if items.len() == 0 {
        seq![]
    } else {
        all_parents(items.drop_last()) + items.last().parents@
    }
}

proof fn lemma_all_parents(items: Seq<Device>, i: int, k: int)
    requires
        0 <= i < items.len(),
        0 <= k < items[i].parents@.len(),
    ensures
        all_parents(items).contains(items[i].parents@[k]),
    decreases items.len(),
{
    let x = items[i].parents@[k];
    if i == items.len() - 1 {
        let a = all_parents(items.drop_last());
        assert((a + items.last().parents@)[a.len() + k] == x);
    } else {
        lemma_all_parents(items.drop_last(), i, k);
        let a = all_parents(items.drop_last());
        let j = choose|j: int| 0 <= j < a.len() && a[j] == x;
        assert((a + items.last().parents@)[j] == x);
    }
}

/// Whether `id` is one of `ids`.
fn ids_contains(ids: &Vec<DeviceId>, id: &DeviceId) -> (r: bool)
    ensures
        r == crate::db::ids_view(ids@).contains(id@),
{
    let mut i: usize = 0;
    while i < ids.len()
        invariant
            i <= ids@.len(),
            forall|j: int| 0 <= j < i ==> ids@[j]@ != id@,
        decreases ids@.len() - i,
    {
        if ids[i].0 == id.0 {
            assert(crate::db::ids_view(ids@)[i as int] == id@);
            return true;
        }
        i = i + 1;
    }
    proof {
        if crate::db::ids_view(ids@).contains(id@) {
            let j = choose|j: int| 0 <= j < crate::db::ids_view(ids@).len() && crate::db::ids_view(ids@)[j] == id@;
            assert(ids@[j]@ == id@);
        }
    }
    false
}

impl Devices {
    /// Appends to `visited` the parents of the device at position `s` that it does not hold yet.
    fn push_parents(&self, s: usize, visited: &mut Vec<DeviceId>)
        requires
            s < self.items@.len(),
            crate::db::ids_view(old(visited)@).no_duplicates(),
        ensures
            final(visited)@.len() >= old(visited)@.len(),
            forall|j: int| 0 <= j < old(visited)@.len() ==> #[trigger] final(visited)@[j] == old(visited)@[j],
            crate::db::ids_view(final(visited)@).no_duplicates(),
            forall|p: Seq<char>| self.items@[s as int].parents@.contains(p) ==> crate::db::ids_view(final(visited)@).contains(p),
            forall|j: int| old(visited)@.len() <= j < final(visited)@.len()
                ==> self.items@[s as int].parents@.contains(#[trigger] final(visited)@[j]@),
    {
        let ps = &self.items[s].parents.0;
        let ghost pv = self.items@[s as int].parents@;
        let ghost start = visited@;
        let mut k: usize = 0;
        while k < ps.len()
            invariant
                ps@ == self.items@[s as int].parents.0@,
                pv == crate::db::ids_view(ps@),
                k <= ps@.len(),
                visited@.len() >= start.len(),
                forall|j: int| 0 <= j < start.len() ==> #[trigger] visited@[j] == start[j],
                crate::db::ids_view(visited@).no_duplicates(),
                forall|m: int| 0 <= m < k ==> crate::db::ids_view(visited@).contains(#[trigger] pv[m]),
                forall|j: int| start.len() <= j < visited@.len() ==> pv.contains(#[trigger] visited@[j]@),
            decreases ps@.len() - k,
        {
            let ghost before = visited@;
            if !ids_contains(visited, &ps[k]) {
                visited.push(ps[k].clone());
                proof {
                    let n = before.len() as int;
                    assert(crate::db::ids_view(visited@) == crate::db::ids_view(before).push(ps@[k as int]@));
                    assert(pv[k as int] == ps@[k as int]@);
                    assert forall|m: int| 0 <= m < k + 1 implies crate::db::ids_view(visited@).contains(#[trigger] pv[m]) by {
                        if m < k {
                            let j = choose|j: int| 0 <= j < crate::db::ids_view(before).len() && crate::db::ids_view(before)[j] == pv[m];
                            assert(crate::db::ids_view(visited@)[j] == pv[m]);
                        } else {
                            assert(crate::db::ids_view(visited@)[n] == pv[m]);
                        }
                    }
                    assert forall|j: int| start.len() <= j < visited@.len() implies pv.contains(#[trigger] visited@[j]@) by {
                        if j == n {
                            assert(pv[k as int] == visited@[j]@);
                        } else {
                            assert(visited@[j] == before[j]);
                        }
                    }
                }
            } else {
                proof {
                    assert(pv[k as int] == ps@[k as int]@);
                }
            }
            k = k + 1;
        }
        proof {
            assert forall|p: Seq<char>| pv.contains(p) implies crate::db::ids_view(visited@).contains(p) by {
                let m = choose|m: int| 0 <= m < pv.len() && pv[m] == p;
                assert(crate::db::ids_view(visited@).contains(pv[m]));
            }
        }
    }

    /// Whether every ancestor of the device `id` has a device host on `host`.
    fn parents_present(&self, id: &DeviceId, hosts: &DeviceHosts, host: &Fqdn) -> (r: bool)
        ensures
            r == parents_on_host(self@, id@, hosts@, host@),
    {
        proof {
            use_type_invariant(self);
        }
        let ghost flat = all_parents(self.items@);
        let ghost devs = self@;
        let mut visited: Vec<DeviceId> = Vec::new();
        match self.index_of(id) {
            Some(s) => {
                proof {
                    self.lemma_at(s as int);
                    assert(crate::db::ids_view(visited@) =~= Seq::<Seq<char>>::empty());
                }
                self.push_parents(s, &mut visited);
                proof {
                    assert forall|p: Seq<char>| parent_of(devs, id@, p) implies crate::db::ids_view(visited@).contains(p) by {}
                    assert forall|j: int| 0 <= j < visited@.len() implies is_ancestor(devs, id@, #[trigger] visited@[j]@)
                        && flat.contains(visited@[j]@) by {
                        let p = visited@[j]@;
                        assert(self.items@[s as int].parents@.contains(p));
                        lemma_parent_is_ancestor(devs, id@, p);
                        let m = choose|m: int| 0 <= m < self.items@[s as int].parents@.len() && self.items@[s as int].parents@[m] == p;
                        lemma_all_parents(self.items@, s as int, m);
                    }
                }
            },
            None => {
                proof {
                    assert(crate::db::ids_view(visited@) =~= Seq::<Seq<char>>::empty());
                }
            },
        }
        let mut i: usize = 0;
        proof {
            self.lemma_bound(visited@, flat);
        }
        while i < visited.len()
            invariant
                self.wf(),
                devs == self@,
                flat == all_parents(self.items@),
                i <= visited@.len(),
                visited@.len() <= flat.len(),
                crate::db::ids_view(visited@).no_duplicates(),
                forall|p: Seq<char>| parent_of(devs, id@, p) ==> crate::db::ids_view(visited@).contains(p),
                forall|j: int| 0 <= j < visited@.len() ==> is_ancestor(devs, id@, #[trigger] visited@[j]@)
                    && flat.contains(visited@[j]@),
                forall|j: int| 0 <= j < i ==> hosts@.contains_key((#[trigger] visited@[j]@, host@)),
                forall|j: int, p: Seq<char>| 0 <= j < i && #[trigger] parent_of(devs, visited@[j]@, p)
                    ==> crate::db::ids_view(visited@).contains(p),
            decreases flat.len() - i,
        {
            let cur = visited[i].clone();
            if !hosts.contains_key(&cur, host) {
                proof {
                    assert(is_ancestor(devs, id@, visited@[i as int]@));
                }
                return false;
            }
            let ghost before = visited@;
            match self.index_of(&cur) {
                Some(s) => {
                    proof {
                        self.lemma_at(s as int);
                    }
                    self.push_parents(s, &mut visited);
                    proof {
                        assert forall|j: int| 0 <= j < visited@.len() implies is_ancestor(devs, id@, #[trigger] visited@[j]@)
                            && flat.contains(visited@[j]@) by {
                            if j < before.len() {
                                assert(visited@[j] == before[j]);
                            } else {
                                let p = visited@[j]@;
                                assert(self.items@[s as int].parents@.contains(p));
                                assert(is_ancestor(devs, id@, before[i as int]@));
                                lemma_ancestor_extend(devs, id@, cur@, p);
                                let m = choose|m: int| 0 <= m < self.items@[s as int].parents@.len() && self.items@[s as int].parents@[m] == p;
                                lemma_all_parents(self.items@, s as int, m);
                            }
                        }
                        assert forall|p: Seq<char>| parent_of(devs, id@, p) implies crate::db::ids_view(visited@).contains(p) by {
                            let j = choose|j: int| 0 <= j < crate::db::ids_view(before).len() && crate::db::ids_view(before)[j] == p;
                            assert(visited@[j] == before[j]);
                            assert(crate::db::ids_view(visited@)[j] == p);
                        }
                        assert forall|j: int, p: Seq<char>| 0 <= j < i + 1 && #[trigger] parent_of(devs, visited@[j]@, p)
                            implies crate::db::ids_view(visited@).contains(p) by {
                            assert(visited@[j] == before[j]);
                            if j < i {
                                let q = choose|q: int| 0 <= q < crate::db::ids_view(before).len() && crate::db::ids_view(before)[q] == p;
                                assert(visited@[q] == before[q]);
                                assert(crate::db::ids_view(visited@)[q] == p);
                            }
                        }
                        assert forall|j: int| 0 <= j < i + 1 implies hosts@.contains_key((#[trigger] visited@[j]@, host@)) by {
                            assert(visited@[j] == before[j]);
                        }
                    }
                },
                None => {
                    proof {
                        assert forall|j: int, p: Seq<char>| 0 <= j < i + 1 && #[trigger] parent_of(devs, visited@[j]@, p)
                            implies crate::db::ids_view(visited@).contains(p) by {
                            if j == i {
                                assert(!devs.contains_key(cur@));
                            }
                        }
                    }
                },
            }
            proof {
                self.lemma_bound(visited@, flat);
            }
            i = i + 1;
        }
        proof {
            let vis = crate::db::ids_view(visited@);
            assert forall|x: Seq<char>, p: Seq<char>| vis.contains(x) && #[trigger] parent_of(devs, x, p) implies vis.contains(p) by {
                let j = choose|j: int| 0 <= j < vis.len() && vis[j] == x;
                assert(parent_of(devs, visited@[j]@, p));
            }
            assert forall|a: Seq<char>| #[trigger] is_ancestor(devs, id@, a) implies hosts@.contains_key((a, host@)) by {
                let path = choose|path: Seq<Seq<char>>| #[trigger] parent_chain(devs, id@, path) && path.last() == a;
                lemma_chain_in_closed(devs, id@, vis, path);
                let j = choose|j: int| 0 <= j < vis.len() && vis[j] == a;
                assert(hosts@.contains_key((visited@[j]@, host@)));
            }
        }
        true
    }

    proof fn lemma_bound(self, visited: Seq<DeviceId>, flat: Seq<Seq<char>>)
        requires
            crate::db::ids_view(visited).no_duplicates(),
            forall|j: int| 0 <= j < visited.len() ==> flat.contains(#[trigger] visited[j]@),
        ensures
            visited.len() <= flat.len(),
    {
        let vis = crate::db::ids_view(visited);
        vis.unique_seq_to_set();
        flat.lemma_cardinality_of_set();
        vstd::seq_lib::seq_to_set_is_finite(flat);
        assert(vis.to_set().subset_of(flat.to_set())) by {
            assert forall|x: Seq<char>| vis.to_set().contains(x) implies flat.to_set().contains(x) by {
                let j = choose|j: int| 0 <= j < vis.len() && vis[j] == x;
                assert(flat.contains(visited[j]@));
            }
        }
        vstd::set_lib::lemma_len_subset(vis.to_set(), flat.to_set());
    }
}

/// Whether devices of this type are virtual: md raids, volume groups, datasets and zpools.
pub open spec fn is_virtual_device_type(t: DeviceType) -> bool {
    t == DeviceType::MdRaid || t == DeviceType::VolumeGroup || t == DeviceType::Dataset
        || t == DeviceType::Zpool
}

/// Whether the device is virtual: an md raid, a volume group, a dataset or a zpool.
pub fn is_virtual_device(device: &Device) -> (r: bool)
    ensures
        r == is_virtual_device_type(device.device_type),
{
    match device.device_type {
        DeviceType::MdRaid | DeviceType::VolumeGroup | DeviceType::Dataset | DeviceType::Zpool => true,
        _ => false,
    }
}

/// The device host of the virtual device `id` on `host`, with the paths and file system
/// details of `src`, the incoming device host of the device on the reporting host.
pub open spec fn present_host_view(
    id: Seq<char>,
    host: Seq<char>,
    src: Option<DeviceHostView>,
) -> DeviceHostView {
    DeviceHostView {
        device_id: id,
        fqdn: host,
        local: true,
        paths: match src {
            Some(s) => s.paths,
            None => Seq::empty(),
        },
        mount_path: None,
        fs_type: match src {
            Some(s) => s.fs_type,
            None => None,
        },
        fs_label: match src {
            Some(s) => s.fs_label,
            None => None,
        },
        fs_uuid: match src {
            Some(s) => s.fs_uuid,
            None => None,
        },
    }
}

/// The device host removed for the virtual device `id` on `host`.
pub open spec fn absent_host_view(id: Seq<char>, host: Seq<char>) -> DeviceHostView {
    present_host_view(id, host, None)
}

/// `host` is a host other than `fqdn` that holds a device host, incoming or stored.
pub open spec fn is_other_host(
    inc: Map<HostKey, DeviceHostView>,
    db: Map<HostKey, DeviceHostView>,
    fqdn: Seq<char>,
    host: Seq<char>,
) -> bool {
    host != fqdn && ((exists|d: Seq<char>| #[trigger] inc.contains_key((d, host))) || (exists|d: Seq<char>|
        #[trigger] db.contains_key((d, host))))
}

/// What becomes of the virtual device `id` on the reporting host `fqdn`: it is added or
/// updated when all its ancestors were reported there and it was not, and removed when
/// some ancestor was not reported and the database holds it.
pub open spec fn own_host_change(
    devs: Map<Seq<char>, DeviceView>,
    inc: Map<HostKey, DeviceHostView>,
    db: Map<HostKey, DeviceHostView>,
    id: Seq<char>,
    fqdn: Seq<char>,
) -> Option<Change<DeviceHostView>> {
    if parents_on_host(devs, id, inc, fqdn) {
        if inc.contains_key((id, fqdn)) {
            None
        } else if db.contains_key((id, fqdn)) {
            Some(Change::Update(present_host_view(id, fqdn, None)))
        } else {
            Some(Change::Add(present_host_view(id, fqdn, None)))
        }
    } else if db.contains_key((id, fqdn)) {
        Some(Change::Remove(absent_host_view(id, fqdn)))
    } else {
        None
    }
}

/// What becomes of the virtual device `id` on another host `host`: it is added or updated
/// when the database holds all its ancestors on that host, and removed when it does not
/// and the database holds the device there.
pub open spec fn other_host_change(
    devs: Map<Seq<char>, DeviceView>,
    inc: Map<HostKey, DeviceHostView>,
    db: Map<HostKey, DeviceHostView>,
    id: Seq<char>,
    fqdn: Seq<char>,
    host: Seq<char>,
) -> Option<Change<DeviceHostView>> {
    let src = if inc.contains_key((id, fqdn)) {
        Some(inc[(id, fqdn)])
    } else {
        None
    };
    if parents_on_host(devs, id, db, host) {
        if db.contains_key((id, host)) {
            Some(Change::Update(present_host_view(id, host, src)))
        } else {
            Some(Change::Add(present_host_view(id, host, src)))
        }
    } else if db.contains_key((id, host)) {
        Some(Change::Remove(absent_host_view(id, host)))
    } else {
        None
    }
}

/// The change computed under `key` when `fqdn` reports its devices.
pub open spec fn expected_change(
    fqdn: Seq<char>,
    devs: Map<Seq<char>, DeviceView>,
    inc: Map<HostKey, DeviceHostView>,
    db: Map<HostKey, DeviceHostView>,
    key: HostKey,
) -> Option<Change<DeviceHostView>> {
    if devs.contains_key(key.0) && is_virtual_device_type(devs[key.0].device_type) {
        if key.1 == fqdn {
            own_host_change(devs, inc, db, key.0, fqdn)
        } else if is_other_host(inc, db, fqdn, key.1) {
            other_host_change(devs, inc, db, key.0, fqdn, key.1)
        } else {
            None
        }
    } else {
        None
    }
}

/// All changes computed when `fqdn` reports its devices.
pub open spec fn virtual_device_changes(
    fqdn: Seq<char>,
    devs: Map<Seq<char>, DeviceView>,
    inc: Map<HostKey, DeviceHostView>,
    db: Map<HostKey, DeviceHostView>,
) -> Map<HostKey, Change<DeviceHostView>> {
    Map::new(
        |k: HostKey| expected_change(fqdn, devs, inc, db, k) is Some,
        |k: HostKey| expected_change(fqdn, devs, inc, db, k)->Some_0,
    )
}

/// The views of a list of host names.
pub open spec fn fqdns_view(xs: Seq<Fqdn>) -> Seq<Seq<char>> {
    xs.map_values(|f: Fqdn| f@)
}

fn fqdns_contains(xs: &Vec<Fqdn>, x: &Fqdn) -> (r: bool)
    ensures
        r == fqdns_view(xs@).contains(x@),
{
    let mut i: usize = 0;
    while i < xs.len()
        invariant
            i <= xs@.len(),
            forall|j: int| 0 <= j < i ==> xs@[j]@ != x@,
        decreases xs@.len() - i,
    {
        if xs[i].0 == x.0 {
            assert(fqdns_view(xs@)[i as int] == x@);
            return true;
        }
        i = i + 1;
    }
    proof {
        if fqdns_view(xs@).contains(x@) {
            let j = choose|j: int| 0 <= j < fqdns_view(xs@).len() && fqdns_view(xs@)[j] == x@;
            assert(xs@[j]@ == x@);
        }
    }
    false
}

/// A new device host for the device `id` on `host`, copying the paths and file system
/// details of `src`.
fn new_device_host(id: &DeviceId, host: &Fqdn, src: Option<&DeviceHost>) -> (r: DeviceHost)
    ensures
        r@ == present_host_view(
            id@,
            host@,
            match src {
                Some(s) => Some(s@),
                None => None,
            },
        ),
{
    match src {
        Some(s) => DeviceHost {
            device_id: id.clone(),
            fqdn: host.clone(),
            local: true,
            paths: Paths(clone_strings(&s.paths.0)),
            mount_path: MountPath(None),
            fs_type: clone_opt_string(&s.fs_type),
            fs_label: clone_opt_string(&s.fs_label),
            fs_uuid: clone_opt_string(&s.fs_uuid),
        },
        None => {
            let r = DeviceHost {
                device_id: id.clone(),
                fqdn: host.clone(),
                local: true,
                paths: Paths(Vec::new()),
                mount_path: MountPath(None),
                fs_type: None,
                fs_label: None,
                fs_uuid: None,
            };
            assert(r.paths@ =~= Seq::<Seq<char>>::empty());
            r
        },
    }
}

impl DeviceHosts {
    /// Appends to `out` the host names other than `fqdn` of the stored device hosts that
    /// it does not hold yet.
    fn push_other_hosts(&self, fqdn: &Fqdn, out: &mut Vec<Fqdn>)
        requires
            fqdns_view(old(out)@).no_duplicates(),
            !fqdns_view(old(out)@).contains(fqdn@),
        ensures
            fqdns_view(final(out)@).no_duplicates(),
            !fqdns_view(final(out)@).contains(fqdn@),
            forall|h: Seq<char>| #![trigger fqdns_view(final(out)@).contains(h)]
                fqdns_view(final(out)@).contains(h) <==> (fqdns_view(old(out)@).contains(h)
                || (h != fqdn@ && exists|d: Seq<char>| #[trigger] self@.contains_key((d, h)))),
    {
        proof {
            use_type_invariant(self);
        }
        let ghost start = fqdns_view(out@);
        let mut i: usize = 0;
        while i < self.items.len()
            invariant
                self.wf(),
                i <= self.items@.len(),
                start == fqdns_view(old(out)@),
                fqdns_view(out@).no_duplicates(),
                !fqdns_view(out@).contains(fqdn@),
                forall|h: Seq<char>| #![trigger fqdns_view(out@).contains(h)]
                    fqdns_view(out@).contains(h) <==> (start.contains(h)
                    || (h != fqdn@ && exists|j: int| 0 <= j < i && #[trigger] self.items@[j].fqdn@ == h)),
            decreases self.items@.len() - i,
        {
            let ghost before = fqdns_view(out@);
            let f = &self.items[i].fqdn;
            let pushed = !(f.0 == fqdn.0) && !fqdns_contains(out, f);
            if pushed {
                out.push(f.clone());
            }
            proof {
                let now = fqdns_view(out@);
                assert(pushed || f@ == fqdn@ || before.contains(f@));
                if pushed {
                    assert(now =~= before.push(f@));
                    assert(now[before.len() as int] == f@);
                } else {
                    assert(now =~= before);
                }
                assert forall|h: Seq<char>| now.contains(h) implies (start.contains(h)
                    || (h != fqdn@ && exists|j: int| 0 <= j < i + 1 && #[trigger] self.items@[j].fqdn@ == h)) by {
                    if before.contains(h) {
                        if !start.contains(h) {
                            let j = choose|j: int| 0 <= j < i && #[trigger] self.items@[j].fqdn@ == h;
                            assert(0 <= j < i + 1 && self.items@[j].fqdn@ == h);
                        }
                    } else {
                        let q = choose|q: int| 0 <= q < now.len() && now[q] == h;
                        assert(q == before.len());
                        assert(h == f@);
                        assert(self.items@[i as int].fqdn@ == h);
                    }
                }
                assert forall|h: Seq<char>| (start.contains(h)
                    || (h != fqdn@ && exists|j: int| 0 <= j < i + 1 && #[trigger] self.items@[j].fqdn@ == h))
                    implies now.contains(h) by {
                    if start.contains(h) || (h != fqdn@ && exists|j: int| 0 <= j < i && #[trigger] self.items@[j].fqdn@ == h) {
                        assert(before.contains(h));
                        let q = choose|q: int| 0 <= q < before.len() && before[q] == h;
                        assert(now[q] == h);
                    } else {
                        let j = choose|j: int| 0 <= j < i + 1 && #[trigger] self.items@[j].fqdn@ == h;
                        assert(j == i);
                        assert(h == f@);
                        if !pushed {
                            assert(before.contains(h));
                        }
                    }
                }
            }
            i = i + 1;
        }
        proof {
            let now = fqdns_view(out@);
            assert forall|h: Seq<char>| now.contains(h) <==> (start.contains(h)
                || (h != fqdn@ && exists|d: Seq<char>| #[trigger] self@.contains_key((d, h)))) by {
                if h != fqdn@ && exists|d: Seq<char>| #[trigger] self@.contains_key((d, h)) {
                    let d = choose|d: Seq<char>| #[trigger] self@.contains_key((d, h));
                    let j = choose|j: int| self.at((d, h), j);
                    assert(self.items@[j].fqdn@ == h);
                }
                if h != fqdn@ && exists|j: int| 0 <= j < self.items@.len() && #[trigger] self.items@[j].fqdn@ == h {
                    let j = choose|j: int| 0 <= j < self.items@.len() && #[trigger] self.items@[j].fqdn@ == h;
                    self.lemma_at(j);
                    assert(self@.contains_key((self.items@[j].device_id@, h)));
                }
            }
        }
    }
}

impl Devices {
    /// The device `id` is among the first `i` devices.
    closed spec fn seen_before(self, id: Seq<char>, i: int) -> bool {
        exists|j: int| 0 <= j < i && self.at(id, j)
    }
}

/// Computes the device hosts of the virtual devices reported by `fqdn` to add, update or
/// remove, on `fqdn` itself and on every other host known to hold device hosts.
///
/// On `fqdn` the ancestors are looked up among the incoming device hosts; on the other
/// hosts among the stored ones. The stored devices take no part in the computation.
pub fn compute_virtual_device_changes(
    fqdn: &Fqdn,
    incoming_devices: &Devices,
    incoming_device_hosts: &DeviceHosts,
    db_devices: &Devices,
    db_device_hosts: &DeviceHosts,
) -> (r: DeviceHostChanges)
    ensures
        r@ == virtual_device_changes(
            fqdn@,
            incoming_devices@,
            incoming_device_hosts@,
            db_device_hosts@,
        ),
{
    proof {
        use_type_invariant(incoming_devices);
    }
    let ghost devs = incoming_devices@;
    let ghost inc = incoming_device_hosts@;
    let ghost db = db_device_hosts@;
    let ghost f = fqdn@;
    let mut others: Vec<Fqdn> = Vec::new();
    proof {
        assert(fqdns_view(others@) =~= Seq::<Seq<char>>::empty());
    }
    incoming_device_hosts.push_other_hosts(fqdn, &mut others);
    db_device_hosts.push_other_hosts(fqdn, &mut others);
    proof {
        assert forall|h: Seq<char>| #[trigger] fqdns_view(others@).contains(h) <==> is_other_host(inc, db, f, h) by {}
    }
    let mut results = DeviceHostChanges::new();
    let n = incoming_devices.items.len();
    let mut i: usize = 0;
    while i < n
        invariant
            incoming_devices.wf(),
            n == incoming_devices.items@.len(),
            i <= n,
            devs == incoming_devices@,
            inc == incoming_device_hosts@,
            db == db_device_hosts@,
            f == fqdn@,
            fqdns_view(others@).no_duplicates(),
            !fqdns_view(others@).contains(f),
            forall|h: Seq<char>| #[trigger] fqdns_view(others@).contains(h) <==> is_other_host(inc, db, f, h),
            forall|k: HostKey| #[trigger] results@.contains_key(k) <==> (incoming_devices.seen_before(k.0, i as int)
                && expected_change(f, devs, inc, db, k) is Some),
            forall|k: HostKey| #[trigger] results@.contains_key(k) ==> results@[k] == expected_change(f, devs, inc, db, k)->Some_0,
        decreases n - i,
    {
        let vd = &incoming_devices.items[i];
        let ghost v = vd.id@;
        proof {
            incoming_devices.lemma_at(i as int);
            assert(!incoming_devices.seen_before(v, i as int)) by {
                if incoming_devices.seen_before(v, i as int) {
                    let j = choose|j: int| 0 <= j < i && incoming_devices.at(v, j);
                }
            }
        }
        if is_virtual_device(vd) {
            let ghost before = results@;
            let key_in_inc = incoming_device_hosts.contains_key(&vd.id, fqdn);
            let avail = incoming_devices.parents_present(&vd.id, incoming_device_hosts, fqdn);
            proof {
                assert(!results@.contains_key((v, f)));
                assert(expected_change(f, devs, inc, db, (v, f)) == own_host_change(devs, inc, db, v, f));
            }
            if avail {
                if !key_in_inc {
                    let dh = new_device_host(&vd.id, fqdn, None);
                    if db_device_hosts.contains_key(&vd.id, fqdn) {
                        results.add(vd.id.clone(), fqdn.clone(), Change::Update(dh));
                    } else {
                        results.add(vd.id.clone(), fqdn.clone(), Change::Add(dh));
                    }
                }
            } else if db_device_hosts.contains_key(&vd.id, fqdn) {
                let dh = new_device_host(&vd.id, fqdn, None);
                results.add(vd.id.clone(), fqdn.clone(), Change::Remove(dh));
            }
            proof {
                assert forall|k: HostKey| #[trigger] results@.contains_key(k) <==> ((incoming_devices.seen_before(k.0, i as int)
                    || (k.0 == v && k.1 == f)) && expected_change(f, devs, inc, db, k) is Some) by {
                    if k != (v, f) {
                        assert(results@.contains_key(k) == before.contains_key(k));
                    }
                }
                assert forall|k: HostKey| #[trigger] results@.contains_key(k) implies results@[k] == expected_change(f, devs, inc, db, k)->Some_0 by {
                    if k != (v, f) {
                        assert(before.contains_key(k));
                    }
                }
            }
            let vdh = incoming_device_hosts.get(&vd.id, fqdn);
            let mut h: usize = 0;
            while h < others.len()
                invariant
                    incoming_devices.wf(),
                    devs == incoming_devices@,
                    inc == incoming_device_hosts@,
                    db == db_device_hosts@,
                    f == fqdn@,
                    v == vd.id@,
                    devs.contains_key(v),
                    devs[v] == vd@,
                    is_virtual_device_type(vd.device_type),
                    !incoming_devices.seen_before(v, i as int),
                    h <= others@.len(),
                    fqdns_view(others@).no_duplicates(),
                    !fqdns_view(others@).contains(f),
                    forall|x: Seq<char>| #[trigger] fqdns_view(others@).contains(x) <==> is_other_host(inc, db, f, x),
                    vdh is Some <==> inc.contains_key((v, f)),
                    vdh matches Some(s) ==> s@ == inc[(v, f)],
                    forall|k: HostKey| #[trigger] results@.contains_key(k) <==> ((incoming_devices.seen_before(k.0, i as int)
                        || (k.0 == v && (k.1 == f || fqdns_view(others@).subrange(0, h as int).contains(k.1))))
                        && expected_change(f, devs, inc, db, k) is Some),
                    forall|k: HostKey| #[trigger] results@.contains_key(k) ==> results@[k] == expected_change(f, devs, inc, db, k)->Some_0,
                decreases others@.len() - h,
            {
                let host = &others[h];
                let ghost hv = host@;
                let ghost before = results@;
                proof {
                    assert(fqdns_view(others@)[h as int] == hv);
                    assert(fqdns_view(others@).contains(hv));
                    assert(is_other_host(inc, db, f, hv));
                    assert(hv != f);
                    assert(!fqdns_view(others@).subrange(0, h as int).contains(hv)) by {
                        if fqdns_view(others@).subrange(0, h as int).contains(hv) {
                            let q = choose|q: int| 0 <= q < h && fqdns_view(others@).subrange(0, h as int)[q] == hv;
                            assert(fqdns_view(others@)[q] == fqdns_view(others@)[h as int]);
                        }
                    }
                    assert(!results@.contains_key((v, hv)));
                    assert(expected_change(f, devs, inc, db, (v, hv)) == other_host_change(devs, inc, db, v, f, hv));
                }
                let avail = incoming_devices.parents_present(&vd.id, db_device_hosts, host);
                if avail {
                    let dh = new_device_host(&vd.id, host, vdh);
                    if db_device_hosts.contains_key(&vd.id, host) {
                        results.add(vd.id.clone(), host.clone(), Change::Update(dh));
                    } else {
                        results.add(vd.id.clone(), host.clone(), Change::Add(dh));
                    }
                } else if db_device_hosts.contains_key(&vd.id, host) {
                    let dh = new_device_host(&vd.id, host, None);
                    results.add(vd.id.clone(), host.clone(), Change::Remove(dh));
                }
                proof {
                    let pre = fqdns_view(others@).subrange(0, h as int);
                    let post = fqdns_view(others@).subrange(0, h + 1);
                    assert(post =~= pre.push(hv));
                    assert forall|k: HostKey| #[trigger] results@.contains_key(k) <==> ((incoming_devices.seen_before(k.0, i as int)
                        || (k.0 == v && (k.1 == f || post.contains(k.1))))
                        && expected_change(f, devs, inc, db, k) is Some) by {
                        if k != (v, hv) {
                            assert(results@.contains_key(k) == before.contains_key(k));
                            if k.0 == v && post.contains(k.1) {
                                let q = choose|q: int| 0 <= q < post.len() && post[q] == k.1;
                                if q < h {
                                    assert(pre[q] == k.1);
                                }
                            }
                            if k.0 == v && pre.contains(k.1) {
                                let q = choose|q: int| 0 <= q < pre.len() && pre[q] == k.1;
                                assert(post[q] == k.1);
                            }
                        } else {
                            assert(post[h as int] == hv);
                        }
                    }
                    assert forall|k: HostKey| #[trigger] results@.contains_key(k) implies results@[k] == expected_change(f, devs, inc, db, k)->Some_0 by {
                        if k != (v, hv) {
                            assert(before.contains_key(k));
                        }
                    }
                }
                h = h + 1;
            }
            proof {
                assert(fqdns_view(others@).subrange(0, others@.len() as int) =~= fqdns_view(others@));
                assert forall|k: HostKey| #[trigger] results@.contains_key(k) <==> (incoming_devices.seen_before(k.0, i + 1)
                    && expected_change(f, devs, inc, db, k) is Some) by {
                    if k.0 == v {
                        assert(incoming_devices.at(v, i as int));
                    }
                    if incoming_devices.seen_before(k.0, i + 1) && k.0 != v {
                        let j = choose|j: int| 0 <= j < i + 1 && incoming_devices.at(k.0, j);
                        assert(j != i);
                        assert(incoming_devices.seen_before(k.0, i as int));
                    }
                    if incoming_devices.seen_before(k.0, i as int) {
                        let j = choose|j: int| 0 <= j < i && incoming_devices.at(k.0, j);
                        assert(incoming_devices.at(k.0, j));
                    }
                }
            }
        } else {
            proof {
                assert forall|k: HostKey| #[trigger] results@.contains_key(k) <==> (incoming_devices.seen_before(k.0, i + 1)
                    && expected_change(f, devs, inc, db, k) is Some) by {
                    if incoming_devices.seen_before(k.0, i + 1) && k.0 != v {
                        let j = choose|j: int| 0 <= j < i + 1 && incoming_devices.at(k.0, j);
                        assert(j != i);
                        assert(incoming_devices.seen_before(k.0, i as int));
                    }
                    if incoming_devices.seen_before(k.0, i as int) {
                        let j = choose|j: int| 0 <= j < i && incoming_devices.at(k.0, j);
                        assert(incoming_devices.at(k.0, j));
                    }
                }
            }
        }
        i = i + 1;
    }
    proof {
        let want = virtual_device_changes(f, devs, inc, db);
        assert forall|k: HostKey| #[trigger] results@.contains_key(k) <==> want.contains_key(k) by {
            if want.contains_key(k) {
                let j = choose|j: int| incoming_devices.at(k.0, j);
                assert(incoming_devices.at(k.0, j));
                assert(incoming_devices.seen_before(k.0, n as int));
            }
        }
        assert(results@ =~= want);
    }
    results
}

/// The device hosts against which the ancestors of a virtual device are checked on
/// `host`: the incoming ones on the reporting host, the stored ones on the others.
pub open spec fn checked_hosts(
    fqdn: Seq<char>,
    inc: Map<HostKey, DeviceHostView>,
    db: Map<HostKey, DeviceHostView>,
    host: Seq<char>,
) -> Map<HostKey, DeviceHostView> {
    if host == fqdn {
        inc
    } else {
        db
    }
}

/// The changes computed when `fqdn` reports its devices follow the stored device hosts:
/// each concerns a virtual device, on the reporting host or on a host known to hold device
/// hosts, and carries a device host for its own device and host; a device host is added
/// only where none is stored, and updated or removed only where one is; it is added or
/// updated only where all the ancestors of the device are present, and removed only where
/// one is missing.
pub proof fn lemma_changes_follow_db(
    fqdn: Seq<char>,
    devs: Map<Seq<char>, DeviceView>,
    inc: Map<HostKey, DeviceHostView>,
    db: Map<HostKey, DeviceHostView>,
    k: HostKey,
)
    requires
        virtual_device_changes(fqdn, devs, inc, db).contains_key(k),
    ensures
        devs.contains_key(k.0),
        is_virtual_device_type(devs[k.0].device_type),
        k.1 == fqdn || is_other_host(inc, db, fqdn, k.1),
        ({
            let present = parents_on_host(devs, k.0, checked_hosts(fqdn, inc, db, k.1), k.1);
            match virtual_device_changes(fqdn, devs, inc, db)[k] {
                Change::Add(h) => !db.contains_key(k) && present && h.device_id == k.0 && h.fqdn == k.1,
                Change::Update(h) => db.contains_key(k) && present && h.device_id == k.0 && h.fqdn == k.1,
                Change::Remove(h) => db.contains_key(k) && !present && h.device_id == k.0 && h.fqdn == k.1,
            }
        }),
{
}

/// On the reporting host, a virtual device that the host reported itself is never added
/// or updated: the record the host sent stands. When all its ancestors were reported
/// there too it gets no change at all; otherwise at most its stored record is removed.
pub proof fn lemma_reported_device_not_rewritten(
    fqdn: Seq<char>,
    devs: Map<Seq<char>, DeviceView>,
    inc: Map<HostKey, DeviceHostView>,
    db: Map<HostKey, DeviceHostView>,
    id: Seq<char>,
)
    requires
        inc.contains_key((id, fqdn)),
    ensures
        virtual_device_changes(fqdn, devs, inc, db).contains_key((id, fqdn))
            ==> virtual_device_changes(fqdn, devs, inc, db)[(id, fqdn)] is Remove,
        parents_on_host(devs, id, inc, fqdn) ==> !virtual_device_changes(fqdn, devs, inc, db).contains_key(
            (id, fqdn),
        ),
{
}

/// A virtual device added to or updated on a host carries that device and host, is local
/// and not mounted; on another host than the reporting one it takes the paths and file
/// system details that the reporting host sent for the device (none when it sent none),
/// and on the reporting host it has none. A removal carries no paths or details.
pub proof fn lemma_change_records(
    fqdn: Seq<char>,
    devs: Map<Seq<char>, DeviceView>,
    inc: Map<HostKey, DeviceHostView>,
    db: Map<HostKey, DeviceHostView>,
    k: HostKey,
)
    requires
        virtual_device_changes(fqdn, devs, inc, db).contains_key(k),
    ensures
        ({
            let h = match virtual_device_changes(fqdn, devs, inc, db)[k] {
                Change::Add(h) => h,
                Change::Update(h) => h,
                Change::Remove(h) => h,
            };
            &&& h.device_id == k.0 && h.fqdn == k.1 && h.local && h.mount_path is None
            &&& virtual_device_changes(fqdn, devs, inc, db)[k] is Remove ==> h.paths.len() == 0
                && h.fs_type is None && h.fs_label is None && h.fs_uuid is None
            &&& !(virtual_device_changes(fqdn, devs, inc, db)[k] is Remove) ==> if k.1 != fqdn && inc.contains_key(
                (k.0, fqdn),
            ) {
                &&& h.paths == inc[(k.0, fqdn)].paths
                &&& h.fs_type == inc[(k.0, fqdn)].fs_type
                &&& h.fs_label == inc[(k.0, fqdn)].fs_label
                &&& h.fs_uuid == inc[(k.0, fqdn)].fs_uuid
            } else {
                h.paths.len() == 0 && h.fs_type is None && h.fs_label is None && h.fs_uuid is None
            }
        }),
{
}

} // verus!
