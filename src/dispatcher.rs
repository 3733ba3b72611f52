use vstd::prelude::*;

use crate::config::{Config, Device};
use crate::device::{
    by_name, by_unique_name, first_by_name, first_by_unique_name, name_match_spec, named_devices_spec, path_devices_spec,
    path_in_devices, DeviceAccessor, DeviceAccessorView, DeviceId, DeviceIdCombo, DeviceInfo,
};
use crate::events::texts;
use crate::text::str_eq;

verus! {

/// The values of a sequence of accessors.
pub open spec fn accessor_views(s: Seq<DeviceAccessor>) -> Seq<DeviceAccessorView> {
    s.map_values(|a: DeviceAccessor| a@)
}

/// The accessors of the devices of a configuration, in order.
pub open spec fn config_accessors(devices: Seq<Device>) -> Seq<DeviceAccessorView> {
    devices.map_values(|d: Device| d.accessor@)
}

/// The id of an accessor value.
pub open spec fn view_id(a: DeviceAccessorView) -> Seq<char> {
    match a {
        DeviceAccessorView::Name(n) => n,
        DeviceAccessorView::Path(p) => p,
    }
}

/// The ids of a sequence of accessors.
pub open spec fn accessor_ids(s: Seq<DeviceAccessorView>) -> Set<Seq<char>> {
    Set::new(|id: Seq<char>| exists|i: int| 0 <= i < s.len() && view_id(s[i]) == id)
}

/// The ids of the accessors of `old`, in order, that no accessor of `new` has.
pub open spec fn removed_ids_spec(old: Seq<DeviceAccessorView>, new: Seq<DeviceAccessorView>) -> Seq<Seq<char>>
    decreases old.len(),
{
    if old.len() == 0 {
        Seq::empty()
    } else {
        let rest = removed_ids_spec(old.drop_last(), new);
        if accessor_ids(new).contains(view_id(old.last())) {
            rest
        } else {
            rest.push(view_id(old.last()))
        }
    }
}

/// The accessors of a configuration's devices.
fn accessors_of(config: &Config) -> (r: Vec<DeviceAccessor>)
    ensures
        accessor_views(r@) == config_accessors(config.devices@),
{
    let mut r: Vec<DeviceAccessor> = Vec::new();
    let mut i: usize = 0;
    while i < config.devices.len()
        invariant
            i <= config.devices@.len(),
            r@.len() == i,
            accessor_views(r@) == config_accessors(config.devices@.take(i as int)),
        decreases config.devices@.len() - i,
    {
        let ghost before = r@;
        let a = config.devices[i].accessor.clone();
        r.push(a);
        proof {
            assert forall|j: int| 0 <= j < i + 1 implies accessor_views(r@)[j] == config_accessors(config.devices@.take(i + 1))[j] by {
                if j < i {
                    assert(accessor_views(before)[j] == config_accessors(config.devices@.take(i as int))[j]);
                }
            }
        }
        i = i + 1;
        assert(accessor_views(r@) =~= config_accessors(config.devices@.take(i as int)));
    }
    assert(config.devices@.take(i as int) =~= config.devices@);
    r
}

/// Whether some accessor of `accessors` has the id `id`.
fn has_id(accessors: &Vec<DeviceAccessor>, id: &str) -> (r: bool)
    ensures
        r == accessor_ids(accessor_views(accessors@)).contains(id@),
{
    let mut i: usize = 0;
    while i < accessors.len()
        invariant
            i <= accessors@.len(),
            forall|j: int| 0 <= j < i ==> accessors@[j].id_spec() != id@,
        decreases accessors@.len() - i,
    {
        let text = accessors[i].to_string();
        if str_eq(text.as_str(), id) {
            assert(view_id(accessor_views(accessors@)[i as int]) == id@);
            return true;
        }
        i = i + 1;
    }
    assert forall|j: int| 0 <= j < accessors@.len() implies view_id(accessor_views(accessors@)[j]) != id@ by {
        assert(view_id(accessor_views(accessors@)[j]) == accessors@[j].id_spec());
    }
    false
}

/// The dispatcher's state: the accessors of the current configuration, which decide the
/// devices to watch.
#[derive(Debug)]
pub struct Dispatcher {
    pub accessors: Vec<DeviceAccessor>,
}

impl Dispatcher {
    pub fn new(config: &Config) -> (r: Dispatcher)
        ensures
            accessor_views(r.accessors@) == config_accessors(config.devices@),
    {
        Dispatcher { accessors: accessors_of(config) }
    }

    /// Takes the accessors of a new configuration and gives back the ids to stop watching:
    /// those of the old accessors that the new configuration no longer has.
    pub fn update_config(&mut self, config: &Config) -> (removed: Vec<DeviceId>)
        ensures
            accessor_views(final(self).accessors@) == config_accessors(config.devices@),
            texts(removed@) == removed_ids_spec(accessor_views(old(self).accessors@), config_accessors(config.devices@)),
    {
        let new_accessors = accessors_of(config);
        let mut removed: Vec<DeviceId> = Vec::new();
        let mut i: usize = 0;
        while i < self.accessors.len()
            invariant
                i <= self.accessors@.len(),
                self.accessors@ == old(self).accessors@,
                accessor_views(new_accessors@) == config_accessors(config.devices@),
                texts(removed@) == removed_ids_spec(accessor_views(self.accessors@.take(i as int)), accessor_views(new_accessors@)),
            decreases self.accessors@.len() - i,
        {
            let id = self.accessors[i].to_string();
            let ghost before = removed@;
            proof {
                assert(accessor_views(self.accessors@.take(i + 1)).drop_last() =~= accessor_views(self.accessors@.take(i as int)));
                assert(accessor_views(self.accessors@.take(i + 1)).last() == self.accessors@[i as int]@);
            }
            if !has_id(&new_accessors, id.as_str()) {
                removed.push(id);
            }
            assert(texts(removed@) =~= removed_ids_spec(accessor_views(self.accessors@.take(i + 1)), accessor_views(new_accessors@)));
            i = i + 1;
        }
        assert(self.accessors@.take(i as int) =~= self.accessors@);
        self.accessors = new_accessors;
        removed
    }

    /// The device to watch for a newly appeared node, keyed by the first accessor that
    /// refers to it; none when no accessor does.
    pub fn device_added<D>(&self, info: &DeviceInfo, device: D) -> (r: Option<DeviceIdCombo<D>>)
        ensures
            match r {
                Some(c) => exists|i: int|
                    0 <= i < self.accessors@.len() && c.id@ == self.accessors@[i].id_spec()
                        && info.matches_spec(self.accessors@[i]) && c.device == device
                        && forall|j: int| 0 <= j < i ==> !info.matches_spec(#[trigger] self.accessors@[j]),
                None => forall|j: int| 0 <= j < self.accessors@.len() ==> !info.matches_spec(#[trigger] self.accessors@[j]),
            },
    {
        match path_in_devices(info, &self.accessors) {
            Some(accessor) => Some(DeviceIdCombo::from_accessor(accessor.clone(), device)),
            None => None,
        }
    }

    /// The devices to watch among newly appeared nodes, in order: each node that an
    /// accessor refers to, keyed by the first such accessor; the other nodes are left out.
    pub fn devices_added<D>(&self, added: Vec<(DeviceInfo, D)>) -> (r: Vec<DeviceIdCombo<D>>)
        ensures
            r@.map_values(|c: DeviceIdCombo<D>| c.view_pair()) == added_devices_spec(self.accessors@, added@),
    {
        let mut r: Vec<DeviceIdCombo<D>> = Vec::new();
        let n = added.len();
        let ghost all = added@;
        let mut added = added;
        let mut k: usize = 0;
        while added.len() > 0
            invariant
                k <= all.len(),
                all.len() == n,
                added@ == all.skip(k as int),
                r@.map_values(|c: DeviceIdCombo<D>| c.view_pair()) == added_devices_spec(self.accessors@, all.take(k as int)),
            decreases added@.len(),
        {
            let (info, device) = added.remove(0);
            proof {
                assert(all.take(k + 1).drop_last() =~= all.take(k as int));
                assert(all.take(k + 1).last() == all[k as int]);
            }
            let ghost before = r@.map_values(|c: DeviceIdCombo<D>| c.view_pair());
            match self.device_added(&info, device) {
                Some(combo) => {
                    proof {
                        let i = choose|i: int|
                            0 <= i < self.accessors@.len() && combo.id@ == self.accessors@[i].id_spec()
                                && info.matches_spec(self.accessors@[i]) && combo.device == all[k as int].1
                                && forall|j: int| 0 <= j < i ==> !info.matches_spec(#[trigger] self.accessors@[j]);
                        lemma_first_match_found(info, self.accessors@, 0, i);
                    }
                    r.push(combo);
                },
                None => {
                    proof {
                        lemma_first_match_none(info, self.accessors@, 0);
                    }
                },
            }
            k = k + 1;
            proof {
                assert(r@.map_values(|c: DeviceIdCombo<D>| c.view_pair()) =~= added_devices_spec(self.accessors@, all.take(k as int)));
            }
        }
        proof {
            assert(all.take(k as int) =~= all);
        }
        r
    }
}

/// The first index from `k` on whose accessor refers to the device.
pub open spec fn first_match(info: DeviceInfo, accessors: Seq<DeviceAccessor>, k: int) -> Option<int>
    decreases accessors.len() - k,
{
    if k < 0 || k >= accessors.len() {
        None
    } else if info.matches_spec(accessors[k]) {
        Some(k)
    } else {
        first_match(info, accessors, k + 1)
    }
}

/// The devices watched for a list of newly appeared nodes, in order, each keyed by the
/// first accessor that refers to it.
pub open spec fn added_devices_spec<D>(accessors: Seq<DeviceAccessor>, added: Seq<(DeviceInfo, D)>) -> Seq<(Seq<char>, D)>
    decreases added.len(),
{
    if added.len() == 0 {
        Seq::empty()
    } else {
        let rest = added_devices_spec(accessors, added.drop_last());
        match first_match(added.last().0, accessors, 0) {
            Some(i) => rest.push((accessors[i].id_spec(), added.last().1)),
            None => rest,
        }
    }
}

proof fn lemma_first_match_found(info: DeviceInfo, accessors: Seq<DeviceAccessor>, k: int, i: int)
    requires
        0 <= k <= i < accessors.len(),
        info.matches_spec(accessors[i]),
        forall|j: int| 0 <= j < i ==> !info.matches_spec(#[trigger] accessors[j]),
    ensures
        first_match(info, accessors, k) == Some(i),
    decreases i - k,
{
    if k < i {
        lemma_first_match_found(info, accessors, k + 1, i);
    }
}

proof fn lemma_first_match_none(info: DeviceInfo, accessors: Seq<DeviceAccessor>, k: int)
    requires
        0 <= k,
        forall|j: int| 0 <= j < accessors.len() ==> !info.matches_spec(#[trigger] accessors[j]),
    ensures
        first_match(info, accessors, k) is None,
    decreases accessors.len() - k,
{
    if k < accessors.len() {
        lemma_first_match_none(info, accessors, k + 1);
    }
}

/// The entries of `a`, in order, that `b` does not hold.
pub open spec fn missing_from(a: Seq<Seq<char>>, b: Seq<Seq<char>>) -> Seq<Seq<char>>
    decreases a.len(),
{
    if a.len() == 0 {
        Seq::empty()
    } else {
        let rest = missing_from(a.drop_last(), b);
        if b.contains(a.last()) {
            rest
        } else {
            rest.push(a.last())
        }
    }
}

/// Whether `v` holds the text `s`.
pub fn contains_text(v: &Vec<String>, s: &str) -> (r: bool)
    ensures
        r == texts(v@).contains(s@),
{
    let mut i: usize = 0;
    while i < v.len()
        invariant
            i <= v@.len(),
            forall|j: int| 0 <= j < i ==> v@[j]@ != s@,
        decreases v@.len() - i,
    {
        if str_eq(v[i].as_str(), s) {
            assert(texts(v@)[i as int] == s@);
            return true;
        }
        i = i + 1;
    }
    assert forall|j: int| 0 <= j < texts(v@).len() implies texts(v@)[j] != s@ by {
        assert(texts(v@)[j] == v@[j]@);
    }
    false
}

/// The entries of `a`, in order, that `b` does not hold.
fn missing(a: &Vec<String>, b: &Vec<String>) -> (r: Vec<String>)
    ensures
        texts(r@) == missing_from(texts(a@), texts(b@)),
{
    let mut r: Vec<String> = Vec::new();
    let mut i: usize = 0;
    while i < a.len()
        invariant
            i <= a@.len(),
            texts(r@) == missing_from(texts(a@.take(i as int)), texts(b@)),
        decreases a@.len() - i,
    {
        proof {
            assert(texts(a@.take(i + 1)).drop_last() =~= texts(a@.take(i as int)));
            assert(texts(a@.take(i + 1)).last() == a@[i as int]@);
        }
        if !contains_text(b, a[i].as_str()) {
            r.push(a[i].clone());
        }
        assert(texts(r@) =~= missing_from(texts(a@.take(i + 1)), texts(b@)));
        i = i + 1;
    }
    assert(a@.take(i as int) =~= a@);
    r
}

/// Updates the snapshot of present device nodes and gives back the nodes that appeared and
/// those that disappeared since the last one. The snapshot is replaced before anything is
/// reported, so no report is made against an old snapshot.
pub fn populate_devices(devices: &mut Vec<String>, available: Vec<String>) -> (r: (Vec<String>, Vec<String>))
    ensures
        texts(final(devices)@) == texts(available@),
        texts(r.0@) == missing_from(texts(available@), texts(old(devices)@)),
        texts(r.1@) == missing_from(texts(old(devices)@), texts(available@)),
{
    let added = missing(&available, devices);
    let removed = missing(devices, &available);
    *devices = available;
    (added, removed)
}

/// Whether a batch of file-change notifications concerns the configuration file.
pub fn config_changed(paths: &Vec<String>, config_path: &str) -> (r: bool)
    ensures
        r == texts(paths@).contains(config_path@),
{
    contains_text(paths, config_path)
}

/// The ids of a list of opened devices.
pub open spec fn pair_ids<D>(s: Seq<(Seq<char>, D)>) -> Set<Seq<char>> {
    Set::new(|id: Seq<char>| exists|i: int| 0 <= i < s.len() && s[i].0 == id)
}

proof fn lemma_accessor_id(s: Seq<DeviceAccessor>, i: int)
    requires
        0 <= i < s.len(),
    ensures
        accessor_ids(accessor_views(s)).contains(s[i].id_spec()),
{
    assert(view_id(accessor_views(s)[i]) == s[i].id_spec());
}

proof fn lemma_first_by_unique_name_in_range(info: DeviceInfo, s: Seq<DeviceAccessor>, k: int)
    ensures
        first_by_unique_name(info, s, k) matches Some(i) ==> k <= i < s.len(),
    decreases s.len() - k,
{
    if 0 <= k < s.len() {
        lemma_first_by_unique_name_in_range(info, s, k + 1);
    }
}

proof fn lemma_first_by_name_in_range(info: DeviceInfo, s: Seq<DeviceAccessor>, k: int)
    ensures
        first_by_name(info, s, k) matches Some(i) ==> k <= i < s.len(),
    decreases s.len() - k,
{
    if 0 <= k < s.len() {
        lemma_first_by_name_in_range(info, s, k + 1);
    }
}

proof fn lemma_named_ids<D>(s: Seq<DeviceAccessor>, present: Seq<(DeviceInfo, D)>)
    ensures
        pair_ids(named_devices_spec(s, present)).subset_of(accessor_ids(accessor_views(s))),
    decreases present.len(),
{
    if present.len() > 0 {
        lemma_named_ids(s, present.drop_last());
        let rest = named_devices_spec(s, present.drop_last());
        let all = named_devices_spec(s, present);
        let info = present.last().0;
        lemma_first_by_unique_name_in_range(info, s, 0);
        lemma_first_by_name_in_range(info, s, 0);
        assert forall|id: Seq<char>| pair_ids(all).contains(id) implies accessor_ids(accessor_views(s)).contains(id) by {
            let k = choose|k: int| 0 <= k < all.len() && all[k].0 == id;
            if k < rest.len() {
                assert(rest[k].0 == id);
                assert(pair_ids(rest).contains(id));
            } else {
                let i = name_match_spec(info, s)->0;
                lemma_accessor_id(s, i);
            }
        }
    }
}

proof fn lemma_path_ids<D>(s: Seq<DeviceAccessor>, opened: Seq<Option<D>>, n: int)
    requires
        n <= s.len(),
    ensures
        pair_ids(path_devices_spec(s, opened, n)).subset_of(accessor_ids(accessor_views(s))),
    decreases n,
{
    if n > 0 {
        lemma_path_ids(s, opened, n - 1);
        let rest = path_devices_spec(s, opened, n - 1);
        let all = path_devices_spec(s, opened, n);
        assert forall|id: Seq<char>| pair_ids(all).contains(id) implies accessor_ids(accessor_views(s)).contains(id) by {
            let k = choose|k: int| 0 <= k < all.len() && all[k].0 == id;
            if k < rest.len() {
                assert(rest[k].0 == id);
                assert(pair_ids(rest).contains(id));
            } else {
                lemma_accessor_id(s, n - 1);
            }
        }
    }
}

proof fn lemma_removed_ids(old: Seq<DeviceAccessorView>, new: Seq<DeviceAccessorView>)
    ensures
        removed_ids_spec(old, new).to_set() == accessor_ids(old).difference(accessor_ids(new)),
    decreases old.len(),
{
    if old.len() > 0 {
        lemma_removed_ids(old.drop_last(), new);
        let rest = removed_ids_spec(old.drop_last(), new);
        let all = removed_ids_spec(old, new);
        let last = view_id(old.last());
        assert forall|x: Seq<char>| all.to_set().contains(x) <==> accessor_ids(old).difference(accessor_ids(new)).contains(x) by {
            if all.to_set().contains(x) {
                let k = choose|k: int| 0 <= k < all.len() && all[k] == x;
                if k < rest.len() {
                    assert(rest[k] == x);
                    assert(rest.to_set().contains(x));
                    let j = choose|j: int| 0 <= j < old.drop_last().len() && view_id(old.drop_last()[j]) == x;
                    assert(view_id(old[j]) == x);
                } else {
                    assert(view_id(old[old.len() - 1]) == x);
                }
            }
            if accessor_ids(old).difference(accessor_ids(new)).contains(x) {
                let j = choose|j: int| 0 <= j < old.len() && view_id(old[j]) == x;
                if j < old.len() - 1 {
                    assert(view_id(old.drop_last()[j]) == x);
                    assert(rest.to_set().contains(x));
                    let k = choose|k: int| 0 <= k < rest.len() && rest[k] == x;
                    assert(all[k] == x);
                } else {
                    assert(all[all.len() - 1] == x);
                }
            }
        }
        assert(all.to_set() =~= accessor_ids(old).difference(accessor_ids(new)));
    } else {
        assert(removed_ids_spec(old, new).to_set() =~= accessor_ids(old).difference(accessor_ids(new)));
    }
}

/// Reconciliation after a configuration change. Stopping the ids that
/// [`Dispatcher::update_config`] gives back keeps exactly the watched ids that the new
/// accessors still have; the devices that [`crate::device::open_devices`] then opens are all
/// keyed by new accessors. So whatever was watched under the old accessors, only ids of the
/// new accessors are watched afterwards.
pub proof fn lemma_reconcile_config<D>(
    watched: Set<Seq<char>>,
    old: Seq<DeviceAccessor>,
    new: Seq<DeviceAccessor>,
    present: Seq<(DeviceInfo, D)>,
    opened: Seq<Option<D>>,
)
    requires
        watched.subset_of(accessor_ids(accessor_views(old))),
    ensures
        ({
            let kept = watched.difference(removed_ids_spec(accessor_views(old), accessor_views(new)).to_set());
            let added = pair_ids(named_devices_spec(new, present) + path_devices_spec(new, opened, new.len() as int));
            &&& kept == watched.intersect(accessor_ids(accessor_views(new)))
            &&& kept.union(added).subset_of(accessor_ids(accessor_views(new)))
        }),
{
    lemma_removed_ids(accessor_views(old), accessor_views(new));
    lemma_named_ids(new, present);
    lemma_path_ids(new, opened, new.len() as int);
    let removed = removed_ids_spec(accessor_views(old), accessor_views(new)).to_set();
    let kept = watched.difference(removed);
    assert(kept =~= watched.intersect(accessor_ids(accessor_views(new))));
    let named = named_devices_spec(new, present);
    let paths = path_devices_spec(new, opened, new.len() as int);
    assert forall|id: Seq<char>| pair_ids(named + paths).contains(id) implies accessor_ids(accessor_views(new)).contains(id) by {
        let k = choose|k: int| 0 <= k < (named + paths).len() && (named + paths)[k].0 == id;
        if k < named.len() {
            assert(named[k].0 == id);
            assert(pair_ids(named).contains(id));
        } else {
            assert(paths[k - named.len()].0 == id);
            assert(pair_ids(paths).contains(id));
        }
    }
}

proof fn lemma_name_match_matches(info: DeviceInfo, s: Seq<DeviceAccessor>, k: int)
    ensures
        (first_by_unique_name(info, s, k) matches Some(i) ==> info.matches_spec(s[i])),
        (first_by_name(info, s, k) matches Some(i) ==> info.matches_spec(s[i])),
    decreases s.len() - k,
{
    if 0 <= k < s.len() {
        lemma_name_match_matches(info, s, k + 1);
    }
}

/// Whether `e` is a present device keyed by the id of an accessor that refers to it.
pub open spec fn from_present<D>(accessors: Seq<DeviceAccessor>, present: Seq<(DeviceInfo, D)>, e: (Seq<char>, D)) -> bool {
    exists|p: int, i: int|
        0 <= p < present.len() && 0 <= i < accessors.len() && present[p].0.matches_spec(accessors[i])
            && e == (accessors[i].id_spec(), present[p].1)
}

/// Whether `e` is a device opened from the path of a path accessor, keyed by that path.
pub open spec fn from_path<D>(accessors: Seq<DeviceAccessor>, opened: Seq<Option<D>>, e: (Seq<char>, D)) -> bool {
    exists|i: int|
        0 <= i < accessors.len() && accessors[i] is Path && opened[i] is Some
            && e == (accessors[i].id_spec(), opened[i]->0)
}

/// The devices opened for a configuration are present devices that an accessor of it
/// refers to: each device opened under a name is a present node that the accessor with
/// that id names, and each device opened under a path was opened from that accessor's path.
pub proof fn lemma_opened_devices_present<D>(
    accessors: Seq<DeviceAccessor>,
    present: Seq<(DeviceInfo, D)>,
    opened: Seq<Option<D>>,
)
    requires
        opened.len() == accessors.len(),
    ensures
        forall|k: int|
            0 <= k < named_devices_spec(accessors, present).len() ==> from_present(
                accessors,
                present,
                #[trigger] named_devices_spec(accessors, present)[k],
            ),
        forall|k: int|
            0 <= k < path_devices_spec(accessors, opened, accessors.len() as int).len() ==> from_path(
                accessors,
                opened,
                #[trigger] path_devices_spec(accessors, opened, accessors.len() as int)[k],
            ),
{
    lemma_named_present(accessors, present);
    lemma_paths_opened(accessors, opened, accessors.len() as int);
}

proof fn lemma_named_present<D>(accessors: Seq<DeviceAccessor>, present: Seq<(DeviceInfo, D)>)
    ensures
        forall|k: int|
            0 <= k < named_devices_spec(accessors, present).len() ==> from_present(
                accessors,
                present,
                #[trigger] named_devices_spec(accessors, present)[k],
            ),
    decreases present.len(),
{
    if present.len() > 0 {
        let prev = present.drop_last();
        lemma_named_present(accessors, prev);
        let rest = named_devices_spec(accessors, prev);
        let all = named_devices_spec(accessors, present);
        let info = present.last().0;
        lemma_first_by_unique_name_in_range(info, accessors, 0);
        lemma_first_by_name_in_range(info, accessors, 0);
        lemma_name_match_matches(info, accessors, 0);
        assert forall|k: int| 0 <= k < all.len() implies from_present(accessors, present, #[trigger] all[k]) by {
            if k < rest.len() {
                assert(all[k] == rest[k]);
                assert(from_present(accessors, prev, rest[k]));
                let (p, i) = choose|p: int, i: int|
                    0 <= p < prev.len() && 0 <= i < accessors.len() && prev[p].0.matches_spec(accessors[i])
                        && rest[k] == (accessors[i].id_spec(), prev[p].1);
                assert(present[p] == prev[p]);
            } else {
                let i = name_match_spec(info, accessors)->0;
                let p = present.len() - 1;
                assert(all[k] == (accessors[i].id_spec(), present[p].1));
            }
        }
    }
}

proof fn lemma_paths_opened<D>(accessors: Seq<DeviceAccessor>, opened: Seq<Option<D>>, n: int)
    requires
        n <= accessors.len(),
        opened.len() == accessors.len(),
    ensures
        forall|k: int|
            0 <= k < path_devices_spec(accessors, opened, n).len() ==> from_path(
                accessors,
                opened,
                #[trigger] path_devices_spec(accessors, opened, n)[k],
            ),
    decreases n,
{
    if n > 0 {
        lemma_paths_opened(accessors, opened, n - 1);
        let rest = path_devices_spec(accessors, opened, n - 1);
        let all = path_devices_spec(accessors, opened, n);
        assert forall|k: int| 0 <= k < all.len() implies from_path(accessors, opened, #[trigger] all[k]) by {
            if k < rest.len() {
                assert(all[k] == rest[k]);
                assert(from_path(accessors, opened, rest[k]));
            } else {
                assert(all[k] == (accessors[n - 1].id_spec(), opened[n - 1]->0));
            }
        }
    }
}

/// The ids of the accessors that refer to some present device.
pub open spec fn matched_ids<D>(accessors: Seq<DeviceAccessor>, present: Seq<(DeviceInfo, D)>) -> Set<Seq<char>> {
    Set::new(
        |id: Seq<char>|
            exists|i: int, p: int|
                0 <= i < accessors.len() && 0 <= p < present.len() && present[p].0.matches_spec(
                    accessors[i],
                ) && accessors[i].id_spec() == id,
    )
}

proof fn lemma_first_by_unique_name_some(info: DeviceInfo, s: Seq<DeviceAccessor>, k: int, i: int)
    requires
        0 <= k <= i < s.len(),
        by_unique_name(info, s, i),
    ensures
        first_by_unique_name(info, s, k) matches Some(j) && by_unique_name(info, s, j),
    decreases i - k,
{
    if k < i && !by_unique_name(info, s, k) {
        lemma_first_by_unique_name_some(info, s, k + 1, i);
    }
}

proof fn lemma_first_by_name_some(info: DeviceInfo, s: Seq<DeviceAccessor>, k: int, i: int)
    requires
        0 <= k <= i < s.len(),
        by_name(info, s, i),
    ensures
        first_by_name(info, s, k) matches Some(j) && by_name(info, s, j),
    decreases i - k,
{
    if k < i && !by_name(info, s, k) {
        lemma_first_by_name_some(info, s, k + 1, i);
    }
}

proof fn lemma_first_by_unique_name_sound(info: DeviceInfo, s: Seq<DeviceAccessor>, k: int)
    ensures
        first_by_unique_name(info, s, k) matches Some(j) ==> 0 <= j < s.len() && by_unique_name(info, s, j),
    decreases s.len() - k,
{
    if 0 <= k < s.len() {
        lemma_first_by_unique_name_sound(info, s, k + 1);
    }
}

proof fn lemma_first_by_name_sound(info: DeviceInfo, s: Seq<DeviceAccessor>, k: int)
    ensures
        first_by_name(info, s, k) matches Some(j) ==> 0 <= j < s.len() && by_name(info, s, j),
    decreases s.len() - k,
{
    if 0 <= k < s.len() {
        lemma_first_by_name_sound(info, s, k + 1);
    }
}

/// A name accessor that refers to a device makes the device open under some name accessor
/// that refers to it.
proof fn lemma_name_match_some(info: DeviceInfo, s: Seq<DeviceAccessor>, i: int)
    requires
        0 <= i < s.len(),
        s[i] is Name,
        info.matches_spec(s[i]),
    ensures
        name_match_spec(info, s) matches Some(j) && 0 <= j < s.len() && s[j] is Name && info.matches_spec(s[j]),
{
    lemma_first_by_unique_name_sound(info, s, 0);
    lemma_first_by_name_sound(info, s, 0);
    if by_unique_name(info, s, i) {
        lemma_first_by_unique_name_some(info, s, 0, i);
    } else {
        assert(by_name(info, s, i));
        if first_by_unique_name(info, s, 0) is None {
            lemma_first_by_name_some(info, s, 0, i);
        }
    }
}

proof fn lemma_named_covers<D>(s: Seq<DeviceAccessor>, present: Seq<(DeviceInfo, D)>, p: int, j: int)
    requires
        0 <= p < present.len(),
        name_match_spec(present[p].0, s) == Some(j),
    ensures
        pair_ids(named_devices_spec(s, present)).contains(s[j].id_spec()),
    decreases present.len(),
{
    let rest = named_devices_spec(s, present.drop_last());
    let all = named_devices_spec(s, present);
    if p < present.len() - 1 {
        assert(present.drop_last()[p] == present[p]);
        lemma_named_covers(s, present.drop_last(), p, j);
        let k = choose|k: int| 0 <= k < rest.len() && rest[k].0 == s[j].id_spec();
        assert(all[k] == rest[k]);
    } else {
        assert(all[rest.len() as int].0 == s[j].id_spec());
    }
}

proof fn lemma_paths_cover<D>(s: Seq<DeviceAccessor>, opened: Seq<Option<D>>, n: int, i: int)
    requires
        0 <= i < n <= s.len(),
        s[i] is Path,
        opened[i] is Some,
    ensures
        pair_ids(path_devices_spec(s, opened, n)).contains(s[i].id_spec()),
    decreases n,
{
    let rest = path_devices_spec(s, opened, n - 1);
    let all = path_devices_spec(s, opened, n);
    if i < n - 1 {
        lemma_paths_cover(s, opened, n - 1, i);
        let k = choose|k: int| 0 <= k < rest.len() && rest[k].0 == s[i].id_spec();
        assert(all[k] == rest[k]);
    } else {
        assert(all[rest.len() as int].0 == s[i].id_spec());
    }
}

/// Reconciliation after a configuration change, exactly. Suppose the path accessors that
/// open are those whose node is present, no present device is named by two name accessors
/// of different ids, and every previously watched id that the new configuration keeps still
/// refers to a present device (a device that vanished has dropped out on a failed read).
/// Then, once the ids that [`Dispatcher::update_config`] gives back are stopped and the
/// devices that [`crate::device::open_devices`] opens are added, the watched ids are exactly
/// the ids of the new accessors that refer to a present device.
pub proof fn lemma_reconcile_exact<D>(
    watched: Set<Seq<char>>,
    old: Seq<DeviceAccessor>,
    new: Seq<DeviceAccessor>,
    present: Seq<(DeviceInfo, D)>,
    opened: Seq<Option<D>>,
)
    requires
        watched.subset_of(accessor_ids(accessor_views(old))),
        opened.len() == new.len(),
        forall|i: int|
            0 <= i < new.len() && new[i] is Path ==> (opened[i] is Some <==> exists|p: int|
                0 <= p < present.len() && present[p].0.matches_spec(#[trigger] new[i])),
        forall|p: int, i: int, j: int|
            0 <= p < present.len() && 0 <= i < new.len() && 0 <= j < new.len() && new[i] is Name
                && new[j] is Name && #[trigger] present[p].0.matches_spec(new[i])
                && #[trigger] present[p].0.matches_spec(new[j]) ==> new[i].id_spec() == new[j].id_spec(),
        watched.intersect(accessor_ids(accessor_views(new))).subset_of(matched_ids(new, present)),
    ensures
        watched.difference(removed_ids_spec(accessor_views(old), accessor_views(new)).to_set()).union(
            pair_ids(named_devices_spec(new, present) + path_devices_spec(new, opened, new.len() as int)),
        ) == matched_ids(new, present),
{
    lemma_removed_ids(accessor_views(old), accessor_views(new));
    lemma_opened_devices_present(new, present, opened);
    let removed = removed_ids_spec(accessor_views(old), accessor_views(new)).to_set();
    let kept = watched.difference(removed);
    assert(kept =~= watched.intersect(accessor_ids(accessor_views(new))));
    let named = named_devices_spec(new, present);
    let paths = path_devices_spec(new, opened, new.len() as int);
    let added = pair_ids(named + paths);
    let m = matched_ids(new, present);
    assert forall|id: Seq<char>| added.contains(id) implies m.contains(id) by {
        let k = choose|k: int| 0 <= k < (named + paths).len() && (named + paths)[k].0 == id;
        if k < named.len() {
            assert((named + paths)[k] == named[k]);
            assert(from_present(new, present, named[k]));
            let (p, i) = choose|p: int, i: int|
                0 <= p < present.len() && 0 <= i < new.len() && present[p].0.matches_spec(new[i])
                    && named[k] == (new[i].id_spec(), present[p].1);
            assert(m.contains(id));
        } else {
            let k2 = k - named.len();
            assert((named + paths)[k] == paths[k2]);
            assert(from_path(new, opened, paths[k2]));
            let i = choose|i: int|
                0 <= i < new.len() && new[i] is Path && opened[i] is Some
                    && paths[k2] == (new[i].id_spec(), opened[i]->0);
            let p = choose|p: int| 0 <= p < present.len() && present[p].0.matches_spec(new[i]);
            assert(m.contains(id));
        }
    }
    assert forall|id: Seq<char>| m.contains(id) implies added.contains(id) by {
        let (i, p) = choose|i: int, p: int|
            0 <= i < new.len() && 0 <= p < present.len() && present[p].0.matches_spec(new[i])
                && new[i].id_spec() == id;
        if new[i] is Path {
            lemma_paths_cover(new, opened, new.len() as int, i);
            let k = choose|k: int| 0 <= k < paths.len() && paths[k].0 == id;
            assert((named + paths)[named.len() + k] == paths[k]);
        } else {
            lemma_name_match_some(present[p].0, new, i);
            let j = name_match_spec(present[p].0, new)->0;
            lemma_named_covers(new, present, p, j);
            let k = choose|k: int| 0 <= k < named.len() && named[k].0 == new[j].id_spec();
            assert((named + paths)[k] == named[k]);
        }
    }
    assert(kept.union(added) =~= m);
}

proof fn lemma_first_match_sound(info: DeviceInfo, s: Seq<DeviceAccessor>, k: int)
    ensures
        first_match(info, s, k) matches Some(j) ==> 0 <= j < s.len() && info.matches_spec(s[j]),
    decreases s.len() - k,
{
    if 0 <= k < s.len() {
        lemma_first_match_sound(info, s, k + 1);
    }
}

/// The devices watched for newly appeared nodes are all keyed by accessors of the current
/// configuration that refer to them, so the watched ids stay among the current accessors'
/// ids.
pub proof fn lemma_reconcile_added_list<D>(watched: Set<Seq<char>>, accessors: Seq<DeviceAccessor>, added: Seq<(DeviceInfo, D)>)
    requires
        watched.subset_of(accessor_ids(accessor_views(accessors))),
    ensures
        watched.union(pair_ids(added_devices_spec(accessors, added))).subset_of(accessor_ids(accessor_views(accessors))),
    decreases added.len(),
{
    if added.len() > 0 {
        lemma_reconcile_added_list(watched, accessors, added.drop_last());
        let rest = added_devices_spec(accessors, added.drop_last());
        let all = added_devices_spec(accessors, added);
        lemma_first_match_sound(added.last().0, accessors, 0);
        assert forall|id: Seq<char>| pair_ids(all).contains(id) implies accessor_ids(accessor_views(accessors)).contains(id) by {
            let k = choose|k: int| 0 <= k < all.len() && all[k].0 == id;
            if k < rest.len() {
                assert(rest[k].0 == id);
                assert(pair_ids(rest).contains(id));
            } else {
                lemma_accessor_id(accessors, first_match(added.last().0, accessors, 0)->0);
            }
        }
    } else {
        assert(pair_ids(added_devices_spec(accessors, added)) =~= Set::empty());
    }
}

/// A device that appears is watched, if at all, under the id of an accessor of the current
/// configuration, so the watched ids stay among the current accessors' ids.
pub proof fn lemma_reconcile_added(watched: Set<Seq<char>>, accessors: Seq<DeviceAccessor>, i: int)
    requires
        watched.subset_of(accessor_ids(accessor_views(accessors))),
        0 <= i < accessors.len(),
    ensures
        watched.insert(accessors[i].id_spec()).subset_of(accessor_ids(accessor_views(accessors))),
{
    lemma_accessor_id(accessors, i);
}

} // verus!
