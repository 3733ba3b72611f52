use vstd::prelude::*;

use crate::text::{str_eq, trim, trim_of};

verus! {

/// The stable key of a device: the text of its accessor.
pub type DeviceId = String;

/// How the configuration refers to a device.
#[derive(Debug, PartialEq, Eq)]
pub enum DeviceAccessor {
    /// Matched against the device's name or unique name.
    Name(String),
    /// Matched against the device node's path.
    Path(String),
}

/// The value of a [`DeviceAccessor`].
pub enum DeviceAccessorView {
    Name(Seq<char>),
    Path(Seq<char>),
}

impl View for DeviceAccessor {
    type V = DeviceAccessorView;

    open spec fn view(&self) -> DeviceAccessorView {
        match self {
            DeviceAccessor::Name(n) => DeviceAccessorView::Name(n@),
            DeviceAccessor::Path(p) => DeviceAccessorView::Path(p@),
        }
    }
}

impl Clone for DeviceAccessor {
    fn clone(&self) -> (r: DeviceAccessor)
        ensures
            r@ == self@,
    {
        match self {
            DeviceAccessor::Name(n) => DeviceAccessor::Name(n.clone()),
            DeviceAccessor::Path(p) => DeviceAccessor::Path(p.clone()),
        }
    }
}

impl DeviceAccessor {
    /// The device id of the accessor: the name or the path itself.
    pub open spec fn id_spec(&self) -> Seq<char> {
        match self {
            DeviceAccessor::Name(n) => n@,
            DeviceAccessor::Path(p) => p@,
        }
    }

    pub fn is_path(&self) -> (r: bool)
        ensures
            r == self is Path,
    {
        match self {
            DeviceAccessor::Path(_) => true,
            DeviceAccessor::Name(_) => false,
        }
    }

    /// The accessor with its path replaced by `resolved`, the canonical form of the path when
    /// resolving it succeeded; a name accessor, or a path that did not resolve, stays as it is.
    pub fn canonicalized(&self, resolved: Option<String>) -> (r: DeviceAccessor)
        ensures
            r@ == match (self@, resolved) {
                (DeviceAccessorView::Path(_), Some(p)) => DeviceAccessorView::Path(p@),
                _ => self@,
            },
    {
        match (self, resolved) {
            (DeviceAccessor::Path(_), Some(p)) => DeviceAccessor::Path(p),
            _ => self.clone(),
        }
    }

    pub fn to_string(&self) -> (r: DeviceId)
        ensures
            r@ == self.id_spec(),
    {
        match self {
            DeviceAccessor::Name(n) => n.clone(),
            DeviceAccessor::Path(p) => p.clone(),
        }
    }
}

/// What the library needs to know of a device node to match it against accessors.
#[derive(Debug, Clone)]
pub struct DeviceInfo {
    /// The node's path, as text.
    pub path: String,
    /// The name the device advertises, if any.
    pub name: Option<String>,
    /// The unique name the device advertises, if any.
    pub unique_name: Option<String>,
}

impl DeviceInfo {
    /// Whether the device advertises a unique name that reads `n` once trimmed.
    pub open spec fn has_unique_name(&self, n: Seq<char>) -> bool {
        self.unique_name matches Some(u) && trim_of(u@) == n
    }

    /// Whether the device advertises a name that reads `n` once trimmed.
    pub open spec fn has_name(&self, n: Seq<char>) -> bool {
        self.name matches Some(m) && trim_of(m@) == n
    }

    /// Whether `a` refers to this device: a path accessor by the node's path, a name accessor
    /// by its trimmed text, which may be the trimmed unique name or the trimmed name.
    pub open spec fn matches_spec(&self, a: DeviceAccessor) -> bool {
        match a {
            DeviceAccessor::Path(p) => p@ == self.path@,
            DeviceAccessor::Name(n) => self.has_unique_name(trim_of(n@)) || self.has_name(
                trim_of(n@),
            ),
        }
    }

    fn has_unique_name_exec(&self, n: &str) -> (r: bool)
        ensures
            r == self.has_unique_name(n@),
    {
        match &self.unique_name {
            Some(u) => str_eq(trim(u.as_str()), n),
            None => false,
        }
    }

    fn has_name_exec(&self, n: &str) -> (r: bool)
        ensures
            r == self.has_name(n@),
    {
        match &self.name {
            Some(m) => str_eq(trim(m.as_str()), n),
            None => false,
        }
    }

    pub fn matches(&self, a: &DeviceAccessor) -> (r: bool)
        ensures
            r == self.matches_spec(*a),
    {
        match a {
            DeviceAccessor::Path(p) => str_eq(p.as_str(), self.path.as_str()),
            DeviceAccessor::Name(n) => {
                let t = trim(n.as_str());
                self.has_unique_name_exec(t) || self.has_name_exec(t)
            },
        }
    }
}

/// Whether `accessors[i]` is a name accessor that names the device by its unique name.
pub open spec fn by_unique_name(info: DeviceInfo, accessors: Seq<DeviceAccessor>, i: int) -> bool {
    accessors[i] is Name && info.has_unique_name(trim_of(accessors[i]->Name_0@))
}

/// Whether `accessors[i]` is a name accessor that names the device by its name.
pub open spec fn by_name(info: DeviceInfo, accessors: Seq<DeviceAccessor>, i: int) -> bool {
    accessors[i] is Name && info.has_name(trim_of(accessors[i]->Name_0@))
}

/// The first index from `i` on whose accessor names the device by its unique name.
pub open spec fn first_by_unique_name(info: DeviceInfo, accessors: Seq<DeviceAccessor>, i: int) -> Option<int>
    decreases accessors.len() - i,
{
    if i < 0 || i >= accessors.len() {
        None
    } else if by_unique_name(info, accessors, i) {
        Some(i)
    } else {
        first_by_unique_name(info, accessors, i + 1)
    }
}

/// The first index from `i` on whose accessor names the device by its name.
pub open spec fn first_by_name(info: DeviceInfo, accessors: Seq<DeviceAccessor>, i: int) -> Option<int>
    decreases accessors.len() - i,
{
    if i < 0 || i >= accessors.len() {
        None
    } else if by_name(info, accessors, i) {
        Some(i)
    } else {
        first_by_name(info, accessors, i + 1)
    }
}

/// The name accessor that a device is opened under: the first that names it by its unique
/// name or, if none does, the first that names it by its name.
pub open spec fn name_match_spec(info: DeviceInfo, accessors: Seq<DeviceAccessor>) -> Option<int> {
    match first_by_unique_name(info, accessors, 0) {
        Some(i) => Some(i),
        None => first_by_name(info, accessors, 0),
    }
}

/// The index of the name accessor that a device is opened under, if any.
pub fn device_name_matches(info: &DeviceInfo, accessors: &Vec<DeviceAccessor>) -> (r: Option<usize>)
    ensures
        match r {
            Some(i) => i < accessors@.len() && name_match_spec(*info, accessors@) == Some(i as int),
            None => name_match_spec(*info, accessors@) is None,
        },
{
    let mut i: usize = 0;
    while i < accessors.len()
        invariant
            i <= accessors@.len(),
            first_by_unique_name(*info, accessors@, 0) == first_by_unique_name(*info, accessors@, i as int),
        decreases accessors@.len() - i,
    {
        match &accessors[i] {
            DeviceAccessor::Name(n) => {
                if info.has_unique_name_exec(trim(n.as_str())) {
                    return Some(i);
                }
            },
            DeviceAccessor::Path(_) => {},
        }
        i = i + 1;
    }
    let mut i: usize = 0;
    while i < accessors.len()
        invariant
            i <= accessors@.len(),
            first_by_unique_name(*info, accessors@, 0) is None,
            first_by_name(*info, accessors@, 0) == first_by_name(*info, accessors@, i as int),
        decreases accessors@.len() - i,
    {
        match &accessors[i] {
            DeviceAccessor::Name(n) => {
                if info.has_name_exec(trim(n.as_str())) {
                    return Some(i);
                }
            },
            DeviceAccessor::Path(_) => {},
        }
        i = i + 1;
    }
    None
}

/// The first accessor that refers to a newly appeared device, by its path or by its names.
pub fn path_in_devices<'a>(info: &DeviceInfo, accessors: &'a Vec<DeviceAccessor>) -> (r: Option<&'a DeviceAccessor>)
    ensures
        match r {
            Some(a) => exists|i: int|
                0 <= i < accessors@.len() && accessors@[i] == *a && info.matches_spec(accessors@[i])
                    && forall|j: int| 0 <= j < i ==> !info.matches_spec(#[trigger] accessors@[j]),
            None => forall|j: int| 0 <= j < accessors@.len() ==> !info.matches_spec(#[trigger] accessors@[j]),
        },
{
    let mut i: usize = 0;
    while i < accessors.len()
        invariant
            i <= accessors@.len(),
            forall|j: int| 0 <= j < i ==> !info.matches_spec(#[trigger] accessors@[j]),
        decreases accessors@.len() - i,
    {
        if info.matches(&accessors[i]) {
            return Some(&accessors[i]);
        }
        i = i + 1;
    }
    None
}

/// An opened device together with the id it is watched under.
#[derive(Debug)]
pub struct DeviceIdCombo<D> {
    pub device: D,
    pub id: DeviceId,
}

impl<D> DeviceIdCombo<D> {
    /// The id and the device.
    pub open spec fn view_pair(&self) -> (Seq<char>, D) {
        (self.id@, self.device)
    }

    pub fn new(id: DeviceId, device: D) -> (r: DeviceIdCombo<D>)
        ensures
            r.id == id,
            r.device == device,
    {
        DeviceIdCombo { device, id }
    }

    pub fn from_accessor(accessor: DeviceAccessor, device: D) -> (r: DeviceIdCombo<D>)
        ensures
            r.id@ == accessor.id_spec(),
            r.device == device,
    {
        DeviceIdCombo { device, id: accessor.to_string() }
    }

    pub fn id(&self) -> (r: &str)
        ensures
            r@ == self.id@,
    {
        self.id.as_str()
    }
}

/// The devices that the name accessors select among the present ones, in the order they are
/// present, each with the id of the accessor it is opened under.
pub open spec fn named_devices_spec<D>(accessors: Seq<DeviceAccessor>, present: Seq<(DeviceInfo, D)>) -> Seq<(Seq<char>, D)>
    decreases present.len(),
{
    if present.len() == 0 {
        Seq::empty()
    } else {
        let rest = named_devices_spec(accessors, present.drop_last());
        match name_match_spec(present.last().0, accessors) {
            Some(i) => rest.push((accessors[i].id_spec(), present.last().1)),
            None => rest,
        }
    }
}

/// The devices opened for the path accessors among the first `n`, each with its path as id.
pub open spec fn path_devices_spec<D>(accessors: Seq<DeviceAccessor>, opened: Seq<Option<D>>, n: int) -> Seq<(Seq<char>, D)>
    decreases n,
{
    if n <= 0 {
        Seq::empty()
    } else {
        let rest = path_devices_spec(accessors, opened, n - 1);
        if accessors[n - 1] is Path && opened[n - 1] is Some {
            rest.push((accessors[n - 1].id_spec(), opened[n - 1]->0))
        } else {
            rest
        }
    }
}

/// The devices to watch for a set of accessors: first the present devices that a name
/// accessor selects, then the devices that opened for the path accessors. `present` holds
/// each present device node with its handle; `opened[i]` holds the handle that opening the
/// path of `accessors[i]` gave, if that is a path accessor and the node opened.
pub fn open_devices<D>(accessors: &Vec<DeviceAccessor>, present: Vec<(DeviceInfo, D)>, opened: Vec<Option<D>>) -> (r: Vec<DeviceIdCombo<D>>)
    requires
        opened@.len() == accessors@.len(),
    ensures
        r@.map_values(|c: DeviceIdCombo<D>| c.view_pair()) == named_devices_spec(accessors@, present@)
            + path_devices_spec(accessors@, opened@, accessors@.len() as int),
{
    let mut r: Vec<DeviceIdCombo<D>> = Vec::new();
    let n = present.len();
    let ghost all = present@;
    let mut present = present;
    let mut k: usize = 0;
    while present.len() > 0
        invariant
            k <= all.len(),
            all.len() == n,
            present@ == all.skip(k as int),
            r@.map_values(|c: DeviceIdCombo<D>| c.view_pair()) == named_devices_spec(accessors@, all.take(k as int)),
        decreases present@.len(),
    {
        let (info, device) = present.remove(0);
        proof {
            assert(all.take(k + 1).drop_last() =~= all.take(k as int));
            assert(all.take(k + 1).last() == all[k as int]);
        }
        match device_name_matches(&info, accessors) {
            Some(i) => {
                let combo = DeviceIdCombo::from_accessor(accessors[i].clone(), device);
                r.push(combo);
            },
            None => {},
        }
        k = k + 1;
        proof {
            assert(r@.map_values(|c: DeviceIdCombo<D>| c.view_pair()) =~= named_devices_spec(accessors@, all.take(k as int)));
        }
    }
    proof {
        assert(all.take(k as int) =~= all);
    }
    let ghost named = r@.map_values(|c: DeviceIdCombo<D>| c.view_pair());
    let mut opened = opened;
    let ghost all_opened = opened@;
    let mut i: usize = 0;
    while i < accessors.len()
        invariant
            i <= accessors@.len(),
            all_opened.len() == accessors@.len(),
            opened@ == all_opened.skip(i as int),
            r@.map_values(|c: DeviceIdCombo<D>| c.view_pair()) == named + path_devices_spec(accessors@, all_opened, i as int),
        decreases accessors@.len() - i,
    {
        let slot = opened.remove(0);
        assert(slot == all_opened[i as int]);
        let ghost before = r@.map_values(|c: DeviceIdCombo<D>| c.view_pair());
        match slot {
            Some(device) => {
                if accessors[i].is_path() {
                    let combo = DeviceIdCombo::from_accessor(accessors[i].clone(), device);
                    r.push(combo);
                    assert(r@.map_values(|c: DeviceIdCombo<D>| c.view_pair()) =~= before.push((accessors@[i as int].id_spec(), device)));
                }
            },
            None => {},
        }
        i = i + 1;
        proof {
            assert(r@.map_values(|c: DeviceIdCombo<D>| c.view_pair()) =~= named + path_devices_spec(accessors@, all_opened, i as int));
        }
    }
    r
}

} // verus!
