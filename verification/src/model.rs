use vstd::prelude::*;

verus! {

/// The text of each string in a sequence.
pub open spec fn views(v: Seq<String>) -> Seq<Seq<char>> {
    v.map_values(|s: String| s@)
}

/// A copy of a vector of strings.
pub fn copy_strings(v: &Vec<String>) -> (r: Vec<String>)
    ensures
        r@ == v@,
{
    let mut r: Vec<String> = Vec::new();
    let mut i: usize = 0;
    while i < v.len()
        invariant
            i <= v@.len(),
            r@ == v@.subrange(0, i as int),
        decreases v@.len() - i,
    {
        r.push(v[i].clone());
        i = i + 1;
    }
    assert(r@ =~= v@);
    r
}

/// Whether two vectors hold the same texts in the same order.
pub fn strings_equal(a: &Vec<String>, b: &Vec<String>) -> (r: bool)
    ensures
        r == (views(a@) == views(b@)),
{
    if a.len() != b.len() {
        assert(views(a@).len() != views(b@).len());
        return false;
    }
    let mut i: usize = 0;
    while i < a.len()
        invariant
            a@.len() == b@.len(),
            i <= a@.len(),
            forall|j: int| 0 <= j < i ==> a@[j]@ == b@[j]@,
        decreases a@.len() - i,
    {
        if a[i] != b[i] {
            assert(views(a@)[i as int] != views(b@)[i as int]);
            return false;
        }
        i = i + 1;
    }
    assert(views(a@) =~= views(b@));
    true
}

/// Whether `x` occurs among the texts of `v`.
pub fn contains_string(v: &Vec<String>, x: &String) -> (r: bool)
    ensures
        r == views(v@).contains(x@),
{
    let mut i: usize = 0;
    while i < v.len()
        invariant
            i <= v@.len(),
            forall|j: int| 0 <= j < i ==> v@[j]@ != x@,
        decreases v@.len() - i,
    {
        if v[i] == *x {
            assert(views(v@)[i as int] == x@);
            return true;
        }
        i = i + 1;
    }
    assert(!views(v@).contains(x@)) by {
        if views(v@).contains(x@) {
            let k = choose|k: int| 0 <= k < views(v@).len() && views(v@)[k] == x@;
            assert(v@[k]@ == x@);
        }
    }
    false
}

/// The session of the distributor that the device is provisioned for.
pub struct DistributorSession {
    pub id: String,
    pub token: String,
    pub account_id: String,
    pub device_id: String,
}

/// The texts of a distributor session.
pub struct DistributorSessionView {
    pub id: Seq<char>,
    pub token: Seq<char>,
    pub account_id: Seq<char>,
    pub device_id: Seq<char>,
}

impl View for DistributorSession {
    type V = DistributorSessionView;

    open spec fn view(&self) -> DistributorSessionView {
        DistributorSessionView {
            id: self.id@,
            token: self.token@,
            account_id: self.account_id@,
            device_id: self.device_id@,
        }
    }
}

impl DistributorSession {
    /// A copy of this session.
    pub fn duplicate(&self) -> (r: DistributorSession)
        ensures
            r@ == self@,
    {
        DistributorSession {
            id: self.id.clone(),
            token: self.token.clone(),
            account_id: self.account_id.clone(),
            device_id: self.device_id.clone(),
        }
    }
}

/// The role in which a capability is held.
#[derive(Clone, Copy, Debug, PartialEq, Eq, Structural)]
pub enum Role {
    Use,
    Manage,
    Provide,
}

/// Whether a user grant allows or denies its capability.
#[derive(Clone, Copy, Debug, PartialEq, Eq, Structural)]
pub enum GrantStatus {
    Allowed,
    Denied,
}

/// The kinds of cloud data that can be synchronised and monitored.
#[derive(Clone, Copy, Debug, PartialEq, Eq, Structural)]
pub enum SyncAndMonitorModule {
    Privacy,
    UserGrants,
}

/// The errors that a request to the distributor platform ends with.
#[derive(Clone, Copy, Debug, PartialEq, Eq, Structural)]
pub enum DpabError {
    ServiceError,
    NotDataFound,
    IoError,
}

/// A capability together with the role in which it is held.
pub struct CapRole {
    pub role: Role,
    pub cap: String,
}

/// The role and capability text of a [`CapRole`].
pub struct CapRoleView {
    pub role: Role,
    pub cap: Seq<char>,
}

impl View for CapRole {
    type V = CapRoleView;

    open spec fn view(&self) -> CapRoleView {
        CapRoleView { role: self.role, cap: self.cap@ }
    }
}

impl CapRole {
    /// A copy of this capability and role.
    pub fn duplicate(&self) -> (r: CapRole)
        ensures
            r@ == self@,
    {
        CapRole { role: self.role, cap: self.cap.clone() }
    }
}

/// One entry of the mapping from a cloud privacy property to the capability it grants.
pub struct UserGrantMapping {
    pub property: String,
    pub cap_role: CapRole,
}

/// The texts of a [`UserGrantMapping`].
pub struct UserGrantMappingView {
    pub property: Seq<char>,
    pub cap_role: CapRoleView,
}

impl View for UserGrantMapping {
    type V = UserGrantMappingView;

    open spec fn view(&self) -> UserGrantMappingView {
        UserGrantMappingView { property: self.property@, cap_role: self.cap_role@ }
    }
}

/// The views of the entries of a mapping.
pub open spec fn mapping_views(v: Seq<UserGrantMapping>) -> Seq<UserGrantMappingView> {
    v.map_values(|m: UserGrantMapping| m@)
}

/// Whether no text occurs twice in `v`.
pub fn strings_distinct(v: &Vec<String>) -> (r: bool)
    ensures
        r == views(v@).no_duplicates(),
{
    let ghost vv = views(v@);
    let mut j: usize = 0;
    while j < v.len()
        invariant
            j <= v@.len(),
            vv == views(v@),
            forall|a: int, b: int| 0 <= a < b < j ==> vv[a] != vv[b],
        decreases v@.len() - j,
    {
        let mut i: usize = 0;
        while i < j
            invariant
                i <= j < v@.len(),
                vv == views(v@),
                forall|a: int, b: int| 0 <= a < b < j ==> vv[a] != vv[b],
                forall|a: int| 0 <= a < i ==> vv[a] != vv[j as int],
            decreases j - i,
        {
            if crate::text::str_eq(v[i].as_str(), v[j].as_str()) {
                assert(vv[i as int] == vv[j as int]);
                return false;
            }
            i = i + 1;
        }
        j = j + 1;
    }
    assert forall|a: int, b: int| 0 <= a < vv.len() && 0 <= b < vv.len() && a != b implies vv[a] != vv[b] by {
        if b < a {
            assert(vv[b] != vv[a]);
        }
    }
    true
}

/// Whether no two entries of a mapping are for the same property: the mapping
/// is a map from properties.
pub open spec fn unique_properties(m: Seq<UserGrantMappingView>) -> bool {
    forall|i: int, j: int| 0 <= i < j < m.len() ==> (#[trigger] m[i]).property != (#[trigger] m[j]).property
}

/// Whether no two entries of `m` are for the same property.
pub fn has_unique_properties(m: &Vec<UserGrantMapping>) -> (r: bool)
    ensures
        r == unique_properties(mapping_views(m@)),
{
    let ghost mv = mapping_views(m@);
    let mut j: usize = 0;
    while j < m.len()
        invariant
            j <= m@.len(),
            mv == mapping_views(m@),
            forall|a: int, b: int| 0 <= a < b < j ==> (#[trigger] mv[a]).property != (#[trigger] mv[b]).property,
        decreases m@.len() - j,
    {
        let mut i: usize = 0;
        while i < j
            invariant
                i <= j < m@.len(),
                mv == mapping_views(m@),
                forall|a: int, b: int| 0 <= a < b < j ==> (#[trigger] mv[a]).property != (#[trigger] mv[b]).property,
                forall|a: int| 0 <= a < i ==> (#[trigger] mv[a]).property != mv[j as int].property,
            decreases j - i,
        {
            if crate::text::str_eq(m[i].property.as_str(), m[j].property.as_str()) {
                assert(mv[i as int].property == mv[j as int].property);
                return false;
            }
            i = i + 1;
        }
        j = j + 1;
    }
    true
}

/// A copy of a user grants mapping.
pub fn copy_mapping(v: &Vec<UserGrantMapping>) -> (r: Vec<UserGrantMapping>)
    ensures
        mapping_views(r@) == mapping_views(v@),
{
    let mut r: Vec<UserGrantMapping> = Vec::new();
    let mut i: usize = 0;
    while i < v.len()
        invariant
            i <= v@.len(),
            mapping_views(r@) == mapping_views(v@.subrange(0, i as int)),
        decreases v@.len() - i,
    {
        let e = UserGrantMapping {
            property: v[i].property.clone(),
            cap_role: v[i].cap_role.duplicate(),
        };
        let ghost old_r = r@;
        r.push(e);
        assert(mapping_views(r@) =~= mapping_views(v@.subrange(0, i + 1))) by {
            assert(r@ == old_r.push(e));
            assert(mapping_views(old_r).len() == i);
            assert forall|k: int| 0 <= k <= i implies #[trigger] mapping_views(r@)[k] == mapping_views(v@.subrange(0, i + 1))[k] by {
                if k < i {
                    assert(mapping_views(r@)[k] == mapping_views(old_r)[k]);
                    assert(mapping_views(old_r)[k] == mapping_views(v@.subrange(0, i as int))[k]);
                }
            }
        }
        i = i + 1;
    }
    assert(v@.subrange(0, v@.len() as int) =~= v@);
    r
}

} // verus!
