use vstd::prelude::*;

verus! {

/// Cache policy for registry lookups, fixed for the life of a client.
///
/// `Use` serves from any cache tier.  `ReloadAll` forces a network fetch
/// for every name the first time it is looked up in this process;
/// `ReloadSome` does so only for the listed names.  `Only` forbids the
/// network entirely and serves from local data alone.
#[derive(Debug)]
pub enum CacheSetting {
    Use,
    ReloadAll,
    ReloadSome(Vec<String>),
    Only,
}

/// Whether `name` occurs in `list`.
pub open spec fn reload_list_contains(list: Seq<String>, name: Seq<char>) -> bool {
    exists|i: int| 0 <= i < list.len() && (#[trigger] list[i])@ == name
}

impl CacheSetting {
    /// Whether this policy lets a lookup of `name` be answered from the
    /// disk cache.  Reload policies withhold that permission for the
    /// names they target; `Use` and `Only` always grant it.
    pub open spec fn spec_permits_disk_use(&self, name: Seq<char>) -> bool {
        match self {
            CacheSetting::ReloadAll => false,
            CacheSetting::ReloadSome(list) => !reload_list_contains(list@, name),
            CacheSetting::Use => true,
            CacheSetting::Only => true,
        }
    }

    /// Decides whether the disk cache may answer a lookup of `name`
    /// under this policy.
    pub fn permits_disk_use(&self, name: &str) -> (r: bool)
        ensures
            r == self.spec_permits_disk_use(name@),
    {
        match self {
            CacheSetting::ReloadAll => false,
            CacheSetting::ReloadSome(list) => !list_contains_name(list, name),
            CacheSetting::Use => true,
            CacheSetting::Only => true,
        }
    }

    /// Whether this policy forbids network access.
    pub open spec fn spec_is_network_forbidden(&self) -> bool {
        self is Only
    }

    /// Decides whether this policy forbids network access.
    pub fn is_network_forbidden(&self) -> (r: bool)
        ensures
            r == self.spec_is_network_forbidden(),
    {
        match self {
            CacheSetting::Only => true,
            _ => false,
        }
    }
}

/// Linear scan for `name` among the listed package names.
fn list_contains_name(list: &Vec<String>, name: &str) -> (r: bool)
    ensures
        r == reload_list_contains(list@, name@),
{
    let target: String = name.to_owned();
    let mut i: usize = 0;
    while i < list.len()
        invariant
            0 <= i <= list.len(),
            target@ == name@,
            forall|j: int| 0 <= j < i ==> (#[trigger] list@[j])@ != name@,
        decreases list.len() - i,
    {
        if list[i] == target {
            return true;
        }
        i += 1;
    }
    false
}

} // verus!
