//! The guarantees that hold across several operations of the cache,
//! each proved from the contracts in [`crate::registry`] alone.

use vstd::prelude::*;
use crate::metadata::PackageMetadata;
use crate::registry::DiskReadOutcome;
use crate::registry::DiskStep;
use crate::registry::FetchOutcome;
use crate::registry::LookupStep;
use crate::registry::NpmRegistryApiInner;
use crate::registry::disk_eligible;
use crate::registry::disk_transition;
use crate::registry::fetch_transition;
use crate::registry::is_pending;
use crate::registry::is_resolved;
use crate::registry::lookup_transition;
use crate::registry::reloaded_after;
use crate::registry::spec_cached;
use crate::registry::stored_info;
use crate::setting::CacheSetting;
use crate::errors::RegistryError;

verus! {

/// While a fetch for a name is in flight, a lookup of that name joins
/// it: it changes nothing and starts no second fetch, so arbitrarily
/// many concurrent callers converge on the one in-flight outcome and
/// exactly one network call is made per miss.
pub proof fn lemma_single_flight(
    pre: NpmRegistryApiInner,
    post: NpmRegistryApiInner,
    name: Seq<char>,
    step: LookupStep,
)
    requires
        lookup_transition(pre, post, name, step),
        is_pending(pre.entries(), name),
    ensures
        step is AwaitInFlight,
        post.entries() == pre.entries(),
        post.reloaded() == pre.reloaded(),
{
}

/// A lookup of a resolved name is a pure cache hit: it returns exactly
/// the stored answer and changes nothing, so no network call occurs.
pub proof fn lemma_resolved_lookup_is_hit(
    pre: NpmRegistryApiInner,
    post: NpmRegistryApiInner,
    name: Seq<char>,
    step: LookupStep,
)
    requires
        lookup_transition(pre, post, name, step),
        is_resolved(pre.entries(), name),
    ensures
        step matches LookupStep::Hit(maybe_info) && maybe_info == stored_info(
            pre.entries(),
            name,
        ),
        post.entries() == pre.entries(),
        post.reloaded() == pre.reloaded(),
{
}

/// A successful fetch with a body caches the metadata: every waiter is
/// handed that value, a later memory-only read returns it, and a later
/// lookup of the name is a pure cache hit with no further network call.
pub proof fn lemma_success_is_cached(
    pre: NpmRegistryApiInner,
    mid: NpmRegistryApiInner,
    post: NpmRegistryApiInner,
    name: Seq<char>,
    info: PackageMetadata,
    r: Result<Option<PackageMetadata>, RegistryError>,
    step: LookupStep,
)
    requires
        fetch_transition(pre, mid, name, FetchOutcome::Success(info), r),
        lookup_transition(mid, post, name, step),
    ensures
        r matches Ok(v) && v == Some(info),
        spec_cached(mid.entries(), name) == Some(info),
        step matches LookupStep::Hit(maybe_info) && maybe_info == Some(info),
        post.entries() == mid.entries(),
{
}

/// A not-found answer is cached as a negative result: every waiter is
/// told the package is absent, and later lookups answer the same from
/// memory without another network call.
pub proof fn lemma_not_found_is_cached(
    pre: NpmRegistryApiInner,
    mid: NpmRegistryApiInner,
    post: NpmRegistryApiInner,
    name: Seq<char>,
    r: Result<Option<PackageMetadata>, RegistryError>,
    step: LookupStep,
)
    requires
        fetch_transition(pre, mid, name, FetchOutcome::NotFound, r),
        lookup_transition(mid, post, name, step),
    ensures
        r matches Ok(v) && v is None,
        is_resolved(mid.entries(), name),
        stored_info(mid.entries(), name) is None,
        step matches LookupStep::Hit(maybe_info) && maybe_info is None,
        post.entries() == mid.entries(),
{
}

/// Cache-only mode never routes a fresh name to the network from the
/// lookup decision: disk use is always permitted, so the first decision
/// for an uncached name is to consult the disk.  (The fetch gate
/// refuses the network outright in this mode; see
/// `NpmRegistryApiInner::prepare_registry_fetch`.)
pub proof fn lemma_cache_only_consults_disk(
    pre: NpmRegistryApiInner,
    post: NpmRegistryApiInner,
    name: Seq<char>,
    step: LookupStep,
)
    requires
        lookup_transition(pre, post, name, step),
        pre.spec_setting() is Only,
    ensures
        step !is StartFetch,
        !pre.entries().contains_key(name) ==> step is CheckDisk,
{
}

/// A reload policy forces the network at most once per name per
/// process: the first lookup of a name the policy targets bypasses the
/// disk and starts a fetch, and every later lookup of that name --
/// here, after the memory entry was dropped again -- is free to use
/// the disk cache.
pub proof fn lemma_reload_forced_once(
    pre: NpmRegistryApiInner,
    mid: NpmRegistryApiInner,
    later: NpmRegistryApiInner,
    post: NpmRegistryApiInner,
    name: Seq<char>,
    step1: LookupStep,
    step2: LookupStep,
)
    requires
        !pre.entries().contains_key(name),
        !pre.reloaded().contains(name),
        !pre.spec_setting().spec_permits_disk_use(name),
        lookup_transition(pre, mid, name, step1),
        later.spec_setting() == pre.spec_setting(),
        later.reloaded() == mid.reloaded(),
        !later.entries().contains_key(name),
        lookup_transition(later, post, name, step2),
    ensures
        step1 is StartFetch,
        mid.reloaded().contains(name),
        step2 is CheckDisk,
{
}

/// Considering a name for reload never forgets earlier names: the
/// reload-tracking set only grows within a clear-cycle.
pub proof fn lemma_reloaded_set_grows(
    setting: CacheSetting,
    reloaded: Set<Seq<char>>,
    name: Seq<char>,
)
    ensures
        reloaded.subset_of(reloaded_after(setting, reloaded, name)),
        disk_eligible(setting, reloaded_after(setting, reloaded, name), name)
            || setting.spec_permits_disk_use(name),
{
}

/// A resolved entry never changes in place: a lookup of any name
/// leaves every resolved entry exactly as it was.
pub proof fn lemma_lookup_keeps_resolved(
    pre: NpmRegistryApiInner,
    post: NpmRegistryApiInner,
    name: Seq<char>,
    step: LookupStep,
    k: Seq<char>,
)
    requires
        lookup_transition(pre, post, name, step),
        is_resolved(pre.entries(), k),
    ensures
        is_resolved(post.entries(), k),
        stored_info(post.entries(), k) == stored_info(pre.entries(), k),
{
}

/// A resolved entry never changes in place: resuming some other
/// name's lookup from the disk leaves every resolved entry as it was.
pub proof fn lemma_disk_keeps_resolved(
    pre: NpmRegistryApiInner,
    post: NpmRegistryApiInner,
    name: Seq<char>,
    disk: DiskReadOutcome,
    step: DiskStep,
    k: Seq<char>,
)
    requires
        disk_transition(pre, post, name, disk, step),
        !pre.entries().contains_key(name),
        is_resolved(pre.entries(), k),
    ensures
        is_resolved(post.entries(), k),
        stored_info(post.entries(), k) == stored_info(pre.entries(), k),
{
}

/// A resolved entry never changes in place: settling a fetch -- which
/// only ever targets a pending name -- leaves every resolved entry as
/// it was.
pub proof fn lemma_fetch_keeps_resolved(
    pre: NpmRegistryApiInner,
    post: NpmRegistryApiInner,
    name: Seq<char>,
    outcome: FetchOutcome,
    r: Result<Option<PackageMetadata>, RegistryError>,
    k: Seq<char>,
)
    requires
        fetch_transition(pre, post, name, outcome, r),
        is_pending(pre.entries(), name),
        is_resolved(pre.entries(), k),
    ensures
        is_resolved(post.entries(), k),
        stored_info(post.entries(), k) == stored_info(pre.entries(), k),
{
}

} // verus!
