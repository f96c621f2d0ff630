use vstd::prelude::*;
use vstd::hash_map::StringHashMap;
use vstd::hash_set::StringHashSet;
use vstd::pervasive::unreached;
use crate::errors::RegistryError;
use crate::metadata::PackageMetadata;
use crate::setting::CacheSetting;
use crate::urls::is_normalized_base;
use crate::urls::package_url;

verus! {

/// One slot of the in-memory cache.  `Pending` marks a name whose fetch
/// is in flight: it is the mutual-exclusion barrier that keeps the
/// fetch single-flight, and the shared handle that concurrent callers
/// wait on lives with the process that drives the fetch.  `Resolved`
/// holds the final answer; `Resolved(None)` is a cached negative
/// result (the registry confirmed the package absent).
pub enum CacheItem {
    Pending,
    Resolved(Option<PackageMetadata>),
}

/// What a lookup asks of its caller next.
pub enum LookupStep {
    /// The memory cache already held the answer; nothing else to do.
    Hit(Option<PackageMetadata>),
    /// A fetch for this name is already in flight: wait for its shared
    /// outcome instead of starting another.
    AwaitInFlight,
    /// No entry, and the policy allows local data: read the disk cache
    /// and report what it held through `resume_with_disk`.
    CheckDisk,
    /// No entry and local data is not allowed: an in-flight marker has
    /// been placed; perform the fetch and report it through
    /// `finish_fetch`.
    StartFetch,
}

/// What the disk cache yielded for one name, as observed by the caller
/// that performed the read and the decode.
pub enum DiskReadOutcome {
    /// No file for this name.
    Missing,
    /// The file could not be read; the payload describes the failure.
    IoFailure(String),
    /// A decodable file, carrying the metadata it held.
    Valid(PackageMetadata),
    /// A file that could not be decoded; the payload describes the
    /// failure.  Stale or corrupted local data must never block
    /// progress, so this counts as a miss.
    Corrupt(String),
}

/// What to do after the disk cache was consulted.
pub enum DiskStep {
    /// The disk held a usable copy; it is now cached in memory too.
    Hit(PackageMetadata),
    /// The disk could not answer: an in-flight marker has been placed;
    /// perform the fetch and report it through `finish_fetch`.
    StartFetch,
}

/// How a network fetch ended, as observed by the caller that performed
/// it.
pub enum FetchOutcome {
    /// The registry answered with a decodable body.
    Success(PackageMetadata),
    /// The registry reported the package absent.
    NotFound,
    /// The fetch failed: refused by policy, transport failure, or an
    /// undecodable body.
    Failed(RegistryError),
}

/// A fetch for `name` is in flight.
pub open spec fn is_pending(entries: Map<Seq<char>, CacheItem>, name: Seq<char>) -> bool {
    entries.contains_key(name) && entries[name] is Pending
}

/// `name` has a final answer in the memory cache.
pub open spec fn is_resolved(entries: Map<Seq<char>, CacheItem>, name: Seq<char>) -> bool {
    entries.contains_key(name) && entries[name] is Resolved
}

/// The answer stored for `name`, assuming it is resolved.
pub open spec fn stored_info(entries: Map<Seq<char>, CacheItem>, name: Seq<char>) -> Option<
    PackageMetadata,
>
    recommends
        is_resolved(entries, name),
{
    match entries[name] {
        CacheItem::Resolved(maybe_info) => maybe_info,
        CacheItem::Pending => None,
    }
}

/// What a memory-only read returns for `name`: the stored metadata if
/// the name is resolved with a present value, and nothing otherwise.
/// A pending fetch and a cached negative result both read as absent.
pub open spec fn spec_cached(entries: Map<Seq<char>, CacheItem>, name: Seq<char>) -> Option<
    PackageMetadata,
> {
    if is_resolved(entries, name) {
        stored_info(entries, name)
    } else {
        None
    }
}

/// Whether a lookup of `name` may be answered from the disk cache:
/// either the policy permits it outright, or this process has already
/// considered `name` for a forced reload once, which spends the
/// policy's claim on it.
pub open spec fn disk_eligible(
    setting: CacheSetting,
    reloaded: Set<Seq<char>>,
    name: Seq<char>,
) -> bool {
    setting.spec_permits_disk_use(name) || reloaded.contains(name)
}

/// The reload-tracking set after one eligibility decision for `name`:
/// a name is recorded exactly when the policy withheld disk use from
/// it, so that the forced reload happens at most once per process.
pub open spec fn reloaded_after(
    setting: CacheSetting,
    reloaded: Set<Seq<char>>,
    name: Seq<char>,
) -> Set<Seq<char>> {
    if setting.spec_permits_disk_use(name) {
        reloaded
    } else {
        reloaded.insert(name)
    }
}

/// The configuration of the client never changes after construction.
pub open spec fn config_unchanged(pre: NpmRegistryApiInner, post: NpmRegistryApiInner) -> bool {
    &&& post.spec_base_url() == pre.spec_base_url()
    &&& post.spec_setting() == pre.spec_setting()
    &&& post.spec_sync_download() == pre.spec_sync_download()
    &&& post.spec_strict_errors() == pre.spec_strict_errors()
}

/// How one call of `maybe_package_info` relates the cache before (`pre`)
/// to the cache after (`post`) and to the step it returns.  Exactly one
/// step fits any given state, and only `StartFetch` places an in-flight
/// marker.
pub open spec fn lookup_transition(
    pre: NpmRegistryApiInner,
    post: NpmRegistryApiInner,
    name: Seq<char>,
    step: LookupStep,
) -> bool {
    &&& config_unchanged(pre, post)
    &&& (step is Hit <==> is_resolved(pre.entries(), name))
    &&& (step is AwaitInFlight <==> is_pending(pre.entries(), name))
    &&& (step is CheckDisk <==> !pre.entries().contains_key(name) && disk_eligible(
        pre.spec_setting(),
        pre.reloaded(),
        name,
    ))
    &&& (step is StartFetch <==> !pre.entries().contains_key(name) && !disk_eligible(
        pre.spec_setting(),
        pre.reloaded(),
        name,
    ))
    &&& (step matches LookupStep::Hit(maybe_info) ==> maybe_info == stored_info(
        pre.entries(),
        name,
    ))
    &&& ((step is Hit || step is AwaitInFlight) ==> post.entries() == pre.entries()
        && post.reloaded() == pre.reloaded())
    &&& (step is CheckDisk ==> post.entries() == pre.entries() && post.reloaded()
        == reloaded_after(pre.spec_setting(), pre.reloaded(), name))
    &&& (step is StartFetch ==> post.entries() == pre.entries().insert(name, CacheItem::Pending)
        && post.reloaded() == reloaded_after(pre.spec_setting(), pre.reloaded(), name))
}

/// How one call of `resume_with_disk` relates the cache before and
/// after to the disk outcome it was handed and the step it returns: a
/// usable copy resolves the name in memory without any network; every
/// other outcome counts as a miss and places the in-flight marker.
pub open spec fn disk_transition(
    pre: NpmRegistryApiInner,
    post: NpmRegistryApiInner,
    name: Seq<char>,
    disk: DiskReadOutcome,
    step: DiskStep,
) -> bool {
    &&& config_unchanged(pre, post)
    &&& post.reloaded() == pre.reloaded()
    &&& (step is Hit <==> disk is Valid)
    &&& (step matches DiskStep::Hit(info) ==> (disk matches DiskReadOutcome::Valid(held) && info
        == held && post.entries() == pre.entries().insert(
        name,
        CacheItem::Resolved(Some(info)),
    )))
    &&& (step is StartFetch ==> post.entries() == pre.entries().insert(name, CacheItem::Pending))
}

/// How one call of `finish_fetch` relates the cache before and after to
/// the fetch outcome and the result delivered to every waiter: success
/// and confirmed absence are cached as final answers; a failure removes
/// the entry entirely, so the next lookup restarts from scratch.
pub open spec fn fetch_transition(
    pre: NpmRegistryApiInner,
    post: NpmRegistryApiInner,
    name: Seq<char>,
    outcome: FetchOutcome,
    r: Result<Option<PackageMetadata>, RegistryError>,
) -> bool {
    &&& config_unchanged(pre, post)
    &&& post.reloaded() == pre.reloaded()
    &&& (outcome matches FetchOutcome::Success(info) ==> (r matches Ok(v) && v == Some(info)
        && post.entries() == pre.entries().insert(name, CacheItem::Resolved(Some(info)))))
    &&& (outcome is NotFound ==> (r matches Ok(v) && v is None && post.entries()
        == pre.entries().insert(name, CacheItem::Resolved(None))))
    &&& (outcome matches FetchOutcome::Failed(e) ==> (r matches Err(delivered) && delivered == e
        && post.entries() == pre.entries().remove(name)))
}

/// Whether a fetch outcome is persisted to the disk cache: only a
/// successful fetch with a present body is ever written; negative
/// results and failures never touch the disk.
pub fn should_persist(outcome: &FetchOutcome) -> (r: bool)
    ensures
        r <==> outcome is Success,
{
    match outcome {
        FetchOutcome::Success(_) => true,
        FetchOutcome::NotFound => false,
        FetchOutcome::Failed(_) => false,
    }
}

/// Clones a cached answer so the stored entry stays in place.
fn clone_opt_metadata(maybe_info: &Option<PackageMetadata>) -> (r: Option<PackageMetadata>)
    ensures
        r == *maybe_info,
{
    match maybe_info {
        Some(info) => Some(info.clone()),
        None => None,
    }
}

/// The core cache and fetch engine for one registry: the in-memory
/// name-to-state map, the reload-tracking set, and the policy that
/// routes each lookup between memory, disk and network.
pub struct NpmRegistryApiInner {
    base_url: String,
    cache_setting: CacheSetting,
    sync_download: bool,
    strict_errors: bool,
    mem_cache: StringHashMap<CacheItem>,
    previously_reloaded_packages: StringHashSet,
}

impl NpmRegistryApiInner {
    /// The registry origin every URL is formed from.
    pub closed spec fn spec_base_url(&self) -> Seq<char> {
        self.base_url@
    }

    /// The cache policy this client was configured with.
    pub closed spec fn spec_setting(&self) -> CacheSetting {
        self.cache_setting
    }

    /// Whether fetches are to be serialized through the process-wide
    /// queue.
    pub closed spec fn spec_sync_download(&self) -> bool {
        self.sync_download
    }

    /// Whether a failed disk write is fatal (test mode) instead of
    /// logged and ignored.
    pub closed spec fn spec_strict_errors(&self) -> bool {
        self.strict_errors
    }

    /// The in-memory cache, keyed by package name.
    pub closed spec fn entries(&self) -> Map<Seq<char>, CacheItem> {
        self.mem_cache@
    }

    /// The names already considered for a forced reload in this
    /// process.
    pub closed spec fn reloaded(&self) -> Set<Seq<char>> {
        self.previously_reloaded_packages@
    }

    /// The base URL is kept in the normalized form URL building
    /// relies on.
    pub open spec fn wf(&self) -> bool {
        is_normalized_base(self.spec_base_url())
    }

    /// A ready client for `base_url` with empty caches.
    pub fn new(
        base_url: String,
        cache_setting: CacheSetting,
        sync_download: bool,
        strict_errors: bool,
    ) -> (r: Self)
        requires
            is_normalized_base(base_url@),
        ensures
            r.wf(),
            r.spec_base_url() == base_url@,
            r.spec_setting() == cache_setting,
            r.spec_sync_download() == sync_download,
            r.spec_strict_errors() == strict_errors,
            r.entries() == Map::<Seq<char>, CacheItem>::empty(),
            r.reloaded() == Set::<Seq<char>>::empty(),
    {
        NpmRegistryApiInner {
            base_url,
            cache_setting,
            sync_download,
            strict_errors,
            mem_cache: StringHashMap::new(),
            previously_reloaded_packages: StringHashSet::new(),
        }
    }

    /// The registry origin this client resolves against.
    pub fn base_url(&self) -> (r: &String)
        ensures
            r@ == self.spec_base_url(),
    {
        &self.base_url
    }

    /// Whether fetches are to be serialized through the process-wide
    /// queue.
    pub fn should_sync_download(&self) -> (r: bool)
        ensures
            r == self.spec_sync_download(),
    {
        self.sync_download
    }

    /// The entry point of one lookup: decides from the in-memory state
    /// whether the answer is already at hand, a fetch is in flight to
    /// wait on, the disk cache may be consulted, or a fetch must start.
    /// Placing the in-flight marker is atomic with the decision, so at
    /// most one fetch per name is ever started.
    pub fn maybe_package_info(&mut self, name: &str) -> (step: LookupStep)
        requires
            old(self).wf(),
        ensures
            final(self).wf(),
            lookup_transition(*old(self), *final(self), name@, step),
    {
        match self.mem_cache.get(name) {
            Some(CacheItem::Resolved(maybe_info)) => {
                return LookupStep::Hit(clone_opt_metadata(maybe_info));
            },
            Some(CacheItem::Pending) => {
                return LookupStep::AwaitInFlight;
            },
            None => {},
        }
        let eligible: bool = if self.cache_setting.permits_disk_use(name) {
            true
        } else {
            // recording the name and testing for an earlier visit is
            // one operation, so the decision it gates cannot race
            !self.previously_reloaded_packages.insert(name.to_owned())
        };
        if eligible {
            LookupStep::CheckDisk
        } else {
            self.mem_cache.insert(name.to_owned(), CacheItem::Pending);
            LookupStep::StartFetch
        }
    }

    /// The usable part of a disk read: only a decodable file counts;
    /// a missing, unreadable or undecodable file is a miss, never an
    /// error.
    pub fn load_file_cached_package_info(&self, disk: DiskReadOutcome) -> (r: Option<
        PackageMetadata,
    >)
        ensures
            r matches Some(info) ==> disk matches DiskReadOutcome::Valid(held) && info == held,
            r is Some <==> disk is Valid,
    {
        match disk {
            DiskReadOutcome::Valid(info) => Some(info),
            DiskReadOutcome::Missing => None,
            DiskReadOutcome::IoFailure(_) => None,
            DiskReadOutcome::Corrupt(_) => None,
        }
    }

    /// Continues a lookup that was directed to the disk cache, with
    /// what the disk held.  A usable copy resolves the name in memory;
    /// anything else places the in-flight marker so the network fetch
    /// starts.
    pub fn resume_with_disk(&mut self, name: &str, disk: DiskReadOutcome) -> (step: DiskStep)
        requires
            old(self).wf(),
            !old(self).entries().contains_key(name@),
        ensures
            final(self).wf(),
            disk_transition(*old(self), *final(self), name@, disk, step),
    {
        match self.load_file_cached_package_info(disk) {
            Some(info) => {
                let stored = info.clone();
                self.mem_cache.insert(name.to_owned(), CacheItem::Resolved(Some(stored)));
                DiskStep::Hit(info)
            },
            None => {
                self.mem_cache.insert(name.to_owned(), CacheItem::Pending);
                DiskStep::StartFetch
            },
        }
    }

    /// The URL fetched for `name`: the registry base followed directly
    /// by the package name.
    pub fn get_package_url(&self, name: &str) -> (r: String)
        requires
            self.wf(),
        ensures
            r@ == self.spec_base_url() + name@,
    {
        package_url(self.base_url.as_str(), name)
    }

    /// Gate and plan of the network fetch: refused outright when the
    /// policy forbids the network, and otherwise yields the URL to
    /// request.  Eligibility for disk use routed the lookup here; this
    /// check is separate, because eligibility governs disk-versus-
    /// network routing, not whether network access is permitted at all.
    pub fn prepare_registry_fetch(&self, name: &str) -> (r: Result<String, RegistryError>)
        requires
            self.wf(),
        ensures
            r is Ok <==> !(self.spec_setting() is Only),
            r matches Ok(url) ==> url@ == self.spec_base_url() + name@,
            r matches Err(e) ==> e.kind is NotCached && e.name@ == name@ && e.url@
                == self.spec_base_url() + name@,
    {
        let url = self.get_package_url(name);
        if self.cache_setting.is_network_forbidden() {
            Err(RegistryError::not_cached(name.to_owned(), url))
        } else {
            Ok(url)
        }
    }

    /// Settles a fetch that this lookup started, and determines the one
    /// result every waiter for `name` observes.  Success and confirmed
    /// absence become final cached answers; on failure the entry is
    /// removed entirely, so the next lookup retries from scratch.
    pub fn finish_fetch(&mut self, name: &str, outcome: FetchOutcome) -> (r: Result<
        Option<PackageMetadata>,
        RegistryError,
    >)
        requires
            old(self).wf(),
            is_pending(old(self).entries(), name@),
        ensures
            final(self).wf(),
            fetch_transition(*old(self), *final(self), name@, outcome, r),
    {
        match outcome {
            FetchOutcome::Success(info) => {
                let stored = info.clone();
                self.mem_cache.insert(name.to_owned(), CacheItem::Resolved(Some(stored)));
                Ok(Some(info))
            },
            FetchOutcome::NotFound => {
                self.mem_cache.insert(name.to_owned(), CacheItem::Resolved(None));
                Ok(None)
            },
            FetchOutcome::Failed(e) => {
                self.mem_cache.remove(name);
                Err(e)
            },
        }
    }

    /// Whether a failed disk write must abort: only under the strict
    /// test-mode flag; in normal operation persistence failures are
    /// logged and never fail an otherwise-successful fetch.
    pub fn save_failure_is_fatal(&self, save_failed: bool) -> (r: bool)
        ensures
            r == (save_failed && self.spec_strict_errors()),
    {
        save_failed && self.strict_errors
    }

    /// Whether the memory cache holds any entry for `name`.
    pub fn has_entry(&self, name: &str) -> (r: bool)
        ensures
            r == self.entries().contains_key(name@),
    {
        self.mem_cache.contains_key(name)
    }

    /// Whether a fetch for `name` is in flight.
    pub fn is_fetch_pending(&self, name: &str) -> (r: bool)
        ensures
            r == is_pending(self.entries(), name@),
    {
        match self.mem_cache.get(name) {
            Some(CacheItem::Pending) => true,
            Some(CacheItem::Resolved(_)) => false,
            None => false,
        }
    }

    /// A memory-only read: never touches the network or the disk, and
    /// reports nothing for a name whose fetch is still in flight.
    pub fn get_cached_package_info(&self, name: &str) -> (r: Option<PackageMetadata>)
        ensures
            r == spec_cached(self.entries(), name@),
    {
        match self.mem_cache.get(name) {
            Some(CacheItem::Resolved(maybe_info)) => clone_opt_metadata(maybe_info),
            Some(CacheItem::Pending) => None,
            None => None,
        }
    }

    /// Drops every memory entry.  The reload-tracking set is kept: a
    /// name that already had its forced reload does not get another.
    pub fn clear_memory_cache(&mut self)
        ensures
            config_unchanged(*old(self), *final(self)),
            final(self).wf() == old(self).wf(),
            final(self).entries() == Map::<Seq<char>, CacheItem>::empty(),
            final(self).reloaded() == old(self).reloaded(),
    {
        self.mem_cache.clear();
    }
}

/// The public face of the registry client.  It is either wired to a
/// ready engine, or a deliberate placeholder from
/// [`NpmRegistry::new_uninitialized`] on which every cache operation is
/// a caller error.
pub struct NpmRegistry(Option<NpmRegistryApiInner>);

impl NpmRegistry {
    /// Whether this client was wired to a real engine.
    pub closed spec fn spec_is_initialized(&self) -> bool {
        self.0 is Some
    }

    /// The engine behind an initialized client.
    pub closed spec fn spec_inner(&self) -> NpmRegistryApiInner
        recommends
            self.spec_is_initialized(),
    {
        self.0->0
    }

    /// An initialized client in a usable state.
    pub open spec fn ready(&self) -> bool {
        self.spec_is_initialized() && self.spec_inner().wf()
    }

    /// The well-known public registry origin, in normalized form.
    pub fn default_url() -> (r: String)
        ensures
            r@ == "https://registry.npmjs.org/"@,
            is_normalized_base(r@),
    {
        proof {
            reveal_strlit("https://registry.npmjs.org/");
        }
        "https://registry.npmjs.org/".to_owned()
    }

    /// A ready client for `base_url` with empty caches.
    pub fn new(
        base_url: String,
        cache_setting: CacheSetting,
        sync_download: bool,
        strict_errors: bool,
    ) -> (r: Self)
        requires
            is_normalized_base(base_url@),
        ensures
            r.ready(),
            r.spec_inner().spec_base_url() == base_url@,
            r.spec_inner().spec_setting() == cache_setting,
            r.spec_inner().spec_sync_download() == sync_download,
            r.spec_inner().spec_strict_errors() == strict_errors,
            r.spec_inner().entries() == Map::<Seq<char>, CacheItem>::empty(),
            r.spec_inner().reloaded() == Set::<Seq<char>>::empty(),
    {
        NpmRegistry(
            Some(NpmRegistryApiInner::new(base_url, cache_setting, sync_download, strict_errors)),
        )
    }

    /// A placeholder for call sites that wire the client lazily.  Any
    /// cache operation on it is a programming error; callers guard with
    /// [`NpmRegistry::is_initialized`] and fail loudly.
    pub fn new_uninitialized() -> (r: Self)
        ensures
            !r.spec_is_initialized(),
    {
        NpmRegistry(None)
    }

    /// Whether this client was wired to a real engine.
    pub fn is_initialized(&self) -> (r: bool)
        ensures
            r == self.spec_is_initialized(),
    {
        self.0.is_some()
    }

    /// The registry origin this client resolves against.
    pub fn base_url(&self) -> (r: &String)
        requires
            self.ready(),
        ensures
            r@ == self.spec_inner().spec_base_url(),
    {
        match &self.0 {
            Some(inner) => inner.base_url(),
            None => unreached(),
        }
    }

    /// Whether fetches are to be serialized through the process-wide
    /// queue.
    pub fn should_sync_download(&self) -> (r: bool)
        requires
            self.ready(),
        ensures
            r == self.spec_inner().spec_sync_download(),
    {
        match &self.0 {
            Some(inner) => inner.should_sync_download(),
            None => unreached(),
        }
    }

    /// See [`NpmRegistryApiInner::maybe_package_info`].
    pub fn maybe_package_info(&mut self, name: &str) -> (step: LookupStep)
        requires
            old(self).ready(),
        ensures
            final(self).ready(),
            final(self).spec_is_initialized(),
            lookup_transition(old(self).spec_inner(), final(self).spec_inner(), name@, step),
    {
        match &mut self.0 {
            Some(inner) => inner.maybe_package_info(name),
            None => unreached(),
        }
    }

    /// See [`NpmRegistryApiInner::resume_with_disk`].
    pub fn resume_with_disk(&mut self, name: &str, disk: DiskReadOutcome) -> (step: DiskStep)
        requires
            old(self).ready(),
            !old(self).spec_inner().entries().contains_key(name@),
        ensures
            final(self).ready(),
            disk_transition(old(self).spec_inner(), final(self).spec_inner(), name@, disk, step),
    {
        match &mut self.0 {
            Some(inner) => inner.resume_with_disk(name, disk),
            None => unreached(),
        }
    }

    /// See [`NpmRegistryApiInner::prepare_registry_fetch`].
    pub fn prepare_registry_fetch(&self, name: &str) -> (r: Result<String, RegistryError>)
        requires
            self.ready(),
        ensures
            r is Ok <==> !(self.spec_inner().spec_setting() is Only),
            r matches Ok(url) ==> url@ == self.spec_inner().spec_base_url() + name@,
            r matches Err(e) ==> e.kind is NotCached && e.name@ == name@ && e.url@
                == self.spec_inner().spec_base_url() + name@,
    {
        match &self.0 {
            Some(inner) => inner.prepare_registry_fetch(name),
            None => unreached(),
        }
    }

    /// See [`NpmRegistryApiInner::finish_fetch`].
    pub fn finish_fetch(&mut self, name: &str, outcome: FetchOutcome) -> (r: Result<
        Option<PackageMetadata>,
        RegistryError,
    >)
        requires
            old(self).ready(),
            is_pending(old(self).spec_inner().entries(), name@),
        ensures
            final(self).ready(),
            fetch_transition(old(self).spec_inner(), final(self).spec_inner(), name@, outcome, r),
    {
        match &mut self.0 {
            Some(inner) => inner.finish_fetch(name, outcome),
            None => unreached(),
        }
    }

    /// See [`NpmRegistryApiInner::save_failure_is_fatal`].
    pub fn save_failure_is_fatal(&self, save_failed: bool) -> (r: bool)
        requires
            self.ready(),
        ensures
            r == (save_failed && self.spec_inner().spec_strict_errors()),
    {
        match &self.0 {
            Some(inner) => inner.save_failure_is_fatal(save_failed),
            None => unreached(),
        }
    }

    /// Whether the memory cache holds any entry for `name`.
    pub fn has_entry(&self, name: &str) -> (r: bool)
        requires
            self.ready(),
        ensures
            r == self.spec_inner().entries().contains_key(name@),
    {
        match &self.0 {
            Some(inner) => inner.has_entry(name),
            None => unreached(),
        }
    }

    /// Whether a fetch for `name` is in flight.
    pub fn is_fetch_pending(&self, name: &str) -> (r: bool)
        requires
            self.ready(),
        ensures
            r == is_pending(self.spec_inner().entries(), name@),
    {
        match &self.0 {
            Some(inner) => inner.is_fetch_pending(name),
            None => unreached(),
        }
    }

    /// A memory-only read; see
    /// [`NpmRegistryApiInner::get_cached_package_info`].
    pub fn get_cached_package_info(&self, name: &str) -> (r: Option<PackageMetadata>)
        requires
            self.ready(),
        ensures
            r == spec_cached(self.spec_inner().entries(), name@),
    {
        match &self.0 {
            Some(inner) => inner.get_cached_package_info(name),
            None => unreached(),
        }
    }

    /// Drops every memory entry (not the disk cache); see
    /// [`NpmRegistryApiInner::clear_memory_cache`].
    pub fn clear_memory_cache(&mut self)
        requires
            old(self).ready(),
        ensures
            final(self).ready(),
            config_unchanged(old(self).spec_inner(), final(self).spec_inner()),
            final(self).spec_inner().entries() == Map::<Seq<char>, CacheItem>::empty(),
            final(self).spec_inner().reloaded() == old(self).spec_inner().reloaded(),
    {
        match &mut self.0 {
            Some(inner) => inner.clear_memory_cache(),
            None => unreached(),
        }
    }
}

} // verus!
