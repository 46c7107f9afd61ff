//! Result cache: maps a file path to the issues computed for it, keyed
//! additionally by the file's modification time and a configuration
//! fingerprint. An entry is served only while both still match; anything
//! else is a miss, so a stale result is never returned.
//!
//! The store itself is a concurrent map from an outside crate; this module
//! trusts only the plain map semantics of that crate's operations and
//! verifies all validity logic (modification time and fingerprint checks)
//! on top of them. Modification times enter as plain integers: reading them
//! from the filesystem is the caller's concern, and a caller that could not
//! stat the file passes `None`.

use vstd::prelude::*;

use crate::types::Issue;
use crate::types::IssueV;

verus! {

#[verifier::external_type_specification]
#[verifier::external_body]
#[verifier::reject_recursive_types(K)]
#[verifier::reject_recursive_types(V)]
#[verifier::reject_recursive_types(S)]
pub struct ExDashMap<K, V, S>(dashmap::DashMap<K, V, S>);

/// What the cache stores for one file: the modification time and
/// configuration fingerprint the issues were computed under, and the issues.
pub struct CacheEntryData {
    pub mtime: u64,
    pub fingerprint: u64,
    pub issues: Vec<Issue>,
}

/// Mathematical content of a [`CacheEntryData`].
pub ghost struct EntryV {
    pub mtime: u64,
    pub fingerprint: u64,
    pub issues: Seq<IssueV>,
}

impl View for CacheEntryData {
    type V = EntryV;

    open spec fn view(&self) -> EntryV {
        EntryV { mtime: self.mtime, fingerprint: self.fingerprint, issues: self.issues.deep_view() }
    }
}

/// The key-value pairs currently held by the concurrent map, as a
/// mathematical map from path characters to entry content.
pub uninterp spec fn map_contents(m: &dashmap::DashMap<String, CacheEntryData>) -> Map<
    Seq<char>,
    EntryV,
>;

/// The empty path-to-entry map.
pub open spec fn empty_entries() -> Map<Seq<char>, EntryV> {
    Map::empty()
}

/// Relies on dashmap::DashMap::new: creates an empty map.
#[verifier::external_body]
fn map_new() -> (m: dashmap::DashMap<String, CacheEntryData>)
    ensures
        map_contents(&m) == empty_entries(),
{
    dashmap::DashMap::new()
}

/// Relies on dashmap::DashMap::insert: maps the key to the new value,
/// replacing any previous value for it; no other key changes.
#[verifier::external_body]
fn map_insert(m: &mut dashmap::DashMap<String, CacheEntryData>, path: String, e: CacheEntryData)
    ensures
        map_contents(final(m)) == map_contents(old(m)).insert(path@, e@),
{
    m.insert(path, e);
}

/// Relies on dashmap::DashMap::get: returns the value stored for the key,
/// or nothing when the key is absent. The entry is handed out as a copy.
#[verifier::external_body]
fn map_get(m: &dashmap::DashMap<String, CacheEntryData>, path: &String) -> (r: Option<
    CacheEntryData,
>)
    ensures
        r.is_some() == map_contents(m).contains_key(path@),
        r matches Some(e) ==> e@ == map_contents(m)[path@],
{
    m.get(path).map(|g| CacheEntryData {
        mtime: g.mtime,
        fingerprint: g.fingerprint,
        issues: g.issues.clone(),
    })
}

/// Relies on dashmap::DashMap::remove: removes the key's entry if it
/// existed; no other key changes.
#[verifier::external_body]
fn map_remove(m: &mut dashmap::DashMap<String, CacheEntryData>, path: &String)
    ensures
        map_contents(final(m)) == map_contents(old(m)).remove(path@),
{
    m.remove(path);
}

/// Relies on dashmap::DashMap::clear: removes every key-value pair.
#[verifier::external_body]
fn map_clear(m: &mut dashmap::DashMap<String, CacheEntryData>)
    ensures
        map_contents(final(m)) == empty_entries(),
{
    m.clear();
}

/// Relies on dashmap::DashMap::len: returns the number of entries held.
#[verifier::external_body]
fn map_len(m: &dashmap::DashMap<String, CacheEntryData>) -> (n: usize)
    ensures
        n == map_contents(m).dom().len(),
{
    m.len()
}

/// Concurrent store of per-file analysis results.
pub struct FileCache {
    entries: dashmap::DashMap<String, CacheEntryData>,
    fingerprint: u64,
}

/// Mathematical content of a [`FileCache`]: its entries and the
/// configuration fingerprint it was built with.
pub ghost struct FileCacheV {
    pub entries: Map<Seq<char>, EntryV>,
    pub fingerprint: u64,
}

impl View for FileCache {
    type V = FileCacheV;

    closed spec fn view(&self) -> FileCacheV {
        FileCacheV { entries: map_contents(&self.entries), fingerprint: self.fingerprint }
    }
}

/// What a lookup returns: the stored issues, but only when the file's
/// current modification time is known and equals the stored one and the
/// stored fingerprint equals the cache's own; anything else is a miss.
pub open spec fn spec_get(
    entries: Map<Seq<char>, EntryV>,
    cache_fp: u64,
    path: Seq<char>,
    mtime: Option<u64>,
) -> Option<Seq<IssueV>> {
    match mtime {
        Option::None => Option::None,
        Option::Some(m) => {
            if entries.contains_key(path) && entries[path].mtime == m && entries[path].fingerprint
                == cache_fp {
                Option::Some(entries[path].issues)
            } else {
                Option::None
            }
        },
    }
}

impl FileCache {
    /// Creates an empty cache with fingerprint zero.
    pub fn new() -> (r: FileCache)
        ensures
            r@.entries == Map::<Seq<char>, EntryV>::empty(),
            r@.fingerprint == 0,
    {
        FileCache { entries: map_new(), fingerprint: 0 }
    }

    /// Creates an empty cache bound to the given configuration fingerprint.
    pub fn with_config_hash(config_hash: u64) -> (r: FileCache)
        ensures
            r@.entries == Map::<Seq<char>, EntryV>::empty(),
            r@.fingerprint == config_hash,
    {
        FileCache { entries: map_new(), fingerprint: config_hash }
    }

    /// Looks up the cached issues for `path`. `mtime` is the file's current
    /// modification time, or `None` when the file could not be statted; a
    /// miss is returned unless the stored modification time and fingerprint
    /// both still match.
    pub fn get(&self, path: &String, mtime: Option<u64>) -> (r: Option<Vec<Issue>>)
        ensures
            r.is_some() == spec_get(self@.entries, self@.fingerprint, path@, mtime).is_some(),
            r matches Some(v) ==> Some(v.deep_view()) == spec_get(
                self@.entries,
                self@.fingerprint,
                path@,
                mtime,
            ),
    {
        match mtime {
            Option::None => Option::None,
            Option::Some(m) => {
                match map_get(&self.entries, path) {
                    Option::None => Option::None,
                    Option::Some(e) => {
                        if e.mtime == m && e.fingerprint == self.fingerprint {
                            Option::Some(e.issues)
                        } else {
                            Option::None
                        }
                    },
                }
            },
        }
    }

    /// Stores `issues` for `path` under the file's current modification time
    /// and the cache's fingerprint. When the file could not be statted
    /// (`mtime` is `None`) nothing is stored, so no stale entry is created.
    pub fn insert(&mut self, path: String, mtime: Option<u64>, issues: Vec<Issue>)
        ensures
            final(self)@.fingerprint == old(self)@.fingerprint,
            mtime is None ==> final(self)@.entries == old(self)@.entries,
            mtime matches Some(m) ==> final(self)@.entries == old(self)@.entries.insert(
                path@,
                EntryV {
                    mtime: m,
                    fingerprint: old(self)@.fingerprint,
                    issues: issues.deep_view(),
                },
            ),
    {
        match mtime {
            Option::None => {},
            Option::Some(m) => {
                let fp = self.fingerprint;
                map_insert(
                    &mut self.entries,
                    path,
                    CacheEntryData { mtime: m, fingerprint: fp, issues },
                );
            },
        }
    }

    /// Unconditionally removes any entry for `path`.
    pub fn invalidate(&mut self, path: &String)
        ensures
            final(self)@.fingerprint == old(self)@.fingerprint,
            final(self)@.entries == old(self)@.entries.remove(path@),
    {
        map_remove(&mut self.entries, path);
    }

    /// Removes all entries.
    pub fn clear(&mut self)
        ensures
            final(self)@.fingerprint == old(self)@.fingerprint,
            final(self)@.entries == Map::<Seq<char>, EntryV>::empty(),
    {
        map_clear(&mut self.entries);
    }

    /// Number of live entries.
    pub fn len(&self) -> (n: usize)
        ensures
            n == self@.entries.dom().len(),
    {
        map_len(&self.entries)
    }
}

/// Cache correctness: after storing `issues` for a path under modification
/// time `m` and fingerprint `fp`, a lookup returns exactly `issues` while
/// the modification time and fingerprint still match, and nothing once the
/// modification time changed, the fingerprint changed, or the file can no
/// longer be statted.
pub proof fn lemma_cache_correctness(
    entries: Map<Seq<char>, EntryV>,
    fp: u64,
    path: Seq<char>,
    m: u64,
    issues: Seq<IssueV>,
)
    ensures
        spec_get(
            entries.insert(path, EntryV { mtime: m, fingerprint: fp, issues }),
            fp,
            path,
            Some(m),
        ) == Some(issues),
        forall|m2: u64|
            m2 != m ==> spec_get(
                entries.insert(path, EntryV { mtime: m, fingerprint: fp, issues }),
                fp,
                path,
                Some(m2),
            ) is None,
        spec_get(
            entries.insert(path, EntryV { mtime: m, fingerprint: fp, issues }),
            fp,
            path,
            None,
        ) is None,
{
}

/// Fingerprint sensitivity: a stored entry is ignored by any cache whose
/// fingerprint differs from the one the entry was stored under, even when
/// the file content and modification time are unchanged.
pub proof fn lemma_fingerprint_sensitivity(
    entries: Map<Seq<char>, EntryV>,
    fp: u64,
    fp2: u64,
    path: Seq<char>,
    m: u64,
    issues: Seq<IssueV>,
)
    requires
        fp2 != fp,
    ensures
        spec_get(
            entries.insert(path, EntryV { mtime: m, fingerprint: fp, issues }),
            fp2,
            path,
            Some(m),
        ) is None,
{
}

/// Deletion invalidation: after removing a path, a lookup for it returns
/// nothing, regardless of the prior state, the modification time offered,
/// or the fingerprint.
pub proof fn lemma_invalidate(
    entries: Map<Seq<char>, EntryV>,
    fp: u64,
    path: Seq<char>,
    mtime: Option<u64>,
)
    ensures
        spec_get(entries.remove(path), fp, path, mtime) is None,
{
}

} // verus!
