//! The cache policy of the queued file reader: recently read files are kept in a
//! least-recently-used cache of 64 entries and served from it; only successful reads
//! are cached.
use lru::LruCache;
use std::collections::hash_map::RandomState;
use std::num::NonZeroUsize;
use vstd::prelude::*;

verus! {

#[verifier::external_type_specification]
#[verifier::external_body]
#[verifier::reject_recursive_types(K)]
#[verifier::reject_recursive_types(V)]
#[verifier::reject_recursive_types(S)]
pub struct ExLruCache<K, V, S>(LruCache<K, V, S>);

/// The files a cache holds: their contents by path.
pub uninterp spec fn cached_files(cache: LruCache<String, Vec<u8>, RandomState>) -> Map<Seq<char>, Seq<u8>>;

/// The number of entries a cache was made to hold.
pub uninterp spec fn cache_capacity(cache: LruCache<String, Vec<u8>, RandomState>) -> nat;

/// The paths a cache holds, from the least recently used to the most recently used.
pub uninterp spec fn cache_recency(cache: LruCache<String, Vec<u8>, RandomState>) -> Seq<Seq<char>>;

/// Whether a recency list matches the files it orders: each cached path once, no
/// other path, and no more paths than the capacity.
pub open spec fn lru_consistent(files: Map<Seq<char>, Seq<u8>>, recency: Seq<Seq<char>>, capacity: nat) -> bool {
    &&& recency.no_duplicates()
    &&& forall|k: Seq<char>| #[trigger] files.contains_key(k) <==> recency.contains(k)
    &&& recency.len() <= capacity
}

/// `recency` with `path`, which it holds, moved to the most recently used end.
pub open spec fn moved_to_back(recency: Seq<Seq<char>>, path: Seq<char>) -> Seq<Seq<char>> {
    recency.remove(recency.index_of(path)).push(path)
}

/// Number of files the reader keeps.
pub const READ_CACHE_CAPACITY: usize = 64;

/// Makes an empty cache of `capacity` entries.
///
/// Trusted: calls `lru::LruCache::with_hasher`, which starts with no entries and the
/// given capacity.
#[verifier::external_body]
fn new_lru(capacity: usize) -> (cache: LruCache<String, Vec<u8>, RandomState>)
    requires
        capacity > 0,
    ensures
        cached_files(cache).dom() == Set::<Seq<char>>::empty(),
        cache_recency(cache) == Seq::<Seq<char>>::empty(),
        cache_capacity(cache) == capacity,
{
    LruCache::with_hasher(NonZeroUsize::new(capacity).unwrap(), RandomState::new())
}

/// Looks a file up, returning a copy of its contents.
///
/// Trusted: calls `lru::LruCache::get`, which returns the value stored under the key
/// if there is one and only moves the entry to the most recently used end of the
/// recency list, leaving the contents as they were. The cache's map and list always
/// hold the same keys, at most its capacity of them.
#[verifier::external_body]
fn lru_get(cache: &mut LruCache<String, Vec<u8>, RandomState>, path: &str) -> (r: Option<Vec<u8>>)
    ensures
        cached_files(*final(cache)) == cached_files(*old(cache)),
        cache_recency(*final(cache)) == if cached_files(*old(cache)).contains_key(path@) {
            moved_to_back(cache_recency(*old(cache)), path@)
        } else {
            cache_recency(*old(cache))
        },
        lru_consistent(cached_files(*final(cache)), cache_recency(*final(cache)), cache_capacity(*final(cache))),
        cache_capacity(*final(cache)) == cache_capacity(*old(cache)),
        cached_files(*old(cache)).contains_key(path@) <==> r is Some,
        r matches Some(bytes) ==> bytes@ == cached_files(*old(cache))[path@],
{
    cache.get(path).cloned()
}

/// Stores a file's contents.
///
/// Trusted: calls `lru::LruCache::push`, which stores the value under the key and
/// makes it the most recently used entry; when the key is new and the cache is full
/// it first evicts the least recently used entry. No other entry changes. The cache's
/// map and list always hold the same keys, at most its capacity of them.
#[verifier::external_body]
fn lru_push(cache: &mut LruCache<String, Vec<u8>, RandomState>, path: String, bytes: Vec<u8>)
    ensures
        cache_capacity(*final(cache)) == cache_capacity(*old(cache)),
        cached_files(*old(cache)).contains_key(path@) ==> {
            &&& cached_files(*final(cache)) == cached_files(*old(cache)).insert(path@, bytes@)
            &&& cache_recency(*final(cache)) == moved_to_back(cache_recency(*old(cache)), path@)
        },
        !cached_files(*old(cache)).contains_key(path@) && cached_files(*old(cache)).len()
            < cache_capacity(*old(cache)) ==> {
            &&& cached_files(*final(cache)) == cached_files(*old(cache)).insert(path@, bytes@)
            &&& cache_recency(*final(cache)) == cache_recency(*old(cache)).push(path@)
        },
        !cached_files(*old(cache)).contains_key(path@) && cached_files(*old(cache)).len()
            >= cache_capacity(*old(cache)) ==> {
            &&& cached_files(*final(cache)) == cached_files(*old(cache)).remove(
                cache_recency(*old(cache))[0],
            ).insert(path@, bytes@)
            &&& cache_recency(*final(cache)) == cache_recency(*old(cache)).drop_first().push(path@)
        },
        lru_consistent(cached_files(*final(cache)), cache_recency(*final(cache)), cache_capacity(*final(cache))),
{
    cache.push(path, bytes);
}

/// The number of cached files is the length of the recency list.
proof fn lemma_consistent_len(files: Map<Seq<char>, Seq<u8>>, recency: Seq<Seq<char>>, capacity: nat)
    requires
        lru_consistent(files, recency, capacity),
    ensures
        files.len() == recency.len(),
{
    assert(files.dom() =~= recency.to_set());
    recency.unique_seq_to_set();
}

/// The files and recency list after one request for `path`: a cached file is served
/// and becomes the most recently used; otherwise the file is read, and contents that
/// were read (`read`) are cached as the most recently used file, the least recently
/// used one evicted first when the cache is full, while a failed read (`None`) leaves
/// the cache as it was. [`ReadCache::begin`] and [`ReadCache::finish`] do this.
pub open spec fn spec_after_request(
    files: Map<Seq<char>, Seq<u8>>,
    recency: Seq<Seq<char>>,
    capacity: nat,
    path: Seq<char>,
    read: Option<Seq<u8>>,
) -> (Map<Seq<char>, Seq<u8>>, Seq<Seq<char>>) {
    if files.contains_key(path) {
        (files, moved_to_back(recency, path))
    } else {
        match read {
            None => (files, recency),
            Some(bytes) => if recency.len() < capacity {
                (files.insert(path, bytes), recency.push(path))
            } else {
                (files.remove(recency[0]).insert(path, bytes), recency.drop_first().push(path))
            },
        }
    }
}

/// The files and recency list after the requests `reqs`, in order, each a path and
/// what reading it would give.
pub open spec fn spec_after_requests(
    files: Map<Seq<char>, Seq<u8>>,
    recency: Seq<Seq<char>>,
    capacity: nat,
    reqs: Seq<(Seq<char>, Option<Seq<u8>>)>,
) -> (Map<Seq<char>, Seq<u8>>, Seq<Seq<char>>)
    decreases reqs.len(),
{
    if reqs.len() == 0 {
        (files, recency)
    } else {
        let (f, r) = spec_after_requests(files, recency, capacity, reqs.drop_last());
        spec_after_request(f, r, capacity, reqs.last().0, reqs.last().1)
    }
}

/// The distinct paths of the requests `reqs`.
pub open spec fn requested_paths(reqs: Seq<(Seq<char>, Option<Seq<u8>>)>) -> Set<Seq<char>> {
    reqs.map_values(|r: (Seq<char>, Option<Seq<u8>>)| r.0).to_set()
}

/// One request keeps the recency list in line with the files.
proof fn lemma_request_keeps_consistent(
    files: Map<Seq<char>, Seq<u8>>,
    recency: Seq<Seq<char>>,
    capacity: nat,
    path: Seq<char>,
    read: Option<Seq<u8>>,
)
    requires
        lru_consistent(files, recency, capacity),
        capacity > 0,
    ensures
        lru_consistent(
            spec_after_request(files, recency, capacity, path, read).0,
            spec_after_request(files, recency, capacity, path, read).1,
            capacity,
        ),
{
    let (f1, r1) = spec_after_request(files, recency, capacity, path, read);
    if files.contains_key(path) {
        assert(recency.contains(path));
        let j = recency.index_of(path);
        let rm = recency.remove(j);
        assert forall|a: int, b: int| 0 <= a < r1.len() && 0 <= b < r1.len() && a != b implies r1[a] != r1[b] by {
            if a < rm.len() && b < rm.len() {
                let a0 = if a < j { a } else { a + 1 };
                let b0 = if b < j { b } else { b + 1 };
                assert(rm[a] == recency[a0] && rm[b] == recency[b0]);
            } else if a < rm.len() {
                let a0 = if a < j { a } else { a + 1 };
                assert(rm[a] == recency[a0]);
            } else {
                let b0 = if b < j { b } else { b + 1 };
                assert(rm[b] == recency[b0]);
            }
        }
        assert forall|k: Seq<char>| #[trigger] f1.contains_key(k) <==> r1.contains(k) by {
            if files.contains_key(k) && k != path {
                let i = choose|i: int| 0 <= i < recency.len() && recency[i] == k;
                let i1 = if i < j { i } else { i - 1 };
                assert(r1[i1] == k);
            }
            if k == path {
                assert(r1[r1.len() - 1] == k);
            }
            if r1.contains(k) {
                let i = choose|i: int| 0 <= i < r1.len() && r1[i] == k;
                if i < rm.len() {
                    let i0 = if i < j { i } else { i + 1 };
                    assert(recency[i0] == k);
                }
            }
        }
    } else {
        match read {
            None => {},
            Some(bytes) => {
                assert(!recency.contains(path));
                if recency.len() < capacity {
                    assert forall|k: Seq<char>| #[trigger] f1.contains_key(k) <==> r1.contains(k) by {
                        if recency.contains(k) {
                            let i = choose|i: int| 0 <= i < recency.len() && recency[i] == k;
                            assert(r1[i] == k);
                        }
                        if k == path {
                            assert(r1[r1.len() - 1] == k);
                        }
                        if r1.contains(k) {
                            let i = choose|i: int| 0 <= i < r1.len() && r1[i] == k;
                            if i < recency.len() {
                                assert(recency[i] == k);
                            }
                        }
                    }
                } else {
                    assert(recency.len() > 0);
                    assert forall|k: Seq<char>| #[trigger] f1.contains_key(k) <==> r1.contains(k) by {
                        if recency.contains(k) && k != recency[0] {
                            let i = choose|i: int| 0 <= i < recency.len() && recency[i] == k;
                            assert(i != 0);
                            assert(r1[i - 1] == k);
                        }
                        if k == path {
                            assert(r1[r1.len() - 1] == k);
                        }
                        if r1.contains(k) {
                            let i = choose|i: int| 0 <= i < r1.len() && r1[i] == k;
                            if i < recency.len() - 1 {
                                assert(recency[i + 1] == k);
                                assert(k != recency[0]);
                            }
                        }
                    }
                }
            },
        }
    }
}

/// Requests for other paths keep a file that was just read cached, with its contents,
/// and every path more recently used than it is one of the requested paths.
proof fn lemma_requests_keep_file(
    files: Map<Seq<char>, Seq<u8>>,
    recency: Seq<Seq<char>>,
    capacity: nat,
    p: Seq<char>,
    reqs: Seq<(Seq<char>, Option<Seq<u8>>)>,
) -> (ip: int)
    requires
        lru_consistent(files, recency, capacity),
        recency.len() > 0,
        recency.last() == p,
        files.contains_key(p),
        forall|i: int| 0 <= i < reqs.len() ==> (#[trigger] reqs[i]).0 != p,
        requested_paths(reqs).len() < capacity,
    ensures
        lru_consistent(
            spec_after_requests(files, recency, capacity, reqs).0,
            spec_after_requests(files, recency, capacity, reqs).1,
            capacity,
        ),
        0 <= ip < spec_after_requests(files, recency, capacity, reqs).1.len(),
        spec_after_requests(files, recency, capacity, reqs).1[ip] == p,
        spec_after_requests(files, recency, capacity, reqs).0.contains_key(p),
        spec_after_requests(files, recency, capacity, reqs).0[p] == files[p],
        forall|i: int|
            ip < i < spec_after_requests(files, recency, capacity, reqs).1.len() ==> requested_paths(reqs).contains(
                #[trigger] spec_after_requests(files, recency, capacity, reqs).1[i],
            ),
    decreases reqs.len(),
{
    if reqs.len() == 0 {
        return (recency.len() - 1) as int;
    }
    let pre = reqs.drop_last();
    let (q, read) = reqs.last();
    let names = reqs.map_values(|r: (Seq<char>, Option<Seq<u8>>)| r.0);
    let pre_names = pre.map_values(|r: (Seq<char>, Option<Seq<u8>>)| r.0);
    assert(requested_paths(pre).subset_of(requested_paths(reqs))) by {
        assert forall|k: Seq<char>| requested_paths(pre).contains(k) implies requested_paths(reqs).contains(k) by {
            let i = choose|i: int| 0 <= i < pre_names.len() && pre_names[i] == k;
            assert(names[i] == k);
        }
    }
    assert(requested_paths(reqs).contains(q)) by {
        assert(names[reqs.len() - 1] == q);
    }
    vstd::seq_lib::seq_to_set_is_finite(names);
    vstd::set_lib::lemma_len_subset(requested_paths(pre), requested_paths(reqs));
    assert forall|i: int| 0 <= i < pre.len() implies (#[trigger] pre[i]).0 != p by {
        assert(pre[i] == reqs[i]);
    }
    let ip0 = lemma_requests_keep_file(files, recency, capacity, p, pre);
    let (f0, r0) = spec_after_requests(files, recency, capacity, pre);
    assert(spec_after_requests(files, recency, capacity, reqs) == spec_after_request(f0, r0, capacity, q, read));
    assert(q != p) by {
        assert(reqs[reqs.len() - 1].0 != p);
    }
    assert(capacity > 0);
    lemma_request_keeps_consistent(f0, r0, capacity, q, read);
    let (f1, r1) = spec_after_request(f0, r0, capacity, q, read);
    if f0.contains_key(q) {
        assert(r0.contains(q));
        let j = r0.index_of(q);
        assert(j != ip0);
        let ip = if j < ip0 { ip0 - 1 } else { ip0 };
        let rm = r0.remove(j);
        assert(r1[ip] == p);
        assert forall|i: int| ip < i < r1.len() implies requested_paths(reqs).contains(#[trigger] r1[i]) by {
            if i < rm.len() {
                let i0 = if i < j { i } else { i + 1 };
                assert(rm[i] == r0[i0]);
                assert(requested_paths(pre).contains(r0[i0]));
            }
        }
        ip
    } else {
        match read {
            None => ip0,
            Some(bytes) => {
                assert(!r0.contains(q));
                if r0.len() < capacity {
                    assert(r1[ip0] == p);
                    assert forall|i: int| ip0 < i < r1.len() implies requested_paths(reqs).contains(#[trigger] r1[i]) by {
                        if i < r0.len() {
                            assert(requested_paths(pre).contains(r0[i]));
                        }
                    }
                    ip0
                } else {
                    if ip0 == 0 {
                        let t = r0.skip(1).push(q);
                        assert(t.no_duplicates()) by {
                            assert forall|a: int, b: int| 0 <= a < t.len() && 0 <= b < t.len() && a != b implies t[a] != t[b] by {
                                if a < t.len() - 1 && b < t.len() - 1 {
                                    assert(t[a] == r0[a + 1] && t[b] == r0[b + 1]);
                                } else if a < t.len() - 1 {
                                    assert(t[a] == r0[a + 1]);
                                } else if b < t.len() - 1 {
                                    assert(t[b] == r0[b + 1]);
                                }
                            }
                        }
                        assert(t.to_set().subset_of(requested_paths(reqs))) by {
                            assert forall|k: Seq<char>| t.to_set().contains(k) implies requested_paths(reqs).contains(k) by {
                                let i = choose|i: int| 0 <= i < t.len() && t[i] == k;
                                if i < t.len() - 1 {
                                    assert(t[i] == r0[i + 1]);
                                    assert(requested_paths(pre).contains(r0[i + 1]));
                                }
                            }
                        }
                        t.unique_seq_to_set();
                        vstd::set_lib::lemma_len_subset(t.to_set(), requested_paths(reqs));
                        assert(false);
                    }
                    let ip = ip0 - 1;
                    assert(r0[0] != p);
                    assert(r1[ip] == p);
                    assert forall|i: int| ip < i < r1.len() implies requested_paths(reqs).contains(#[trigger] r1[i]) by {
                        if i < r1.len() - 1 {
                            assert(r1[i] == r0[i + 1]);
                            assert(requested_paths(pre).contains(r0[i + 1]));
                        }
                    }
                    ip
                }
            },
        }
    }
}

/// A file that was just read successfully (so it is the most recently used one) is
/// served from the cache, with the contents that were read, as long as fewer than
/// `capacity` other distinct paths have been requested since, whatever those reads
/// gave.
pub proof fn lemma_recent_file_stays_cached(
    files: Map<Seq<char>, Seq<u8>>,
    recency: Seq<Seq<char>>,
    capacity: nat,
    p: Seq<char>,
    reqs: Seq<(Seq<char>, Option<Seq<u8>>)>,
)
    requires
        lru_consistent(files, recency, capacity),
        recency.len() > 0,
        recency.last() == p,
        files.contains_key(p),
        forall|i: int| 0 <= i < reqs.len() ==> (#[trigger] reqs[i]).0 != p,
        requested_paths(reqs).len() < capacity,
    ensures
        spec_after_requests(files, recency, capacity, reqs).0.contains_key(p),
        spec_after_requests(files, recency, capacity, reqs).0[p] == files[p],
{
    let _ = lemma_requests_keep_file(files, recency, capacity, p, reqs);
}

/// A read that fails is never cached: the request leaves the cache as it was, so the
/// next request for the path reads the file again.
pub proof fn lemma_failed_read_not_cached(
    files: Map<Seq<char>, Seq<u8>>,
    recency: Seq<Seq<char>>,
    capacity: nat,
    p: Seq<char>,
)
    requires
        !files.contains_key(p),
    ensures
        spec_after_request(files, recency, capacity, p, None) == (files, recency),
        !spec_after_request(files, recency, capacity, p, None).0.contains_key(p),
{
}

/// A successful read leaves the file cached as the most recently used one.
pub proof fn lemma_read_file_is_most_recent(
    files: Map<Seq<char>, Seq<u8>>,
    recency: Seq<Seq<char>>,
    capacity: nat,
    p: Seq<char>,
    bytes: Seq<u8>,
)
    requires
        lru_consistent(files, recency, capacity),
        capacity > 0,
        !files.contains_key(p),
    ensures
        spec_after_request(files, recency, capacity, p, Some(bytes)).0.contains_key(p),
        spec_after_request(files, recency, capacity, p, Some(bytes)).0[p] == bytes,
        spec_after_request(files, recency, capacity, p, Some(bytes)).1.last() == p,
{
}


/// What to do for a requested file.
#[derive(Debug)]
pub enum ReadStep {
    /// Answer with these contents, taken from the cache.
    Respond(Vec<u8>),
    /// Read the file, then report the outcome with [`ReadCache::finish`].
    ReadFile,
}

/// The reader's cache of recently read files.
pub struct ReadCache {
    cache: LruCache<String, Vec<u8>, RandomState>,
}

impl ReadCache {
    /// The files the cache holds.
    pub closed spec fn files(&self) -> Map<Seq<char>, Seq<u8>> {
        cached_files(self.cache)
    }

    /// The paths the cache holds, from the least recently used to the most recently
    /// used.
    pub closed spec fn recency(&self) -> Seq<Seq<char>> {
        cache_recency(self.cache)
    }

    /// The number of files the cache keeps.
    pub closed spec fn capacity(&self) -> nat {
        cache_capacity(self.cache)
    }

    /// Whether the recency list orders exactly the cached files, within the capacity.
    pub open spec fn wf(&self) -> bool {
        lru_consistent(self.files(), self.recency(), self.capacity())
    }

    /// An empty cache of [`READ_CACHE_CAPACITY`] files.
    pub fn new() -> (c: ReadCache)
        ensures
            c.files().dom() == Set::<Seq<char>>::empty(),
            c.recency() == Seq::<Seq<char>>::empty(),
            c.capacity() == READ_CACHE_CAPACITY,
            c.wf(),
    {
        ReadCache { cache: new_lru(READ_CACHE_CAPACITY) }
    }

    /// Decides how to answer a request for `path`: from the cache when it holds the
    /// file, else by reading it.
    pub fn begin(&mut self, path: &str) -> (step: ReadStep)
        requires
            old(self).wf(),
        ensures
            final(self).wf(),
            final(self).files() == old(self).files(),
            final(self).capacity() == old(self).capacity(),
            final(self).recency() == if old(self).files().contains_key(path@) {
                moved_to_back(old(self).recency(), path@)
            } else {
                old(self).recency()
            },
            old(self).files().contains_key(path@) ==> (step matches ReadStep::Respond(bytes)
                && bytes@ == old(self).files()[path@]),
            !old(self).files().contains_key(path@) ==> step is ReadFile,
            old(self).files().contains_key(path@) ==> (final(self).files(), final(self).recency())
                == spec_after_request(old(self).files(), old(self).recency(), old(self).capacity(), path@, None),
    {
        match lru_get(&mut self.cache, path) {
            Some(bytes) => ReadStep::Respond(bytes),
            None => ReadStep::ReadFile,
        }
    }

    /// Records the outcome of reading `path`: contents that were read are cached as
    /// the most recently used file, first evicting the least recently used file when
    /// the path is new and the cache is full; a failed read leaves the cache as it was.
    pub fn finish(&mut self, path: String, contents: Option<Vec<u8>>)
        requires
            old(self).wf(),
        ensures
            final(self).wf(),
            final(self).capacity() == old(self).capacity(),
            contents is None ==> final(self).files() == old(self).files() && final(self).recency()
                == old(self).recency(),
            contents matches Some(bytes) ==> final(self).files() == if old(self).files().contains_key(path@)
                || old(self).recency().len() < old(self).capacity() {
                old(self).files().insert(path@, bytes@)
            } else {
                old(self).files().remove(old(self).recency()[0]).insert(path@, bytes@)
            },
            contents is Some ==> final(self).recency() == if old(self).files().contains_key(path@) {
                moved_to_back(old(self).recency(), path@)
            } else if old(self).recency().len() < old(self).capacity() {
                old(self).recency().push(path@)
            } else {
                old(self).recency().drop_first().push(path@)
            },
            !old(self).files().contains_key(path@) ==> (final(self).files(), final(self).recency())
                == spec_after_request(
                old(self).files(),
                old(self).recency(),
                old(self).capacity(),
                path@,
                match contents {
                    Some(bytes) => Some(bytes@),
                    None => None,
                },
            ),
    {
        proof {
            lemma_consistent_len(self.files(), self.recency(), self.capacity());
        }
        match contents {
            Some(bytes) => lru_push(&mut self.cache, path, bytes),
            None => {},
        }
    }
}

} // verus!
