//! The blob store: a size-bounded cache in front of durable files, one per
//! key. Reading and writing files is left to the caller, which reports what
//! happened; this module decides what the cache holds and what is returned.
use vstd::prelude::*;
use vstd::string::*;

verus! {

#[verifier::external_type_specification]
#[verifier::external_body]
#[verifier::reject_recursive_types(K)]
#[verifier::reject_recursive_types(V)]
#[verifier::reject_recursive_types(S)]
pub struct ExCache<K, V, S>(moka::sync::Cache<K, V, S>);

/// The cache of blobs by key.
pub type BlobCache = moka::sync::Cache<String, Vec<u8>>;

/// What the cache may hand back: for each key, the blob last inserted for it
/// and not invalidated since. Eviction may drop any of these at any time.
pub uninterp spec fn cached_entries(cache: BlobCache) -> Map<Seq<char>, Seq<u8>>;

/// The weight of a blob in the cache: its length, capped at `u32::MAX`.
pub fn blob_weight(blob: &Vec<u8>) -> (r: u32)
    ensures
        r == (if blob@.len() > u32::MAX { u32::MAX as int } else { blob@.len() as int }),
{
    if blob.len() > u32::MAX as usize {
        u32::MAX
    } else {
        blob.len() as u32
    }
}

/// Relies on moka's `CacheBuilder` (`weigher`, `max_capacity`, `build`): a new
/// cache holds nothing.
#[verifier::external_body]
fn new_cache(capacity: u64) -> (r: BlobCache)
    ensures
        cached_entries(r).dom().is_empty(),
{
    moka::sync::Cache::builder()
        .weigher(|_key: &String, blob: &Vec<u8>| blob_weight(blob))
        .max_capacity(capacity)
        .build()
}

/// Relies on moka's `Cache::get`: a blob it hands back is the one last
/// inserted for the key; it may hand back nothing after an eviction.
#[verifier::external_body]
fn cache_get(cache: &BlobCache, key: &String) -> (r: Option<Vec<u8>>)
    ensures
        r is Some ==> cached_entries(*cache).contains_key(key@) && cached_entries(*cache)[key@]
            == r->Some_0@,
{
    cache.get(key)
}

/// Relies on moka's `Cache::insert`: the key's value is set or replaced.
#[verifier::external_body]
fn cache_insert(cache: &mut BlobCache, key: String, blob: Vec<u8>)
    ensures
        cached_entries(*final(cache)) == cached_entries(*old(cache)).insert(key@, blob@),
{
    cache.insert(key, blob)
}

/// Relies on moka's `Cache::invalidate`: any cached value for the key is
/// discarded.
#[verifier::external_body]
fn cache_invalidate(cache: &mut BlobCache, key: &String)
    ensures
        cached_entries(*final(cache)) == cached_entries(*old(cache)).remove(key@),
{
    cache.invalidate(key)
}

/// The errors of the store.
#[derive(Debug, Clone, Copy, PartialEq, Eq, Structural)]
pub enum StoreError {
    /// No durable record for the key.
    NotFound,
    /// Reading or writing durable storage failed.
    Io,
}

/// What reading a key's durable file gave.
#[derive(Debug)]
pub enum ReadOutcome {
    Found(Vec<u8>),
    Missing,
    Failed,
}

/// What writing a key's durable file gave.
#[derive(Debug, Clone, Copy, PartialEq, Eq, Structural)]
pub enum WriteOutcome {
    Written,
    Failed,
}

/// What the caller is to do next for a load.
#[derive(Debug)]
pub enum LoadStep {
    /// The cache held the blob.
    Hit(Vec<u8>),
    /// Read the durable file at this path, then hand the outcome to
    /// `load_image`.
    ReadDurable(String),
}

/// The result a load reports for a read outcome.
pub open spec fn read_result(read: ReadOutcome) -> Result<Seq<u8>, StoreError> {
    match read {
        ReadOutcome::Found(b) => Ok(b@),
        ReadOutcome::Missing => Err(StoreError::NotFound),
        ReadOutcome::Failed => Err(StoreError::Io),
    }
}

/// Whether a blob may enter the cache: it is no larger than the per-entry
/// maximum.
pub open spec fn admits(max_entry: nat, blob: Seq<u8>) -> bool {
    blob.len() <= max_entry
}

/// The cache after a blob for `key` became durable: it holds that blob, or,
/// when the blob is too large to cache, nothing for `key`.
pub open spec fn cache_after_store(
    cached: Map<Seq<char>, Seq<u8>>,
    key: Seq<char>,
    blob: Seq<u8>,
    max_entry: nat,
) -> Map<Seq<char>, Seq<u8>> {
    if admits(max_entry, blob) {
        cached.insert(key, blob)
    } else {
        cached.remove(key)
    }
}

/// The cache after a load of `key` that missed and read durable storage.
pub open spec fn cache_after_read(
    cached: Map<Seq<char>, Seq<u8>>,
    key: Seq<char>,
    read: ReadOutcome,
    max_entry: nat,
) -> Map<Seq<char>, Seq<u8>> {
    match read {
        ReadOutcome::Found(b) => cache_after_store(cached, key, b@, max_entry),
        _ => cached,
    }
}

/// The cache after a save of `blob` under `key`: untouched unless the durable
/// write succeeded.
pub open spec fn cache_after_save(
    cached: Map<Seq<char>, Seq<u8>>,
    key: Seq<char>,
    blob: Seq<u8>,
    write: WriteOutcome,
    max_entry: nat,
) -> Map<Seq<char>, Seq<u8>> {
    match write {
        WriteOutcome::Written => cache_after_store(cached, key, blob, max_entry),
        WriteOutcome::Failed => cached,
    }
}

/// Durable storage after a save of `blob` under `key`.
pub open spec fn durable_after_save(
    durable: Map<Seq<char>, Seq<u8>>,
    key: Seq<char>,
    blob: Seq<u8>,
    write: WriteOutcome,
) -> Map<Seq<char>, Seq<u8>> {
    match write {
        WriteOutcome::Written => durable.insert(key, blob),
        WriteOutcome::Failed => durable,
    }
}

/// Every cached blob is the durable record of its key.
pub open spec fn cache_consistent(
    durable: Map<Seq<char>, Seq<u8>>,
    cached: Map<Seq<char>, Seq<u8>>,
) -> bool {
    forall|k: Seq<char>| #[trigger]
        cached.contains_key(k) ==> durable.contains_key(k) && durable[k] == cached[k]
}

/// Every cached blob is within the per-entry maximum.
pub open spec fn entries_bounded(cached: Map<Seq<char>, Seq<u8>>, max_entry: nat) -> bool {
    forall|k: Seq<char>| #[trigger] cached.contains_key(k) ==> cached[k].len() <= max_entry
}

/// What a load of `key` returns: the cached blob, else the durable record,
/// else `NotFound`.
pub open spec fn load_result(
    durable: Map<Seq<char>, Seq<u8>>,
    cached: Map<Seq<char>, Seq<u8>>,
    key: Seq<char>,
) -> Result<Seq<u8>, StoreError> {
    if cached.contains_key(key) {
        Ok(cached[key])
    } else if durable.contains_key(key) {
        Ok(durable[key])
    } else {
        Err(StoreError::NotFound)
    }
}

/// A read of `key`'s durable file that reports durable storage truly; a
/// failed read may happen whatever is stored.
pub open spec fn read_agrees(read: ReadOutcome, durable: Map<Seq<char>, Seq<u8>>, key: Seq<char>) -> bool {
    match read {
        ReadOutcome::Found(b) => durable.contains_key(key) && durable[key] == b@,
        ReadOutcome::Missing => !durable.contains_key(key),
        ReadOutcome::Failed => true,
    }
}

/// Where the durable file of `name` lies under `root`, joined as a path.
pub open spec fn file_path_of(root: Seq<char>, name: Seq<char>) -> Seq<char> {
    if root.len() == 0 || root.last() == '/' {
        root + name
    } else {
        root.push('/') + name
    }
}

/// The path of the durable file `path` under the directory `root`, joined as
/// a path: a separator is put between them unless `root` is empty or already
/// ends with one.
pub fn get_file_path(root: &str, path: &str) -> (r: String)
    ensures
        r@ == file_path_of(root@, path@),
{
    let mut joined = String::from_str(root);
    let n = root.unicode_len();
    if n > 0 && root.get_char(n - 1) != '/' {
        joined.append("/");
        proof {
            reveal_strlit("/");
        }
        assert(joined@ =~= root@.push('/'));
    }
    joined.append(path);
    joined
}

/// The cache-aside store: a weight-bounded cache of blobs keyed by key, and
/// the root directory of their durable files.
pub struct FileIo {
    cache: BlobCache,
    root: String,
    max_entry: usize,
}

impl View for FileIo {
    type V = Map<Seq<char>, Seq<u8>>;

    closed spec fn view(&self) -> Map<Seq<char>, Seq<u8>> {
        cached_entries(self.cache)
    }
}

impl FileIo {
    /// The root directory of the durable files.
    pub closed spec fn root_dir(&self) -> Seq<char> {
        self.root@
    }

    /// The largest blob that the cache takes.
    pub closed spec fn max_entry(&self) -> nat {
        self.max_entry as nat
    }

    /// A store with an empty cache of the given total weight, whose durable
    /// files lie under `root`, caching blobs of at most `max_entry` bytes.
    pub fn new(root: String, max_entry: usize, capacity: u64) -> (r: FileIo)
        ensures
            r@.dom().is_empty(),
            r.root_dir() == root@,
            r.max_entry() == max_entry,
    {
        FileIo { cache: new_cache(capacity), root, max_entry }
    }

    /// The path of the durable file of `nym`.
    pub fn file_path(&self, nym: &str) -> (r: String)
        ensures
            r@ == file_path_of(self.root_dir(), nym@),
    {
        get_file_path(self.root.as_str(), nym)
    }

    /// The first step of a load: the cached blob, or the durable file to read.
    pub fn load_step(&self, nym: &String) -> (r: LoadStep)
        ensures
            match r {
                LoadStep::Hit(b) => self@.contains_key(nym@) && self@[nym@] == b@,
                LoadStep::ReadDurable(p) => p@ == file_path_of(self.root_dir(), nym@),
            },
    {
        match cache_get(&self.cache, nym) {
            Some(b) => LoadStep::Hit(b),
            None => LoadStep::ReadDurable(self.file_path(nym.as_str())),
        }
    }

    /// The end of a load that missed the cache: reports what reading the
    /// durable file gave, and caches a blob that was found.
    pub fn load_image(&mut self, nym: String, read: ReadOutcome) -> (r: Result<Vec<u8>, StoreError>)
        ensures
            match r {
                Ok(b) => read_result(read) == Ok::<Seq<u8>, StoreError>(b@),
                Err(e) => read_result(read) == Err::<Seq<u8>, StoreError>(e),
            },
            final(self)@ == cache_after_read(old(self)@, nym@, read, old(self).max_entry()),
            final(self).root_dir() == old(self).root_dir(),
            final(self).max_entry() == old(self).max_entry(),
    {
        match read {
            ReadOutcome::Found(data) => {
                self.cache_blob(nym, &data);
                Ok(data)
            },
            ReadOutcome::Missing => Err(StoreError::NotFound),
            ReadOutcome::Failed => Err(StoreError::Io),
        }
    }

    /// The end of a save: once the durable write succeeded the cache takes
    /// the blob; a failed write leaves the cache untouched.
    pub fn save_image(&mut self, nym: String, data: Vec<u8>, write: WriteOutcome) -> (r: Result<
        (),
        StoreError,
    >)
        ensures
            r is Ok <==> write == WriteOutcome::Written,
            r is Err ==> r->Err_0 == StoreError::Io,
            final(self)@ == cache_after_save(
                old(self)@,
                nym@,
                data@,
                write,
                old(self).max_entry(),
            ),
            final(self).root_dir() == old(self).root_dir(),
            final(self).max_entry() == old(self).max_entry(),
    {
        match write {
            WriteOutcome::Written => {
                self.cache_blob(nym, &data);
                Ok(())
            },
            WriteOutcome::Failed => Err(StoreError::Io),
        }
    }

    /// Caches `data` under `nym`, or drops `nym` from the cache when `data`
    /// is too large to cache.
    fn cache_blob(&mut self, nym: String, data: &Vec<u8>)
        ensures
            final(self)@ == cache_after_store(old(self)@, nym@, data@, old(self).max_entry()),
            final(self).root_dir() == old(self).root_dir(),
            final(self).max_entry() == old(self).max_entry(),
    {
        if data.len() <= self.max_entry {
            cache_insert(&mut self.cache, nym, data.clone());
        } else {
            cache_invalidate(&mut self.cache, &nym);
        }
    }
}

/// Round trip: after a successful save of `blob` under `key`, a load of `key`
/// returns `blob`, and the cache stays consistent with durable storage.
pub proof fn lemma_round_trip(
    durable: Map<Seq<char>, Seq<u8>>,
    cached: Map<Seq<char>, Seq<u8>>,
    key: Seq<char>,
    blob: Seq<u8>,
    max_entry: nat,
)
    requires
        cache_consistent(durable, cached),
    ensures
        ({
            let d = durable_after_save(durable, key, blob, WriteOutcome::Written);
            let c = cache_after_save(cached, key, blob, WriteOutcome::Written, max_entry);
            cache_consistent(d, c) && load_result(d, c, key) == Ok::<Seq<u8>, StoreError>(blob)
        }),
{
}

/// Cache transparency: dropping any cache entries leaves the cache consistent
/// and changes no load result.
pub proof fn lemma_cache_transparency(
    durable: Map<Seq<char>, Seq<u8>>,
    cached: Map<Seq<char>, Seq<u8>>,
    kept: Map<Seq<char>, Seq<u8>>,
    key: Seq<char>,
)
    requires
        cache_consistent(durable, cached),
        kept.submap_of(cached),
    ensures
        cache_consistent(durable, kept),
        load_result(durable, kept, key) == load_result(durable, cached, key),
{
    assert forall|k: Seq<char>| #[trigger] kept.contains_key(k) implies durable.contains_key(k)
        && durable[k] == kept[k] by {
        assert(cached.contains_key(k));
    }
    if kept.contains_key(key) {
        assert(cached.contains_key(key));
    }
}

/// A load that misses the cache and reads durable storage truly returns what
/// a load of a consistent cache returns, and leaves the cache consistent.
pub proof fn lemma_miss_agrees(
    durable: Map<Seq<char>, Seq<u8>>,
    cached: Map<Seq<char>, Seq<u8>>,
    key: Seq<char>,
    read: ReadOutcome,
    max_entry: nat,
)
    requires
        cache_consistent(durable, cached),
        read_agrees(read, durable, key),
        !(read is Failed),
    ensures
        read_result(read) == load_result(durable, cached, key),
        cache_consistent(durable, cache_after_read(cached, key, read, max_entry)),
{
}

/// Failure isolation: a save whose durable write failed changes neither
/// durable storage nor the cache, so no load result changes.
pub proof fn lemma_failed_save_isolated(
    durable: Map<Seq<char>, Seq<u8>>,
    cached: Map<Seq<char>, Seq<u8>>,
    key: Seq<char>,
    blob: Seq<u8>,
    max_entry: nat,
    other: Seq<char>,
)
    ensures
        ({
            let d = durable_after_save(durable, key, blob, WriteOutcome::Failed);
            let c = cache_after_save(cached, key, blob, WriteOutcome::Failed, max_entry);
            load_result(d, c, other) == load_result(durable, cached, other)
        }),
{
}

/// No cache entry ever exceeds the per-entry maximum, whatever saves and
/// loads do.
pub proof fn lemma_entries_stay_bounded(
    cached: Map<Seq<char>, Seq<u8>>,
    key: Seq<char>,
    blob: Seq<u8>,
    write: WriteOutcome,
    read: ReadOutcome,
    max_entry: nat,
)
    requires
        entries_bounded(cached, max_entry),
    ensures
        entries_bounded(cache_after_save(cached, key, blob, write, max_entry), max_entry),
        entries_bounded(cache_after_read(cached, key, read, max_entry), max_entry),
{
}

} // verus!
