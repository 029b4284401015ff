//! Content hashing with an mtime/size-validated LRU cache.
//!
//! The partial hash covers only the first 64 KiB of a file and serves as a
//! cheap pre-filter; only the full hash proves equality. A cached hash is
//! reused only while the file's observed modification time and size both
//! match the cached ones.

use vstd::prelude::*;
use vstd::string::StringSliceAdditionalSpecFns;

use sha2::Digest;

use crate::error::DiskTidyError;
use crate::platform::{self, FileReadOutcome};
use crate::text::chars_to_string;

verus! {

/// Bytes covered by a partial hash.
pub const PARTIAL_HASH_SIZE: usize = 65536;

/// Seconds a full-file hash may take before it fails with a timeout.
pub const DEFAULT_TIMEOUT_SECS: u64 = 30;

/// Entries the hash cache holds by default.
pub const DEFAULT_CACHE_SIZE: usize = 1000;

/// Names what sha2::Sha256 computes: the SHA-256 digest of a byte sequence.
pub uninterp spec fn spec_sha256(data: Seq<u8>) -> Seq<u8>;

/// Relies on sha2::Sha256 through the Digest interface: the SHA-256 digest
/// of the input, which is 32 bytes long.
#[verifier::external_body]
fn sha256_digest(data: &[u8]) -> (r: Vec<u8>)
    ensures
        r@ == spec_sha256(data@),
        r@.len() == 32,
{
    sha2::Sha256::digest(data).to_vec()
}

/// The lower-case hex character of a value below 16.
pub open spec fn hex_char(v: u8) -> char {
    if v < 10 {
        (('0' as u8) + v) as char
    } else {
        (('a' as u8) + (v - 10)) as char
    }
}

/// Lower-case hex encoding of a byte sequence, two characters per byte.
pub open spec fn spec_to_hex(data: Seq<u8>) -> Seq<char>
    decreases data.len(),
{
    if data.len() == 0 {
        Seq::<char>::empty()
    } else {
        spec_to_hex(data.drop_last()) + seq![
            hex_char(data.last() / 16),
            hex_char(data.last() % 16),
        ]
    }
}

/// The hex string of a file's full SHA-256 hash.
pub open spec fn full_hash_of(data: Seq<u8>) -> Seq<char> {
    spec_to_hex(spec_sha256(data))
}

/// The first 64 KiB of a byte sequence (all of it when shorter).
pub open spec fn hash_prefix(data: Seq<u8>) -> Seq<u8> {
    if data.len() <= PARTIAL_HASH_SIZE {
        data
    } else {
        data.take(PARTIAL_HASH_SIZE as int)
    }
}

/// The hex string of a file's partial SHA-256 hash: the hash of the first
/// 64 KiB only.
pub open spec fn partial_hash_of(data: Seq<u8>) -> Seq<char> {
    full_hash_of(hash_prefix(data))
}

/// For any two byte sequences with identical content, the full hashes are
/// identical.
pub proof fn lemma_equal_content_equal_hash(a: Seq<u8>, b: Seq<u8>)
    requires
        a == b,
    ensures
        full_hash_of(a) == full_hash_of(b),
{
}

/// Lower-case hex encoding of a byte slice.
fn to_hex_chars(data: &[u8]) -> (r: Vec<char>)
    ensures
        r@ == spec_to_hex(data@),
{
    let mut r: Vec<char> = Vec::new();
    let mut i: usize = 0;
    proof {
        assert(data@.take(0) =~= Seq::<u8>::empty());
    }
    while i < data.len()
        invariant
            i <= data@.len(),
            r@ == spec_to_hex(data@.take(i as int)),
        decreases data@.len() - i,
    {
        let b = data[i];
        let hi = b / 16;
        let lo = b % 16;
        let hi_c = if hi < 10 {
            ((('0' as u8) + hi)) as char
        } else {
            ((('a' as u8) + (hi - 10))) as char
        };
        let lo_c = if lo < 10 {
            ((('0' as u8) + lo)) as char
        } else {
            ((('a' as u8) + (lo - 10))) as char
        };
        r.push(hi_c);
        r.push(lo_c);
        i = i + 1;
        proof {
            assert(data@.take(i as int).drop_last() =~= data@.take(i - 1));
            assert(data@.take(i as int).last() == data@[i - 1]);
            assert(r@ =~= spec_to_hex(data@.take(i as int)));
        }
    }
    proof {
        assert(data@.take(data@.len() as int) =~= data@);
    }
    r
}

/// The hex string of the SHA-256 hash of a byte vector.
pub fn hash_bytes(input: &[u8]) -> (r: String)
    ensures
        r@ == full_hash_of(input@),
{
    let digest = sha256_digest(input);
    let chars = to_hex_chars(digest.as_slice());
    chars_to_string(&chars)
}

/// The hex string of the SHA-256 hash of a string's UTF-8 bytes.
pub fn hash_string(input: &str) -> (r: String)
    ensures
        r@ == full_hash_of(input.spec_bytes()),
{
    hash_bytes(input.as_bytes())
}

/// One computed hash: the hex string, whether it covers only the 64 KiB
/// prefix, and how many bytes went into it.
#[derive(Debug, Clone)]
pub struct HashResult {
    pub hash: String,
    pub is_partial: bool,
    pub bytes_processed: u64,
}

/// Whether two hash results carry the same hex string. The short-circuit
/// comparisons of `quick_compare` are this function applied to what the
/// reads returned.
pub fn hashes_equal(a: &HashResult, b: &HashResult) -> (r: bool)
    ensures
        r == (a.hash@ == b.hash@),
{
    a.hash.eq(&b.hash)
}

/// The full hash of in-memory content.
pub fn full_hash_result(data: &Vec<u8>) -> (r: HashResult)
    ensures
        r.hash@ == full_hash_of(data@),
        !r.is_partial,
        r.bytes_processed == data@.len(),
{
    let hash = hash_bytes(data.as_slice());
    HashResult { hash, is_partial: false, bytes_processed: data.len() as u64 }
}

/// The partial hash of in-memory content: the hash of its first 64 KiB.
pub fn partial_hash_result(data: &Vec<u8>) -> (r: HashResult)
    ensures
        r.hash@ == partial_hash_of(data@),
        r.is_partial,
        r.bytes_processed == hash_prefix(data@).len(),
{
    if data.len() <= PARTIAL_HASH_SIZE {
        let hash = hash_bytes(data.as_slice());
        HashResult { hash, is_partial: true, bytes_processed: data.len() as u64 }
    } else {
        let prefix: &[u8] = &data.as_slice()[0..PARTIAL_HASH_SIZE];
        proof {
            assert(prefix@ =~= hash_prefix(data@));
        }
        let hash = hash_bytes(prefix);
        HashResult { hash, is_partial: true, bytes_processed: PARTIAL_HASH_SIZE as u64 }
    }
}

/// Declares lru's cache type so it can appear in signatures and fields.
#[verifier::external_type_specification]
#[verifier::external_body]
#[verifier::reject_recursive_types(K)]
#[verifier::reject_recursive_types(V)]
#[verifier::reject_recursive_types(S)]
pub struct ExLruCache<K, V, S>(lru::LruCache<K, V, S>);

/// Names what an lru::LruCache of hash entries holds: the map from path to
/// (hash, modification time, size).
pub uninterp spec fn lru_entries(c: lru::LruCache<String, (String, i64, u64)>) -> Map<
    Seq<char>,
    (Seq<char>, i64, u64),
>;

/// The cache maps `path` to an entry whose hash is `hash`.
pub open spec fn cache_has_hash(
    m: Map<Seq<char>, (Seq<char>, i64, u64)>,
    path: Seq<char>,
    hash: Seq<char>,
) -> bool {
    m.contains_key(path) && m[path].0 == hash
}

/// The empty cache contents.
pub open spec fn empty_cache_map() -> Map<Seq<char>, (Seq<char>, i64, u64)> {
    Map::empty()
}

/// Names the bound an lru::LruCache of hash entries was created with.
pub uninterp spec fn lru_capacity(c: lru::LruCache<String, (String, i64, u64)>) -> nat;

/// Relies on lru::LruCache::new: an empty cache bounded at `cap` entries.
#[verifier::external_body]
fn lru_new(cap: usize) -> (r: lru::LruCache<String, (String, i64, u64)>)
    requires
        cap >= 1,
    ensures
        lru_entries(r) == empty_cache_map(),
        lru_capacity(r) == cap,
{
    lru::LruCache::new(core::num::NonZeroUsize::new(cap).unwrap())
}

/// Relies on lru::LruCache::get: hands back the entry for `k`, marking it
/// most recently used; the contents do not change.
#[verifier::external_body]
fn lru_get(c: &mut lru::LruCache<String, (String, i64, u64)>, k: &String) -> (r: Option<
    (String, i64, u64),
>)
    ensures
        lru_entries(*final(c)) == lru_entries(*old(c)),
        lru_capacity(*final(c)) == lru_capacity(*old(c)),
        match r {
            Some(v) => lru_entries(*old(c)).contains_key(k@) && lru_entries(*old(c))[k@] == (
                v.0@,
                v.1,
                v.2,
            ),
            None => !lru_entries(*old(c)).contains_key(k@),
        },
{
    c.get(k).cloned()
}

/// Relies on lru::LruCache::put: stores the entry for `k`, evicting the
/// least-recently-used entry when the cache is full and `k` is new.
#[verifier::external_body]
fn lru_put(c: &mut lru::LruCache<String, (String, i64, u64)>, k: String, v: (String, i64, u64))
    ensures
        lru_capacity(*final(c)) == lru_capacity(*old(c)),
        lru_entries(*final(c)).contains_pair(k@, (v.0@, v.1, v.2)),
        lru_entries(*final(c)).len() <= lru_capacity(*old(c)),
        forall|k2: Seq<char>|
            #[trigger] lru_entries(*final(c)).contains_key(k2) && k2 != k@ ==> lru_entries(
                *old(c),
            ).contains_pair(k2, lru_entries(*final(c))[k2]),
        lru_entries(*old(c)).contains_key(k@) ==> lru_entries(*final(c)) == lru_entries(
            *old(c),
        ).insert(k@, (v.0@, v.1, v.2)),
        lru_entries(*old(c)).len() < lru_capacity(*old(c)) ==> lru_entries(*final(c))
            == lru_entries(*old(c)).insert(k@, (v.0@, v.1, v.2)),
{
    c.put(k, v);
}

/// Relies on lru::LruCache::len: how many entries the cache holds.
#[verifier::external_body]
fn lru_len(c: &lru::LruCache<String, (String, i64, u64)>) -> (r: usize)
    ensures
        r == lru_entries(*c).len(),
{
    c.len()
}

/// Relies on lru::LruCache::clear: removes every entry.
#[verifier::external_body]
fn lru_clear(c: &mut lru::LruCache<String, (String, i64, u64)>)
    ensures
        lru_entries(*final(c)) == empty_cache_map(),
        lru_capacity(*final(c)) == lru_capacity(*old(c)),
{
    c.clear();
}

/// Partial- and full-content hashing with an mtime/size-validated cache.
pub struct HashCalculator {
    cache: lru::LruCache<String, (String, i64, u64)>,
    cache_enabled: bool,
    timeout_secs: u64,
}

impl HashCalculator {
    /// The cached entries: path to (hash, modification time, size).
    pub closed spec fn cache_view(&self) -> Map<Seq<char>, (Seq<char>, i64, u64)> {
        lru_entries(self.cache)
    }

    pub closed spec fn spec_cache_enabled(&self) -> bool {
        self.cache_enabled
    }

    pub closed spec fn spec_timeout_secs(&self) -> u64 {
        self.timeout_secs
    }

    /// A calculator with the cache on, the default bound and timeout.
    pub fn new() -> (r: HashCalculator)
        ensures
            r.cache_view() == empty_cache_map(),
            r.spec_cache_enabled(),
            r.spec_timeout_secs() == DEFAULT_TIMEOUT_SECS,
    {
        HashCalculator {
            cache: lru_new(DEFAULT_CACHE_SIZE),
            cache_enabled: true,
            timeout_secs: DEFAULT_TIMEOUT_SECS,
        }
    }

    /// A calculator with the cache switched on or off.
    pub fn with_cache(enabled: bool) -> (r: HashCalculator)
        ensures
            r.cache_view() == empty_cache_map(),
            r.spec_cache_enabled() == enabled,
            r.spec_timeout_secs() == DEFAULT_TIMEOUT_SECS,
    {
        HashCalculator {
            cache: lru_new(DEFAULT_CACHE_SIZE),
            cache_enabled: enabled,
            timeout_secs: DEFAULT_TIMEOUT_SECS,
        }
    }

    /// A calculator with the cache switched on or off and a chosen bound
    /// (raised to one entry at least).
    pub fn with_cache_and_size(enabled: bool, max_size: usize) -> (r: HashCalculator)
        ensures
            r.cache_view() == empty_cache_map(),
            r.spec_cache_enabled() == enabled,
            r.spec_timeout_secs() == DEFAULT_TIMEOUT_SECS,
    {
        let size = if max_size >= 1 {
            max_size
        } else {
            1
        };
        HashCalculator {
            cache: lru_new(size),
            cache_enabled: enabled,
            timeout_secs: DEFAULT_TIMEOUT_SECS,
        }
    }

    /// A calculator with a chosen timeout.
    pub fn with_timeout(timeout_secs: u64) -> (r: HashCalculator)
        ensures
            r.cache_view() == empty_cache_map(),
            r.spec_cache_enabled(),
            r.spec_timeout_secs() == timeout_secs,
    {
        HashCalculator { cache: lru_new(DEFAULT_CACHE_SIZE), cache_enabled: true, timeout_secs }
    }

    /// Look a path up in the cache, reusing the stored hash only when both
    /// the stored modification time and the stored size equal the observed
    /// ones; any divergence, or a disabled cache, yields None.
    pub fn cache_lookup(&mut self, path: &String, mtime: i64, size: u64) -> (r: Option<String>)
        ensures
            final(self).cache_view() == old(self).cache_view(),
            final(self).spec_cache_enabled() == old(self).spec_cache_enabled(),
            final(self).spec_timeout_secs() == old(self).spec_timeout_secs(),
            match r {
                Some(h) => old(self).spec_cache_enabled() && old(self).cache_view().contains_key(
                    path@,
                ) && old(self).cache_view()[path@] == (h@, mtime, size),
                None => !old(self).spec_cache_enabled() || !old(self).cache_view().contains_key(
                    path@,
                ) || old(self).cache_view()[path@].1 != mtime || old(self).cache_view()[path@].2
                    != size,
            },
    {
        if !self.cache_enabled {
            return None;
        }
        match lru_get(&mut self.cache, path) {
            Some(entry) => {
                if entry.1 == mtime && entry.2 == size {
                    Some(entry.0)
                } else {
                    None
                }
            },
            None => None,
        }
    }

    /// Store a freshly computed hash under a path, with the metadata that
    /// validated it.
    pub fn cache_store(&mut self, path: &String, hash: &String, mtime: i64, size: u64)
        ensures
            final(self).spec_cache_enabled() == old(self).spec_cache_enabled(),
            final(self).spec_timeout_secs() == old(self).spec_timeout_secs(),
            old(self).spec_cache_enabled() ==> final(self).cache_view().contains_pair(
                path@,
                (hash@, mtime, size),
            ),
            !old(self).spec_cache_enabled() ==> final(self).cache_view() == old(self).cache_view(),
    {
        if self.cache_enabled {
            lru_put(&mut self.cache, path.clone(), (hash.clone(), mtime, size));
        }
    }

    /// Hash a whole file, reusing a cached hash only while the file's
    /// modification time and size still match.
    ///
    /// A file that cannot be found fails with FileNotFound; a read that
    /// exceeds the timeout fails with HashCalculationTimeout; any other
    /// failed read fails with IoError.
    pub fn calculate_file_hash(&mut self, path: &String) -> (r: Result<HashResult, DiskTidyError>)
        ensures
            final(self).spec_cache_enabled() == old(self).spec_cache_enabled(),
            final(self).spec_timeout_secs() == old(self).spec_timeout_secs(),
            match r {
                Ok(hr) => !hr.is_partial && (old(self).spec_cache_enabled() ==> cache_has_hash(
                    final(self).cache_view(),
                    path@,
                    hr.hash@,
                )) && ((exists|data: Seq<u8>| hr.hash@ == #[trigger] full_hash_of(data))
                    || cache_has_hash(old(self).cache_view(), path@, hr.hash@)),
                Err(e) => (e matches DiskTidyError::FileNotFound { .. }
                    || e matches DiskTidyError::HashCalculationTimeout { .. }
                    || e matches DiskTidyError::IoError(_)) && final(self).cache_view() == old(
                    self
                ).cache_view(),
            },
    {
        let meta = match platform::lookup_entry(path) {
            Some(m) => m,
            None => {
                return Err(DiskTidyError::FileNotFound { path: path.clone() });
            },
        };
        match self.cache_lookup(path, meta.modified_time, meta.size) {
            Some(hash) => {
                proof {
                    assert(cache_has_hash(self.cache_view(), path@, hash@));
                    assert(cache_has_hash(old(self).cache_view(), path@, hash@));
                }
                return Ok(
                    HashResult { hash, is_partial: false, bytes_processed: meta.size },
                );
            },
            None => {},
        }
        let timeout_ms = if self.timeout_secs > 0xffff_ffff {
            0xffff_ffff_u64 * 1000
        } else {
            self.timeout_secs * 1000
        };
        let data = match platform::read_file_with_timeout(path, timeout_ms) {
            FileReadOutcome::Data(d) => d,
            FileReadOutcome::TimedOut => {
                return Err(DiskTidyError::HashCalculationTimeout { path: path.clone() });
            },
            FileReadOutcome::Failed => {
                return Err(DiskTidyError::IoError(path.clone()));
            },
        };
        let result = full_hash_result(&data);
        proof {
            assert(result.hash@ == full_hash_of(data@));
            assert(exists|d: Seq<u8>| result.hash@ == #[trigger] full_hash_of(d));
        }
        self.cache_store(path, &result.hash, meta.modified_time, meta.size);
        proof {
            if old(self).spec_cache_enabled() {
                assert(self.cache_view().contains_pair(
                    path@,
                    (result.hash@, meta.modified_time, meta.size),
                ));
                assert(cache_has_hash(self.cache_view(), path@, result.hash@));
            }
        }
        Ok(result)
    }

    /// Hash only the first 64 KiB of a file; never cached, never proof of
    /// equality by itself.
    pub fn calculate_partial_hash(&mut self, path: &String) -> (r: Result<
        HashResult,
        DiskTidyError,
    >)
        ensures
            final(self).cache_view() == old(self).cache_view(),
            final(self).spec_cache_enabled() == old(self).spec_cache_enabled(),
            final(self).spec_timeout_secs() == old(self).spec_timeout_secs(),
            match r {
                Ok(hr) => hr.is_partial,
                Err(e) => e matches DiskTidyError::HashCalculationTimeout { .. } || e matches
                    DiskTidyError::IoError(_),
            },
    {
        let timeout_ms = if self.timeout_secs > 0xffff_ffff {
            0xffff_ffff_u64 * 1000
        } else {
            self.timeout_secs * 1000
        };
        let data = match platform::read_file_with_timeout(path, timeout_ms) {
            FileReadOutcome::Data(d) => d,
            FileReadOutcome::TimedOut => {
                return Err(DiskTidyError::HashCalculationTimeout { path: path.clone() });
            },
            FileReadOutcome::Failed => {
                return Err(DiskTidyError::IoError(path.clone()));
            },
        };
        Ok(partial_hash_result(&data))
    }

    /// Compare two files cheaply: partial hashes first, and the full hashes
    /// only when the partial ones agree. What the reads return is outside;
    /// each comparison of the returned results is `hashes_equal`, whose
    /// contract fixes it exactly, and a hashing error propagates.
    pub fn quick_compare(&mut self, path1: &String, path2: &String) -> (r: Result<
        bool,
        DiskTidyError,
    >)
        ensures
            final(self).spec_cache_enabled() == old(self).spec_cache_enabled(),
            final(self).spec_timeout_secs() == old(self).spec_timeout_secs(),
    {
        let h1 = self.calculate_partial_hash(path1)?;
        let h2 = self.calculate_partial_hash(path2)?;
        if !hashes_equal(&h1, &h2) {
            return Ok(false);
        }
        let f1 = self.calculate_file_hash(path1)?;
        let f2 = self.calculate_file_hash(path2)?;
        Ok(hashes_equal(&f1, &f2))
    }

    /// Drop every cached entry.
    pub fn clear_cache(&mut self)
        ensures
            final(self).cache_view() == empty_cache_map(),
            final(self).spec_cache_enabled() == old(self).spec_cache_enabled(),
            final(self).spec_timeout_secs() == old(self).spec_timeout_secs(),
    {
        lru_clear(&mut self.cache);
    }

    /// How many entries the cache holds.
    pub fn cache_size(&self) -> (r: usize)
        ensures
            r == self.cache_view().len(),
    {
        lru_len(&self.cache)
    }
}

impl Default for HashCalculator {
    /// The same calculator as `new`.
    fn default() -> (r: Self)
        ensures
            r.cache_view() == empty_cache_map(),
            r.spec_cache_enabled(),
            r.spec_timeout_secs() == DEFAULT_TIMEOUT_SECS,
    {
        Self::new()
    }
}

} // verus!
