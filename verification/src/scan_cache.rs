//! Cross-run scan bookkeeping: when each application's caches were last
//! scanned, and incremental-scan decisions.

use vstd::prelude::*;

use crate::platform;
use crate::text::{chars_eq, str_chars};

verus! {

/// Seconds a recorded scan stays fresh.
pub const CACHE_VALIDITY_SECONDS: u64 = 3600;

/// What one application's last scan covered.
#[derive(Debug, Clone)]
pub struct AppScanInfo {
    pub last_scan: u64,
    pub scanned_paths: Vec<String>,
    pub file_count: u64,
    pub total_size: u64,
}

/// The per-application scan records, keyed by application name.
#[derive(Debug)]
pub struct ScanCache {
    pub last_scan_time: u64,
    pub app_caches: Vec<(String, AppScanInfo)>,
}

impl Default for ScanCache {
    /// An empty record.
    fn default() -> (r: Self)
        ensures
            r.last_scan_time == 0,
            r.app_caches@.len() == 0,
    {
        ScanCache { last_scan_time: 0, app_caches: Vec::new() }
    }
}

/// The first record held under an application name.
pub open spec fn spec_app_entry(entries: Seq<(String, AppScanInfo)>, app: Seq<char>) -> Option<
    AppScanInfo,
>
    decreases entries.len(),
{
    if entries.len() == 0 {
        None
    } else if entries[0].0@ == app {
        Some(entries[0].1)
    } else {
        spec_app_entry(entries.drop_first(), app)
    }
}

impl ScanCache {
    /// The same record as `Default`.
    pub fn new() -> (r: Self)
        ensures
            r.last_scan_time == 0,
            r.app_caches@.len() == 0,
    {
        Self::default()
    }

    /// Record what one application's scan just covered, stamped with the
    /// current time; an earlier record under the same name is replaced, and
    /// every other application's record stays exactly as it was.
    pub fn update_app_info(
        &mut self,
        app: &str,
        paths: Vec<String>,
        file_count: u64,
        total_size: u64,
    )
        ensures
            spec_app_entry(final(self).app_caches@, app@) is Some,
            spec_app_entry(final(self).app_caches@, app@)->Some_0.file_count == file_count,
            spec_app_entry(final(self).app_caches@, app@)->Some_0.total_size == total_size,
            spec_app_entry(final(self).app_caches@, app@)->Some_0.scanned_paths == paths,
            final(self).last_scan_time == spec_app_entry(
                final(self).app_caches@,
                app@,
            )->Some_0.last_scan,
            forall|other: Seq<char>|
                other != app@ ==> #[trigger] spec_app_entry(final(self).app_caches@, other)
                    == spec_app_entry(old(self).app_caches@, other),
    {
        let now = platform::now_secs();
        let info = AppScanInfo { last_scan: now, scanned_paths: paths, file_count, total_size };
        let mut i: usize = 0;
        let n = self.app_caches.len();
        while i < n
            invariant
                n == self.app_caches@.len(),
                self.app_caches@ == old(self).app_caches@,
                info.file_count == file_count,
                info.total_size == total_size,
                info.scanned_paths == paths,
                info.last_scan == now,
                forall|j: int| 0 <= j < i ==> (#[trigger] self.app_caches@[j]).0@ != app@,
            decreases n - i,
        {
            let matches = {
                let cand = str_chars(self.app_caches[i].0.as_str());
                let target = str_chars(app);
                chars_eq(cand.as_slice(), target.as_slice())
            };
            if matches {
                let key = self.app_caches[i].0.clone();
                let slot = crate::seq_util::vec_index_mut(&mut self.app_caches, i);
                *slot = (key, info);
                self.last_scan_time = now;
                proof {
                    assert(self.app_caches@[i as int].0@ == app@);
                    assert(self.app_caches@[i as int].1 == info);
                    assert(forall|j: int|
                        0 <= j < i ==> (#[trigger] self.app_caches@[j]).0@ != app@);
                    lemma_app_entry_at(self.app_caches@, app@, i as int);
                    assert(spec_app_entry(self.app_caches@, app@) == Some(info));
                    assert(self.app_caches@ =~= old(self).app_caches@.update(
                        i as int,
                        self.app_caches@[i as int],
                    ));
                    assert forall|other: Seq<char>| other != app@ implies #[trigger] spec_app_entry(
                        self.app_caches@,
                        other,
                    ) == spec_app_entry(old(self).app_caches@, other) by {
                        lemma_app_entry_update_other(
                            old(self).app_caches@,
                            i as int,
                            self.app_caches@[i as int],
                            other,
                        );
                    }
                }
                return ;
            }
            i = i + 1;
        }
        self.app_caches.push((app.to_owned(), info));
        self.last_scan_time = now;
        proof {
            lemma_app_entry_at(self.app_caches@, app@, self.app_caches@.len() - 1);
            assert forall|other: Seq<char>| other != app@ implies #[trigger] spec_app_entry(
                self.app_caches@,
                other,
            ) == spec_app_entry(old(self).app_caches@, other) by {
                lemma_app_entry_push_other(
                    old(self).app_caches@,
                    self.app_caches@.last(),
                    other,
                );
                assert(self.app_caches@ =~= old(self).app_caches@.push(self.app_caches@.last()));
            }
        }
    }

    /// When the application was last scanned, when it ever was.
    pub fn get_app_last_scan(&self, app: &str) -> (r: Option<u64>)
        ensures
            match r {
                Some(t) => spec_app_entry(self.app_caches@, app@) matches Some(info)
                    && info.last_scan == t,
                None => spec_app_entry(self.app_caches@, app@) is None,
            },
    {
        let mut i: usize = 0;
        while i < self.app_caches.len()
            invariant
                i <= self.app_caches@.len(),
                forall|j: int| 0 <= j < i ==> (#[trigger] self.app_caches@[j]).0@ != app@,
            decreases self.app_caches@.len() - i,
        {
            let matches = {
                let cand = str_chars(self.app_caches[i].0.as_str());
                let target = str_chars(app);
                chars_eq(cand.as_slice(), target.as_slice())
            };
            if matches {
                proof {
                    lemma_app_entry_at(self.app_caches@, app@, i as int);
                }
                return Some(self.app_caches[i].1.last_scan);
            }
            i = i + 1;
        }
        proof {
            lemma_app_entry_none(self.app_caches@, app@);
        }
        None
    }

    /// Whether the application needs a new scan: always when forced or
    /// never scanned, otherwise once the last record went stale by the wall
    /// clock — an outcome the clock decides, so only the first two cases are
    /// promised.
    pub fn should_rescan(&self, app: &str, force: bool) -> (r: bool)
        ensures
            force ==> r,
            spec_app_entry(self.app_caches@, app@) is None ==> r,
    {
        let last = self.get_app_last_scan(app);
        let now = platform::now_secs();
        rescan_decision(force, last, now)
    }
}

/// Whether a scan is due, given the observed clock value: forced, never
/// recorded, or recorded longer ago than the validity window. A clock that
/// reads earlier than the record counts as fresh.
pub open spec fn spec_rescan_decision(force: bool, last: Option<u64>, now: u64) -> bool {
    ||| force
    ||| last is None
    ||| (last matches Some(l) && now >= l && now - l > CACHE_VALIDITY_SECONDS)
}

/// The staleness decision over plain values: every outcome is fixed by
/// `spec_rescan_decision`.
pub fn rescan_decision(force: bool, last: Option<u64>, now: u64) -> (r: bool)
    ensures
        r == spec_rescan_decision(force, last, now),
{
    if force {
        return true;
    }
    match last {
        Some(l) => now >= l && now - l > CACHE_VALIDITY_SECONDS,
        None => true,
    }
}

/// Replacing the record at `i` without changing its name leaves every
/// other name's lookup alone.
proof fn lemma_app_entry_update_other(
    entries: Seq<(String, AppScanInfo)>,
    i: int,
    e: (String, AppScanInfo),
    other: Seq<char>,
)
    requires
        0 <= i < entries.len(),
        e.0@ == entries[i].0@,
        other != entries[i].0@,
    ensures
        spec_app_entry(entries.update(i, e), other) == spec_app_entry(entries, other),
    decreases entries.len(),
{
    if i == 0 {
        assert(entries.update(0, e).drop_first() =~= entries.drop_first());
    } else {
        assert(entries.update(i, e)[0] == entries[0]);
        if entries[0].0@ != other {
            assert(entries.update(i, e).drop_first() =~= entries.drop_first().update(i - 1, e));
            lemma_app_entry_update_other(entries.drop_first(), i - 1, e, other);
        }
    }
}

/// Appending a record of another name leaves a name's lookup alone.
proof fn lemma_app_entry_push_other(
    entries: Seq<(String, AppScanInfo)>,
    e: (String, AppScanInfo),
    other: Seq<char>,
)
    requires
        e.0@ != other,
    ensures
        spec_app_entry(entries.push(e), other) == spec_app_entry(entries, other),
    decreases entries.len(),
{
    let t = entries.push(e);
    if entries.len() == 0 {
        assert(t[0] == e);
        assert(t[0].0@ != other);
        assert(t.drop_first() =~= Seq::<(String, AppScanInfo)>::empty());
        assert(spec_app_entry(t, other) == spec_app_entry(t.drop_first(), other));
        assert(spec_app_entry(t.drop_first(), other) == None::<AppScanInfo>);
    } else {
        assert(t[0] == entries[0]);
        if entries[0].0@ == other {
            assert(spec_app_entry(t, other) == Some(entries[0].1));
            assert(spec_app_entry(entries, other) == Some(entries[0].1));
        } else {
            assert(t.drop_first() =~= entries.drop_first().push(e));
            lemma_app_entry_push_other(entries.drop_first(), e, other);
            assert(spec_app_entry(t, other) == spec_app_entry(t.drop_first(), other));
            assert(spec_app_entry(entries, other) == spec_app_entry(
                entries.drop_first(),
                other,
            ));
        }
    }
}

/// When position `i` holds the first record under `app`, the lookup finds it.
proof fn lemma_app_entry_at(entries: Seq<(String, AppScanInfo)>, app: Seq<char>, i: int)
    requires
        0 <= i < entries.len(),
        entries[i].0@ == app,
        forall|j: int| 0 <= j < i ==> (#[trigger] entries[j]).0@ != app,
    ensures
        spec_app_entry(entries, app) == Some(entries[i].1),
    decreases entries.len(),
{
    if i > 0 {
        assert(forall|j: int|
            0 <= j < entries.drop_first().len() ==> #[trigger] entries.drop_first()[j] == entries[
            j + 1]);
        lemma_app_entry_at(entries.drop_first(), app, i - 1);
    }
}

/// When no record holds the name, the lookup finds nothing.
proof fn lemma_app_entry_none(entries: Seq<(String, AppScanInfo)>, app: Seq<char>)
    requires
        forall|j: int| 0 <= j < entries.len() ==> (#[trigger] entries[j]).0@ != app,
    ensures
        spec_app_entry(entries, app) is None,
    decreases entries.len(),
{
    if entries.len() > 0 {
        assert(forall|j: int|
            0 <= j < entries.drop_first().len() ==> #[trigger] entries.drop_first()[j] == entries[
            j + 1]);
        lemma_app_entry_none(entries.drop_first(), app);
    }
}

/// The running numbers of one incremental scan.
#[derive(Debug, Clone)]
pub struct IncrementalScanState {
    pub last_scan_timestamp: u64,
    pub scanned_files: u64,
    pub modified_files: u64,
}

impl IncrementalScanState {
    /// A fresh state remembering when the previous scan ran.
    pub fn new(last_scan: u64) -> (r: IncrementalScanState)
        ensures
            r.last_scan_timestamp == last_scan,
            r.scanned_files == 0,
            r.modified_files == 0,
    {
        IncrementalScanState { last_scan_timestamp: last_scan, scanned_files: 0, modified_files: 0 }
    }

    /// Whether a file needs scanning again: it exists and was modified at
    /// or after the previous scan (a file whose time cannot be read is
    /// scanned).
    pub fn should_scan_file(&self, path: &String) -> bool {
        match platform::lookup_entry(path) {
            Some(entry) => {
                if entry.modified_time <= 0 {
                    true
                } else {
                    entry.modified_time as u64 >= self.last_scan_timestamp
                }
            },
            None => false,
        }
    }

    /// Count one visited file.
    pub fn record_file(&mut self, is_modified: bool)
        ensures
            final(self).scanned_files == (if old(self).scanned_files < u64::MAX {
                old(self).scanned_files + 1
            } else {
                old(self).scanned_files as int
            }),
            is_modified ==> final(self).modified_files == (if old(self).modified_files < u64::MAX {
                old(self).modified_files + 1
            } else {
                old(self).modified_files as int
            }),
            !is_modified ==> final(self).modified_files == old(self).modified_files,
            final(self).last_scan_timestamp == old(self).last_scan_timestamp,
    {
        if self.scanned_files < 0xffff_ffff_ffff_ffff_u64 {
            self.scanned_files = self.scanned_files + 1;
        }
        if is_modified {
            if self.modified_files < 0xffff_ffff_ffff_ffff_u64 {
                self.modified_files = self.modified_files + 1;
            }
        }
    }
}

/// The directory this crate keeps its own cache files under.
pub fn get_cache_dir() -> Option<String> {
    match platform::sys_cache_dir() {
        Some(base) => Some(crate::path_util::join_path(base.as_str(), "DiskTidy")),
        None => None,
    }
}

/// The wall clock in whole seconds.
pub fn get_current_timestamp() -> u64 {
    platform::now_secs()
}

} // verus!
