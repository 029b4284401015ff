//! The garbage detector: temporary files, browser and application caches,
//! the recycle bin and old logs.

use vstd::prelude::*;

use crate::cleaner_models::{
    CategoryStats, GarbageAnalysisResult, GarbageCategory, GarbageFile, RiskLevel,
};
use crate::path_util::{join_path, spec_extension_of, spec_is_subpath, PathUtils, SystemPaths};
use crate::platform::{self, FsEntry};
use crate::text::{
    contains_chars, contains_chars_seq, lower_chars, spec_file_name, str_chars, to_lower_chars,
};

verus! {

/// What the detector looks for.
#[derive(Debug, Clone)]
pub struct GarbageDetectorOptions {
    pub include_system_temp: bool,
    pub include_browser_cache: bool,
    pub include_app_cache: bool,
    pub include_recycle_bin: bool,
    pub include_log_files: bool,
    pub min_file_age_days: u32,
    pub max_files_per_category: Option<usize>,
}

impl Default for GarbageDetectorOptions {
    /// Everything on, no age floor, no per-category cap.
    fn default() -> (r: Self)
        ensures
            r.include_system_temp,
            r.include_browser_cache,
            r.include_app_cache,
            r.include_recycle_bin,
            r.include_log_files,
            r.min_file_age_days == 0,
            r.max_files_per_category is None,
    {
        GarbageDetectorOptions {
            include_system_temp: true,
            include_browser_cache: true,
            include_app_cache: true,
            include_recycle_bin: true,
            include_log_files: true,
            min_file_age_days: 0,
            max_files_per_category: None,
        }
    }
}

/// Where one browser keeps its caches, cookies and history.
#[derive(Debug, Clone)]
pub struct BrowserInfo {
    pub name: String,
    pub cache_paths: Vec<String>,
    pub cookie_paths: Vec<String>,
    pub history_paths: Vec<String>,
}

impl BrowserInfo {
    /// The well-known cache, cookie and history locations of the first
    /// common browser, under the local application-data directory.
    pub fn chrome() -> (r: BrowserInfo)
        ensures
            r.name@ == "Google Chrome"@,
    {
        let mut cache_paths: Vec<String> = Vec::new();
        let mut cookie_paths: Vec<String> = Vec::new();
        let mut history_paths: Vec<String> = Vec::new();
        match platform::sys_cache_dir() {
            Some(local) => {
                let base = join_path(local.as_str(), "Google\\Chrome\\User Data");
                cache_paths.push(join_path(base.as_str(), "Default\\Cache"));
                cache_paths.push(join_path(base.as_str(), "Default\\Code Cache"));
                cache_paths.push(join_path(base.as_str(), "Default\\GPUCache"));
                cache_paths.push(join_path(base.as_str(), "Default\\Service Worker\\Cache"));
                cookie_paths.push(join_path(base.as_str(), "Default\\Cookies"));
                cookie_paths.push(join_path(base.as_str(), "Default\\Cookies-journal"));
                history_paths.push(join_path(base.as_str(), "Default\\History"));
                history_paths.push(join_path(base.as_str(), "Default\\History-journal"));
            },
            None => {},
        }
        BrowserInfo { name: "Google Chrome".to_string(), cache_paths, cookie_paths, history_paths }
    }

    /// The same locations of the second common browser.
    pub fn edge() -> (r: BrowserInfo)
        ensures
            r.name@ == "Microsoft Edge"@,
    {
        let mut cache_paths: Vec<String> = Vec::new();
        let mut cookie_paths: Vec<String> = Vec::new();
        let mut history_paths: Vec<String> = Vec::new();
        match platform::sys_cache_dir() {
            Some(local) => {
                let base = join_path(local.as_str(), "Microsoft\\Edge\\User Data");
                cache_paths.push(join_path(base.as_str(), "Default\\Cache"));
                cache_paths.push(join_path(base.as_str(), "Default\\Code Cache"));
                cache_paths.push(join_path(base.as_str(), "Default\\GPUCache"));
                cookie_paths.push(join_path(base.as_str(), "Default\\Cookies"));
                cookie_paths.push(join_path(base.as_str(), "Default\\Cookies-journal"));
                history_paths.push(join_path(base.as_str(), "Default\\History"));
            },
            None => {},
        }
        BrowserInfo { name: "Microsoft Edge".to_string(), cache_paths, cookie_paths, history_paths }
    }

    /// The per-profile locations of the third common browser, found by
    /// listing its profile directory.
    pub fn firefox() -> (r: BrowserInfo)
        ensures
            r.name@ == "Mozilla Firefox"@,
    {
        let mut cache_paths: Vec<String> = Vec::new();
        let mut cookie_paths: Vec<String> = Vec::new();
        let mut history_paths: Vec<String> = Vec::new();
        match platform::sys_cache_dir() {
            Some(local) => {
                let base = join_path(local.as_str(), "Mozilla\\Firefox\\Profiles");
                if platform::path_exists(&base) {
                    let entries = platform::read_dir_entries(&base);
                    let mut i: usize = 0;
                    while i < entries.len()
                        decreases entries@.len() - i,
                    {
                        if entries[i].is_dir {
                            cache_paths.push(join_path(entries[i].path.as_str(), "cache2"));
                            cookie_paths.push(
                                join_path(entries[i].path.as_str(), "cookies.sqlite"),
                            );
                            history_paths.push(
                                join_path(entries[i].path.as_str(), "places.sqlite"),
                            );
                        }
                        i = i + 1;
                    }
                }
            },
            None => {},
        }
        BrowserInfo {
            name: "Mozilla Firefox".to_string(),
            cache_paths,
            cookie_paths,
            history_paths,
        }
    }

    /// All three common browsers.
    pub fn all_browsers() -> (r: Vec<BrowserInfo>)
        ensures
            r@.len() == 3,
    {
        let mut browsers: Vec<BrowserInfo> = Vec::new();
        browsers.push(Self::chrome());
        browsers.push(Self::edge());
        browsers.push(Self::firefox());
        browsers
    }
}

/// The location-based risk of a detected file: protected locations are
/// critical; system extensions are critical; configuration-like names are
/// high; dot and tilde names are medium; otherwise the category decides.
pub open spec fn spec_garbage_risk(
    protected: Seq<String>,
    path: Seq<char>,
    category: GarbageCategory,
) -> RiskLevel {
    if spec_garbage_protected(protected, path) {
        RiskLevel::Critical
    } else if spec_extension_of(path) matches Some(e) && (lower_chars(e) == "sys"@ || lower_chars(
        e,
    ) == "dll"@ || lower_chars(e) == "exe"@) {
        RiskLevel::Critical
    } else if contains_chars_seq(lower_chars(spec_file_name(path)), "config"@)
        || contains_chars_seq(lower_chars(spec_file_name(path)), "settings"@)
        || contains_chars_seq(lower_chars(spec_file_name(path)), "preferences"@) {
        RiskLevel::High
    } else if spec_file_name(path).len() > 0 && (spec_file_name(path)[0] == '.' || spec_file_name(
        path,
    )[0] == '~') {
        RiskLevel::Medium
    } else {
        match category {
            GarbageCategory::SystemTemp => RiskLevel::Low,
            GarbageCategory::BrowserCache => RiskLevel::Low,
            GarbageCategory::AppCache => RiskLevel::Medium,
            GarbageCategory::RecycleBin => RiskLevel::Low,
            GarbageCategory::LogFile => RiskLevel::Low,
            GarbageCategory::Other => RiskLevel::Medium,
        }
    }
}

/// A path is protected from garbage collection when it lies under a
/// protected root or its lowered form contains a protected location.
pub open spec fn spec_garbage_protected(protected: Seq<String>, path: Seq<char>) -> bool {
    ||| exists|i: int| 0 <= i < protected.len() && spec_is_subpath(protected[i]@, path)
    ||| contains_chars_seq(lower_chars(path), "windows\\system32"@)
    ||| contains_chars_seq(lower_chars(path), "windows\\syswow64"@)
    ||| contains_chars_seq(lower_chars(path), "program files"@)
    ||| contains_chars_seq(lower_chars(path), "programdata"@)
}

/// The garbage detector.
pub struct GarbageDetector {
    pub options: GarbageDetectorOptions,
    pub protected_paths: Vec<String>,
}

impl GarbageDetector {
    /// A detector with the default options.
    pub fn new() -> (r: GarbageDetector)
        ensures
            r.options.include_system_temp,
            r.options.min_file_age_days == 0,
    {
        Self::with_options(GarbageDetectorOptions::default())
    }

    /// A detector with the given options.
    pub fn with_options(options: GarbageDetectorOptions) -> (r: GarbageDetector)
        ensures
            r.options == options,
    {
        GarbageDetector { options, protected_paths: SystemPaths::get_protected_paths() }
    }

    /// Whether the detector leaves a path alone.
    pub fn is_protected_path(&self, path: &str) -> (r: bool)
        ensures
            r == spec_garbage_protected(self.protected_paths@, path@),
    {
        let mut i: usize = 0;
        while i < self.protected_paths.len()
            invariant
                i <= self.protected_paths@.len(),
                forall|j: int|
                    0 <= j < i ==> !spec_is_subpath((#[trigger] self.protected_paths@[j])@, path@),
            decreases self.protected_paths@.len() - i,
        {
            if PathUtils::is_subpath(self.protected_paths[i].as_str(), path) {
                return true;
            }
            i = i + 1;
        }
        let chars = str_chars(path);
        let path_lower = to_lower_chars(chars.as_slice());
        let p1 = str_chars("windows\\system32");
        let p2 = str_chars("windows\\syswow64");
        let p3 = str_chars("program files");
        let p4 = str_chars("programdata");
        contains_chars(path_lower.as_slice(), p1.as_slice()) || contains_chars(
            path_lower.as_slice(),
            p2.as_slice(),
        ) || contains_chars(path_lower.as_slice(), p3.as_slice()) || contains_chars(
            path_lower.as_slice(),
            p4.as_slice(),
        )
    }

    /// Grade one path.
    pub fn assess_risk_level(&self, path: &str, category: &GarbageCategory) -> (r: RiskLevel)
        ensures
            r == spec_garbage_risk(self.protected_paths@, path@, *category),
    {
        if self.is_protected_path(path) {
            return RiskLevel::Critical;
        }
        match PathUtils::get_extension(path) {
            Some(ext) => {
                let ghost spec_ext = spec_extension_of(path@)->Some_0;
                proof {
                    assert(lower_chars(lower_chars(spec_ext)) =~= lower_chars(spec_ext));
                }
                let e = str_chars(ext.as_str());
                let sys = str_chars("sys");
                let dll = str_chars("dll");
                let exe = str_chars("exe");
                proof {
                    reveal_strlit("sys");
                    reveal_strlit("dll");
                    reveal_strlit("exe");
                    assert(lower_chars("sys"@) =~= "sys"@);
                    assert(lower_chars("dll"@) =~= "dll"@);
                    assert(lower_chars("exe"@) =~= "exe"@);
                }
                if crate::text::chars_eq(e.as_slice(), sys.as_slice()) || crate::text::chars_eq(
                    e.as_slice(),
                    dll.as_slice(),
                ) || crate::text::chars_eq(e.as_slice(), exe.as_slice()) {
                    return RiskLevel::Critical;
                }
            },
            None => {},
        }
        let chars = str_chars(path);
        let name = crate::text::file_name_of(chars.as_slice());
        let name_lower = to_lower_chars(name.as_slice());
        let config = str_chars("config");
        let settings = str_chars("settings");
        let preferences = str_chars("preferences");
        if contains_chars(name_lower.as_slice(), config.as_slice()) || contains_chars(
            name_lower.as_slice(),
            settings.as_slice(),
        ) || contains_chars(name_lower.as_slice(), preferences.as_slice()) {
            return RiskLevel::High;
        }
        if name.len() > 0 {
            let c = name[0];
            if c == '.' || c == '~' {
                return RiskLevel::Medium;
            }
        }
        match category {
            GarbageCategory::SystemTemp => RiskLevel::Low,
            GarbageCategory::BrowserCache => RiskLevel::Low,
            GarbageCategory::AppCache => RiskLevel::Medium,
            GarbageCategory::RecycleBin => RiskLevel::Low,
            GarbageCategory::LogFile => RiskLevel::Low,
            GarbageCategory::Other => RiskLevel::Medium,
        }
    }

    /// The record of one detected entry; files younger than the configured
    /// age floor, or in protected locations when graded critical, are still
    /// reported but marked unsafe.
    pub fn create_garbage_file(&self, entry: &FsEntry, category: GarbageCategory, now_secs: u64) -> (r:
        Option<GarbageFile>)
        ensures
            match r {
                Some(g) => {
                    &&& g.risk_level == spec_garbage_risk(
                        self.protected_paths@,
                        entry.path@,
                        category,
                    )
                    &&& g.safe_to_delete == (g.risk_level != RiskLevel::Critical
                        && !spec_garbage_protected(self.protected_paths@, entry.path@))
                    &&& g.size == entry.size
                    &&& g.category == category
                },
                None => self.options.min_file_age_days > 0,
            },
    {
        if self.options.min_file_age_days > 0 {
            let cutoff_days = self.options.min_file_age_days as i64;
            let age_secs: i64 = if now_secs > 0x7fff_ffff_ffff_ffff_u64 {
                i64::MAX
            } else {
                let now_i = now_secs as i64;
                if now_i >= entry.modified_time {
                    if entry.modified_time >= 0 || now_i <= i64::MAX + entry.modified_time {
                        now_i - entry.modified_time
                    } else {
                        i64::MAX
                    }
                } else {
                    0
                }
            };
            if age_secs / 86400 < cutoff_days {
                return None;
            }
        }
        let risk_level = self.assess_risk_level(entry.path.as_str(), &category);
        let not_critical = match risk_level {
            RiskLevel::Critical => false,
            _ => true,
        };
        let safe_to_delete = not_critical && !self.is_protected_path(entry.path.as_str());
        Some(
            GarbageFile {
                path: entry.path.clone(),
                size: entry.size,
                category,
                safe_to_delete,
                risk_level,
                modified_time: entry.modified_time,
                accessed_time: entry.accessed_time,
            },
        )
    }

    /// Collect the files under one directory into a category.
    fn scan_directory(&self, dir: &String, category: GarbageCategory, now_secs: u64) -> (r: Vec<
        GarbageFile,
    >)
        ensures
            forall|i: int| 0 <= i < r@.len() ==> (#[trigger] r@[i]).category == category,
    {
        let mut out: Vec<GarbageFile> = Vec::new();
        if self.is_protected_path(dir.as_str()) {
            return out;
        }
        let entries = platform::walk_entries(dir);
        let mut i: usize = 0;
        while i < entries.len()
            invariant
                forall|k: int| 0 <= k < out@.len() ==> (#[trigger] out@[k]).category == category,
            decreases entries@.len() - i,
        {
            if entries[i].is_file && !self.is_protected_path(entries[i].path.as_str()) {
                match self.create_garbage_file(&entries[i], category, now_secs) {
                    Some(g) => {
                        out.push(g);
                    },
                    None => {},
                }
            }
            i = i + 1;
        }
        out
    }

    /// The system's temporary files.
    pub fn detect_system_temp(&self) -> (r: Vec<GarbageFile>)
        ensures
            forall|i: int|
                0 <= i < r@.len() ==> (#[trigger] r@[i]).category == GarbageCategory::SystemTemp,
    {
        let now = platform::now_secs();
        let temp_paths = SystemPaths::get_temp_paths();
        let mut out: Vec<GarbageFile> = Vec::new();
        let mut p: usize = 0;
        while p < temp_paths.len()
            invariant
                forall|k: int|
                    0 <= k < out@.len() ==> (#[trigger] out@[k]).category
                        == GarbageCategory::SystemTemp,
            decreases temp_paths@.len() - p,
        {
            if platform::path_exists(&temp_paths[p]) {
                let mut found = self.scan_directory(
                    &temp_paths[p],
                    GarbageCategory::SystemTemp,
                    now,
                );
                append_garbage(&mut out, found, Ghost(GarbageCategory::SystemTemp));
            }
            p = p + 1;
        }
        self.apply_file_limit(out, Ghost(GarbageCategory::SystemTemp))
    }

    /// The browsers' cache files.
    pub fn detect_browser_cache(&self) -> (r: Vec<GarbageFile>)
        ensures
            forall|i: int|
                0 <= i < r@.len() ==> (#[trigger] r@[i]).category == GarbageCategory::BrowserCache,
    {
        let now = platform::now_secs();
        let browsers = BrowserInfo::all_browsers();
        let mut out: Vec<GarbageFile> = Vec::new();
        let mut b: usize = 0;
        while b < browsers.len()
            invariant
                forall|k: int|
                    0 <= k < out@.len() ==> (#[trigger] out@[k]).category
                        == GarbageCategory::BrowserCache,
            decreases browsers@.len() - b,
        {
            let mut c: usize = 0;
            let n = browsers[b].cache_paths.len();
            while c < n
                invariant
                    b < browsers@.len(),
                    n == browsers@[b as int].cache_paths@.len(),
                    forall|k: int|
                        0 <= k < out@.len() ==> (#[trigger] out@[k]).category
                            == GarbageCategory::BrowserCache,
                decreases n - c,
            {
                if platform::path_exists(&browsers[b].cache_paths[c]) {
                    let found = self.scan_directory(
                        &browsers[b].cache_paths[c],
                        GarbageCategory::BrowserCache,
                        now,
                    );
                    append_garbage(&mut out, found, Ghost(GarbageCategory::BrowserCache));
                }
                c = c + 1;
            }
            b = b + 1;
        }
        self.apply_file_limit(out, Ghost(GarbageCategory::BrowserCache))
    }

    /// Cache directories of installed applications, under both
    /// application-data roots.
    pub fn detect_app_cache(&self) -> (r: Vec<GarbageFile>)
        ensures
            forall|i: int|
                0 <= i < r@.len() ==> (#[trigger] r@[i]).category == GarbageCategory::AppCache,
    {
        let now = platform::now_secs();
        let mut out: Vec<GarbageFile> = Vec::new();
        let mut roots: Vec<String> = Vec::new();
        match platform::sys_cache_dir() {
            Some(local) => {
                roots.push(local);
            },
            None => {},
        }
        match platform::sys_config_dir() {
            Some(roaming) => {
                roots.push(roaming);
            },
            None => {},
        }
        let cache_names: [&str; 6] = ["cache", "caches", "temp", "tmp", "log", "logs"];
        let mut r_i: usize = 0;
        while r_i < roots.len()
            invariant
                forall|k: int|
                    0 <= k < out@.len() ==> (#[trigger] out@[k]).category
                        == GarbageCategory::AppCache,
            decreases roots@.len() - r_i,
        {
            let apps = platform::read_dir_entries(&roots[r_i]);
            let mut a: usize = 0;
            while a < apps.len()
                invariant
                    forall|k: int|
                        0 <= k < out@.len() ==> (#[trigger] out@[k]).category
                            == GarbageCategory::AppCache,
                decreases apps@.len() - a,
            {
                if apps[a].is_dir {
                    let mut n: usize = 0;
                    while n < 6
                        invariant
                            a < apps@.len(),
                            forall|k: int|
                                0 <= k < out@.len() ==> (#[trigger] out@[k]).category
                                    == GarbageCategory::AppCache,
                        decreases 6 - n,
                    {
                        let cache_dir = join_path(apps[a].path.as_str(), cache_names[n]);
                        if platform::path_exists(&cache_dir) && !self.is_protected_path(
                            cache_dir.as_str(),
                        ) {
                            let found = self.scan_directory(
                                &cache_dir,
                                GarbageCategory::AppCache,
                                now,
                            );
                            append_garbage(&mut out, found, Ghost(GarbageCategory::AppCache));
                        }
                        n = n + 1;
                    }
                }
                a = a + 1;
            }
            r_i = r_i + 1;
        }
        self.apply_file_limit(out, Ghost(GarbageCategory::AppCache))
    }

    /// The recycle bin's contents.
    pub fn detect_recycle_bin(&self) -> (r: Vec<GarbageFile>)
        ensures
            forall|i: int|
                0 <= i < r@.len() ==> (#[trigger] r@[i]).category == GarbageCategory::RecycleBin,
    {
        let now = platform::now_secs();
        let mut paths: Vec<String> = Vec::new();
        paths.push("C:\\$Recycle.Bin".to_string());
        match platform::sys_home_dir() {
            Some(home) => {
                let sid_path = join_path(home.as_str(), "$Recycle.Bin");
                if platform::path_exists(&sid_path) {
                    paths.push(sid_path);
                }
            },
            None => {},
        }
        let mut out: Vec<GarbageFile> = Vec::new();
        let mut p: usize = 0;
        while p < paths.len()
            invariant
                forall|k: int|
                    0 <= k < out@.len() ==> (#[trigger] out@[k]).category
                        == GarbageCategory::RecycleBin,
            decreases paths@.len() - p,
        {
            if platform::path_exists(&paths[p]) {
                let found = self.scan_directory(&paths[p], GarbageCategory::RecycleBin, now);
                append_garbage(&mut out, found, Ghost(GarbageCategory::RecycleBin));
            }
            p = p + 1;
        }
        self.apply_file_limit(out, Ghost(GarbageCategory::RecycleBin))
    }

    /// Log files under the application-data roots, the temporary directory
    /// and the system root.
    pub fn detect_log_files(&self) -> (r: Vec<GarbageFile>)
        ensures
            forall|i: int|
                0 <= i < r@.len() ==> (#[trigger] r@[i]).category == GarbageCategory::LogFile,
    {
        let now = platform::now_secs();
        let mut paths: Vec<String> = Vec::new();
        match platform::sys_cache_dir() {
            Some(local) => {
                paths.push(local);
            },
            None => {},
        }
        match platform::sys_config_dir() {
            Some(roaming) => {
                paths.push(roaming);
            },
            None => {},
        }
        paths.push(SystemPaths::temp_dir());
        paths.push(SystemPaths::windows_dir());
        let mut out: Vec<GarbageFile> = Vec::new();
        let mut p: usize = 0;
        while p < paths.len()
            invariant
                forall|k: int|
                    0 <= k < out@.len() ==> (#[trigger] out@[k]).category
                        == GarbageCategory::LogFile,
            decreases paths@.len() - p,
        {
            if platform::path_exists(&paths[p]) && !self.is_protected_path(paths[p].as_str()) {
                let entries = platform::walk_entries(&paths[p]);
                let mut i: usize = 0;
                while i < entries.len()
                    invariant
                        forall|k: int|
                            0 <= k < out@.len() ==> (#[trigger] out@[k]).category
                                == GarbageCategory::LogFile,
                    decreases entries@.len() - i,
                {
                    if entries[i].is_file && is_log_name(entries[i].name.as_str())
                        && !self.is_protected_path(entries[i].path.as_str()) {
                        match self.create_garbage_file(
                            &entries[i],
                            GarbageCategory::LogFile,
                            now,
                        ) {
                            Some(g) => {
                                out.push(g);
                            },
                            None => {},
                        }
                    }
                    i = i + 1;
                }
            }
            p = p + 1;
        }
        self.apply_file_limit(out, Ghost(GarbageCategory::LogFile))
    }

    /// Run every enabled detection and wrap the totals up.
    pub fn detect_all(&self) -> (r: GarbageAnalysisResult)
        ensures
            r.categories@.len() <= 5,
    {
        let start_time = platform::now_millis();
        let mut categories: Vec<(String, CategoryStats)> = Vec::new();
        let mut total_files: u64 = 0;
        let mut total_size: u64 = 0;
        let mut high_risk_count: u64 = 0;
        if self.options.include_system_temp {
            let files = self.detect_system_temp();
            let stats = build_category_stats(files);
            total_files = saturating_add(total_files, stats.file_count);
            total_size = saturating_add(total_size, stats.total_size);
            high_risk_count = saturating_add(high_risk_count, count_high_risk(&stats.files));
            categories.push(("systemTemp".to_string(), stats));
        }
        if self.options.include_browser_cache {
            let files = self.detect_browser_cache();
            let stats = build_category_stats(files);
            total_files = saturating_add(total_files, stats.file_count);
            total_size = saturating_add(total_size, stats.total_size);
            high_risk_count = saturating_add(high_risk_count, count_high_risk(&stats.files));
            categories.push(("browserCache".to_string(), stats));
        }
        if self.options.include_app_cache {
            let files = self.detect_app_cache();
            let stats = build_category_stats(files);
            total_files = saturating_add(total_files, stats.file_count);
            total_size = saturating_add(total_size, stats.total_size);
            high_risk_count = saturating_add(high_risk_count, count_high_risk(&stats.files));
            categories.push(("appCache".to_string(), stats));
        }
        if self.options.include_recycle_bin {
            let files = self.detect_recycle_bin();
            let stats = build_category_stats(files);
            total_files = saturating_add(total_files, stats.file_count);
            total_size = saturating_add(total_size, stats.total_size);
            high_risk_count = saturating_add(high_risk_count, count_high_risk(&stats.files));
            categories.push(("recycleBin".to_string(), stats));
        }
        if self.options.include_log_files {
            let files = self.detect_log_files();
            let stats = build_category_stats(files);
            total_files = saturating_add(total_files, stats.file_count);
            total_size = saturating_add(total_size, stats.total_size);
            high_risk_count = saturating_add(high_risk_count, count_high_risk(&stats.files));
            categories.push(("logFile".to_string(), stats));
        }
        let end_time = platform::now_millis();
        let duration_ms = if end_time >= start_time {
            end_time - start_time
        } else {
            0
        };
        GarbageAnalysisResult {
            scan_id: platform::new_scan_uuid(),
            total_files,
            total_size,
            categories,
            high_risk_count,
            duration_ms,
        }
    }

    /// Keep at most the configured number of files, preferring the largest.
    fn apply_file_limit(&self, files: Vec<GarbageFile>, category: Ghost<GarbageCategory>) -> (r:
        Vec<GarbageFile>)
        requires
            forall|i: int| 0 <= i < files@.len() ==> (#[trigger] files@[i]).category == category@,
        ensures
            forall|i: int| 0 <= i < r@.len() ==> (#[trigger] r@[i]).category == category@,
    {
        match self.options.max_files_per_category {
            Some(max) => {
                if files.len() > max {
                    let mut sorted = sort_garbage_by_size(files, category);
                    sorted.truncate(max);
                    proof {
                        assert(forall|i: int|
                            0 <= i < sorted@.len() ==> (#[trigger] sorted@[i]).category
                                == category@);
                    }
                    sorted
                } else {
                    files
                }
            },
            None => files,
        }
    }
}

impl Default for GarbageDetector {
    /// The same detector as `new`.
    fn default() -> (r: Self)
        ensures
            r.options.include_system_temp,
    {
        Self::new()
    }
}

/// The name looks like a log: a log or text extension, or a name carrying
/// the word.
pub fn is_log_name(name: &str) -> (r: bool)
    ensures
        r == (ends_with_lower(name@, ".log"@) || ends_with_lower(name@, ".txt"@)
            || ends_with_lower(name@, ".old"@) || contains_chars_seq(lower_chars(name@), "log"@)),
{
    let chars = str_chars(name);
    let lowered = to_lower_chars(chars.as_slice());
    let log_ext = str_chars(".log");
    let txt_ext = str_chars(".txt");
    let old_ext = str_chars(".old");
    let log_word = str_chars("log");
    crate::text::ends_with_chars(lowered.as_slice(), log_ext.as_slice()) || crate::text::ends_with_chars(
        lowered.as_slice(),
        txt_ext.as_slice(),
    ) || crate::text::ends_with_chars(lowered.as_slice(), old_ext.as_slice()) || contains_chars(
        lowered.as_slice(),
        log_word.as_slice(),
    )
}

/// The lowered name ends with the given suffix.
pub open spec fn ends_with_lower(name: Seq<char>, suffix: Seq<char>) -> bool {
    crate::text::ends_with_chars_seq(lower_chars(name), suffix)
}

/// Sum with the top of the range as a ceiling.
fn saturating_add(a: u64, b: u64) -> (r: u64)
    ensures
        r == (if a + b > u64::MAX {
            u64::MAX as int
        } else {
            a + b
        }),
{
    if a as u128 + b as u128 > 0xffff_ffff_ffff_ffff_u128 {
        0xffff_ffff_ffff_ffff_u64
    } else {
        a + b
    }
}

/// How many files are graded high or critical.
fn count_high_risk(files: &Vec<GarbageFile>) -> (r: u64)
    ensures
        r <= files@.len(),
{
    let mut count: u64 = 0;
    let mut i: usize = 0;
    while i < files.len()
        invariant
            i <= files@.len(),
            count <= i,
        decreases files@.len() - i,
    {
        if files[i].risk_level.at_least(&RiskLevel::High) {
            count = count + 1;
        }
        i = i + 1;
    }
    count
}

/// Totals of one category.
fn build_category_stats(files: Vec<GarbageFile>) -> (r: CategoryStats)
    ensures
        r.file_count == r.files@.len(),
        r.files@ == files@,
{
    let file_count = files.len() as u64;
    let mut total_size: u64 = 0;
    let mut i: usize = 0;
    while i < files.len()
        invariant
            i <= files@.len(),
        decreases files@.len() - i,
    {
        total_size = saturating_add(total_size, files[i].size);
        i = i + 1;
    }
    let category = match files.len() {
        0 => String::new(),
        _ => files[0].category.display_name().to_string(),
    };
    CategoryStats { category, file_count, total_size, files }
}

/// Move all of `found` to the end of `out`.
fn append_garbage(out: &mut Vec<GarbageFile>, found: Vec<GarbageFile>, category: Ghost<
    GarbageCategory,
>)
    requires
        forall|i: int| 0 <= i < old(out)@.len() ==> (#[trigger] old(out)@[i]).category == category@,
        forall|i: int| 0 <= i < found@.len() ==> (#[trigger] found@[i]).category == category@,
    ensures
        forall|i: int| 0 <= i < final(out)@.len() ==> (#[trigger] final(out)@[i]).category == category@,
{
    let mut rest = found;
    while rest.len() > 0
        invariant
            forall|i: int| 0 <= i < out@.len() ==> (#[trigger] out@[i]).category == category@,
            forall|i: int| 0 <= i < rest@.len() ==> (#[trigger] rest@[i]).category == category@,
        decreases rest@.len(),
    {
        let g = rest.remove(0);
        out.push(g);
    }
}

/// Sort by size, largest first, keeping every record's category.
fn sort_garbage_by_size(files: Vec<GarbageFile>, category: Ghost<GarbageCategory>) -> (r: Vec<
    GarbageFile,
>)
    requires
        forall|i: int| 0 <= i < files@.len() ==> (#[trigger] files@[i]).category == category@,
    ensures
        forall|i: int| 0 <= i < r@.len() ==> (#[trigger] r@[i]).category == category@,
        forall|i: int, j: int| 0 <= i <= j < r@.len() ==> r@[i].size >= r@[j].size,
{
    let mut rest = files;
    let mut out: Vec<GarbageFile> = Vec::new();
    while rest.len() > 0
        invariant
            forall|i: int| 0 <= i < rest@.len() ==> (#[trigger] rest@[i]).category == category@,
            forall|i: int| 0 <= i < out@.len() ==> (#[trigger] out@[i]).category == category@,
            forall|i: int, j: int| 0 <= i <= j < out@.len() ==> out@[i].size >= out@[j].size,
        decreases rest@.len(),
    {
        let f = rest.remove(0);
        let mut idx: usize = 0;
        while idx < out.len() && out[idx].size >= f.size
            invariant
                idx <= out@.len(),
                forall|j: int| 0 <= j < idx ==> (#[trigger] out@[j]).size >= f.size,
            decreases out@.len() - idx,
        {
            idx = idx + 1;
        }
        let ghost out_pre = out@;
        out.insert(idx, f);
        proof {
            assert(idx < out@.len());
            assert forall|i: int, j: int| 0 <= i <= j < out@.len() implies out@[i].size
                >= out@[j].size by {
                if j > idx && i < idx {
                    assert(out@[j] == out_pre[j - 1]);
                } else if i > idx {
                    assert(out@[i] == out_pre[i - 1] && out@[j] == out_pre[j - 1]);
                } else if i == idx && j > idx {
                    assert(out@[j] == out_pre[j - 1]);
                    if idx < out_pre.len() {
                        assert(out_pre[idx as int].size < f.size);
                    }
                }
            }
            assert forall|i: int| 0 <= i < out@.len() implies (#[trigger] out@[i]).category
                == category@ by {
                if i < idx {
                    assert(out@[i] == out_pre[i]);
                } else if i > idx {
                    assert(out@[i] == out_pre[i - 1]);
                }
            }
        }
    }
    out
}

} // verus!
