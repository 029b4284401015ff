//! The junk-file detector: empty folders, dangling shortcuts, old logs and
//! installers, broken downloads and scattered small files.

use vstd::prelude::*;

use crate::path_util::{join_path, spec_extension_of, spec_is_subpath, PathUtils, SystemPaths};
use crate::platform::{self, FsEntry};
use crate::safety::SafetyChecker;
use crate::text::{
    contains_chars, contains_chars_seq, ends_with_chars, ends_with_chars_seq, lower_chars,
    starts_with_chars, starts_with_chars_seq, str_chars, to_lower_chars,
};

verus! {

/// The kinds of junk the detector looks for.
#[derive(Debug, Clone, Copy, PartialEq, Eq, Structural)]
pub enum JunkFileType {
    EmptyFolders,
    InvalidShortcuts,
    OldLogs,
    OldInstallers,
    InvalidDownloads,
    SmallFiles,
    OrphanedFiles,
}

impl JunkFileType {
    pub fn display_name(&self) -> (r: &'static str) {
        match self {
            Self::EmptyFolders => "empty folders",
            Self::InvalidShortcuts => "dangling shortcuts",
            Self::OldLogs => "outdated log files",
            Self::OldInstallers => "outdated installers",
            Self::InvalidDownloads => "broken downloads",
            Self::SmallFiles => "scattered small files",
            Self::OrphanedFiles => "orphaned files",
        }
    }

    pub fn description(&self) -> (r: &'static str) {
        match self {
            Self::EmptyFolders => "directories that hold no files at all",
            Self::InvalidShortcuts => "shortcuts whose target no longer exists",
            Self::OldLogs => "log files untouched for longer than the configured age",
            Self::OldInstallers => "installer packages older than the configured age",
            Self::InvalidDownloads => "incomplete or broken files in the download directory",
            Self::SmallFiles => "files below the configured size",
            Self::OrphanedFiles => "files that belong to no known program",
        }
    }

    pub fn icon(&self) -> (r: &'static str) {
        match self {
            Self::EmptyFolders => "folder-x",
            Self::InvalidShortcuts => "link-broken",
            Self::OldLogs => "file-text",
            Self::OldInstallers => "package",
            Self::InvalidDownloads => "download",
            Self::SmallFiles => "file",
            Self::OrphanedFiles => "file-question",
        }
    }
}

/// One detected junk file.
#[derive(Debug, Clone)]
pub struct JunkFile {
    pub id: String,
    pub path: String,
    pub size: u64,
    pub file_type: JunkFileType,
    pub description: String,
    pub modified_time: i64,
    pub created_time: i64,
    pub safe_to_delete: bool,
    pub risk_level: String,
}

/// All findings of one kind.
#[derive(Debug, Clone)]
pub struct JunkScanResult {
    pub file_type: JunkFileType,
    pub items: Vec<JunkFile>,
    pub total_size: u64,
    pub count: u64,
}

/// What the detector scans and what it looks for.
#[derive(Debug, Clone)]
pub struct JunkScanOptions {
    pub scan_paths: Vec<String>,
    pub include_empty_folders: bool,
    pub include_invalid_shortcuts: bool,
    pub include_old_logs: bool,
    pub include_old_installers: bool,
    pub include_invalid_downloads: bool,
    pub include_small_files: bool,
    pub small_file_max_size: u64,
    pub log_max_age_days: u32,
    pub installer_max_age_days: u32,
    pub exclude_paths: Vec<String>,
    pub include_hidden: bool,
    pub include_system: bool,
}

impl Default for JunkScanOptions {
    /// Scan the home directory; everything but small files on; logs age out
    /// after thirty days, installers after ninety; small files below 100 KiB.
    fn default() -> (r: Self)
        ensures
            r.include_empty_folders,
            r.include_invalid_shortcuts,
            r.include_old_logs,
            r.include_old_installers,
            r.include_invalid_downloads,
            !r.include_small_files,
            r.small_file_max_size == 102400,
            r.log_max_age_days == 30,
            r.installer_max_age_days == 90,
            !r.include_hidden,
            !r.include_system,
    {
        let mut scan_paths: Vec<String> = Vec::new();
        match platform::sys_home_dir() {
            Some(home) => {
                scan_paths.push(home);
            },
            None => {},
        }
        JunkScanOptions {
            scan_paths,
            include_empty_folders: true,
            include_invalid_shortcuts: true,
            include_old_logs: true,
            include_old_installers: true,
            include_invalid_downloads: true,
            include_small_files: false,
            small_file_max_size: 100 * 1024,
            log_max_age_days: 30,
            installer_max_age_days: 90,
            exclude_paths: Vec::new(),
            include_hidden: false,
            include_system: false,
        }
    }
}

/// The name looks like a log file: a log, text or outdated extension, or a
/// name carrying the word.
pub open spec fn spec_is_log_file(path: Seq<char>) -> bool {
    ||| spec_extension_of(path) matches Some(e) && (lower_chars(e) == "log"@ || lower_chars(e)
        == "txt"@ || lower_chars(e) == "old"@)
    ||| contains_chars_seq(lower_chars(crate::text::spec_file_name(path)), "log"@)
}

/// The name looks like an installer: an installer extension and a name
/// hinting at setup, install or a carried version.
pub open spec fn spec_is_installer_file(path: Seq<char>) -> bool {
    &&& (spec_extension_of(path) matches Some(e) && (lower_chars(e) == "exe"@ || lower_chars(e)
        == "msi"@ || lower_chars(e) == "dmg"@ || lower_chars(e) == "pkg"@ || lower_chars(e)
        == "deb"@ || lower_chars(e) == "rpm"@))
    &&& {
        let name = lower_chars(crate::text::spec_file_name(path));
        ||| contains_chars_seq(name, "setup"@)
        ||| contains_chars_seq(name, "install"@)
        ||| contains_chars_seq(name, "installer"@)
        ||| contains_chars_seq(name, "uninstall"@)
        ||| contains_chars_seq(name, "v"@)
        ||| contains_chars_seq(name, "_"@)
    }
}

/// The name looks like a broken or unfinished download.
pub open spec fn spec_is_invalid_download(name: Seq<char>) -> bool {
    let lowered = lower_chars(name);
    ||| ends_with_chars_seq(lowered, ".part"@)
    ||| ends_with_chars_seq(lowered, ".crdownload"@)
    ||| ends_with_chars_seq(lowered, ".download"@)
    ||| ends_with_chars_seq(lowered, ".tmp"@)
    ||| ends_with_chars_seq(lowered, ".temp"@)
    ||| starts_with_chars_seq(lowered, "unconfirmed"@)
    ||| starts_with_chars_seq(lowered, ".com.google.chrome"@)
}

/// Whether a path looks like a log file.
pub fn is_log_file(path: &str) -> (r: bool)
    ensures
        r == spec_is_log_file(path@),
{
    let chars = str_chars(path);
    let name = crate::text::file_name_of(chars.as_slice());
    let name_lower = to_lower_chars(name.as_slice());
    let log_word = str_chars("log");
    match PathUtils::get_extension(path) {
        Some(ext) => {
            let e = str_chars(ext.as_str());
            let ghost spec_ext = spec_extension_of(path@)->Some_0;
            proof {
                assert(lower_chars(lower_chars(spec_ext)) =~= lower_chars(spec_ext));
                reveal_strlit("log");
                reveal_strlit("txt");
                reveal_strlit("old");
                assert(lower_chars("log"@) =~= "log"@);
                assert(lower_chars("txt"@) =~= "txt"@);
                assert(lower_chars("old"@) =~= "old"@);
            }
            let log_ext = str_chars("log");
            let txt_ext = str_chars("txt");
            let old_ext = str_chars("old");
            if crate::text::chars_eq(e.as_slice(), log_ext.as_slice()) || crate::text::chars_eq(
                e.as_slice(),
                txt_ext.as_slice(),
            ) || crate::text::chars_eq(e.as_slice(), old_ext.as_slice()) {
                return true;
            }
            contains_chars(name_lower.as_slice(), log_word.as_slice())
        },
        None => contains_chars(name_lower.as_slice(), log_word.as_slice()),
    }
}

/// Whether a path looks like an installer.
pub fn is_installer_file(path: &str) -> (r: bool)
    ensures
        r == spec_is_installer_file(path@),
{
    match PathUtils::get_extension(path) {
        Some(ext) => {
            let e = str_chars(ext.as_str());
            let ghost spec_ext = spec_extension_of(path@)->Some_0;
            proof {
                assert(lower_chars(lower_chars(spec_ext)) =~= lower_chars(spec_ext));
                reveal_strlit("exe");
                reveal_strlit("msi");
                reveal_strlit("dmg");
                reveal_strlit("pkg");
                reveal_strlit("deb");
                reveal_strlit("rpm");
                assert(lower_chars("exe"@) =~= "exe"@);
                assert(lower_chars("msi"@) =~= "msi"@);
                assert(lower_chars("dmg"@) =~= "dmg"@);
                assert(lower_chars("pkg"@) =~= "pkg"@);
                assert(lower_chars("deb"@) =~= "deb"@);
                assert(lower_chars("rpm"@) =~= "rpm"@);
            }
            let exe = str_chars("exe");
            let msi = str_chars("msi");
            let dmg = str_chars("dmg");
            let pkg = str_chars("pkg");
            let deb = str_chars("deb");
            let rpm = str_chars("rpm");
            let ext_ok = crate::text::chars_eq(e.as_slice(), exe.as_slice())
                || crate::text::chars_eq(e.as_slice(), msi.as_slice()) || crate::text::chars_eq(
                e.as_slice(),
                dmg.as_slice(),
            ) || crate::text::chars_eq(e.as_slice(), pkg.as_slice()) || crate::text::chars_eq(
                e.as_slice(),
                deb.as_slice(),
            ) || crate::text::chars_eq(e.as_slice(), rpm.as_slice());
            if !ext_ok {
                return false;
            }
            let chars = str_chars(path);
            let name = crate::text::file_name_of(chars.as_slice());
            let name_lower = to_lower_chars(name.as_slice());
            let setup = str_chars("setup");
            let install = str_chars("install");
            let installer = str_chars("installer");
            let uninstall = str_chars("uninstall");
            let v_word = str_chars("v");
            let underscore = str_chars("_");
            contains_chars(name_lower.as_slice(), setup.as_slice()) || contains_chars(
                name_lower.as_slice(),
                install.as_slice(),
            ) || contains_chars(name_lower.as_slice(), installer.as_slice()) || contains_chars(
                name_lower.as_slice(),
                uninstall.as_slice(),
            ) || contains_chars(name_lower.as_slice(), v_word.as_slice()) || contains_chars(
                name_lower.as_slice(),
                underscore.as_slice(),
            )
        },
        None => false,
    }
}

/// Whether a file name looks like a broken download.
pub fn is_invalid_download(name: &str) -> (r: bool)
    ensures
        r == spec_is_invalid_download(name@),
{
    let chars = str_chars(name);
    let lowered = to_lower_chars(chars.as_slice());
    let part = str_chars(".part");
    let crdownload = str_chars(".crdownload");
    let download = str_chars(".download");
    let tmp = str_chars(".tmp");
    let temp = str_chars(".temp");
    let unconfirmed = str_chars("unconfirmed");
    let chrome_tmp = str_chars(".com.google.chrome");
    ends_with_chars(lowered.as_slice(), part.as_slice()) || ends_with_chars(
        lowered.as_slice(),
        crdownload.as_slice(),
    ) || ends_with_chars(lowered.as_slice(), download.as_slice()) || ends_with_chars(
        lowered.as_slice(),
        tmp.as_slice(),
    ) || ends_with_chars(lowered.as_slice(), temp.as_slice()) || starts_with_chars(
        lowered.as_slice(),
        unconfirmed.as_slice(),
    ) || starts_with_chars(lowered.as_slice(), chrome_tmp.as_slice())
}

/// The junk-file detector.
pub struct JunkFileDetector {
    pub options: JunkScanOptions,
    pub safety_checker: SafetyChecker,
    pub protected_paths: Vec<String>,
}

impl JunkFileDetector {
    /// A detector with the default options.
    pub fn new() -> (r: JunkFileDetector)
        ensures
            r.options.include_empty_folders,
            r.options.log_max_age_days == 30,
    {
        Self::with_options(JunkScanOptions::default())
    }

    /// A detector with the given options.
    pub fn with_options(options: JunkScanOptions) -> (r: JunkFileDetector)
        ensures
            r.options == options,
    {
        JunkFileDetector {
            protected_paths: SystemPaths::get_protected_paths(),
            safety_checker: SafetyChecker::new(),
            options,
        }
    }

    /// The skip decision on one entry: excluded prefix, protected root, or
    /// hidden while hidden files are out.
    pub fn should_skip(&self, entry: &FsEntry) -> (r: bool)
        ensures
            r == ({
                ||| exists|i: int|
                    0 <= i < self.options.exclude_paths@.len() && starts_with_chars_seq(
                        lower_chars(entry.path@),
                        lower_chars((#[trigger] self.options.exclude_paths@[i])@),
                    )
                ||| exists|i: int|
                    0 <= i < self.protected_paths@.len() && spec_is_subpath(
                        (#[trigger] self.protected_paths@[i])@,
                        entry.path@,
                    )
                ||| (!self.options.include_hidden && entry.name@.len() > 0 && entry.name@[0] == '.')
            }),
    {
        let chars = str_chars(entry.path.as_str());
        let path_lower = to_lower_chars(chars.as_slice());
        let mut i: usize = 0;
        while i < self.options.exclude_paths.len()
            invariant
                i <= self.options.exclude_paths@.len(),
                path_lower@ == lower_chars(entry.path@),
                forall|j: int|
                    0 <= j < i ==> !starts_with_chars_seq(
                        lower_chars(entry.path@),
                        lower_chars((#[trigger] self.options.exclude_paths@[j])@),
                    ),
            decreases self.options.exclude_paths@.len() - i,
        {
            let e_chars = str_chars(self.options.exclude_paths[i].as_str());
            let e_lower = to_lower_chars(e_chars.as_slice());
            if starts_with_chars(path_lower.as_slice(), e_lower.as_slice()) {
                return true;
            }
            i = i + 1;
        }
        let mut i: usize = 0;
        while i < self.protected_paths.len()
            invariant
                i <= self.protected_paths@.len(),
                forall|j: int|
                    0 <= j < i ==> !spec_is_subpath(
                        (#[trigger] self.protected_paths@[j])@,
                        entry.path@,
                    ),
            decreases self.protected_paths@.len() - i,
        {
            if PathUtils::is_subpath(self.protected_paths[i].as_str(), entry.path.as_str()) {
                return true;
            }
            i = i + 1;
        }
        if !self.options.include_hidden {
            let name = str_chars(entry.name.as_str());
            if name.len() > 0 && name[0] == '.' {
                return true;
            }
        }
        false
    }

    /// The record of one finding, graded by the safety checker.
    fn create_junk_file(
        &self,
        entry: &FsEntry,
        size: u64,
        file_type: JunkFileType,
        description: &str,
    ) -> (r: JunkFile)
        ensures
            r.size == size,
            r.file_type == file_type,
            r.path == entry.path,
    {
        let safety = self.safety_checker.check(entry.path.as_str());
        JunkFile {
            id: platform::new_scan_uuid(),
            path: entry.path.clone(),
            size,
            file_type,
            description: description.to_owned(),
            modified_time: entry.modified_time,
            created_time: entry.created_time,
            safe_to_delete: safety.safe_to_delete,
            risk_level: safety.risk_level.display_name().to_string(),
        }
    }

    /// The scan roots that exist, or the home directory when none does.
    fn get_scan_paths(&self) -> Vec<String> {
        let mut paths: Vec<String> = Vec::new();
        let mut i: usize = 0;
        while i < self.options.scan_paths.len()
            decreases self.options.scan_paths@.len() - i,
        {
            if platform::path_exists(&self.options.scan_paths[i]) {
                paths.push(self.options.scan_paths[i].clone());
            }
            i = i + 1;
        }
        if paths.len() == 0 {
            match platform::sys_home_dir() {
                Some(home) => {
                    paths.push(home);
                },
                None => {},
            }
        }
        paths
    }

    /// Directories that hold nothing.
    pub fn detect_empty_folders(&self) -> (r: Option<JunkScanResult>)
        ensures
            r matches Some(res) ==> res.file_type == JunkFileType::EmptyFolders && res.count
                == res.items@.len() && res.items@.len() > 0,
    {
        let scan_paths = self.get_scan_paths();
        let mut items: Vec<JunkFile> = Vec::new();
        let mut p: usize = 0;
        while p < scan_paths.len()
            invariant
                forall|k: int|
                    0 <= k < items@.len() ==> (#[trigger] items@[k]).file_type
                        == JunkFileType::EmptyFolders,
            decreases scan_paths@.len() - p,
        {
            let entries = platform::walk_entries(&scan_paths[p]);
            let mut i: usize = 0;
            while i < entries.len()
                invariant
                    forall|k: int|
                        0 <= k < items@.len() ==> (#[trigger] items@[k]).file_type
                            == JunkFileType::EmptyFolders,
                decreases entries@.len() - i,
            {
                if entries[i].is_dir && !self.should_skip(&entries[i]) {
                    let children = platform::read_dir_entries(&entries[i].path);
                    if children.len() == 0 {
                        let jf = self.create_junk_file(
                            &entries[i],
                            0,
                            JunkFileType::EmptyFolders,
                            "a directory that holds no files",
                        );
                        items.push(jf);
                    }
                }
                i = i + 1;
            }
            p = p + 1;
        }
        wrap_result(items, JunkFileType::EmptyFolders)
    }

    /// Shortcut files whose target is gone. Resolving a shortcut's target
    /// needs the platform's shell; without it, a shortcut is never reported
    /// as dangling.
    pub fn detect_invalid_shortcuts(&self) -> (r: Option<JunkScanResult>)
        ensures
            r is None,
    {
        None
    }

    /// Log files older than the configured age.
    pub fn detect_old_logs(&self) -> (r: Option<JunkScanResult>)
        ensures
            r matches Some(res) ==> res.file_type == JunkFileType::OldLogs && res.count
                == res.items@.len() && res.items@.len() > 0,
    {
        let now = platform::now_secs();
        let age_secs = (self.options.log_max_age_days as u64) * 86400;
        let cutoff: i64 = if now > 0x7fff_ffff_ffff_ffff_u64 {
            i64::MAX
        } else if (now as i64) >= 0 && age_secs <= 0x7fff_ffff_ffff_ffff_u64 && (now as i64)
            >= (age_secs as i64) {
            (now as i64) - (age_secs as i64)
        } else {
            0
        };
        let scan_paths = self.get_scan_paths();
        let mut items: Vec<JunkFile> = Vec::new();
        let mut p: usize = 0;
        while p < scan_paths.len()
            invariant
                forall|k: int|
                    0 <= k < items@.len() ==> (#[trigger] items@[k]).file_type
                        == JunkFileType::OldLogs,
            decreases scan_paths@.len() - p,
        {
            let entries = platform::walk_entries(&scan_paths[p]);
            let mut i: usize = 0;
            while i < entries.len()
                invariant
                    forall|k: int|
                        0 <= k < items@.len() ==> (#[trigger] items@[k]).file_type
                            == JunkFileType::OldLogs,
                decreases entries@.len() - i,
            {
                if entries[i].is_file && !self.should_skip(&entries[i]) && is_log_file(
                    entries[i].path.as_str(),
                ) && entries[i].modified_time < cutoff {
                    let size = entries[i].size;
                    let jf = self.create_junk_file(
                        &entries[i],
                        size,
                        JunkFileType::OldLogs,
                        "a log file untouched for longer than the configured age",
                    );
                    items.push(jf);
                }
                i = i + 1;
            }
            p = p + 1;
        }
        wrap_result(items, JunkFileType::OldLogs)
    }

    /// Installer packages older than the configured age.
    pub fn detect_old_installers(&self) -> (r: Option<JunkScanResult>)
        ensures
            r matches Some(res) ==> res.file_type == JunkFileType::OldInstallers && res.count
                == res.items@.len() && res.items@.len() > 0,
    {
        let now = platform::now_secs();
        let age_secs = (self.options.installer_max_age_days as u64) * 86400;
        let cutoff: i64 = if now > 0x7fff_ffff_ffff_ffff_u64 {
            i64::MAX
        } else if (now as i64) >= 0 && (now as i64) >= (age_secs as i64) {
            (now as i64) - (age_secs as i64)
        } else {
            0
        };
        let scan_paths = self.get_scan_paths();
        let mut items: Vec<JunkFile> = Vec::new();
        let mut p: usize = 0;
        while p < scan_paths.len()
            invariant
                forall|k: int|
                    0 <= k < items@.len() ==> (#[trigger] items@[k]).file_type
                        == JunkFileType::OldInstallers,
            decreases scan_paths@.len() - p,
        {
            let entries = platform::walk_entries(&scan_paths[p]);
            let mut i: usize = 0;
            while i < entries.len()
                invariant
                    forall|k: int|
                        0 <= k < items@.len() ==> (#[trigger] items@[k]).file_type
                            == JunkFileType::OldInstallers,
                decreases entries@.len() - i,
            {
                if entries[i].is_file && !self.should_skip(&entries[i]) && is_installer_file(
                    entries[i].path.as_str(),
                ) && entries[i].modified_time < cutoff {
                    let size = entries[i].size;
                    let jf = self.create_junk_file(
                        &entries[i],
                        size,
                        JunkFileType::OldInstallers,
                        "an installer package older than the configured age",
                    );
                    items.push(jf);
                }
                i = i + 1;
            }
            p = p + 1;
        }
        wrap_result(items, JunkFileType::OldInstallers)
    }

    /// Broken or unfinished files in the download directory.
    pub fn detect_invalid_downloads(&self) -> (r: Option<JunkScanResult>)
        ensures
            r matches Some(res) ==> res.file_type == JunkFileType::InvalidDownloads && res.count
                == res.items@.len() && res.items@.len() > 0,
    {
        let mut items: Vec<JunkFile> = Vec::new();
        match platform::sys_home_dir() {
            Some(home) => {
                let downloads = join_path(home.as_str(), "Downloads");
                if platform::path_exists(&downloads) {
                    let entries = platform::walk_entries(&downloads);
                    let mut i: usize = 0;
                    while i < entries.len()
                        invariant
                            forall|k: int|
                                0 <= k < items@.len() ==> (#[trigger] items@[k]).file_type
                                    == JunkFileType::InvalidDownloads,
                        decreases entries@.len() - i,
                    {
                        if entries[i].is_file && !self.should_skip(&entries[i])
                            && is_invalid_download(entries[i].name.as_str()) {
                            let size = entries[i].size;
                            let jf = self.create_junk_file(
                                &entries[i],
                                size,
                                JunkFileType::InvalidDownloads,
                                "an incomplete or broken download",
                            );
                            items.push(jf);
                        }
                        i = i + 1;
                    }
                }
            },
            None => {},
        }
        wrap_result(items, JunkFileType::InvalidDownloads)
    }

    /// Non-empty files at or below the configured size.
    pub fn detect_small_files(&self) -> (r: Option<JunkScanResult>)
        ensures
            r matches Some(res) ==> res.file_type == JunkFileType::SmallFiles && res.count
                == res.items@.len() && res.items@.len() > 0 && (forall|i: int|
                0 <= i < res.items@.len() ==> 0 < (#[trigger] res.items@[i]).size
                    <= self.options.small_file_max_size),
    {
        let scan_paths = self.get_scan_paths();
        let mut items: Vec<JunkFile> = Vec::new();
        let mut p: usize = 0;
        while p < scan_paths.len()
            invariant
                forall|k: int|
                    0 <= k < items@.len() ==> (#[trigger] items@[k]).file_type
                        == JunkFileType::SmallFiles && 0 < items@[k].size
                        <= self.options.small_file_max_size,
            decreases scan_paths@.len() - p,
        {
            let entries = platform::walk_entries(&scan_paths[p]);
            let mut i: usize = 0;
            while i < entries.len()
                invariant
                    forall|k: int|
                        0 <= k < items@.len() ==> (#[trigger] items@[k]).file_type
                            == JunkFileType::SmallFiles && 0 < items@[k].size
                            <= self.options.small_file_max_size,
                decreases entries@.len() - i,
            {
                if entries[i].is_file && !self.should_skip(&entries[i]) && entries[i].size > 0
                    && entries[i].size <= self.options.small_file_max_size {
                    let size = entries[i].size;
                    let jf = self.create_junk_file(
                        &entries[i],
                        size,
                        JunkFileType::SmallFiles,
                        "a file below the configured size",
                    );
                    items.push(jf);
                }
                i = i + 1;
            }
            p = p + 1;
        }
        wrap_result_small(items, self.options.small_file_max_size)
    }

    /// Run every enabled detection, in their fixed order.
    pub fn detect_all(&self) -> (r: Vec<JunkScanResult>)
        ensures
            r@.len() <= 6,
    {
        let mut results: Vec<JunkScanResult> = Vec::new();
        if self.options.include_empty_folders {
            match self.detect_empty_folders() {
                Some(res) => {
                    results.push(res);
                },
                None => {},
            }
        }
        if self.options.include_invalid_shortcuts {
            match self.detect_invalid_shortcuts() {
                Some(res) => {
                    results.push(res);
                },
                None => {},
            }
        }
        if self.options.include_old_logs {
            match self.detect_old_logs() {
                Some(res) => {
                    results.push(res);
                },
                None => {},
            }
        }
        if self.options.include_old_installers {
            match self.detect_old_installers() {
                Some(res) => {
                    results.push(res);
                },
                None => {},
            }
        }
        if self.options.include_invalid_downloads {
            match self.detect_invalid_downloads() {
                Some(res) => {
                    results.push(res);
                },
                None => {},
            }
        }
        if self.options.include_small_files {
            match self.detect_small_files() {
                Some(res) => {
                    results.push(res);
                },
                None => {},
            }
        }
        results
    }

    /// Run one detection by kind; orphaned files have no detection.
    pub fn detect_by_type(&self, file_type: JunkFileType) -> (r: Option<JunkScanResult>)
        ensures
            r matches Some(res) ==> res.count == res.items@.len(),
    {
        match file_type {
            JunkFileType::EmptyFolders => self.detect_empty_folders(),
            JunkFileType::InvalidShortcuts => self.detect_invalid_shortcuts(),
            JunkFileType::OldLogs => self.detect_old_logs(),
            JunkFileType::OldInstallers => self.detect_old_installers(),
            JunkFileType::InvalidDownloads => self.detect_invalid_downloads(),
            JunkFileType::SmallFiles => self.detect_small_files(),
            JunkFileType::OrphanedFiles => None,
        }
    }
}

impl Default for JunkFileDetector {
    /// The same detector as `new`.
    fn default() -> (r: Self)
        ensures
            r.options.include_empty_folders,
    {
        Self::new()
    }
}

/// Wrap findings of one kind up, or nothing when there are none.
fn wrap_result(items: Vec<JunkFile>, file_type: JunkFileType) -> (r: Option<JunkScanResult>)
    requires
        forall|i: int| 0 <= i < items@.len() ==> (#[trigger] items@[i]).file_type == file_type,
    ensures
        match r {
            Some(res) => res.file_type == file_type && res.count == res.items@.len()
                && res.items@.len() > 0 && res.items@ == items@,
            None => items@.len() == 0,
        },
{
    if items.len() == 0 {
        return None;
    }
    let mut total_size: u64 = 0;
    let mut i: usize = 0;
    while i < items.len()
        decreases items@.len() - i,
    {
        let s = items[i].size;
        total_size = if total_size as u128 + s as u128 > 0xffff_ffff_ffff_ffff_u128 {
            0xffff_ffff_ffff_ffff_u64
        } else {
            total_size + s
        };
        i = i + 1;
    }
    let count = items.len() as u64;
    Some(JunkScanResult { file_type, total_size, count, items })
}

/// Wrap small-file findings up, keeping their size bound.
fn wrap_result_small(items: Vec<JunkFile>, max_size: u64) -> (r: Option<JunkScanResult>)
    requires
        forall|i: int|
            0 <= i < items@.len() ==> (#[trigger] items@[i]).file_type == JunkFileType::SmallFiles
                && 0 < items@[i].size <= max_size,
    ensures
        match r {
            Some(res) => res.file_type == JunkFileType::SmallFiles && res.count
                == res.items@.len() && res.items@.len() > 0 && (forall|i: int|
                0 <= i < res.items@.len() ==> 0 < (#[trigger] res.items@[i]).size <= max_size),
            None => items@.len() == 0,
        },
{
    wrap_result(items, JunkFileType::SmallFiles)
}

} // verus!
