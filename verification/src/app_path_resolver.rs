//! Resolution of the per-account data directories of the supported chat
//! applications, from a user-configured base path.

use vstd::prelude::*;

use crate::path_util::join_path;
use crate::platform::{self, FsEntry};
use crate::text::{chars_eq, starts_with_chars, str_chars};

verus! {

/// Where a resolved path came from.
#[derive(Debug, Clone, Copy, PartialEq, Eq, Structural)]
pub enum PathSource {
    UserConfig,
    Default,
}

/// One account's data directory.
#[derive(Debug, Clone)]
pub struct AccountInfo {
    pub id: String,
    pub name: String,
    pub data_path: String,
}

/// One resolved application path.
#[derive(Debug, Clone)]
pub struct ResolvedAppPath {
    pub path: String,
    pub source: PathSource,
    pub account_id: Option<String>,
}

/// A directory name that never holds a chat account.
pub open spec fn spec_reserved_dir_name(name: Seq<char>) -> bool {
    ||| name == "All Users"@
    ||| name == "Applet"@
    ||| name == "WMPF"@
    ||| name == "XPlugin"@
    ||| name == "Registry"@
    ||| (name.len() > 0 && name[0] == '.')
}

/// Whether a directory name is one of the reserved non-account names.
pub fn is_reserved_dir_name(name: &str) -> (r: bool)
    ensures
        r == spec_reserved_dir_name(name@),
{
    let chars = str_chars(name);
    let all_users = str_chars("All Users");
    let applet = str_chars("Applet");
    let wmpf = str_chars("WMPF");
    let xplugin = str_chars("XPlugin");
    let registry = str_chars("Registry");
    if chars_eq(chars.as_slice(), all_users.as_slice()) || chars_eq(
        chars.as_slice(),
        applet.as_slice(),
    ) || chars_eq(chars.as_slice(), wmpf.as_slice()) || chars_eq(
        chars.as_slice(),
        xplugin.as_slice(),
    ) || chars_eq(chars.as_slice(), registry.as_slice()) {
        return true;
    }
    chars.len() > 0 && chars[0] == '.'
}

/// The account resolver.
pub struct AppPathResolver;

impl AppPathResolver {
    /// The per-account directories of the first chat application under a
    /// configured base path: child directories, not reserved, holding the
    /// application's storage subdirectories.
    pub fn resolve_wechat_paths(user_path: Option<&String>) -> (r: Vec<ResolvedAppPath>)
        ensures
            forall|i: int| 0 <= i < r@.len() ==> (#[trigger] r@[i]).source == PathSource::UserConfig,
    {
        match user_path {
            Some(base) => {
                if platform::path_exists(base) {
                    let accounts = find_accounts(base, StorageMark::FileStorageOrMsg);
                    accounts_to_resolved(accounts)
                } else {
                    Vec::new()
                }
            },
            None => Vec::new(),
        }
    }

    /// The per-account directories of the second chat application: numeric
    /// or prefixed child directories holding its storage.
    pub fn resolve_qq_paths(user_path: Option<&String>) -> (r: Vec<ResolvedAppPath>)
        ensures
            forall|i: int| 0 <= i < r@.len() ==> (#[trigger] r@[i]).source == PathSource::UserConfig,
    {
        match user_path {
            Some(base) => {
                if platform::path_exists(base) {
                    let accounts = find_accounts(base, StorageMark::MsgDbOrImage);
                    accounts_to_resolved(accounts)
                } else {
                    Vec::new()
                }
            },
            None => Vec::new(),
        }
    }

    /// The per-account directories of the third chat application: every
    /// non-reserved child directory.
    pub fn resolve_dingtalk_paths(user_path: Option<&String>) -> (r: Vec<ResolvedAppPath>)
        ensures
            forall|i: int| 0 <= i < r@.len() ==> (#[trigger] r@[i]).source == PathSource::UserConfig,
    {
        match user_path {
            Some(base) => {
                if platform::path_exists(base) {
                    let accounts = find_accounts(base, StorageMark::Any);
                    accounts_to_resolved(accounts)
                } else {
                    Vec::new()
                }
            },
            None => Vec::new(),
        }
    }

    /// The per-account directories of the fourth chat application: child
    /// directories holding its storage.
    pub fn resolve_wework_paths(user_path: Option<&String>) -> (r: Vec<ResolvedAppPath>)
        ensures
            forall|i: int| 0 <= i < r@.len() ==> (#[trigger] r@[i]).source == PathSource::UserConfig,
    {
        match user_path {
            Some(base) => {
                if platform::path_exists(base) {
                    let accounts = find_accounts(base, StorageMark::FileStorageOrImage);
                    accounts_to_resolved(accounts)
                } else {
                    Vec::new()
                }
            },
            None => Vec::new(),
        }
    }
}

/// Which storage subdirectories mark an account directory.
#[derive(Debug, Clone, Copy, PartialEq, Eq, Structural)]
enum StorageMark {
    FileStorageOrMsg,
    MsgDbOrImage,
    FileStorageOrImage,
    Any,
}

/// List the non-reserved child directories of `base` that carry the asked
/// storage mark.
fn find_accounts(base: &String, mark: StorageMark) -> Vec<AccountInfo> {
    let entries = platform::read_dir_entries(base);
    let mut accounts: Vec<AccountInfo> = Vec::new();
    let mut i: usize = 0;
    while i < entries.len()
        decreases entries@.len() - i,
    {
        let entry = &entries[i];
        if entry.is_dir && !is_reserved_dir_name(entry.name.as_str()) {
            let keep = match mark {
                StorageMark::FileStorageOrMsg => {
                    let fs = join_path(entry.path.as_str(), "FileStorage");
                    let msg = join_path(entry.path.as_str(), "Msg");
                    platform::path_exists(&fs) || platform::path_exists(&msg)
                },
                StorageMark::MsgDbOrImage => {
                    if qq_account_name(entry.name.as_str()) {
                        let db = join_path(entry.path.as_str(), "Msg3.0.db");
                        let image = join_path(entry.path.as_str(), "Image");
                        platform::path_exists(&db) || platform::path_exists(&image)
                    } else {
                        false
                    }
                },
                StorageMark::FileStorageOrImage => {
                    let fs = join_path(entry.path.as_str(), "FileStorage");
                    let image = join_path(entry.path.as_str(), "Image");
                    platform::path_exists(&fs) || platform::path_exists(&image)
                },
                StorageMark::Any => true,
            };
            if keep {
                accounts.push(
                    AccountInfo {
                        id: entry.name.clone(),
                        name: entry.name.clone(),
                        data_path: entry.path.clone(),
                    },
                );
            }
        }
        i = i + 1;
    }
    accounts
}

/// A name the second chat application gives its account directories: all
/// digits, or carrying the application's prefix.
pub open spec fn spec_qq_account_name(name: Seq<char>) -> bool {
    ||| (forall|i: int| 0 <= i < name.len() ==> '0' <= #[trigger] name[i] <= '9')
    ||| crate::text::starts_with_chars_seq(name, "QQ"@)
}

/// Whether a directory name looks like one of that application's accounts.
pub fn qq_account_name(name: &str) -> (r: bool)
    ensures
        r == spec_qq_account_name(name@),
{
    let chars = str_chars(name);
    let mut all_digits = true;
    let mut i: usize = 0;
    while i < chars.len()
        invariant
            i <= chars@.len(),
            chars@ == name@,
            all_digits == forall|j: int| 0 <= j < i ==> '0' <= #[trigger] name@[j] <= '9',
        decreases chars@.len() - i,
    {
        let c = chars[i];
        if !('0' <= c && c <= '9') {
            all_digits = false;
        }
        i = i + 1;
    }
    if all_digits {
        return true;
    }
    let prefix = str_chars("QQ");
    starts_with_chars(chars.as_slice(), prefix.as_slice())
}

/// Wrap found accounts as user-configured resolved paths.
fn accounts_to_resolved(accounts: Vec<AccountInfo>) -> (r: Vec<ResolvedAppPath>)
    ensures
        forall|i: int| 0 <= i < r@.len() ==> (#[trigger] r@[i]).source == PathSource::UserConfig,
{
    let mut out: Vec<ResolvedAppPath> = Vec::new();
    let mut rest = accounts;
    while rest.len() > 0
        invariant
            forall|i: int| 0 <= i < out@.len() ==> (#[trigger] out@[i]).source == PathSource::UserConfig,
        decreases rest@.len(),
    {
        let acc = rest.remove(0);
        out.push(
            ResolvedAppPath {
                path: acc.data_path,
                source: PathSource::UserConfig,
                account_id: Some(acc.id),
            },
        );
    }
    out
}

/// A file is hidden by the dot convention.
pub fn is_hidden_file(name: &str) -> (r: bool)
    ensures
        r == (name@.len() > 0 && name@[0] == '.'),
{
    let chars = str_chars(name);
    chars.len() > 0 && chars[0] == '.'
}

/// Housekeeping names a scan always skips, besides hidden files.
pub open spec fn spec_skip_name(name: Seq<char>) -> bool {
    ||| crate::text::lower_chars(name) == "desktop.ini"@
    ||| crate::text::lower_chars(name) == "thumbs.db"@
    ||| crate::text::lower_chars(name) == ".ds_store"@
}

/// Whether a scan should skip a file outright.
pub fn should_skip_file(name: &str) -> (r: bool)
    ensures
        r == ((name@.len() > 0 && name@[0] == '.') || spec_skip_name(name@)),
{
    if is_hidden_file(name) {
        return true;
    }
    let chars = str_chars(name);
    let lowered = crate::text::to_lower_chars(chars.as_slice());
    let desktop_ini = str_chars("desktop.ini");
    let thumbs = str_chars("thumbs.db");
    let ds_store = str_chars(".ds_store");
    chars_eq(lowered.as_slice(), desktop_ini.as_slice()) || chars_eq(
        lowered.as_slice(),
        thumbs.as_slice(),
    ) || chars_eq(lowered.as_slice(), ds_store.as_slice())
}

/// The default directory this crate keeps its configuration under.
pub fn get_default_config_dir() -> Option<String> {
    match platform::sys_cache_dir() {
        Some(base) => Some(join_path(base.as_str(), "DiskTidy")),
        None => None,
    }
}

} // verus!
