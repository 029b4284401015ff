//! Data model of the per-application cache scans.

use vstd::prelude::*;

use crate::scan::ScanStatus;
use crate::scan_manager::ScanProgress;
use crate::text::{chars_eq, lower_chars, str_chars, to_lower_chars};

verus! {

/// The chat applications whose caches can be scanned.
#[derive(Debug, Clone, Copy, PartialEq, Eq, Structural)]
pub enum AppType {
    Wechat,
    Dingtalk,
    Qq,
    Wework,
}

impl AppType {
    /// The application named by a string, compared case folded.
    pub fn from_str(s: &str) -> (r: Option<AppType>)
        ensures
            match r {
                Some(t) => lower_chars(s@) == t.spec_name(),
                None => lower_chars(s@) != AppType::Wechat.spec_name() && lower_chars(s@)
                    != AppType::Dingtalk.spec_name() && lower_chars(s@) != AppType::Qq.spec_name()
                    && lower_chars(s@) != AppType::Wework.spec_name(),
            },
    {
        let chars = str_chars(s);
        let lowered = to_lower_chars(chars.as_slice());
        let wechat = str_chars("wechat");
        let dingtalk = str_chars("dingtalk");
        let qq = str_chars("qq");
        let wework = str_chars("wework");
        if chars_eq(lowered.as_slice(), wechat.as_slice()) {
            Some(AppType::Wechat)
        } else if chars_eq(lowered.as_slice(), dingtalk.as_slice()) {
            Some(AppType::Dingtalk)
        } else if chars_eq(lowered.as_slice(), qq.as_slice()) {
            Some(AppType::Qq)
        } else if chars_eq(lowered.as_slice(), wework.as_slice()) {
            Some(AppType::Wework)
        } else {
            None
        }
    }

    /// The stable name of the application.
    pub open spec fn spec_name(&self) -> Seq<char> {
        match self {
            AppType::Wechat => "wechat"@,
            AppType::Dingtalk => "dingtalk"@,
            AppType::Qq => "qq"@,
            AppType::Wework => "wework"@,
        }
    }

    pub fn to_str(&self) -> (r: &'static str)
        ensures
            r@ == self.spec_name(),
    {
        match self {
            AppType::Wechat => "wechat",
            AppType::Dingtalk => "dingtalk",
            AppType::Qq => "qq",
            AppType::Wework => "wework",
        }
    }
}

/// What kinds of cached data a scan can report.
#[derive(Debug, Clone, Copy, PartialEq, Eq, Structural)]
pub enum CleanCategory {
    ChatImages,
    VideoFiles,
    DocumentFiles,
    InstallPackages,
    CacheData,
    VoiceFiles,
    EmojiCache,
    TempFiles,
    ThumbCache,
}

impl CleanCategory {
    /// The category named by a string, compared case folded.
    pub fn from_str(s: &str) -> (r: Option<CleanCategory>)
        ensures
            match r {
                Some(c) => lower_chars(s@) == c.spec_name(),
                None => forall|c: CleanCategory| lower_chars(s@) != #[trigger] c.spec_name(),
            },
    {
        let chars = str_chars(s);
        let lowered = to_lower_chars(chars.as_slice());
        let chat_images = str_chars("chat_images");
        let video_files = str_chars("video_files");
        let document_files = str_chars("document_files");
        let install_packages = str_chars("install_packages");
        let cache_data = str_chars("cache_data");
        let voice_files = str_chars("voice_files");
        let emoji_cache = str_chars("emoji_cache");
        let temp_files = str_chars("temp_files");
        let thumb_cache = str_chars("thumb_cache");
        if chars_eq(lowered.as_slice(), chat_images.as_slice()) {
            Some(CleanCategory::ChatImages)
        } else if chars_eq(lowered.as_slice(), video_files.as_slice()) {
            Some(CleanCategory::VideoFiles)
        } else if chars_eq(lowered.as_slice(), document_files.as_slice()) {
            Some(CleanCategory::DocumentFiles)
        } else if chars_eq(lowered.as_slice(), install_packages.as_slice()) {
            Some(CleanCategory::InstallPackages)
        } else if chars_eq(lowered.as_slice(), cache_data.as_slice()) {
            Some(CleanCategory::CacheData)
        } else if chars_eq(lowered.as_slice(), voice_files.as_slice()) {
            Some(CleanCategory::VoiceFiles)
        } else if chars_eq(lowered.as_slice(), emoji_cache.as_slice()) {
            Some(CleanCategory::EmojiCache)
        } else if chars_eq(lowered.as_slice(), temp_files.as_slice()) {
            Some(CleanCategory::TempFiles)
        } else if chars_eq(lowered.as_slice(), thumb_cache.as_slice()) {
            Some(CleanCategory::ThumbCache)
        } else {
            None
        }
    }

    /// The stable name of the category.
    pub open spec fn spec_name(&self) -> Seq<char> {
        match self {
            CleanCategory::ChatImages => "chat_images"@,
            CleanCategory::VideoFiles => "video_files"@,
            CleanCategory::DocumentFiles => "document_files"@,
            CleanCategory::InstallPackages => "install_packages"@,
            CleanCategory::CacheData => "cache_data"@,
            CleanCategory::VoiceFiles => "voice_files"@,
            CleanCategory::EmojiCache => "emoji_cache"@,
            CleanCategory::TempFiles => "temp_files"@,
            CleanCategory::ThumbCache => "thumb_cache"@,
        }
    }

    pub fn to_str(&self) -> (r: &'static str)
        ensures
            r@ == self.spec_name(),
    {
        match self {
            CleanCategory::ChatImages => "chat_images",
            CleanCategory::VideoFiles => "video_files",
            CleanCategory::DocumentFiles => "document_files",
            CleanCategory::InstallPackages => "install_packages",
            CleanCategory::CacheData => "cache_data",
            CleanCategory::VoiceFiles => "voice_files",
            CleanCategory::EmojiCache => "emoji_cache",
            CleanCategory::TempFiles => "temp_files",
            CleanCategory::ThumbCache => "thumb_cache",
        }
    }

    pub fn display_name(&self) -> (r: &'static str) {
        match self {
            CleanCategory::ChatImages => "chat images",
            CleanCategory::VideoFiles => "video files",
            CleanCategory::DocumentFiles => "document files",
            CleanCategory::InstallPackages => "installer packages",
            CleanCategory::CacheData => "cached data",
            CleanCategory::VoiceFiles => "voice messages",
            CleanCategory::EmojiCache => "sticker cache",
            CleanCategory::TempFiles => "temporary files",
            CleanCategory::ThumbCache => "thumbnail cache",
        }
    }

    pub fn description(&self) -> (r: &'static str) {
        match self {
            CleanCategory::ChatImages => "images sent and received in chats, including obfuscated ones",
            CleanCategory::VideoFiles => "videos sent and received in chats",
            CleanCategory::DocumentFiles => "documents and archives received in chats",
            CleanCategory::InstallPackages => "installer packages received in chats",
            CleanCategory::CacheData => "cached web resources and applet icons",
            CleanCategory::VoiceFiles => "voice messages",
            CleanCategory::EmojiCache => "cached stickers",
            CleanCategory::TempFiles => "temporary files, safe to clean",
            CleanCategory::ThumbCache => "thumbnails of images and videos",
        }
    }
}

/// Lifecycle of one cache scan.
#[derive(Debug, Clone, Copy, PartialEq, Eq, Structural)]
pub enum AppCacheScanStatus {
    Idle,
    Scanning,
    Paused,
    Completed,
    Cancelled,
    Error,
}

/// One file a cache scan found.
#[derive(Debug, Clone)]
pub struct AppCacheFile {
    pub id: String,
    pub path: String,
    pub name: String,
    pub size: u64,
    pub category: CleanCategory,
    pub app: AppType,
    pub chat_object: String,
    pub created_at: i64,
    pub modified_at: i64,
    pub selected: bool,
    pub is_encrypted: bool,
    pub original_format: Option<String>,
}

/// What a cache scan covers.
#[derive(Debug, Clone)]
pub struct AppCacheScanOptions {
    pub apps: Vec<String>,
    pub categories: Vec<String>,
    pub incremental: bool,
    pub force_rescan: bool,
}

/// A progress snapshot of one cache scan.
#[derive(Debug, Clone)]
pub struct AppCacheScanProgress {
    pub scan_id: String,
    pub status: ScanStatus,
    pub current_path: String,
    pub scanned_files: u64,
    pub scanned_size: u64,
    pub total_files: u64,
    pub total_size: u64,
    pub current_app: String,
    pub incremental: bool,
    pub skipped_files: u64,
}

impl AppCacheScanProgress {
    /// A fresh snapshot for one scan id.
    pub fn new(scan_id: &str) -> (r: AppCacheScanProgress)
        ensures
            r.scan_id@ == scan_id@,
            r.status == ScanStatus::Idle,
            r.scanned_files == 0,
            r.scanned_size == 0,
            r.total_files == 0,
            r.total_size == 0,
            r.skipped_files == 0,
            !r.incremental,
    {
        AppCacheScanProgress {
            scan_id: scan_id.to_owned(),
            status: ScanStatus::Idle,
            current_path: String::new(),
            scanned_files: 0,
            scanned_size: 0,
            total_files: 0,
            total_size: 0,
            current_app: String::new(),
            incremental: false,
            skipped_files: 0,
        }
    }
}

impl ScanProgress for AppCacheScanProgress {
    open spec fn progress_status(&self) -> ScanStatus {
        self.status
    }

    open spec fn spec_with_status(&self, status: ScanStatus) -> Self {
        AppCacheScanProgress { status, ..*self }
    }

    proof fn lemma_with_status(&self, status: ScanStatus) {
    }

    fn set_status(&mut self, status: ScanStatus) {
        self.status = status;
    }

    fn event_name() -> (r: &'static str) {
        "app_cache:progress"
    }
}

/// The terminal outcome of one cache scan.
#[derive(Debug, Clone)]
pub struct AppCacheScanResult {
    pub scan_id: String,
    pub files: Vec<AppCacheFile>,
    pub total_files: u64,
    pub total_size: u64,
    pub duration_ms: u64,
    pub status: AppCacheScanStatus,
    pub incremental: bool,
    pub skipped_files: u64,
}

} // verus!
