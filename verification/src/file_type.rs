//! Coarse file-type classification by extension.

use vstd::prelude::*;

use crate::text::{chars_eq, lower_chars, str_chars, to_lower_chars};

verus! {

/// Whether the lower-cased extension equals the given literal.
fn ext_is(low: &[char], lit: &str) -> (r: bool)
    ensures
        r == (low@ == lit@),
{
    let lit_chars = str_chars(lit);
    chars_eq(low, lit_chars.as_slice())
}

/// The type name of a lower-cased extension.
pub open spec fn spec_file_type(ext_lower: Seq<char>) -> Seq<char> {
    if ext_lower == "mp4"@ || ext_lower == "mkv"@ || ext_lower == "avi"@ || ext_lower == "mov"@ || ext_lower == "wmv"@ || ext_lower == "flv"@ || ext_lower == "webm"@ || ext_lower == "m4v"@ || ext_lower == "mpg"@ || ext_lower == "mpeg"@ || ext_lower == "3gp"@ || ext_lower == "m2ts"@ || ext_lower == "mts"@ {
        "video"@
    } else     if ext_lower == "mp3"@ || ext_lower == "flac"@ || ext_lower == "wav"@ || ext_lower == "aac"@ || ext_lower == "ogg"@ || ext_lower == "wma"@ || ext_lower == "m4a"@ || ext_lower == "opus"@ || ext_lower == "ape"@ {
        "audio"@
    } else     if ext_lower == "jpg"@ || ext_lower == "jpeg"@ || ext_lower == "png"@ || ext_lower == "gif"@ || ext_lower == "bmp"@ || ext_lower == "tiff"@ || ext_lower == "webp"@ || ext_lower == "raw"@ || ext_lower == "heic"@ || ext_lower == "svg"@ || ext_lower == "ico"@ || ext_lower == "psd"@ || ext_lower == "ai"@ || ext_lower == "eps"@ {
        "image"@
    } else     if ext_lower == "zip"@ || ext_lower == "rar"@ || ext_lower == "7z"@ || ext_lower == "tar"@ || ext_lower == "gz"@ || ext_lower == "bz2"@ || ext_lower == "xz"@ || ext_lower == "tgz"@ || ext_lower == "tbz"@ || ext_lower == "cab"@ {
        "archive"@
    } else     if ext_lower == "exe"@ || ext_lower == "msi"@ || ext_lower == "bat"@ || ext_lower == "cmd"@ || ext_lower == "sh"@ || ext_lower == "ps1"@ || ext_lower == "vbs"@ || ext_lower == "jar"@ || ext_lower == "app"@ || ext_lower == "dmg"@ || ext_lower == "pkg"@ || ext_lower == "deb"@ || ext_lower == "rpm"@ || ext_lower == "apk"@ {
        "executable"@
    } else     if ext_lower == "iso"@ || ext_lower == "img"@ || ext_lower == "vhd"@ || ext_lower == "vhdx"@ || ext_lower == "vmdk"@ || ext_lower == "qcow2"@ {
        "disk image"@
    } else     if ext_lower == "pdf"@ || ext_lower == "doc"@ || ext_lower == "docx"@ || ext_lower == "xls"@ || ext_lower == "xlsx"@ || ext_lower == "ppt"@ || ext_lower == "pptx"@ || ext_lower == "odt"@ || ext_lower == "ods"@ || ext_lower == "odp"@ || ext_lower == "rtf"@ || ext_lower == "epub"@ || ext_lower == "mobi"@ || ext_lower == "azw"@ || ext_lower == "azw3"@ || ext_lower == "md"@ {
        "document"@
    } else     if ext_lower == "db"@ || ext_lower == "sqlite"@ || ext_lower == "sqlite3"@ || ext_lower == "mdb"@ || ext_lower == "accdb"@ || ext_lower == "dbf"@ {
        "database"@
    } else     if ext_lower == "log"@ || ext_lower == "csv"@ || ext_lower == "tsv"@ || ext_lower == "ini"@ {
        "text"@
    } else     if ext_lower == "json"@ || ext_lower == "xml"@ || ext_lower == "yaml"@ || ext_lower == "yml"@ || ext_lower == "toml"@ || ext_lower == "conf"@ || ext_lower == "config"@ || ext_lower == "cfg"@ || ext_lower == "properties"@ || ext_lower == "env"@ || ext_lower == "htaccess"@ {
        "configuration"@
    } else     if ext_lower == "dll"@ || ext_lower == "sys"@ || ext_lower == "drv"@ || ext_lower == "ocx"@ || ext_lower == "cpl"@ || ext_lower == "scr"@ || ext_lower == "fon"@ {
        "system"@
    } else     if ext_lower == "c"@ || ext_lower == "cpp"@ || ext_lower == "h"@ || ext_lower == "hpp"@ || ext_lower == "cs"@ || ext_lower == "java"@ || ext_lower == "py"@ || ext_lower == "rb"@ || ext_lower == "php"@ || ext_lower == "go"@ || ext_lower == "rs"@ || ext_lower == "swift"@ || ext_lower == "kt"@ || ext_lower == "scala"@ || ext_lower == "r"@ || ext_lower == "m"@ || ext_lower == "mm"@ || ext_lower == "pl"@ || ext_lower == "lua"@ || ext_lower == "ts"@ || ext_lower == "tsx"@ || ext_lower == "jsx"@ || ext_lower == "vue"@ || ext_lower == "sass"@ || ext_lower == "scss"@ || ext_lower == "less"@ || ext_lower == "css"@ || ext_lower == "html"@ || ext_lower == "htm"@ || ext_lower == "js"@ {
        "code"@
    } else     if ext_lower == "ttf"@ || ext_lower == "otf"@ || ext_lower == "woff"@ || ext_lower == "woff2"@ || ext_lower == "eot"@ {
        "font"@
    } else     if ext_lower == "bak"@ || ext_lower == "old"@ || ext_lower == "backup"@ || ext_lower == "orig"@ {
        "backup"@
    } else     if ext_lower == "tmp"@ || ext_lower == "temp"@ || ext_lower == "swp"@ || ext_lower == "swo"@ {
        "temporary"@
    } else {
        "other"@
    }
}

/// The coarse type of a file, from its extension (compared lower-cased).
pub fn get_file_type(extension: &str) -> (r: String)
    ensures
        r@ == spec_file_type(lower_chars(extension@)),
{
    let chars = str_chars(extension);
    let low = to_lower_chars(chars.as_slice());
    if ext_is(low.as_slice(), "mp4") || ext_is(low.as_slice(), "mkv") || ext_is(low.as_slice(), "avi") || ext_is(low.as_slice(), "mov") || ext_is(low.as_slice(), "wmv") || ext_is(low.as_slice(), "flv") || ext_is(low.as_slice(), "webm") || ext_is(low.as_slice(), "m4v") || ext_is(low.as_slice(), "mpg") || ext_is(low.as_slice(), "mpeg") || ext_is(low.as_slice(), "3gp") || ext_is(low.as_slice(), "m2ts") || ext_is(low.as_slice(), "mts") {
        return "video".to_string();
    }
    if ext_is(low.as_slice(), "mp3") || ext_is(low.as_slice(), "flac") || ext_is(low.as_slice(), "wav") || ext_is(low.as_slice(), "aac") || ext_is(low.as_slice(), "ogg") || ext_is(low.as_slice(), "wma") || ext_is(low.as_slice(), "m4a") || ext_is(low.as_slice(), "opus") || ext_is(low.as_slice(), "ape") {
        return "audio".to_string();
    }
    if ext_is(low.as_slice(), "jpg") || ext_is(low.as_slice(), "jpeg") || ext_is(low.as_slice(), "png") || ext_is(low.as_slice(), "gif") || ext_is(low.as_slice(), "bmp") || ext_is(low.as_slice(), "tiff") || ext_is(low.as_slice(), "webp") || ext_is(low.as_slice(), "raw") || ext_is(low.as_slice(), "heic") || ext_is(low.as_slice(), "svg") || ext_is(low.as_slice(), "ico") || ext_is(low.as_slice(), "psd") || ext_is(low.as_slice(), "ai") || ext_is(low.as_slice(), "eps") {
        return "image".to_string();
    }
    if ext_is(low.as_slice(), "zip") || ext_is(low.as_slice(), "rar") || ext_is(low.as_slice(), "7z") || ext_is(low.as_slice(), "tar") || ext_is(low.as_slice(), "gz") || ext_is(low.as_slice(), "bz2") || ext_is(low.as_slice(), "xz") || ext_is(low.as_slice(), "tgz") || ext_is(low.as_slice(), "tbz") || ext_is(low.as_slice(), "cab") {
        return "archive".to_string();
    }
    if ext_is(low.as_slice(), "exe") || ext_is(low.as_slice(), "msi") || ext_is(low.as_slice(), "bat") || ext_is(low.as_slice(), "cmd") || ext_is(low.as_slice(), "sh") || ext_is(low.as_slice(), "ps1") || ext_is(low.as_slice(), "vbs") || ext_is(low.as_slice(), "jar") || ext_is(low.as_slice(), "app") || ext_is(low.as_slice(), "dmg") || ext_is(low.as_slice(), "pkg") || ext_is(low.as_slice(), "deb") || ext_is(low.as_slice(), "rpm") || ext_is(low.as_slice(), "apk") {
        return "executable".to_string();
    }
    if ext_is(low.as_slice(), "iso") || ext_is(low.as_slice(), "img") || ext_is(low.as_slice(), "vhd") || ext_is(low.as_slice(), "vhdx") || ext_is(low.as_slice(), "vmdk") || ext_is(low.as_slice(), "qcow2") {
        return "disk image".to_string();
    }
    if ext_is(low.as_slice(), "pdf") || ext_is(low.as_slice(), "doc") || ext_is(low.as_slice(), "docx") || ext_is(low.as_slice(), "xls") || ext_is(low.as_slice(), "xlsx") || ext_is(low.as_slice(), "ppt") || ext_is(low.as_slice(), "pptx") || ext_is(low.as_slice(), "odt") || ext_is(low.as_slice(), "ods") || ext_is(low.as_slice(), "odp") || ext_is(low.as_slice(), "rtf") || ext_is(low.as_slice(), "epub") || ext_is(low.as_slice(), "mobi") || ext_is(low.as_slice(), "azw") || ext_is(low.as_slice(), "azw3") || ext_is(low.as_slice(), "md") {
        return "document".to_string();
    }
    if ext_is(low.as_slice(), "db") || ext_is(low.as_slice(), "sqlite") || ext_is(low.as_slice(), "sqlite3") || ext_is(low.as_slice(), "mdb") || ext_is(low.as_slice(), "accdb") || ext_is(low.as_slice(), "dbf") {
        return "database".to_string();
    }
    if ext_is(low.as_slice(), "log") || ext_is(low.as_slice(), "csv") || ext_is(low.as_slice(), "tsv") || ext_is(low.as_slice(), "ini") {
        return "text".to_string();
    }
    if ext_is(low.as_slice(), "json") || ext_is(low.as_slice(), "xml") || ext_is(low.as_slice(), "yaml") || ext_is(low.as_slice(), "yml") || ext_is(low.as_slice(), "toml") || ext_is(low.as_slice(), "conf") || ext_is(low.as_slice(), "config") || ext_is(low.as_slice(), "cfg") || ext_is(low.as_slice(), "properties") || ext_is(low.as_slice(), "env") || ext_is(low.as_slice(), "htaccess") {
        return "configuration".to_string();
    }
    if ext_is(low.as_slice(), "dll") || ext_is(low.as_slice(), "sys") || ext_is(low.as_slice(), "drv") || ext_is(low.as_slice(), "ocx") || ext_is(low.as_slice(), "cpl") || ext_is(low.as_slice(), "scr") || ext_is(low.as_slice(), "fon") {
        return "system".to_string();
    }
    if ext_is(low.as_slice(), "c") || ext_is(low.as_slice(), "cpp") || ext_is(low.as_slice(), "h") || ext_is(low.as_slice(), "hpp") || ext_is(low.as_slice(), "cs") || ext_is(low.as_slice(), "java") || ext_is(low.as_slice(), "py") || ext_is(low.as_slice(), "rb") || ext_is(low.as_slice(), "php") || ext_is(low.as_slice(), "go") || ext_is(low.as_slice(), "rs") || ext_is(low.as_slice(), "swift") || ext_is(low.as_slice(), "kt") || ext_is(low.as_slice(), "scala") || ext_is(low.as_slice(), "r") || ext_is(low.as_slice(), "m") || ext_is(low.as_slice(), "mm") || ext_is(low.as_slice(), "pl") || ext_is(low.as_slice(), "lua") || ext_is(low.as_slice(), "ts") || ext_is(low.as_slice(), "tsx") || ext_is(low.as_slice(), "jsx") || ext_is(low.as_slice(), "vue") || ext_is(low.as_slice(), "sass") || ext_is(low.as_slice(), "scss") || ext_is(low.as_slice(), "less") || ext_is(low.as_slice(), "css") || ext_is(low.as_slice(), "html") || ext_is(low.as_slice(), "htm") || ext_is(low.as_slice(), "js") {
        return "code".to_string();
    }
    if ext_is(low.as_slice(), "ttf") || ext_is(low.as_slice(), "otf") || ext_is(low.as_slice(), "woff") || ext_is(low.as_slice(), "woff2") || ext_is(low.as_slice(), "eot") {
        return "font".to_string();
    }
    if ext_is(low.as_slice(), "bak") || ext_is(low.as_slice(), "old") || ext_is(low.as_slice(), "backup") || ext_is(low.as_slice(), "orig") {
        return "backup".to_string();
    }
    if ext_is(low.as_slice(), "tmp") || ext_is(low.as_slice(), "temp") || ext_is(low.as_slice(), "swp") || ext_is(low.as_slice(), "swo") {
        return "temporary".to_string();
    }
    "other".to_string()
}

} // verus!
