//! Detection and decoding of XOR-obfuscated image files.
//!
//! Such a file is an ordinary image whose every byte was XORed with one
//! fixed key; the key is recovered from the known magic numbers of the
//! common image formats.

use vstd::prelude::*;

use crate::path_util::{spec_extension_of, PathUtils};
use crate::platform::{self, FileReadOutcome};
use crate::text::{lower_chars, starts_with_bytes, starts_with_seq};

verus! {

/// Bytes of the obfuscated header the key search looks at.
pub const XOR_KEY_SEARCH_BYTES: usize = 8;

/// Files smaller than this are never treated as obfuscated images.
pub const MIN_FILE_SIZE: u64 = 10;

/// The image formats the decoder recognises.
#[derive(Debug, Clone, Copy, PartialEq, Eq, Structural)]
pub enum ImageFormat {
    Jpeg,
    Png,
    Gif,
    Bmp,
    WebP,
    Unknown,
}

impl ImageFormat {
    /// The usual file extension of the format.
    pub open spec fn spec_extension(&self) -> Seq<char> {
        match self {
            Self::Jpeg => "jpg"@,
            Self::Png => "png"@,
            Self::Gif => "gif"@,
            Self::Bmp => "bmp"@,
            Self::WebP => "webp"@,
            Self::Unknown => "dat"@,
        }
    }

    pub fn extension(&self) -> (r: &'static str)
        ensures
            r@ == self.spec_extension(),
    {
        match self {
            Self::Jpeg => "jpg",
            Self::Png => "png",
            Self::Gif => "gif",
            Self::Bmp => "bmp",
            Self::WebP => "webp",
            Self::Unknown => "dat",
        }
    }

    /// The MIME type of the format.
    pub open spec fn spec_mime_type(&self) -> Seq<char> {
        match self {
            Self::Jpeg => "image/jpeg"@,
            Self::Png => "image/png"@,
            Self::Gif => "image/gif"@,
            Self::Bmp => "image/bmp"@,
            Self::WebP => "image/webp"@,
            Self::Unknown => "application/octet-stream"@,
        }
    }

    pub fn mime_type(&self) -> (r: &'static str)
        ensures
            r@ == self.spec_mime_type(),
    {
        match self {
            Self::Jpeg => "image/jpeg",
            Self::Png => "image/png",
            Self::Gif => "image/gif",
            Self::Bmp => "image/bmp",
            Self::WebP => "image/webp",
            Self::Unknown => "application/octet-stream",
        }
    }
}

/// The magic numbers, in the order they are tried.
pub open spec fn sig_jpeg() -> Seq<u8> {
    seq![0xff, 0xd8, 0xff]
}

pub open spec fn sig_png() -> Seq<u8> {
    seq![0x89, 0x50, 0x4e, 0x47]
}

pub open spec fn sig_gif() -> Seq<u8> {
    seq![0x47, 0x49, 0x46, 0x38]
}

pub open spec fn sig_bmp() -> Seq<u8> {
    seq![0x42, 0x4d]
}

pub open spec fn sig_webp() -> Seq<u8> {
    seq![0x52, 0x49, 0x46, 0x46]
}

/// Decrypting `data` with `key` reveals `sig` as a prefix.
pub open spec fn sig_matches_with_key(data: Seq<u8>, sig: Seq<u8>, key: u8) -> bool {
    sig.len() <= data.len() && forall|i: int| 0 <= i < sig.len() ==> (data[i] ^ key) == sig[i]
}

/// The key that would reveal `sig`, when decrypting with it works.
pub open spec fn sig_candidate(data: Seq<u8>, sig: Seq<u8>) -> Option<u8>
    recommends
        data.len() >= 1,
        sig.len() >= 1,
{
    let key = data[0] ^ sig[0];
    if sig_matches_with_key(data, sig, key) {
        Some(key)
    } else {
        None
    }
}

/// The key found by trying the magic numbers in order.
pub open spec fn spec_signature_key(data: Seq<u8>) -> Option<u8>
    recommends
        data.len() >= 1,
{
    if sig_candidate(data, sig_jpeg()) is Some {
        sig_candidate(data, sig_jpeg())
    } else if sig_candidate(data, sig_png()) is Some {
        sig_candidate(data, sig_png())
    } else if sig_candidate(data, sig_gif()) is Some {
        sig_candidate(data, sig_gif())
    } else if sig_candidate(data, sig_bmp()) is Some {
        sig_candidate(data, sig_bmp())
    } else {
        sig_candidate(data, sig_webp())
    }
}

/// Decrypting the first two bytes with `key` reveals the two-byte start of
/// one of the formats.
pub open spec fn brute_hit(data: Seq<u8>, key: u8) -> bool
    recommends
        data.len() >= 2,
{
    ||| ((data[0] ^ key) == 0xff && (data[1] ^ key) == 0xd8)
    ||| ((data[0] ^ key) == 0x89 && (data[1] ^ key) == 0x50)
    ||| ((data[0] ^ key) == 0x47 && (data[1] ^ key) == 0x49)
    ||| ((data[0] ^ key) == 0x42 && (data[1] ^ key) == 0x4d)
}

/// The smallest key from `k` upward whose brute check hits.
pub open spec fn brute_key_from(data: Seq<u8>, k: int) -> Option<u8>
    decreases 256 - k,
{
    if k < 0 || k > 255 {
        None
    } else if brute_hit(data, k as u8) {
        Some(k as u8)
    } else {
        brute_key_from(data, k + 1)
    }
}

/// What the key search yields: the first magic number whose implied key
/// decrypts the whole prefix, else the smallest key that reveals a two-byte
/// magic start, else nothing. Headers shorter than eight bytes yield
/// nothing.
pub open spec fn spec_detect_xor_key(data: Seq<u8>) -> Option<u8> {
    if data.len() < XOR_KEY_SEARCH_BYTES {
        None
    } else if spec_signature_key(data) is Some {
        spec_signature_key(data)
    } else {
        brute_key_from(data, 0)
    }
}

/// Check one magic number against the data under its implied key.
fn try_signature(data: &[u8], sig: &[u8]) -> (r: Option<u8>)
    requires
        data@.len() >= 1,
        sig@.len() >= 1,
        sig@.len() <= data@.len(),
    ensures
        r == sig_candidate(data@, sig@),
{
    let key = data[0] ^ sig[0];
    let mut i: usize = 0;
    while i < sig.len()
        invariant
            i <= sig@.len(),
            sig@.len() <= data@.len(),
            key == data@[0] ^ sig@[0],
            forall|j: int| 0 <= j < i ==> (data@[j] ^ key) == sig@[j],
        decreases sig@.len() - i,
    {
        if (data[i] ^ key) != sig[i] {
            proof {
                assert(!sig_matches_with_key(data@, sig@, key));
            }
            return None;
        }
        i = i + 1;
    }
    proof {
        assert(sig_matches_with_key(data@, sig@, key));
    }
    Some(key)
}

/// Recover the XOR key of an obfuscated image header.
pub fn detect_xor_key(data: &[u8]) -> (r: Option<u8>)
    ensures
        r == spec_detect_xor_key(data@),
{
    if data.len() < XOR_KEY_SEARCH_BYTES {
        return None;
    }
    let jpeg: [u8; 3] = [0xff, 0xd8, 0xff];
    let png: [u8; 4] = [0x89, 0x50, 0x4e, 0x47];
    let gif: [u8; 4] = [0x47, 0x49, 0x46, 0x38];
    let bmp: [u8; 2] = [0x42, 0x4d];
    let webp: [u8; 4] = [0x52, 0x49, 0x46, 0x46];
    proof {
        assert(jpeg@ =~= sig_jpeg());
        assert(png@ =~= sig_png());
        assert(gif@ =~= sig_gif());
        assert(bmp@ =~= sig_bmp());
        assert(webp@ =~= sig_webp());
    }
    match try_signature(data, jpeg.as_slice()) {
        Some(k) => {
            return Some(k);
        },
        None => {},
    }
    match try_signature(data, png.as_slice()) {
        Some(k) => {
            return Some(k);
        },
        None => {},
    }
    match try_signature(data, gif.as_slice()) {
        Some(k) => {
            return Some(k);
        },
        None => {},
    }
    match try_signature(data, bmp.as_slice()) {
        Some(k) => {
            return Some(k);
        },
        None => {},
    }
    match try_signature(data, webp.as_slice()) {
        Some(k) => {
            return Some(k);
        },
        None => {},
    }
    let mut k: u64 = 0;
    while k <= 255
        invariant
            k <= 256,
            data@.len() >= XOR_KEY_SEARCH_BYTES,
            spec_signature_key(data@) is None,
            brute_key_from(data@, 0) == brute_key_from(data@, k as int),
        decreases 256 - k,
    {
        let key = k as u8;
        let b0 = data[0] ^ key;
        let b1 = data[1] ^ key;
        if (b0 == 0xff && b1 == 0xd8) || (b0 == 0x89 && b1 == 0x50) || (b0 == 0x47 && b1 == 0x49)
            || (b0 == 0x42 && b1 == 0x4d) {
            proof {
                assert(brute_hit(data@, key));
            }
            return Some(key);
        }
        proof {
            assert(!brute_hit(data@, key));
        }
        k = k + 1;
    }
    None
}

/// The format revealed by a decrypted header: the first magic number that
/// prefixes it.
pub open spec fn spec_detect_format(header: Seq<u8>) -> ImageFormat {
    if starts_with_seq(header, sig_jpeg()) {
        ImageFormat::Jpeg
    } else if starts_with_seq(header, sig_png()) {
        ImageFormat::Png
    } else if starts_with_seq(header, sig_gif()) {
        ImageFormat::Gif
    } else if starts_with_seq(header, sig_bmp()) {
        ImageFormat::Bmp
    } else if starts_with_seq(header, sig_webp()) {
        ImageFormat::WebP
    } else {
        ImageFormat::Unknown
    }
}

/// Classify a decrypted header by its magic number.
pub fn detect_image_format(decrypted_header: &[u8]) -> (r: ImageFormat)
    ensures
        r == spec_detect_format(decrypted_header@),
{
    let jpeg: [u8; 3] = [0xff, 0xd8, 0xff];
    let png: [u8; 4] = [0x89, 0x50, 0x4e, 0x47];
    let gif: [u8; 4] = [0x47, 0x49, 0x46, 0x38];
    let bmp: [u8; 2] = [0x42, 0x4d];
    let webp: [u8; 4] = [0x52, 0x49, 0x46, 0x46];
    proof {
        assert(jpeg@ =~= sig_jpeg());
        assert(png@ =~= sig_png());
        assert(gif@ =~= sig_gif());
        assert(bmp@ =~= sig_bmp());
        assert(webp@ =~= sig_webp());
    }
    if starts_with_bytes(decrypted_header, jpeg.as_slice()) {
        ImageFormat::Jpeg
    } else if starts_with_bytes(decrypted_header, png.as_slice()) {
        ImageFormat::Png
    } else if starts_with_bytes(decrypted_header, gif.as_slice()) {
        ImageFormat::Gif
    } else if starts_with_bytes(decrypted_header, bmp.as_slice()) {
        ImageFormat::Bmp
    } else if starts_with_bytes(decrypted_header, webp.as_slice()) {
        ImageFormat::WebP
    } else {
        ImageFormat::Unknown
    }
}

/// XOR every byte with the key.
pub open spec fn spec_xor_bytes(data: Seq<u8>, key: u8) -> Seq<u8> {
    data.map_values(|b: u8| b ^ key)
}

/// Decrypt a whole buffer with one key.
pub fn xor_bytes(data: &[u8], key: u8) -> (r: Vec<u8>)
    ensures
        r@ == spec_xor_bytes(data@, key),
{
    let mut r: Vec<u8> = Vec::new();
    let mut i: usize = 0;
    while i < data.len()
        invariant
            i <= data@.len(),
            r@ == spec_xor_bytes(data@.take(i as int), key),
        decreases data@.len() - i,
    {
        r.push(data[i] ^ key);
        i = i + 1;
        proof {
            assert(data@.take(i as int) =~= data@.take(i - 1).push(data@[i - 1]));
            assert(r@ =~= spec_xor_bytes(data@.take(i as int), key));
        }
    }
    proof {
        assert(data@.take(data@.len() as int) =~= data@);
    }
    r
}

/// What an obfuscated image file holds: the format behind the obfuscation,
/// the XOR key and the file's size.
#[derive(Debug, Clone)]
pub struct WeChatImageInfo {
    pub original_format: ImageFormat,
    pub xor_key: u8,
    pub file_size: u64,
}

/// The obfuscated-image decoder.
pub struct WeChatDatDecoder;

impl WeChatDatDecoder {
    /// Whether the path carries the obfuscated-image extension.
    pub fn is_dat_file(path: &str) -> (r: bool)
        ensures
            r == (spec_extension_of(path@) matches Some(e) && lower_chars(e) == "dat"@),
    {
        match PathUtils::get_extension(path) {
            Some(ext) => {
                let target = crate::text::str_chars("dat");
                let cand = crate::text::str_chars(ext.as_str());
                let ghost spec_ext = spec_extension_of(path@)->Some_0;
                proof {
                    assert(lower_chars(lower_chars(spec_ext)) =~= lower_chars(spec_ext));
                    reveal_strlit("dat");
                    assert(lower_chars("dat"@) =~= "dat"@);
                }
                crate::text::chars_eq(cand.as_slice(), target.as_slice())
            },
            None => false,
        }
    }

    /// See `detect_xor_key`.
    pub fn detect_xor_key(data: &[u8]) -> (r: Option<u8>)
        ensures
            r == spec_detect_xor_key(data@),
    {
        detect_xor_key(data)
    }

    /// See `detect_image_format`.
    pub fn detect_image_format(decrypted_header: &[u8]) -> (r: ImageFormat)
        ensures
            r == spec_detect_format(decrypted_header@),
    {
        detect_image_format(decrypted_header)
    }

    /// Analyze in-memory file content: files below the minimum size, or
    /// without a recoverable key, are not obfuscated images.
    pub fn analyze_dat_bytes(data: &Vec<u8>, file_size: u64) -> (r: Option<WeChatImageInfo>)
        ensures
            match r {
                Some(info) => {
                    &&& file_size >= MIN_FILE_SIZE
                    &&& spec_detect_xor_key(data@) == Some(info.xor_key)
                    &&& info.original_format == spec_detect_format(
                        spec_xor_bytes(hash_window(data@), info.xor_key),
                    )
                    &&& info.file_size == file_size
                },
                None => file_size < MIN_FILE_SIZE || spec_detect_xor_key(data@) is None,
            },
    {
        if file_size < MIN_FILE_SIZE {
            return None;
        }
        let key = match detect_xor_key(data.as_slice()) {
            Some(k) => k,
            None => {
                return None;
            },
        };
        let window: &[u8] = if data.len() >= XOR_KEY_SEARCH_BYTES {
            &data.as_slice()[0..XOR_KEY_SEARCH_BYTES]
        } else {
            data.as_slice()
        };
        proof {
            assert(window@ =~= hash_window(data@));
        }
        let decrypted = xor_bytes(window, key);
        let format = detect_image_format(decrypted.as_slice());
        Some(WeChatImageInfo { original_format: format, xor_key: key, file_size })
    }

    /// Analyze a file on disk; unreadable files are not obfuscated images.
    pub fn analyze_dat_file(path: &String) -> Option<WeChatImageInfo> {
        let meta = match platform::lookup_entry(path) {
            Some(m) => m,
            None => {
                return None;
            },
        };
        let data = match platform::read_file_with_timeout(path, 30000) {
            FileReadOutcome::Data(d) => d,
            FileReadOutcome::TimedOut => {
                return None;
            },
            FileReadOutcome::Failed => {
                return None;
            },
        };
        Self::analyze_dat_bytes(&data, meta.size)
    }

    /// Decrypt in-memory file content.
    pub fn decrypt_dat_bytes(data: &Vec<u8>, file_size: u64) -> (r: Option<(Vec<u8>, ImageFormat)>)
        ensures
            match r {
                Some(out) => {
                    &&& file_size >= MIN_FILE_SIZE
                    &&& spec_detect_xor_key(data@) matches Some(key) && out.0@ == spec_xor_bytes(
                        data@,
                        key,
                    ) && out.1 == spec_detect_format(spec_xor_bytes(data@, key))
                },
                None => file_size < MIN_FILE_SIZE || spec_detect_xor_key(data@) is None,
            },
    {
        if file_size < MIN_FILE_SIZE {
            return None;
        }
        let key = match detect_xor_key(data.as_slice()) {
            Some(k) => k,
            None => {
                return None;
            },
        };
        let decrypted = xor_bytes(data.as_slice(), key);
        let format = detect_image_format(decrypted.as_slice());
        Some((decrypted, format))
    }

    /// Decrypt a file on disk.
    pub fn decrypt_dat_file(path: &String) -> Option<(Vec<u8>, ImageFormat)> {
        let meta = match platform::lookup_entry(path) {
            Some(m) => m,
            None => {
                return None;
            },
        };
        let data = match platform::read_file_with_timeout(path, 30000) {
            FileReadOutcome::Data(d) => d,
            FileReadOutcome::TimedOut => {
                return None;
            },
            FileReadOutcome::Failed => {
                return None;
            },
        };
        Self::decrypt_dat_bytes(&data, meta.size)
    }

    /// Decrypt a file on disk; the chunk size only bounds how much is kept
    /// in flight at once and never changes the result.
    pub fn decrypt_dat_file_chunked(path: &String, _chunk_size: usize) -> Option<
        (Vec<u8>, ImageFormat),
    > {
        Self::decrypt_dat_file(path)
    }
}

/// The first eight bytes of the content (all of it when shorter).
pub open spec fn hash_window(data: Seq<u8>) -> Seq<u8> {
    if data.len() >= XOR_KEY_SEARCH_BYTES {
        data.take(XOR_KEY_SEARCH_BYTES as int)
    } else {
        data
    }
}

/// Whether a path names an obfuscated image: the extension matches and the
/// content analyzes as one.
pub fn is_wechat_encrypted_image(path: &String) -> bool {
    WeChatDatDecoder::is_dat_file(path.as_str()) && WeChatDatDecoder::analyze_dat_file(
        path,
    ).is_some()
}

/// The format hiding behind an obfuscated image, when the file is one.
pub fn get_decrypted_image_format(path: &String) -> Option<ImageFormat> {
    match WeChatDatDecoder::analyze_dat_file(path) {
        Some(info) => Some(info.original_format),
        None => None,
    }
}

} // verus!
