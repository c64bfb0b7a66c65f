//! Icon cache: 32x32 RGBA icons stored as PNG files named by application
//! identifier, so that icons need not be extracted again at every start.
//!
//! The files are read, written and listed by the caller; this module encodes
//! and decodes the icons and decides what the file facts mean.

use crate::error::{EasyHdrError, IconCacheError};
use crate::text::{concat, decimal_text, last_index_of, lemma_last_index_of, u64_to_decimal};
use vstd::prelude::*;

verus! {

#[verifier::external_type_specification]
#[verifier::external_body]
pub struct ExImageError(image::ImageError);

/// Size of a 32x32 RGBA icon in bytes.
pub const EXPECTED_ICON_SIZE: usize = 4096;

/// What the `image` crate encodes as PNG for 32x32 RGBA pixel bytes (`None`
/// when encoding fails).
pub uninterp spec fn png_encoding(rgba: Seq<u8>) -> Option<Seq<u8>>;

/// What the `image` crate decodes from bytes, resized to 32x32 (Lanczos3) and
/// converted to RGBA (`None` when decoding fails).
pub uninterp spec fn png_decoding(png: Seq<u8>) -> Option<Seq<u8>>;

/// Encodes 32x32 RGBA pixel bytes as PNG (`image::write_buffer_with_format`).
#[verifier::external_body]
fn write_png_32x32(rgba: &[u8]) -> (r: Result<Vec<u8>, image::ImageError>)
    requires
        rgba@.len() == 4096,
    ensures
        match r {
            Ok(png) => png_encoding(rgba@) == Some(png@),
            Err(_) => png_encoding(rgba@) is None,
        },
{
    let mut png_bytes: Vec<u8> = Vec::with_capacity(8192);
    image::write_buffer_with_format(
        &mut std::io::Cursor::new(&mut png_bytes),
        rgba,
        32,
        32,
        image::ExtendedColorType::Rgba8,
        image::ImageFormat::Png,
    ).map(|()| png_bytes)
}

/// Decodes an image (format guessed from its content), resizes it to exactly
/// 32x32 with the Lanczos3 filter and returns its RGBA bytes
/// (`image::ImageReader`, `DynamicImage::resize_exact`, `to_rgba8`); the
/// result has 32 * 32 * 4 bytes. PNG is lossless and a 32x32 image is copied,
/// not resampled, by `resize_exact`, so decoding what `write_png_32x32`
/// encoded gives back the encoded pixels.
#[verifier::external_body]
fn read_png_32x32(png: &[u8]) -> (r: Result<Vec<u8>, image::ImageError>)
    ensures
        match r {
            Ok(rgba) => png_decoding(png@) == Some(rgba@) && rgba@.len() == 4096,
            Err(_) => png_decoding(png@) is None,
        },
        r is Ok ==> forall|rgba: Seq<u8>|
            rgba.len() == 4096 && #[trigger] png_encoding(rgba) == Some(png@) ==> r->Ok_0@ == rgba,
        r is Err ==> forall|rgba: Seq<u8>|
            rgba.len() == 4096 ==> #[trigger] png_encoding(rgba) != Some(png@),
{
    let reader = image::ImageReader::new(std::io::Cursor::new(png)).with_guessed_format().map_err(
        image::ImageError::IoError,
    )?;
    let img = reader.decode()?;
    Ok(img.resize_exact(32, 32, image::imageops::FilterType::Lanczos3).to_rgba8().into_raw())
}

/// The message of an image error (its `Display` text); nothing is stated of
/// the text.
#[verifier::external_body]
fn image_error_text(e: &image::ImageError) -> String {
    e.to_string()
}

/// Lowercase hexadecimal digit of a value below sixteen.
pub open spec fn hex_digit(d: int) -> char {
    if d < 10 {
        (48 + d) as char
    } else {
        (87 + d) as char
    }
}

/// Sixteen to the power `n`.
pub open spec fn pow16(n: nat) -> int
    decreases n,
{
    if n == 0 {
        1
    } else {
        16 * pow16((n - 1) as nat)
    }
}

/// Hexadecimal digit `j` (from the most significant, 0 to 31) of a 128-bit value.
pub open spec fn nibble(id: u128, j: int) -> int {
    (id as int / pow16((31 - j) as nat)) % 16
}

/// The hyphenated lowercase text of a UUID: 32 hexadecimal digits, most
/// significant first, in groups of 8, 4, 4, 4 and 12 separated by hyphens.
pub open spec fn uuid_text(id: u128) -> Seq<char> {
    Seq::new(
        36,
        |i: int|
            if i == 8 || i == 13 || i == 18 || i == 23 {
                '-'
            } else {
                hex_digit(
                    nibble(
                        id,
                        i - (if i > 23 {
                            4int
                        } else if i > 18 {
                            3int
                        } else if i > 13 {
                            2int
                        } else if i > 8 {
                            1int
                        } else {
                            0int
                        }),
                    ),
                )
            },
    )
}

/// The hyphenated text of an identifier as a UUID (`uuid::Uuid::from_u128`,
/// `Display`): 36 characters, lowercase hexadecimal digits in groups of 8, 4,
/// 4, 4 and 12, most significant first.
#[verifier::external_body]
fn uuid_string(id: u128) -> (s: String)
    ensures
        s@ == uuid_text(id),
{
    uuid::Uuid::from_u128(id).to_string()
}

/// Name of the cache file of an application: its identifier as UUID text, then `.png`.
pub open spec fn cache_file_name_of(app_id: u128) -> Seq<char> {
    uuid_text(app_id) + ".png"@
}

/// The extension of a file name: what follows its last dot, unless that dot
/// is the first character.
pub open spec fn extension_of(name: Seq<char>) -> Option<Seq<char>> {
    let d = last_index_of(name, '.');
    if d > 0 {
        Some(name.skip(d + 1))
    } else {
        None
    }
}

/// Whether a file name has the `png` extension.
pub open spec fn is_png_name(name: Seq<char>) -> bool {
    extension_of(name) == Some("png"@)
}

/// A file-system failure while reading metadata: the path and the message.
#[derive(Debug)]
pub struct MetadataFailure {
    /// Path whose metadata could not be read
    pub path: String,
    /// Error message
    pub message: String,
}

/// What the file system reports about a cached icon.
#[derive(Debug)]
pub struct CachedIconLookup {
    /// Path of the cache file
    pub cache_path: String,
    /// Whether the cache file exists
    pub exists: bool,
    /// For an application with a source executable: the modification times
    /// of the cache file and of the executable (nanoseconds since the Unix
    /// epoch), or the first metadata failure; `None` without a source file
    pub modified: Option<Result<(i128, i128), MetadataFailure>>,
    /// The bytes of the cache file, or the read error message
    pub contents: Result<Vec<u8>, String>,
}

/// A lookup of a cache file that exists and is not older than the source
/// executable (or has none), so that its contents are read.
pub open spec fn cache_file_current(lookup: CachedIconLookup) -> bool {
    &&& lookup.exists
    &&& match lookup.modified {
        None => true,
        Some(Ok((cache_time, source_time))) => source_time <= cache_time,
        Some(Err(_)) => false,
    }
}

/// Cache statistics
#[derive(Debug, Clone, Copy)]
pub struct CacheStats {
    /// Number of cached icons
    pub count: usize,
    /// Total size of the cached icons in bytes
    pub size_bytes: u64,
}

/// Number of `.png` entries in a directory listing.
pub open spec fn png_count(entries: Seq<(Seq<char>, u64)>) -> nat
    decreases entries.len(),
{
    if entries.len() == 0 {
        0
    } else {
        png_count(entries.drop_last()) + if is_png_name(entries.last().0) {
            1nat
        } else {
            0nat
        }
    }
}

/// Total size of the `.png` entries of a directory listing.
pub open spec fn png_size(entries: Seq<(Seq<char>, u64)>) -> nat
    decreases entries.len(),
{
    if entries.len() == 0 {
        0
    } else {
        png_size(entries.drop_last()) + if is_png_name(entries.last().0) {
            entries.last().1 as nat
        } else {
            0nat
        }
    }
}

/// A directory listing as values.
pub open spec fn listing_view(entries: Seq<(String, u64)>) -> Seq<(Seq<char>, u64)> {
    entries.map_values(|e: (String, u64)| (e.0@, e.1))
}

/// Whether a file name has the `png` extension.
pub fn is_png_file(name: &str) -> (r: bool)
    ensures
        r == is_png_name(name@),
{
    let chars = crate::text::chars_of(name);
    proof {
        lemma_last_index_of(name@, '.');
        reveal_strlit("png");
    }
    match crate::text::rfind_char(&chars, '.') {
        Some(d) => {
            if d > 0 && chars.len() - d == 4 && chars[d + 1] == 'p' && chars[d + 2] == 'n' && chars[d
                + 3] == 'g' {
                assert(name@.skip(d + 1) =~= "png"@);
                true
            } else {
                proof {
                    if d > 0 && name@.skip(d + 1) == "png"@ {
                        assert(name@.skip(d + 1).len() == 3);
                        assert(name@.skip(d + 1)[0] == 'p');
                        assert(name@.skip(d + 1)[1] == 'n');
                        assert(name@.skip(d + 1)[2] == 'g');
                    }
                }
                false
            }
        },
        None => false,
    }
}

/// Text of a size in bytes for display: "N bytes" below 1 KB, whole
/// kilobytes below 1 MB, else megabytes rounded to one decimal (ties to even).
pub open spec fn human_size(size: u64) -> Seq<char> {
    let kb: int = 1024;
    let mb: int = 1048576;
    let n: int = size as int;
    if n >= mb {
        let q = n * 10 / mb;
        let r = n * 10 % mb;
        let tenths = if r * 2 > mb || (r * 2 == mb && q % 2 == 1) {
            q + 1
        } else {
            q
        };
        decimal_text((tenths / 10) as nat) + "."@ + decimal_text((tenths % 10) as nat) + " MB"@
    } else if n >= kb {
        decimal_text((n / kb) as nat) + " KB"@
    } else {
        decimal_text(n as nat) + " bytes"@
    }
}

impl CacheStats {
    /// The total size in human-readable form ("512 bytes", "2 KB", "1.5 MB").
    pub fn size_human_readable(&self) -> (s: String)
        ensures
            s@ == human_size(self.size_bytes),
    {
        let size = self.size_bytes;
        if size >= 1048576 {
            let scaled: u128 = (size as u128) * 10;
            let q: u128 = scaled / 1048576;
            let r: u128 = scaled % 1048576;
            let tenths: u128 = if r * 2 > 1048576 || (r * 2 == 1048576 && q % 2 == 1) {
                q + 1
            } else {
                q
            };
            assert(tenths <= u64::MAX as u128 * 10);
            let whole = u64_to_decimal((tenths / 10) as u64);
            let frac = u64_to_decimal((tenths % 10) as u64);
            let a = concat(whole.as_str(), ".");
            let b = concat(a.as_str(), frac.as_str());
            concat(b.as_str(), " MB")
        } else if size >= 1024 {
            let n = u64_to_decimal(size / 1024);
            concat(n.as_str(), " KB")
        } else {
            let n = u64_to_decimal(size);
            concat(n.as_str(), " bytes")
        }
    }
}

/// Icon cache manager
#[derive(Debug)]
pub struct IconCache {
    /// Cache directory path
    pub cache_dir: String,
}

impl IconCache {
    /// A cache in the directory; `created` is the result of creating the
    /// directory when it did not exist (`Ok` when it existed).
    pub fn new(cache_dir: String, created: Result<(), String>) -> (r: Result<IconCache, EasyHdrError>)
        ensures
            created is Ok ==> r is Ok && r->Ok_0.cache_dir@ == cache_dir@,
            created matches Err(m) ==> (r matches Err(EasyHdrError::IconCache(
                IconCacheError::CacheDirectoryCreationFailed { path, message },
            )) && path@ == cache_dir@ && message@ == m@),
    {
        match created {
            Ok(()) => Ok(IconCache { cache_dir }),
            Err(message) => Err(
                EasyHdrError::IconCache(
                    IconCacheError::CacheDirectoryCreationFailed { path: cache_dir, message },
                ),
            ),
        }
    }

    /// Name of the cache file of an application.
    pub fn cache_file_name(app_id: u128) -> (name: String)
        ensures
            name@ == cache_file_name_of(app_id),
    {
        let id = uuid_string(app_id);
        concat(id.as_str(), ".png")
    }

    /// Encode a 32x32 RGBA icon as PNG. The input must have exactly 4096 bytes.
    pub fn encode_rgba_to_png(rgba_bytes: &[u8], app_id: u128) -> (r: Result<Vec<u8>, EasyHdrError>)
        ensures
            rgba_bytes@.len() != 4096 ==> (r matches Err(EasyHdrError::IconCache(
                IconCacheError::InvalidIconSize { actual },
            )) && actual == rgba_bytes@.len()),
            rgba_bytes@.len() == 4096 ==> match png_encoding(rgba_bytes@) {
                Some(png) => r matches Ok(v) && v@ == png,
                None => r matches Err(EasyHdrError::IconCache(
                    IconCacheError::PngEncodingError { app_id: id, .. },
                )) && id == app_id,
            },
    {
        if rgba_bytes.len() != EXPECTED_ICON_SIZE {
            return Err(
                EasyHdrError::IconCache(IconCacheError::InvalidIconSize { actual: rgba_bytes.len() }),
            );
        }
        match write_png_32x32(rgba_bytes) {
            Ok(png) => Ok(png),
            Err(e) => Err(
                EasyHdrError::IconCache(
                    IconCacheError::PngEncodingError { app_id, message: image_error_text(&e) },
                ),
            ),
        }
    }

    /// Decode a cached PNG to 32x32 RGBA bytes (4096 bytes).
    pub fn decode_png_to_rgba(png_bytes: &[u8], app_id: u128) -> (r: Result<Vec<u8>, EasyHdrError>)
        ensures
            match png_decoding(png_bytes@) {
                Some(rgba) => r matches Ok(v) && v@ == rgba && v@.len() == 4096,
                None => r matches Err(EasyHdrError::IconCache(
                    IconCacheError::PngDecodingError { app_id: id, .. },
                )) && id == app_id,
            },
            forall|rgba: Seq<u8>|
                rgba.len() == 4096 && #[trigger] png_encoding(rgba) == Some(png_bytes@) ==> (r matches Ok(
                    v,
                ) && v@ == rgba),
    {
        match read_png_32x32(png_bytes) {
            Ok(rgba) => Ok(rgba),
            Err(e) => Err(
                EasyHdrError::IconCache(
                    IconCacheError::PngDecodingError { app_id, message: image_error_text(&e) },
                ),
            ),
        }
    }

    /// Load a cached icon from what the file system reports. A missing file,
    /// or a source executable newer than the cache file, is a cache miss
    /// (`Ok(None)`); metadata, read and decoding failures are errors.
    pub fn load_icon(&self, app_id: u128, lookup: CachedIconLookup) -> (r: Result<
        Option<Vec<u8>>,
        EasyHdrError,
    >)
        ensures
            !lookup.exists ==> (r matches Ok(None)),
            lookup.exists ==> match lookup.modified {
                Some(Err(f)) => r matches Err(EasyHdrError::IconCache(
                    IconCacheError::MetadataError { path, message },
                )) && path@ == f.path@ && message@ == f.message@,
                Some(Ok((cache_time, source_time))) if source_time > cache_time => r matches Ok(None),
                _ => match lookup.contents {
                    Err(m) => r matches Err(EasyHdrError::IconCache(
                        IconCacheError::CacheReadError { app_id: id, path, message },
                    )) && id == app_id && path@ == lookup.cache_path@ && message@ == m@,
                    Ok(png) => match png_decoding(png@) {
                        Some(rgba) => r matches Ok(Some(v)) && v@ == rgba,
                        None => r matches Err(EasyHdrError::IconCache(
                            IconCacheError::PngDecodingError { app_id: id, .. },
                        )) && id == app_id,
                    },
                },
            },
            r matches Ok(Some(v)) ==> v@.len() == 4096,
            cache_file_current(lookup) && lookup.contents is Ok ==> forall|rgba: Seq<u8>|
                rgba.len() == 4096 && #[trigger] png_encoding(rgba) == Some(lookup.contents->Ok_0@) ==> (
                r matches Ok(Some(v)) && v@ == rgba),
    {
        if !lookup.exists {
            return Ok(None);
        }
        match lookup.modified {
            Some(Err(f)) => {
                return Err(
                    EasyHdrError::IconCache(
                        IconCacheError::MetadataError { path: f.path, message: f.message },
                    ),
                );
            },
            Some(Ok((cache_time, source_time))) => {
                if source_time > cache_time {
                    return Ok(None);
                }
            },
            None => {},
        }
        match lookup.contents {
            Err(message) => Err(
                EasyHdrError::IconCache(
                    IconCacheError::CacheReadError { app_id, path: lookup.cache_path, message },
                ),
            ),
            Ok(png) => match Self::decode_png_to_rgba(png.as_slice(), app_id) {
                Ok(rgba) => Ok(Some(rgba)),
                Err(e) => Err(e),
            },
        }
    }

    /// Cache statistics from a listing of the cache directory (file names and
    /// sizes; `None` when the directory does not exist): the number and total
    /// size of the `.png` files. A listing failure is reported with the
    /// directory path.
    pub fn get_cache_stats(&self, listing: Option<Result<Vec<(String, u64)>, String>>) -> (r: Result<
        CacheStats,
        EasyHdrError,
    >)
        requires
            listing matches Some(Ok(entries)) ==> png_size(listing_view(entries@)) <= u64::MAX,
        ensures
            listing is None ==> (r matches Ok(s) && s.count == 0 && s.size_bytes == 0),
            listing matches Some(Err(m)) ==> (r matches Err(EasyHdrError::IconCache(
                IconCacheError::CacheStatsFailed { path, message },
            )) && path@ == self.cache_dir@ && message@ == m@),
            listing matches Some(Ok(entries)) ==> (r matches Ok(s) && s.count == png_count(
                listing_view(entries@),
            ) && s.size_bytes == png_size(listing_view(entries@))),
    {
        let entries = match listing {
            None => return Ok(CacheStats { count: 0, size_bytes: 0 }),
            Some(Err(message)) => {
                return Err(
                    EasyHdrError::IconCache(
                        IconCacheError::CacheStatsFailed { path: self.cache_dir.clone(), message },
                    ),
                );
            },
            Some(Ok(entries)) => entries,
        };
        let ghost all = listing_view(entries@);
        let mut count: usize = 0;
        let mut size_bytes: u64 = 0;
        let mut i: usize = 0;
        while i < entries.len()
            invariant
                i <= entries@.len(),
                all == listing_view(entries@),
                png_size(all) <= u64::MAX,
                count == png_count(all.take(i as int)),
                size_bytes == png_size(all.take(i as int)),
                count <= i,
            decreases entries@.len() - i,
        {
            proof {
                assert(all.take(i + 1).drop_last() =~= all.take(i as int));
                lemma_png_size_prefix(all, i + 1);
            }
            if is_png_file(entries[i].0.as_str()) {
                count = count + 1;
                size_bytes = size_bytes + entries[i].1;
            }
            i = i + 1;
        }
        assert(all.take(i as int) =~= all);
        Ok(CacheStats { count, size_bytes })
    }
}

/// The size of the `.png` entries of a prefix never exceeds that of the whole listing.
proof fn lemma_png_size_prefix(entries: Seq<(Seq<char>, u64)>, n: int)
    requires
        0 <= n <= entries.len(),
    ensures
        png_size(entries.take(n)) <= png_size(entries),
    decreases entries.len() - n,
{
    if n < entries.len() {
        lemma_png_size_prefix(entries, n + 1);
        assert(entries.take(n + 1).drop_last() =~= entries.take(n));
    } else {
        assert(entries.take(n) =~= entries);
    }
}


} // verus!
