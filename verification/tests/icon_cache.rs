use easyhdr::error::{EasyHdrError, IconCacheError};
use easyhdr::utils::icon_cache::{CacheStats, CachedIconLookup, IconCache, MetadataFailure, is_png_file};

const APP_ID: u128 = 0x550e8400_e29b_41d4_a716_446655440000;

fn cache() -> IconCache {
    IconCache::new("C:\\Users\\me\\AppData\\Roaming\\EasyHDR\\icon_cache".to_string(), Ok(())).unwrap()
}

fn valid_png() -> Vec<u8> {
    IconCache::encode_rgba_to_png(&vec![200u8; 4096], APP_ID).unwrap()
}

fn lookup(exists: bool, modified: Option<Result<(i128, i128), MetadataFailure>>, contents: Result<Vec<u8>, String>) -> CachedIconLookup {
    CachedIconLookup { cache_path: "icon.png".to_string(), exists, modified, contents }
}

#[test]
fn cache_stats_size_human_readable_bytes() {
    let stats = CacheStats { count: 1, size_bytes: 512 };
    assert_eq!(stats.size_human_readable(), "512 bytes");
}

#[test]
fn size_human_readable_kilobytes_and_megabytes() {
    assert_eq!(CacheStats { count: 1, size_bytes: 1024 }.size_human_readable(), "1 KB");
    assert_eq!(CacheStats { count: 1, size_bytes: 1048575 }.size_human_readable(), "1023 KB");
    assert_eq!(CacheStats { count: 1, size_bytes: 1048576 }.size_human_readable(), "1.0 MB");
    assert_eq!(CacheStats { count: 1, size_bytes: 1572864 }.size_human_readable(), "1.5 MB");
}

#[test]
fn size_human_readable_matches_float_formatting() {
    let mb = 1024u64 * 1024;
    let sizes = [
        mb,
        mb + 1,
        mb + 52428,
        mb + 52429,
        1310720,
        1363148,
        3 * mb + mb / 20,
        3 * mb + mb / 20 + 1,
        12345678,
        987654321,
        5 * mb / 4,
        7 * mb / 4,
        10 * mb - 1,
        mb * 1023 + mb / 2,
    ];
    for size in sizes {
        let expected = format!("{:.1} MB", size as f64 / mb as f64);
        assert_eq!(CacheStats { count: 1, size_bytes: size }.size_human_readable(), expected, "size {size}");
    }
}

#[test]
fn encode_rgba_to_png_validates_input_size() {
    let result = IconCache::encode_rgba_to_png(&vec![0u8; 100], APP_ID);
    match result {
        Err(EasyHdrError::IconCache(IconCacheError::InvalidIconSize { actual })) => assert_eq!(actual, 100),
        _ => panic!("Expected InvalidIconSize error"),
    }
    let result = IconCache::encode_rgba_to_png(&vec![0u8; 5000], APP_ID);
    match result {
        Err(EasyHdrError::IconCache(IconCacheError::InvalidIconSize { actual })) => assert_eq!(actual, 5000),
        _ => panic!("Expected InvalidIconSize error"),
    }
}

#[test]
fn encode_rgba_to_png_accepts_valid_size() {
    let result = IconCache::encode_rgba_to_png(&vec![128u8; 4096], APP_ID);
    assert!(result.is_ok(), "Valid size should succeed");
    let png_bytes = result.unwrap();
    assert!(!png_bytes.is_empty());
    assert!(png_bytes.len() < 8192);
    assert_eq!(&png_bytes[0..8], &[0x89, 0x50, 0x4E, 0x47, 0x0D, 0x0A, 0x1A, 0x0A]);
}

#[test]
fn decode_png_handles_invalid_data() {
    let result = IconCache::decode_png_to_rgba(&vec![0u8; 100], APP_ID);
    match result {
        Err(EasyHdrError::IconCache(IconCacheError::PngDecodingError { app_id, .. })) => assert_eq!(app_id, APP_ID),
        _ => panic!("Expected PngDecodingError"),
    }
}

#[test]
fn png_encoding_roundtrip_preserves_data() {
    let mut rgba = Vec::new();
    for i in 0..1024u32 {
        rgba.extend_from_slice(&[(i % 256) as u8, (i / 4 % 256) as u8, 7, 255]);
    }
    let png = IconCache::encode_rgba_to_png(&rgba, APP_ID).unwrap();
    let decoded = IconCache::decode_png_to_rgba(&png, APP_ID).unwrap();
    assert_eq!(decoded, rgba);
}

#[test]
fn cache_file_names_are_uuid_text() {
    assert_eq!(IconCache::cache_file_name(APP_ID), "550e8400-e29b-41d4-a716-446655440000.png");
    assert_eq!(IconCache::cache_file_name(0), "00000000-0000-0000-0000-000000000000.png");
}

#[test]
fn load_icon_cache_hit() {
    let icon = cache().load_icon(APP_ID, lookup(true, Some(Ok((200, 100))), Ok(valid_png()))).unwrap();
    assert_eq!(icon, Some(vec![200u8; 4096]));
}

#[test]
fn load_icon_cache_miss_file_not_found() {
    let icon = cache().load_icon(APP_ID, lookup(false, None, Err("not found".to_string()))).unwrap();
    assert!(icon.is_none());
}

#[test]
fn load_icon_stale_cache_win32_app() {
    let icon = cache().load_icon(APP_ID, lookup(true, Some(Ok((100, 200))), Ok(valid_png()))).unwrap();
    assert!(icon.is_none(), "an executable newer than the cache makes the entry stale");
}

#[test]
fn load_icon_fresh_cache_win32_app() {
    let icon = cache().load_icon(APP_ID, lookup(true, Some(Ok((200, 200))), Ok(valid_png()))).unwrap();
    assert!(icon.is_some());
}

#[test]
fn load_icon_uwp_app_no_validation() {
    let icon = cache().load_icon(APP_ID, lookup(true, None, Ok(valid_png()))).unwrap();
    assert_eq!(icon.map(|i| i.len()), Some(4096));
}

#[test]
fn load_icon_corrupted_png() {
    let result = cache().load_icon(APP_ID, lookup(true, None, Ok(vec![1, 2, 3])));
    assert!(matches!(
        result,
        Err(EasyHdrError::IconCache(IconCacheError::PngDecodingError { app_id: APP_ID, .. }))
    ));
}

#[test]
fn load_icon_reports_metadata_and_read_failures() {
    let failure = MetadataFailure { path: "C:\\x.exe".to_string(), message: "denied".to_string() };
    match cache().load_icon(APP_ID, lookup(true, Some(Err(failure)), Ok(valid_png()))) {
        Err(EasyHdrError::IconCache(IconCacheError::MetadataError { path, message })) => {
            assert_eq!(path, "C:\\x.exe");
            assert_eq!(message, "denied");
        }
        other => panic!("unexpected {:?}", other),
    }
    match cache().load_icon(APP_ID, lookup(true, None, Err("locked".to_string()))) {
        Err(EasyHdrError::IconCache(IconCacheError::CacheReadError { app_id, path, message })) => {
            assert_eq!(app_id, APP_ID);
            assert_eq!(path, "icon.png");
            assert_eq!(message, "locked");
        }
        other => panic!("unexpected {:?}", other),
    }
}

#[test]
fn get_cache_stats_returns_correct_count_and_size() {
    let listing = vec![
        ("a.png".to_string(), 100u64),
        ("b.png".to_string(), 250u64),
        ("notes.txt".to_string(), 999u64),
        (".png".to_string(), 5u64),
    ];
    let stats = cache().get_cache_stats(Some(Ok(listing))).unwrap();
    assert_eq!(stats.count, 2);
    assert_eq!(stats.size_bytes, 350);
}

#[test]
fn get_cache_stats_only_counts_png_files() {
    let listing = vec![("a.PNG".to_string(), 10u64), ("b.png.tmp".to_string(), 10u64)];
    let stats = cache().get_cache_stats(Some(Ok(listing))).unwrap();
    assert_eq!(stats.count, 0);
}

#[test]
fn get_cache_stats_empty_directory() {
    let stats = cache().get_cache_stats(Some(Ok(vec![]))).unwrap();
    assert_eq!(stats.count, 0);
    assert_eq!(stats.size_bytes, 0);
    let missing = cache().get_cache_stats(None).unwrap();
    assert_eq!(missing.count, 0);
    assert!(cache().get_cache_stats(Some(Err("denied".to_string()))).is_err());
}

#[test]
fn png_extension_check() {
    assert!(is_png_file("x.png"));
    assert!(is_png_file("a.b.png"));
    assert!(!is_png_file(".png"));
    assert!(!is_png_file("png"));
    assert!(!is_png_file("x.png.tmp"));
}

#[test]
fn cache_directory_creation_failure_is_reported() {
    match IconCache::new("Z:\\cache".to_string(), Err("denied".to_string())) {
        Err(EasyHdrError::IconCache(IconCacheError::CacheDirectoryCreationFailed { path, message })) => {
            assert_eq!(path, "Z:\\cache");
            assert_eq!(message, "denied");
        }
        other => panic!("unexpected {:?}", other),
    }
}

#[test]
fn saved_icon_loads_back_unchanged() {
    let rgba: Vec<u8> = (0..4096u32).map(|i| (i * 7 % 251) as u8).collect();
    let png = IconCache::encode_rgba_to_png(&rgba, APP_ID).unwrap();
    let icon = cache().load_icon(APP_ID, lookup(true, Some(Ok((300, 300))), Ok(png))).unwrap();
    assert_eq!(icon, Some(rgba));
}
