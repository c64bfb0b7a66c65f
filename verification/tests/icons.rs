use easyhdr::utils::icon_extractor::{
    IconSource, bgra_to_rgba, bitmap_to_rgba_icon, create_default_icon, extract_display_name_from_exe,
    extract_icon_from_exe, get_filename_fallback, resize_icon_simple,
};

#[test]
fn test_get_filename_fallback() {
    let name = get_filename_fallback("C:\\Program Files\\Test\\MyApp.exe");
    assert_eq!(name, "MyApp");
}

#[test]
fn test_get_filename_fallback_no_extension() {
    let name = get_filename_fallback("C:\\Program Files\\Test\\MyApp");
    assert_eq!(name, "MyApp");
}

#[test]
fn filename_fallback_edge_cases() {
    assert_eq!(get_filename_fallback("C:\\Apps\\.hidden"), ".hidden");
    assert_eq!(get_filename_fallback("C:\\Apps\\archive.tar.gz"), "archive.tar");
    assert_eq!(get_filename_fallback("C:\\Apps\\Tool\\"), "Tool");
    assert_eq!(get_filename_fallback(""), "Unknown Application");
    assert_eq!(get_filename_fallback("C:\\Apps\\.."), "Unknown Application");
}

#[test]
fn test_extract_display_name_fallback() {
    let result = extract_display_name_from_exe("C:\\Program Files\\Test\\MyApp.exe", &vec![]);
    assert!(result.is_ok());
    let name = result.unwrap();
    assert!(!name.is_empty());
    assert_eq!(name, "MyApp");
}

#[test]
fn display_name_takes_the_first_usable_description() {
    let empty: Vec<u16> = vec![0, 0];
    let invalid: Vec<u16> = vec![0xDC00, 0];
    let good: Vec<u16> = "Notepad\0junk".encode_utf16().collect();
    let name = extract_display_name_from_exe("C:\\Windows\\notepad.exe", &vec![empty, invalid, good]).unwrap();
    assert_eq!(name, "Notepad");
}

#[test]
fn test_extract_icon_returns_ok() {
    let result = extract_icon_from_exe(IconSource::Unsupported);
    assert!(result.is_ok());
    assert!(result.unwrap().is_empty());
}

#[test]
fn test_create_default_icon_size() {
    let icon = create_default_icon();
    assert_eq!(icon.len(), 32 * 32 * 4);
}

#[test]
fn test_create_default_icon_has_alpha() {
    let icon = create_default_icon();
    for i in (3..icon.len()).step_by(4) {
        assert_eq!(icon[i], 255);
    }
}

#[test]
fn default_icon_has_a_darker_border() {
    let icon = create_default_icon();
    assert_eq!(&icon[0..4], &[64, 64, 64, 255]);
    let center = (16 * 32 + 16) * 4;
    assert_eq!(&icon[center..center + 4], &[128, 128, 128, 255]);
    let right_edge = (5 * 32 + 31) * 4;
    assert_eq!(icon[right_edge], 64);
}

#[test]
fn bgra_becomes_rgba() {
    assert_eq!(bgra_to_rgba(&vec![1, 2, 3, 4, 5, 6, 7, 8]), vec![3, 2, 1, 4, 7, 6, 5, 8]);
}

#[test]
fn nearest_neighbour_resize() {
    // 2x1 image: a red and a blue pixel, resized to 4x2.
    let src = vec![255, 0, 0, 255, 0, 0, 255, 255];
    let dst = resize_icon_simple(&src, 2, 1, 4, 2);
    assert_eq!(dst.len(), 4 * 2 * 4);
    assert_eq!(&dst[0..4], &[255, 0, 0, 255]);
    assert_eq!(&dst[4..8], &[255, 0, 0, 255]);
    assert_eq!(&dst[8..12], &[0, 0, 255, 255]);
    assert_eq!(&dst[16..20], &[255, 0, 0, 255]);
}

#[test]
fn bitmaps_become_32x32_icons() {
    let bgra = vec![10u8, 20, 30, 40].repeat(16 * 16);
    let icon = bitmap_to_rgba_icon(&bgra, 16, 16);
    assert_eq!(icon.len(), 4096);
    assert_eq!(&icon[0..4], &[30, 20, 10, 40]);
    let icon = extract_icon_from_exe(IconSource::Bitmap { bgra: vec![1u8; 4096], width: 32, height: 32 }).unwrap();
    assert_eq!(icon, vec![1u8; 4096]);
    let failed = extract_icon_from_exe(IconSource::NotFound).unwrap();
    assert!(failed.is_empty());
}
