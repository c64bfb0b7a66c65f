//! Icons and display names of executables.
//!
//! The caller reads the executable's icon bitmap and version information
//! through the Windows shell; this module turns what was read into a 32x32
//! RGBA icon and a display name.

use crate::error::EasyHdrError;
use crate::monitor::process_monitor::{extract_process_name, nul_prefix, utf16_text};
use crate::text::{chars_of, last_index_of, lemma_last_index_of, rfind_char, string_from_chars, sub_chars};
use vstd::prelude::*;

verus! {

/// Width and height of an icon in pixels.
pub const ICON_SIZE: usize = 32;

/// Size of a 32x32 RGBA icon in bytes.
pub const ICON_BYTES: usize = 4096;

/// Byte `i` of the default icon: an opaque gray square (128) with a darker
/// one-pixel border (64).
pub open spec fn default_icon_byte(i: int) -> u8 {
    let p = i / 4;
    let x = p % 32;
    let y = p / 32;
    if i % 4 == 3 {
        255
    } else if x == 0 || x == 31 || y == 0 || y == 31 {
        64
    } else {
        128
    }
}

/// The placeholder icon: an opaque gray square with a border.
pub open spec fn default_icon() -> Seq<u8> {
    Seq::new(4096, |i: int| default_icon_byte(i))
}

/// Create the default icon (32x32 gray square with a border).
pub fn create_default_icon() -> (icon: Vec<u8>)
    ensures
        icon@ == default_icon(),
{
    let mut icon: Vec<u8> = Vec::new();
    let mut p: usize = 0;
    while p < ICON_SIZE * ICON_SIZE
        invariant
            p <= 1024,
            icon@.len() == 4 * p,
            forall|i: int| 0 <= i < 4 * p ==> icon@[i] == default_icon_byte(i),
        decreases 1024 - p,
    {
        let x = p % ICON_SIZE;
        let y = p / ICON_SIZE;
        let shade: u8 = if x == 0 || x == ICON_SIZE - 1 || y == 0 || y == ICON_SIZE - 1 {
            64
        } else {
            128
        };
        icon.push(shade);
        icon.push(shade);
        icon.push(shade);
        icon.push(255);
        assert forall|i: int| 4 * p <= i < 4 * p + 4 implies icon@[i] == default_icon_byte(i) by {
            assert(i / 4 == p);
        }
        p = p + 1;
    }
    assert(icon@ =~= default_icon());
    icon
}

/// RGBA bytes from BGRA bytes: the first and third byte of each pixel change places.
pub open spec fn rgba_of_bgra(b: Seq<u8>) -> Seq<u8> {
    Seq::new(
        b.len(),
        |i: int|
            if i % 4 == 0 {
                b[i + 2]
            } else if i % 4 == 2 {
                b[i - 2]
            } else {
                b[i]
            },
    )
}

/// Convert BGRA pixel bytes to RGBA.
pub fn bgra_to_rgba(bgra: &Vec<u8>) -> (rgba: Vec<u8>)
    requires
        bgra@.len() % 4 == 0,
    ensures
        rgba@ == rgba_of_bgra(bgra@),
{
    let n = bgra.len();
    let mut out: Vec<u8> = Vec::new();
    let mut p: usize = 0;
    while p < n / 4
        invariant
            n == bgra@.len(),
            n % 4 == 0,
            p <= n / 4,
            out@.len() == 4 * p,
            forall|i: int| 0 <= i < 4 * p ==> out@[i] == rgba_of_bgra(bgra@)[i],
        decreases n / 4 - p,
    {
        let k = 4 * p;
        out.push(bgra[k + 2]);
        out.push(bgra[k + 1]);
        out.push(bgra[k]);
        out.push(bgra[k + 3]);
        p = p + 1;
    }
    assert(out@ =~= rgba_of_bgra(bgra@));
    out
}

/// Pixel of the source image that pixel `p` of the resized image takes
/// (nearest neighbour, rounding down).
pub open spec fn resize_source_pixel(sw: int, sh: int, dw: int, dh: int, p: int) -> int {
    ((p / dw) * sh / dh) * sw + (p % dw) * sw / dw
}

/// Nearest-neighbour resize of RGBA pixel bytes.
pub open spec fn resized_icon(src: Seq<u8>, sw: int, sh: int, dw: int, dh: int) -> Seq<u8> {
    Seq::new(
        (dw * dh * 4) as nat,
        |i: int| src[resize_source_pixel(sw, sh, dw, dh, i / 4) * 4 + i % 4],
    )
}

proof fn lemma_resize_source_in_bounds(sw: int, sh: int, dw: int, dh: int, p: int)
    requires
        sw > 0,
        sh > 0,
        dw > 0,
        dh > 0,
        0 <= p < dw * dh,
    ensures
        0 <= (p % dw) * sw / dw < sw,
        0 <= (p / dw) * sh / dh < sh,
        0 <= resize_source_pixel(sw, sh, dw, dh, p) < sw * sh,
{
    let x = p % dw;
    let y = p / dw;
    assert(0 <= x < dw);
    vstd::arithmetic::div_mod::lemma_div_pos_is_pos(p, dw);
    vstd::arithmetic::div_mod::lemma_multiply_divide_lt(p, dw, dh);
    assert(0 <= y < dh);
    assert(x * sw < dw * sw) by (nonlinear_arith)
        requires
            0 <= x < dw,
            sw > 0,
    ;
    assert(0 <= x * sw) by (nonlinear_arith)
        requires
            0 <= x,
            sw > 0,
    ;
    vstd::arithmetic::div_mod::lemma_multiply_divide_lt(x * sw, dw, sw);
    vstd::arithmetic::div_mod::lemma_div_pos_is_pos(x * sw, dw);
    assert(y * sh < dh * sh) by (nonlinear_arith)
        requires
            0 <= y < dh,
            sh > 0,
    ;
    assert(0 <= y * sh) by (nonlinear_arith)
        requires
            0 <= y,
            sh > 0,
    ;
    vstd::arithmetic::div_mod::lemma_multiply_divide_lt(y * sh, dh, sh);
    vstd::arithmetic::div_mod::lemma_div_pos_is_pos(y * sh, dh);
    let a = y * sh / dh;
    let b = x * sw / dw;
    assert(0 <= a * sw + b < sw * sh) by (nonlinear_arith)
        requires
            0 <= a < sh,
            0 <= b < sw,
            sw > 0,
    ;
}

/// Nearest-neighbour resize of RGBA pixel data.
pub fn resize_icon_simple(
    src: &[u8],
    src_width: usize,
    src_height: usize,
    dst_width: usize,
    dst_height: usize,
) -> (dst: Vec<u8>)
    requires
        src_width > 0,
        src_height > 0,
        dst_width > 0,
        dst_height > 0,
        src@.len() == src_width * src_height * 4,
        dst_width * dst_height * 4 <= usize::MAX,
        dst_width * src_width <= usize::MAX,
        dst_height * src_height <= usize::MAX,
    ensures
        dst@ == resized_icon(
            src@,
            src_width as int,
            src_height as int,
            dst_width as int,
            dst_height as int,
        ),
{
    let ghost spec_dst = resized_icon(
        src@,
        src_width as int,
        src_height as int,
        dst_width as int,
        dst_height as int,
    );
    assert(dst_width * dst_height <= dst_width * dst_height * 4) by (nonlinear_arith)
        requires
            dst_width > 0,
            dst_height > 0,
    ;
    let src_len = src.len();
    let pixels = dst_width * dst_height;
    let mut dst: Vec<u8> = Vec::new();
    let mut p: usize = 0;
    while p < pixels
        invariant
            pixels == dst_width * dst_height,
            4 * pixels <= usize::MAX,
            src_width > 0,
            src_height > 0,
            dst_width > 0,
            dst_height > 0,
            src@.len() == src_width * src_height * 4,
            src_len == src@.len(),
            dst_width * src_width <= usize::MAX,
            dst_height * src_height <= usize::MAX,
            spec_dst == resized_icon(
                src@,
                src_width as int,
                src_height as int,
                dst_width as int,
                dst_height as int,
            ),
            spec_dst.len() == 4 * pixels,
            p <= pixels,
            dst@.len() == 4 * p,
            forall|i: int| 0 <= i < 4 * p ==> dst@[i] == spec_dst[i],
        decreases pixels - p,
    {
        let x = p % dst_width;
        let y = p / dst_width;
        proof {
            lemma_resize_source_in_bounds(
                src_width as int,
                src_height as int,
                dst_width as int,
                dst_height as int,
                p as int,
            );
            assert(x * src_width <= dst_width * src_width) by (nonlinear_arith)
                requires
                    x < dst_width,
            ;
            vstd::arithmetic::div_mod::lemma_multiply_divide_lt(p as int, dst_width as int, dst_height as int);
            assert(y * src_height <= dst_height * src_height) by (nonlinear_arith)
                requires
                    y < dst_height,
            ;
        }
        let src_x = (x * src_width) / dst_width;
        let src_y = (y * src_height) / dst_height;
        proof {
            assert(src_y * src_width + src_x == resize_source_pixel(
                src_width as int,
                src_height as int,
                dst_width as int,
                dst_height as int,
                p as int,
            ));
            assert(src_y * src_width + src_x < src_width * src_height);
            assert(0 <= src_y * src_width <= src_y * src_width + src_x);
            assert(src_width * src_height * 4 == 4 * (src_width * src_height)) by (nonlinear_arith);
        }
        let src_idx = (src_y * src_width + src_x) * 4;
        dst.push(src[src_idx]);
        dst.push(src[src_idx + 1]);
        dst.push(src[src_idx + 2]);
        dst.push(src[src_idx + 3]);
        assert forall|i: int| 4 * p <= i < 4 * p + 4 implies dst@[i] == spec_dst[i] by {
            assert(i / 4 == p);
        }
        p = p + 1;
    }
    assert(dst@ =~= spec_dst);
    dst
}

/// The icon from a BGRA bitmap: converted to RGBA, then resized to 32x32 when
/// it has another size.
pub open spec fn bitmap_icon(bgra: Seq<u8>, width: int, height: int) -> Seq<u8> {
    if width == 32 && height == 32 {
        rgba_of_bgra(bgra)
    } else {
        resized_icon(rgba_of_bgra(bgra), width, height, 32, 32)
    }
}

/// A bitmap that the conversion accepts: not empty, of the size its
/// dimensions give, and small enough for the index arithmetic.
pub open spec fn valid_bitmap(len: int, width: int, height: int) -> bool {
    &&& width > 0
    &&& height > 0
    &&& len == width * height * 4
    &&& 32 * width <= usize::MAX
    &&& 32 * height <= usize::MAX
}

/// Convert the color bitmap of an icon (BGRA, top-down) to a 32x32 RGBA icon.
pub fn bitmap_to_rgba_icon(bgra: &Vec<u8>, width: usize, height: usize) -> (icon: Vec<u8>)
    requires
        valid_bitmap(bgra@.len() as int, width as int, height as int),
    ensures
        icon@ == bitmap_icon(bgra@, width as int, height as int),
{
    assert(bgra@.len() % 4 == 0) by (nonlinear_arith)
        requires
            bgra@.len() == width * height * 4,
    ;
    let rgba = bgra_to_rgba(bgra);
    if width != ICON_SIZE || height != ICON_SIZE {
        resize_icon_simple(rgba.as_slice(), width, height, ICON_SIZE, ICON_SIZE)
    } else {
        rgba
    }
}

/// What the shell gave for an executable's icon.
#[derive(Debug)]
pub enum IconSource {
    /// Icon extraction is not available on this platform
    Unsupported,
    /// No icon could be read (both shell calls or the bitmap conversion failed)
    NotFound,
    /// The color bitmap of the icon: BGRA bytes, top-down
    Bitmap { bgra: Vec<u8>, width: usize, height: usize },
}

/// An icon source that the conversion accepts.
pub open spec fn valid_icon_source(source: IconSource) -> bool {
    match source {
        IconSource::Bitmap { bgra, width, height } => valid_bitmap(
            bgra@.len() as int,
            width as int,
            height as int,
        ),
        _ => true,
    }
}

/// The icon extracted from a source: nothing where extraction is not
/// available or no icon could be read, else the converted bitmap.
pub open spec fn extracted_icon(source: IconSource) -> Seq<u8> {
    match source {
        IconSource::Unsupported => Seq::empty(),
        IconSource::NotFound => Seq::empty(),
        IconSource::Bitmap { bgra, width, height } => bitmap_icon(
            bgra@,
            width as int,
            height as int,
        ),
    }
}

/// Extract the icon of an executable from what the shell gave: 32x32 RGBA
/// bytes, or an empty vector when extraction failed or is not available.
pub fn extract_icon_from_exe(source: IconSource) -> (r: Result<Vec<u8>, EasyHdrError>)
    requires
        valid_icon_source(source),
    ensures
        r is Ok,
        r->Ok_0@ == extracted_icon(source),
{
    match source {
        IconSource::Unsupported => Ok(Vec::new()),
        IconSource::NotFound => Ok(Vec::new()),
        IconSource::Bitmap { bgra, width, height } => Ok(bitmap_to_rgba_icon(&bgra, width, height)),
    }
}

/// Path separators on Windows.
pub open spec fn is_separator(c: char) -> bool {
    c == '\\' || c == '/'
}

/// A path without trailing separators.
pub open spec fn trim_trailing_separators(s: Seq<char>) -> Seq<char>
    decreases s.len(),
{
    if s.len() > 0 && is_separator(s.last()) {
        trim_trailing_separators(s.drop_last())
    } else {
        s
    }
}

/// Position of the last separator, or -1.
pub open spec fn last_separator(s: Seq<char>) -> int
    decreases s.len(),
{
    if s.len() == 0 {
        -1
    } else if is_separator(s.last()) {
        s.len() - 1
    } else {
        last_separator(s.drop_last())
    }
}

/// The file name of a path: its last component; none when that is empty, `.`
/// or `..`.
pub open spec fn file_name_of(path: Seq<char>) -> Option<Seq<char>> {
    let t = trim_trailing_separators(path);
    let name = t.skip(last_separator(t) + 1);
    if name.len() == 0 || name == "."@ || name == ".."@ {
        None
    } else {
        Some(name)
    }
}

/// The stem of a file name: what precedes its last dot, unless that dot is the
/// first character.
pub open spec fn stem_of(name: Seq<char>) -> Seq<char> {
    let d = last_index_of(name, '.');
    if d > 0 {
        name.take(d)
    } else {
        name
    }
}

/// The file stem of a path (file name without extension), if it has a file name.
pub open spec fn file_stem(path: Seq<char>) -> Option<Seq<char>> {
    match file_name_of(path) {
        Some(name) => Some(stem_of(name)),
        None => None,
    }
}

/// The name shown when a path has no file name.
pub open spec fn unknown_application() -> Seq<char> {
    "Unknown Application"@
}

/// The file name fallback for a display name.
pub open spec fn filename_fallback(path: Seq<char>) -> Seq<char> {
    match file_stem(path) {
        Some(stem) => stem,
        None => unknown_application(),
    }
}

proof fn lemma_last_separator(s: Seq<char>)
    ensures
        -1 <= last_separator(s) < s.len(),
        last_separator(s) >= 0 ==> is_separator(s[last_separator(s)]),
        forall|j: int| last_separator(s) < j < s.len() ==> !is_separator(s[j]),
    decreases s.len(),
{
    if s.len() > 0 && !is_separator(s.last()) {
        let t = s.drop_last();
        lemma_last_separator(t);
        assert forall|j: int| last_separator(s) < j < s.len() implies !is_separator(s[j]) by {
            if j < s.len() - 1 {
                assert(s[j] == t[j]);
            }
        }
    }
}

/// The file stem of a path, as characters.
pub fn file_stem_chars(path: &str) -> (stem: Option<Vec<char>>)
    ensures
        match file_stem(path@) {
            Some(s) => stem matches Some(v) && v@ == s,
            None => stem is None,
        },
{
    let chars = chars_of(path);
    let mut end: usize = chars.len();
    assert(chars@.take(end as int) =~= chars@);
    while end > 0 && (chars[end - 1] == '\\' || chars[end - 1] == '/')
        invariant
            end <= chars@.len(),
            chars@ == path@,
            trim_trailing_separators(path@) == trim_trailing_separators(chars@.take(end as int)),
        decreases end,
    {
        assert(chars@.take(end as int).drop_last() =~= chars@.take(end - 1));
        end = end - 1;
    }
    let trimmed = sub_chars(&chars, 0, end);
    assert(trimmed@ =~= chars@.take(end as int));
    assert(trim_trailing_separators(trimmed@) == trimmed@);
    let ghost t = trimmed@;
    let mut start: usize = trimmed.len();
    assert(t.take(start as int) =~= t);
    while start > 0 && !(trimmed[start - 1] == '\\' || trimmed[start - 1] == '/')
        invariant
            start <= t.len(),
            t == trimmed@,
            last_separator(t) == last_separator(t.take(start as int)),
        decreases start,
    {
        assert(t.take(start as int).drop_last() =~= t.take(start - 1));
        start = start - 1;
    }
    proof {
        if start > 0 {
            assert(t.take(start as int).last() == t[start - 1]);
        }
    }
    assert(last_separator(t) + 1 == start);
    let name = sub_chars(&trimmed, start, trimmed.len());
    assert(name@ =~= t.skip(start as int));
    let n = name.len();
    proof {
        assert(trim_trailing_separators(path@) == t);
    }
    if n == 0 || (n == 1 && name[0] == '.') || (n == 2 && name[0] == '.' && name[1] == '.') {
        proof {
            reveal_strlit(".");
            reveal_strlit("..");
            if n == 1 {
                assert(name@ =~= "."@);
            }
            if n == 2 {
                assert(name@ =~= ".."@);
            }
        }
        return None;
    }
    proof {
        reveal_strlit(".");
        reveal_strlit("..");
        if name@ == "."@ {
            assert(name@[0] == '.');
        }
        if name@ == ".."@ {
            assert(name@[0] == '.' && name@[1] == '.');
        }
        lemma_last_index_of(name@, '.');
    }
    match rfind_char(&name, '.') {
        Some(d) => {
            if d > 0 {
                Some(sub_chars(&name, 0, d))
            } else {
                assert(name@.take(n as int) =~= name@);
                Some(name)
            }
        },
        None => Some(name),
    }
}

/// File name without extension, or "Unknown Application" when the path has
/// no file name.
pub fn get_filename_fallback(path: &str) -> (name: String)
    ensures
        name@ == filename_fallback(path@),
{
    match file_stem_chars(path) {
        Some(stem) => string_from_chars(stem.as_slice()),
        None => String::from_str("Unknown Application"),
    }
}

/// The first file description among the queried values that decodes
/// (NUL-terminated UTF-16) to a non-empty text.
pub open spec fn first_description(values: Seq<Seq<u16>>) -> Option<Seq<char>>
    decreases values.len(),
{
    if values.len() == 0 {
        None
    } else {
        match utf16_text(nul_prefix(values[0])) {
            Some(t) if t.len() > 0 => Some(t),
            _ => first_description(values.drop_first()),
        }
    }
}

/// The display name of an executable: its first usable file description, or
/// its file name without extension.
pub open spec fn display_name_of(path: Seq<char>, descriptions: Seq<Seq<u16>>) -> Seq<char> {
    match first_description(descriptions) {
        Some(d) => d,
        None => filename_fallback(path),
    }
}

/// Extract the display name of an executable. `descriptions` holds the
/// `FileDescription` values read from its version information, in the order of
/// the language/code page combinations tried (English (US), English (US)
/// Unicode, language neutral); the file name is the fallback.
pub fn extract_display_name_from_exe(path: &str, descriptions: &Vec<Vec<u16>>) -> (r: Result<
    String,
    EasyHdrError,
>)
    ensures
        r is Ok,
        r->Ok_0@ == display_name_of(path@, descriptions@.map_values(|v: Vec<u16>| v@)),
{
    let ghost all = descriptions@.map_values(|v: Vec<u16>| v@);
    assert(all.skip(0) =~= all);
    let mut i: usize = 0;
    while i < descriptions.len()
        invariant
            i <= descriptions@.len(),
            all == descriptions@.map_values(|v: Vec<u16>| v@),
            first_description(all) == first_description(all.skip(i as int)),
        decreases descriptions@.len() - i,
    {
        let ghost rest = all.skip(i as int);
        assert(rest[0] == descriptions@[i as int]@);
        assert(rest.drop_first() =~= all.skip(i + 1));
        match extract_process_name(descriptions[i].as_slice()) {
            Some(text) => {
                if !text.as_str().is_empty() {
                    return Ok(text);
                }
            },
            None => {},
        }
        i = i + 1;
    }
    Ok(get_filename_fallback(path))
}

} // verus!
