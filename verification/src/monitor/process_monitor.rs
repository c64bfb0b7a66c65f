//! Process monitoring: which monitored applications started or stopped.
//!
//! Processes are matched by executable file name only (lowercase, without path
//! or extension) for Win32 applications and by package family name for UWP
//! applications. The process snapshot itself is taken by the caller.

use crate::config::models::{MonitoredApp, MonitoredAppView};
use crate::text::{
    ascii_case_eq, chars_of, concat, eq_ignore_ascii_case, last_index_of, lemma_last_index_of,
    ascii_lowercase_text, is_ascii_text, lowercase_text, rfind_char, string_from_chars, sub_chars,
    to_lowercase,
};
use vstd::prelude::*;

verus! {

/// Identifier of a monitored application.
#[derive(Debug)]
pub enum AppIdentifier {
    /// Win32 application, by process name (lowercase, no extension)
    Win32(String),
    /// UWP application, by package family name
    Uwp(String),
}

/// The value of an application identifier.
pub enum AppIdentifierView {
    Win32(Seq<char>),
    Uwp(Seq<char>),
}

impl View for AppIdentifier {
    type V = AppIdentifierView;

    open spec fn view(&self) -> AppIdentifierView {
        match self {
            AppIdentifier::Win32(n) => AppIdentifierView::Win32(n@),
            AppIdentifier::Uwp(n) => AppIdentifierView::Uwp(n@),
        }
    }
}

impl DeepView for AppIdentifier {
    type V = AppIdentifierView;

    open spec fn deep_view(&self) -> AppIdentifierView {
        self@
    }
}

impl Clone for AppIdentifier {
    fn clone(&self) -> (r: Self)
        ensures
            r@ == self@,
    {
        match self {
            AppIdentifier::Win32(n) => AppIdentifier::Win32(n.clone()),
            AppIdentifier::Uwp(n) => AppIdentifier::Uwp(n.clone()),
        }
    }
}

/// Text shown for an identifier: "Win32: name" or "UWP: family name".
pub open spec fn identifier_text(id: AppIdentifierView) -> Seq<char> {
    match id {
        AppIdentifierView::Win32(n) => "Win32: "@ + n,
        AppIdentifierView::Uwp(n) => "UWP: "@ + n,
    }
}

impl AppIdentifier {
    /// Whether two identifiers are equal.
    pub fn same_as(&self, other: &AppIdentifier) -> (r: bool)
        ensures
            r == (self@ == other@),
    {
        match (self, other) {
            (AppIdentifier::Win32(a), AppIdentifier::Win32(b)) => *a == *b,
            (AppIdentifier::Uwp(a), AppIdentifier::Uwp(b)) => *a == *b,
            _ => false,
        }
    }

    /// Text shown for the identifier.
    pub fn to_display_string(&self) -> (s: String)
        ensures
            s@ == identifier_text(self@),
    {
        match self {
            AppIdentifier::Win32(n) => concat("Win32: ", n.as_str()),
            AppIdentifier::Uwp(n) => concat("UWP: ", n.as_str()),
        }
    }
}

/// Events emitted by the process monitor
#[derive(Debug)]
pub enum ProcessEvent {
    /// A monitored process has started
    Started(AppIdentifier),
    /// A monitored process has stopped
    Stopped(AppIdentifier),
}

/// The value of a process event.
pub enum ProcessEventView {
    Started(AppIdentifierView),
    Stopped(AppIdentifierView),
}

impl View for ProcessEvent {
    type V = ProcessEventView;

    open spec fn view(&self) -> ProcessEventView {
        match self {
            ProcessEvent::Started(id) => ProcessEventView::Started(id@),
            ProcessEvent::Stopped(id) => ProcessEventView::Stopped(id@),
        }
    }
}

impl DeepView for ProcessEvent {
    type V = ProcessEventView;

    open spec fn deep_view(&self) -> ProcessEventView {
        self@
    }
}

/// The identifier under which an application is watched: the lowercase process
/// name for Win32 applications, the package family name for UWP applications.
pub open spec fn watch_identifier(app: MonitoredAppView) -> AppIdentifierView {
    match app {
        MonitoredAppView::Win32(a) => AppIdentifierView::Win32(lowercase_text(a.process_name)),
        MonitoredAppView::Uwp(a) => AppIdentifierView::Uwp(a.package_family_name),
    }
}

/// Some application of the list is watched under the identifier.
pub open spec fn watched_by(apps: Seq<MonitoredAppView>, id: AppIdentifierView) -> bool {
    exists|i: int| 0 <= i < apps.len() && watch_identifier(#[trigger] apps[i]) == id
}

/// Watched applications with their identifiers. The identifiers are those of
/// the applications, each once.
pub struct WatchState {
    /// Monitored applications
    pub apps: Vec<MonitoredApp>,
    /// Identifiers of the monitored applications, without repetition
    pub identifiers: Vec<AppIdentifier>,
}

impl WatchState {
    /// The identifiers are exactly those of the applications, each once.
    pub open spec fn well_formed(&self) -> bool {
        &&& self.identifiers.deep_view().no_duplicates()
        &&& forall|id: AppIdentifierView|
            #![trigger self.identifiers.deep_view().contains(id)]
            self.identifiers.deep_view().contains(id) <==> watched_by(self.apps.deep_view(), id)
    }

    /// An empty watch state.
    pub fn new() -> (w: WatchState)
        ensures
            w.well_formed(),
            w.apps@.len() == 0,
            w.identifiers@.len() == 0,
    {
        WatchState { apps: Vec::new(), identifiers: Vec::new() }
    }

    /// The watch state for a list of applications.
    pub fn from_apps(apps: Vec<MonitoredApp>) -> (w: WatchState)
        ensures
            w.well_formed(),
            w.apps.deep_view() == apps.deep_view(),
    {
        let mut identifiers: Vec<AppIdentifier> = Vec::new();
        let mut i: usize = 0;
        while i < apps.len()
            invariant
                i <= apps@.len(),
                identifiers.deep_view().no_duplicates(),
                forall|id: AppIdentifierView|
                    #![trigger identifiers.deep_view().contains(id)]
                    identifiers.deep_view().contains(id) <==> watched_by(
                        apps.deep_view().take(i as int),
                        id,
                    ),
            decreases apps@.len() - i,
        {
            let id = match &apps[i] {
                MonitoredApp::Win32(a) => AppIdentifier::Win32(to_lowercase(a.process_name.as_str())),
                MonitoredApp::Uwp(a) => AppIdentifier::Uwp(a.package_family_name.clone()),
            };
            let ghost prefix = apps.deep_view().take(i as int);
            let ghost next = apps.deep_view().take(i + 1);
            assert(next =~= prefix.push(apps.deep_view()[i as int]));
            assert(id@ == watch_identifier(apps.deep_view()[i as int]));
            assert forall|x: AppIdentifierView| watched_by(next, x) <==> (watched_by(prefix, x) || x == id@) by {
                if watched_by(next, x) {
                    let k = choose|k: int| 0 <= k < next.len() && watch_identifier(#[trigger] next[k]) == x;
                    if k < prefix.len() {
                        assert(prefix[k] == next[k]);
                    }
                }
                if watched_by(prefix, x) {
                    let k = choose|k: int| 0 <= k < prefix.len() && watch_identifier(#[trigger] prefix[k]) == x;
                    assert(next[k] == prefix[k]);
                }
                if x == id@ {
                    assert(watch_identifier(next[i as int]) == x);
                }
            }
            let ghost before = identifiers.deep_view();
            let ghost idv = id@;
            if !contains_identifier(&identifiers, &id) {
                identifiers.push(id);
                assert(identifiers.deep_view() =~= before.push(idv));
                assert forall|x: AppIdentifierView| #[trigger] identifiers.deep_view().contains(x) <==> (before.contains(x) || x == idv) by {
                    if identifiers.deep_view().contains(x) {
                        let k = choose|k: int| 0 <= k < identifiers.deep_view().len() && identifiers.deep_view()[k] == x;
                        if k < before.len() {
                            assert(before[k] == x);
                        }
                    }
                    if before.contains(x) {
                        let k = choose|k: int| 0 <= k < before.len() && before[k] == x;
                        assert(identifiers.deep_view()[k] == x);
                    }
                    if x == idv {
                        assert(identifiers.deep_view()[before.len() as int] == x);
                    }
                }
            }
            assert forall|x: AppIdentifierView| #[trigger] identifiers.deep_view().contains(x) <==> watched_by(next, x) by {
            }
            i = i + 1;
        }
        assert(apps.deep_view().take(i as int) =~= apps.deep_view());
        WatchState { apps, identifiers }
    }

    /// Whether an identifier is watched.
    pub fn is_watched(&self, id: &AppIdentifier) -> (r: bool)
        ensures
            r == self.identifiers.deep_view().contains(id@),
    {
        contains_identifier(&self.identifiers, id)
    }
}

/// Whether a list of identifiers holds the identifier.
pub fn contains_identifier(ids: &Vec<AppIdentifier>, id: &AppIdentifier) -> (r: bool)
    ensures
        r == ids.deep_view().contains(id@),
{
    let mut i: usize = 0;
    while i < ids.len()
        invariant
            i <= ids@.len(),
            forall|j: int| 0 <= j < i ==> ids.deep_view()[j] != id@,
        decreases ids@.len() - i,
    {
        if ids[i].same_as(id) {
            assert(ids.deep_view()[i as int] == id@);
            return true;
        }
        i = i + 1;
    }
    false
}

/// The file part of a path: what follows the last backslash, or when there is
/// none the last slash, or the whole path.
pub open spec fn file_part(path: Seq<char>) -> Seq<char> {
    let b = last_index_of(path, '\\');
    if b >= 0 {
        path.skip(b + 1)
    } else {
        let f = last_index_of(path, '/');
        if f >= 0 {
            path.skip(f + 1)
        } else {
            path
        }
    }
}

/// A file name without its extension: what precedes the last dot, or the whole
/// name when there is no dot.
pub open spec fn without_extension(name: Seq<char>) -> Seq<char> {
    let d = last_index_of(name, '.');
    if d >= 0 {
        name.take(d)
    } else {
        name
    }
}

/// The process key of an executable path: its file name without extension, in
/// lowercase.
pub open spec fn process_key(path: Seq<char>) -> Seq<char> {
    lowercase_text(without_extension(file_part(path)))
}

/// The file stem of an ASCII path is ASCII.
proof fn lemma_ascii_stem(path: Seq<char>)
    requires
        is_ascii_text(path),
    ensures
        is_ascii_text(without_extension(file_part(path))),
{
    lemma_last_index_of(path, '\\');
    lemma_last_index_of(path, '/');
    let file = file_part(path);
    let b = last_index_of(path, '\\');
    let f = last_index_of(path, '/');
    assert forall|i: int| 0 <= i < file.len() implies (#[trigger] file[i] as u32) < 128 by {
        if b >= 0 {
            assert(file[i] == path[b + 1 + i]);
        } else if f >= 0 {
            assert(file[i] == path[f + 1 + i]);
        } else {
            assert(file[i] == path[i]);
        }
    }
    lemma_last_index_of(file, '.');
    let stem = without_extension(file);
    assert forall|i: int| 0 <= i < stem.len() implies (#[trigger] stem[i] as u32) < 128 by {
        assert(stem[i] == file[i]);
    }
}

/// Extract the file name without extension from a path and convert it to lowercase.
pub fn extract_filename_without_extension(path: &str) -> (name: String)
    ensures
        name@ == process_key(path@),
        is_ascii_text(path@) ==> name@ == ascii_lowercase_text(without_extension(file_part(path@))),
{
    let chars = chars_of(path);
    proof {
        lemma_last_index_of(path@, '\\');
        lemma_last_index_of(path@, '/');
    }
    let file: Vec<char> = match rfind_char(&chars, '\\') {
        Some(pos) => {
            let n = chars.len();
            assert(pos < n);
            sub_chars(&chars, pos + 1, n)
        },
        None => match rfind_char(&chars, '/') {
            Some(pos) => {
                assert(pos < chars.len());
                sub_chars(&chars, pos + 1, chars.len())
            },
            None => chars,
        },
    };
    assert(file@ =~= file_part(path@));
    proof {
        lemma_last_index_of(file_part(path@), '.');
    }
    let stem: Vec<char> = match rfind_char(&file, '.') {
        Some(pos) => sub_chars(&file, 0, pos),
        None => file,
    };
    assert(stem@ =~= without_extension(file_part(path@)));
    proof {
        if is_ascii_text(path@) {
            lemma_ascii_stem(path@);
        }
    }
    let stem_text = string_from_chars(stem.as_slice());
    to_lowercase(stem_text.as_str())
}

/// Whether a UTF-16 code unit is a leading (high) surrogate.
pub open spec fn is_high_surrogate(u: u16) -> bool {
    0xD800 <= u <= 0xDBFF
}

/// Whether a UTF-16 code unit is a trailing (low) surrogate.
pub open spec fn is_low_surrogate(u: u16) -> bool {
    0xDC00 <= u <= 0xDFFF
}

/// The text that UTF-16 code units encode, or `None` when they are not valid
/// UTF-16: a unit outside the surrogate range is a character by itself, a
/// high surrogate followed by a low one encodes the character
/// 0x10000 + (high - 0xD800) * 0x400 + (low - 0xDC00), and any other surrogate
/// makes the text invalid.
pub open spec fn utf16_text(units: Seq<u16>) -> Option<Seq<char>>
    decreases units.len(),
{
    if units.len() == 0 {
        Some(Seq::empty())
    } else if !is_high_surrogate(units[0]) && !is_low_surrogate(units[0]) {
        match utf16_text(units.drop_first()) {
            Some(rest) => Some(seq![units[0] as char] + rest),
            None => None,
        }
    } else if is_high_surrogate(units[0]) && units.len() >= 2 && is_low_surrogate(units[1]) {
        let c = 0x10000 + (units[0] - 0xD800) * 0x400 + (units[1] - 0xDC00);
        match utf16_text(units.subrange(2, units.len() as int)) {
            Some(rest) => Some(seq![c as char] + rest),
            None => None,
        }
    } else {
        None
    }
}

/// Decodes UTF-16 code units (`String::from_utf16`): the text they encode, or
/// `None` when they are not valid UTF-16.
#[verifier::external_body]
fn decode_utf16(units: &[u16]) -> (r: Option<String>)
    ensures
        match r {
            Some(s) => utf16_text(units@) == Some(s@),
            None => utf16_text(units@) is None,
        },
{
    String::from_utf16(units).ok()
}

/// Position of the first zero unit, or the length when there is none.
pub open spec fn first_zero(units: Seq<u16>) -> int
    decreases units.len(),
{
    if units.len() == 0 {
        0
    } else if units[0] == 0 {
        0
    } else {
        1 + first_zero(units.drop_first())
    }
}

/// The units before the first zero unit (a NUL-terminated name).
pub open spec fn nul_prefix(units: Seq<u16>) -> Seq<u16> {
    units.take(first_zero(units))
}

proof fn lemma_first_zero(units: Seq<u16>)
    ensures
        0 <= first_zero(units) <= units.len(),
        first_zero(units) < units.len() ==> units[first_zero(units)] == 0,
        forall|j: int| 0 <= j < first_zero(units) ==> units[j] != 0,
    decreases units.len(),
{
    if units.len() > 0 && units[0] != 0 {
        let t = units.drop_first();
        lemma_first_zero(t);
        assert forall|j: int| 0 <= j < first_zero(units) implies units[j] != 0 by {
            if j > 0 {
                assert(units[j] == t[j - 1]);
            }
        }
    }
}

proof fn lemma_first_zero_at(units: Seq<u16>, k: int)
    requires
        0 <= k <= units.len(),
        forall|j: int| 0 <= j < k ==> units[j] != 0,
        k == units.len() || units[k] == 0,
    ensures
        first_zero(units) == k,
    decreases units.len(),
{
    if units.len() > 0 && units[0] != 0 {
        let t = units.drop_first();
        assert forall|j: int| 0 <= j < k - 1 implies t[j] != 0 by {
            assert(t[j] == units[j + 1]);
        }
        if k < units.len() {
            assert(t[k - 1] == units[k]);
        }
        lemma_first_zero_at(t, k - 1);
    }
}

/// The process name in a NUL-terminated UTF-16 executable name, or `None` when
/// it is not valid UTF-16.
pub fn extract_process_name(sz_exe_file: &[u16]) -> (name: Option<String>)
    ensures
        match name {
            Some(s) => utf16_text(nul_prefix(sz_exe_file@)) == Some(s@),
            None => utf16_text(nul_prefix(sz_exe_file@)) is None,
        },
{
    let mut prefix: Vec<u16> = Vec::new();
    let mut i: usize = 0;
    while i < sz_exe_file.len() && sz_exe_file[i] != 0
        invariant
            i <= sz_exe_file@.len(),
            prefix@ == sz_exe_file@.take(i as int),
            forall|j: int| 0 <= j < i ==> sz_exe_file@[j] != 0,
        decreases sz_exe_file@.len() - i,
    {
        prefix.push(sz_exe_file[i]);
        assert(sz_exe_file@.take(i + 1) =~= sz_exe_file@.take(i as int).push(sz_exe_file@[i as int]));
        i = i + 1;
    }
    proof {
        lemma_first_zero_at(sz_exe_file@, i as int);
    }
    decode_utf16(prefix.as_slice())
}

/// The Win32 identifier of a process from its NUL-terminated executable name.
pub fn extract_win32_app_identifier(sz_exe_file: &[u16]) -> (id: Option<AppIdentifier>)
    ensures
        match utf16_text(nul_prefix(sz_exe_file@)) {
            Some(name) => id matches Some(i) && i@ == AppIdentifierView::Win32(process_key(name)),
            None => id is None,
        },
{
    match extract_process_name(sz_exe_file) {
        Some(name) => Some(AppIdentifier::Win32(extract_filename_without_extension(name.as_str()))),
        None => None,
    }
}

/// Some enabled application of the list matches the identifier: a Win32
/// application whose process name equals the name ignoring ASCII case, or a UWP
/// application with the same package family name.
pub open spec fn monitored(apps: Seq<MonitoredAppView>, id: AppIdentifierView) -> bool {
    exists|i: int| 0 <= i < apps.len() && #[trigger] matches_app(apps[i], id)
}

/// An enabled application matches an identifier.
pub open spec fn matches_app(app: MonitoredAppView, id: AppIdentifierView) -> bool {
    match (app, id) {
        (MonitoredAppView::Win32(a), AppIdentifierView::Win32(n)) => a.enabled && ascii_case_eq(
            a.process_name,
            n,
        ),
        (MonitoredAppView::Uwp(a), AppIdentifierView::Uwp(n)) => a.enabled && a.package_family_name
            == n,
        _ => false,
    }
}

/// The identifier was not in the previous snapshot and is monitored.
pub open spec fn newly_started(
    prev: Seq<AppIdentifierView>,
    apps: Seq<MonitoredAppView>,
) -> spec_fn(AppIdentifierView) -> bool {
    |x: AppIdentifierView| !prev.contains(x) && monitored(apps, x)
}

/// The events for a change of the running set: a start for each monitored
/// identifier that is running now and was not before (in the order of the new
/// snapshot), then a stop for each monitored identifier that was running and is
/// not any more (in the order of the old snapshot).
pub open spec fn change_events(
    prev: Seq<AppIdentifierView>,
    current: Seq<AppIdentifierView>,
    apps: Seq<MonitoredAppView>,
) -> Seq<ProcessEventView> {
    current.filter(newly_started(prev, apps)).map_values(
        |x: AppIdentifierView| ProcessEventView::Started(x),
    ) + prev.filter(newly_started(current, apps)).map_values(
        |x: AppIdentifierView| ProcessEventView::Stopped(x),
    )
}

/// One running process, as seen in a snapshot.
#[derive(Debug)]
pub struct ProcessEntry {
    /// Process ID
    pub pid: u32,
    /// Executable file name, NUL-terminated UTF-16
    pub exe_file: Vec<u16>,
    /// Package family name when the process belongs to a UWP package
    pub uwp_family: Option<String>,
}

/// The identifier of a process entry: its package family name when it belongs to
/// a UWP package, else the process key of its executable name; none when the
/// name is not valid UTF-16.
pub open spec fn entry_identifier(e: ProcessEntry) -> Option<AppIdentifierView> {
    match e.uwp_family {
        Some(f) => Some(AppIdentifierView::Uwp(f@)),
        None => match utf16_text(nul_prefix(e.exe_file@)) {
            Some(name) => Some(AppIdentifierView::Win32(process_key(name))),
            None => None,
        },
    }
}

/// Time after which a cached identifier of a process ID is forgotten (PIDs are reused).
pub const CACHE_EXPIRY_NANOS: u64 = 5_000_000_000;

/// A cached process identifier.
#[derive(Debug)]
pub struct PidCacheEntry {
    /// Process ID
    pub pid: u32,
    /// Identifier found for it
    pub app_id: AppIdentifier,
    /// When it was last confirmed (nanoseconds)
    pub last_seen: u64,
}

/// A cache entry as values.
pub type CacheItem = (u32, AppIdentifierView, u64);

/// The cache as values.
pub open spec fn cache_view(c: Seq<PidCacheEntry>) -> Seq<CacheItem> {
    c.map_values(|e: PidCacheEntry| (e.pid, e.app_id@, e.last_seen))
}

/// No process ID has two entries in the cache.
pub open spec fn pids_unique(c: Seq<CacheItem>) -> bool {
    forall|i: int, j: int| #![trigger c[i], c[j]] 0 <= i < j < c.len() ==> c[i].0 != c[j].0
}

/// Time elapsed since an instant, zero when the instant is later.
pub open spec fn elapsed(since: u64, now: u64) -> int {
    if now >= since {
        now - since
    } else {
        0
    }
}

/// Whether a cache entry is still fresh.
pub open spec fn fresh(now: u64) -> spec_fn(CacheItem) -> bool {
    |e: CacheItem| elapsed(e.2, now) < CACHE_EXPIRY_NANOS
}

/// Index of the first cache entry for a process ID, or -1.
pub open spec fn find_pid(c: Seq<CacheItem>, pid: u32) -> int
    decreases c.len(),
{
    if c.len() == 0 {
        -1
    } else if c[0].0 == pid {
        0
    } else {
        let r = find_pid(c.drop_first(), pid);
        if r < 0 {
            -1
        } else {
            r + 1
        }
    }
}

/// The sequence with the element added when it is not in it yet.
pub open spec fn add_once(s: Seq<AppIdentifierView>, x: AppIdentifierView) -> Seq<AppIdentifierView> {
    if s.contains(x) {
        s
    } else {
        s.push(x)
    }
}

/// One process of a snapshot: a cached identifier is reused (and its entry
/// refreshed when it is watched); otherwise the identifier is derived from the
/// entry and cached. Watched identifiers are collected, each once.
pub open spec fn poll_step(
    state: (Seq<CacheItem>, Seq<AppIdentifierView>),
    e: ProcessEntry,
    now: u64,
    watched: Seq<AppIdentifierView>,
) -> (Seq<CacheItem>, Seq<AppIdentifierView>) {
    let (cache, current) = state;
    let k = find_pid(cache, e.pid);
    if k >= 0 {
        let id = cache[k].1;
        if watched.contains(id) {
            (cache.update(k, (e.pid, id, now)), add_once(current, id))
        } else {
            (cache, current)
        }
    } else {
        match entry_identifier(e) {
            Some(id) => (
                cache.push((e.pid, id, now)),
                if watched.contains(id) {
                    add_once(current, id)
                } else {
                    current
                },
            ),
            None => (cache, current),
        }
    }
}

/// The cache and the running watched identifiers after the processes of a snapshot.
pub open spec fn poll_fold(
    entries: Seq<ProcessEntry>,
    start: (Seq<CacheItem>, Seq<AppIdentifierView>),
    now: u64,
    watched: Seq<AppIdentifierView>,
) -> (Seq<CacheItem>, Seq<AppIdentifierView>)
    decreases entries.len(),
{
    if entries.len() == 0 {
        start
    } else {
        poll_step(poll_fold(entries.drop_last(), start, now, watched), entries.last(), now, watched)
    }
}


/// Typical number of processes on a Windows system (150-250).
pub const DEFAULT_PROCESS_COUNT: usize = 200;

/// The running-process estimate after a snapshot: a moving average weighing the
/// previous estimate three times and the snapshot size once.
pub open spec fn next_estimate(estimate: int, snapshot_len: int) -> int {
    (estimate * 3 + snapshot_len) / 4
}

/// Index of the first cache entry for a process ID, or `None`.
fn find_cached(cache: &Vec<PidCacheEntry>, pid: u32) -> (r: Option<usize>)
    ensures
        match r {
            Some(k) => k < cache@.len() && cache@[k as int].pid == pid && find_pid(
                cache_view(cache@),
                pid,
            ) == k as int,
            None => find_pid(cache_view(cache@), pid) == -1 && forall|j: int|
                0 <= j < cache@.len() ==> (#[trigger] cache@[j]).pid != pid,
        },
{
    let ghost c = cache_view(cache@);
    let mut i: usize = 0;
    while i < cache.len()
        invariant
            c == cache_view(cache@),
            i <= cache@.len(),
            forall|j: int| 0 <= j < i ==> (#[trigger] c[j]).0 != pid,
            forall|j: int| 0 <= j < i ==> (#[trigger] cache@[j]).pid != pid,
        decreases cache@.len() - i,
    {
        if cache[i].pid == pid {
            proof {
                lemma_find_pid_first(c, pid, i as int);
            }
            return Some(i);
        }
        i = i + 1;
    }
    proof {
        lemma_find_pid_first(c, pid, i as int);
    }
    None
}

proof fn lemma_find_pid_first(c: Seq<CacheItem>, pid: u32, k: int)
    requires
        0 <= k <= c.len(),
        forall|j: int| 0 <= j < k ==> (#[trigger] c[j]).0 != pid,
        k == c.len() || c[k].0 == pid,
    ensures
        find_pid(c, pid) == (if k < c.len() {
            k
        } else {
            -1
        }),
    decreases c.len(),
{
    if c.len() > 0 && c[0].0 != pid {
        let t = c.drop_first();
        assert forall|j: int| 0 <= j < k - 1 implies (#[trigger] t[j]).0 != pid by {
            assert(t[j] == c[j + 1]);
        }
        if k < c.len() {
            assert(t[k - 1] == c[k]);
        }
        lemma_find_pid_first(t, pid, k - 1);
    }
}

/// The identifier of a process entry (see `entry_identifier`).
fn entry_app_identifier(e: &ProcessEntry) -> (r: Option<AppIdentifier>)
    ensures
        match r {
            Some(id) => entry_identifier(*e) == Some(id@),
            None => entry_identifier(*e) is None,
        },
{
    match &e.uwp_family {
        Some(f) => Some(AppIdentifier::Uwp(f.clone())),
        None => extract_win32_app_identifier(e.exe_file.as_slice()),
    }
}

/// Adds an identifier to a list unless the list holds it already.
fn push_once(list: &mut Vec<AppIdentifier>, id: AppIdentifier)
    ensures
        final(list).deep_view() == add_once(old(list).deep_view(), id@),
{
    if !contains_identifier(list, &id) {
        let ghost before = list.deep_view();
        let ghost v = id@;
        list.push(id);
        assert(list.deep_view() =~= before.push(v));
    }
}

proof fn lemma_add_once_no_duplicates(s: Seq<AppIdentifierView>, x: AppIdentifierView)
    requires
        s.no_duplicates(),
    ensures
        add_once(s, x).no_duplicates(),
        forall|y: AppIdentifierView| #[trigger] add_once(s, x).contains(y) <==> (s.contains(y) || y == x),
{
    if !s.contains(x) {
        let t = s.push(x);
        assert forall|i: int, j: int| 0 <= i < j < t.len() implies t[i] != t[j] by {
            if j == s.len() {
                assert(s[i] == t[i]);
            }
        }
        assert forall|y: AppIdentifierView| #[trigger] t.contains(y) <==> (s.contains(y) || y == x) by {
            if t.contains(y) {
                let k = choose|k: int| 0 <= k < t.len() && t[k] == y;
                if k < s.len() {
                    assert(s[k] == y);
                }
            }
            if s.contains(y) {
                let k = choose|k: int| 0 <= k < s.len() && s[k] == y;
                assert(t[k] == y);
            }
            if y == x {
                assert(t[s.len() as int] == y);
            }
        }
    }
}

/// Process monitor: keeps the watched applications, the identifiers of the
/// monitored processes seen in the last snapshot and a cache of the identifiers
/// found for process IDs.
pub struct ProcessMonitor {
    /// Watched applications and their identifiers
    pub watch_state: WatchState,
    /// Process ID cache; entries expire after five seconds (process IDs are reused)
    pub app_id_cache: Vec<PidCacheEntry>,
    /// Polling interval in milliseconds
    pub interval_ms: u64,
    /// Monitored identifiers running at the last snapshot, each once
    pub running_processes: Vec<AppIdentifier>,
    /// Moving estimate of the number of monitored running processes
    pub estimated_process_count: usize,
    /// Completed poll cycles
    pub poll_cycle_count: u64,
}

impl ProcessMonitor {
    /// The watch state is consistent, the running list has no repetition and
    /// the cache holds at most one entry per process ID.
    pub open spec fn well_formed(&self) -> bool {
        &&& self.watch_state.well_formed()
        &&& self.running().no_duplicates()
        &&& pids_unique(self.cache())
    }

    /// Identifiers running at the last snapshot.
    pub open spec fn running(&self) -> Seq<AppIdentifierView> {
        self.running_processes.deep_view()
    }

    /// Identifiers of the watched applications.
    pub open spec fn watched(&self) -> Seq<AppIdentifierView> {
        self.watch_state.identifiers.deep_view()
    }

    /// The watched applications.
    pub open spec fn apps(&self) -> Seq<MonitoredAppView> {
        self.watch_state.apps.deep_view()
    }

    /// The process ID cache as values.
    pub open spec fn cache(&self) -> Seq<CacheItem> {
        cache_view(self.app_id_cache@)
    }

    /// Create a process monitor with the given polling interval.
    pub fn new(interval_ms: u64) -> (m: ProcessMonitor)
        ensures
            m.well_formed(),
            m.interval_ms == interval_ms,
            m.apps().len() == 0,
            m.watched().len() == 0,
            m.running().len() == 0,
            m.cache().len() == 0,
            m.estimated_process_count == DEFAULT_PROCESS_COUNT,
            m.poll_cycle_count == 0,
    {
        ProcessMonitor {
            watch_state: WatchState::new(),
            app_id_cache: Vec::new(),
            interval_ms,
            running_processes: Vec::new(),
            estimated_process_count: DEFAULT_PROCESS_COUNT,
            poll_cycle_count: 0,
        }
    }

    /// Replace the watched applications; the identifiers are recomputed with them.
    pub fn update_watch_list(&mut self, monitored_apps: Vec<MonitoredApp>)
        requires
            old(self).well_formed(),
        ensures
            final(self).well_formed(),
            final(self).apps() == monitored_apps.deep_view(),
            final(self).running() == old(self).running(),
            final(self).cache() == old(self).cache(),
            final(self).interval_ms == old(self).interval_ms,
            final(self).estimated_process_count == old(self).estimated_process_count,
            final(self).poll_cycle_count == old(self).poll_cycle_count,
    {
        self.watch_state = WatchState::from_apps(monitored_apps);
    }

    /// The watch state.
    pub fn get_watch_state_ref(&self) -> (w: &WatchState)
        ensures
            w == &self.watch_state,
    {
        &self.watch_state
    }

    /// Number of completed poll cycles.
    pub fn get_poll_cycle_count(&self) -> (n: u64)
        ensures
            n == self.poll_cycle_count,
    {
        self.poll_cycle_count
    }

    /// Whether an identifier is monitored by an enabled application of the list:
    /// Win32 process names are compared ignoring ASCII case, UWP package family
    /// names exactly.
    pub fn is_monitored(app_id: &AppIdentifier, watch_list: &Vec<MonitoredApp>) -> (r: bool)
        ensures
            r == monitored(watch_list.deep_view(), app_id@),
    {
        let mut i: usize = 0;
        while i < watch_list.len()
            invariant
                i <= watch_list@.len(),
                forall|j: int| 0 <= j < i ==> !matches_app(#[trigger] watch_list.deep_view()[j], app_id@),
            decreases watch_list@.len() - i,
        {
            let m = match (&watch_list[i], app_id) {
                (MonitoredApp::Win32(a), AppIdentifier::Win32(n)) => a.enabled
                    && eq_ignore_ascii_case(a.process_name.as_str(), n.as_str()),
                (MonitoredApp::Uwp(a), AppIdentifier::Uwp(n)) => a.enabled && a.package_family_name
                    == *n,
                _ => false,
            };
            assert(m == matches_app(watch_list.deep_view()[i as int], app_id@));
            if m {
                return true;
            }
            i = i + 1;
        }
        false
    }

    /// Compare a snapshot of running watched identifiers with the previous one:
    /// returns a start event for each monitored identifier that appeared and a
    /// stop event for each monitored identifier that disappeared, then keeps
    /// the snapshot and updates the process estimate.
    pub fn detect_changes(&mut self, current: Vec<AppIdentifier>) -> (events: Vec<ProcessEvent>)
        requires
            old(self).well_formed(),
            current.deep_view().no_duplicates(),
        ensures
            final(self).well_formed(),
            events.deep_view() == change_events(old(self).running(), current.deep_view(), old(self).apps()),
            final(self).running() == current.deep_view(),
            final(self).estimated_process_count == next_estimate(
                old(self).estimated_process_count as int,
                current@.len() as int,
            ),
            final(self).watch_state == old(self).watch_state,
            final(self).cache() == old(self).cache(),
            final(self).interval_ms == old(self).interval_ms,
            final(self).poll_cycle_count == old(self).poll_cycle_count,
    {
        let ghost prev = self.running();
        let ghost cur = current.deep_view();
        let ghost apps = self.apps();
        let ghost start_pred = newly_started(prev, apps);
        let ghost stop_pred = newly_started(cur, apps);
        let mut events: Vec<ProcessEvent> = Vec::new();
        let mut i: usize = 0;
        while i < current.len()
            invariant
                i <= current@.len(),
                cur == current.deep_view(),
                prev == self.running(),
                apps == self.apps(),
                start_pred == newly_started(prev, apps),
                events.deep_view() == cur.take(i as int).filter(start_pred).map_values(
                    |x: AppIdentifierView| ProcessEventView::Started(x),
                ),
            decreases current@.len() - i,
        {
            let ghost before = events.deep_view();
            let x = &current[i];
            let started = !contains_identifier(&self.running_processes, x)
                && Self::is_monitored(x, &self.watch_state.apps);
            proof {
                assert(cur.take(i + 1) =~= cur.take(i as int).push(cur[i as int]));
                cur.take(i as int).lemma_filter_push(cur[i as int], start_pred);
                assert(started == start_pred(cur[i as int]));
            }
            if started {
                events.push(ProcessEvent::Started(x.clone()));
                assert(events.deep_view() =~= before.push(ProcessEventView::Started(cur[i as int])));
            }
            assert(events.deep_view() =~= cur.take(i + 1).filter(start_pred).map_values(
                |x: AppIdentifierView| ProcessEventView::Started(x),
            ));
            i = i + 1;
        }
        assert(cur.take(i as int) =~= cur);
        let ghost started_part = events.deep_view();
        let mut j: usize = 0;
        while j < self.running_processes.len()
            invariant
                j <= prev.len(),
                cur == current.deep_view(),
                prev == self.running(),
                apps == self.apps(),
                stop_pred == newly_started(cur, apps),
                events.deep_view() == started_part + prev.take(j as int).filter(stop_pred).map_values(
                    |x: AppIdentifierView| ProcessEventView::Stopped(x),
                ),
            decreases prev.len() - j,
        {
            let ghost before = events.deep_view();
            let x = &self.running_processes[j];
            let stopped = !contains_identifier(&current, x) && Self::is_monitored(
                x,
                &self.watch_state.apps,
            );
            proof {
                assert(prev.take(j + 1) =~= prev.take(j as int).push(prev[j as int]));
                prev.take(j as int).lemma_filter_push(prev[j as int], stop_pred);
                assert(stopped == stop_pred(prev[j as int]));
            }
            if stopped {
                events.push(ProcessEvent::Stopped(x.clone()));
                assert(events.deep_view() =~= before.push(ProcessEventView::Stopped(prev[j as int])));
            }
            assert(events.deep_view() =~= started_part + prev.take(j + 1).filter(stop_pred).map_values(
                |x: AppIdentifierView| ProcessEventView::Stopped(x),
            ));
            j = j + 1;
        }
        assert(prev.take(j as int) =~= prev);
        let est: u128 = self.estimated_process_count as u128;
        let n: u128 = current.len() as u128;
        let next: u128 = (est * 3 + n) / 4;
        assert(next <= est || next <= n);
        self.estimated_process_count = next as usize;
        self.running_processes = current;
        events
    }

    /// The cache entries that have not expired at `now`.
    fn expire_cache(cache: &Vec<PidCacheEntry>, now: u64) -> (r: Vec<PidCacheEntry>)
        ensures
            cache_view(r@) == cache_view(cache@).filter(fresh(now)),
            pids_unique(cache_view(cache@)) ==> pids_unique(cache_view(r@)),
    {
        let ghost c = cache_view(cache@);
        let mut kept: Vec<PidCacheEntry> = Vec::new();
        let mut i: usize = 0;
        while i < cache.len()
            invariant
                i <= cache@.len(),
                c == cache_view(cache@),
                cache_view(kept@) == c.take(i as int).filter(fresh(now)),
                pids_unique(c) ==> pids_unique(cache_view(kept@)),
                pids_unique(c) ==> forall|j: int, t: int|
                    #![trigger cache_view(kept@)[j], c[t]]
                    0 <= j < kept@.len() && i <= t < c.len() ==> cache_view(kept@)[j].0 != c[t].0,
            decreases cache@.len() - i,
        {
            let e = &cache[i];
            let age: u64 = if now >= e.last_seen {
                now - e.last_seen
            } else {
                0
            };
            proof {
                assert(c.take(i + 1) =~= c.take(i as int).push(c[i as int]));
                c.take(i as int).lemma_filter_push(c[i as int], fresh(now));
            }
            if age < CACHE_EXPIRY_NANOS {
                let ghost before = kept@;
                kept.push(PidCacheEntry { pid: e.pid, app_id: e.app_id.clone(), last_seen: e.last_seen });
                assert(cache_view(kept@) =~= cache_view(before).push(c[i as int]));
                proof {
                    if pids_unique(c) {
                        let kv = cache_view(kept@);
                        assert(kv[kv.len() - 1] == c[i as int]);
                        assert forall|j: int| 0 <= j < kv.len() - 1 implies kv[j] == cache_view(before)[j] by {}
                        assert forall|a: int, b: int| #![trigger kv[a], kv[b]] 0 <= a < b < kv.len() implies kv[a].0
                            != kv[b].0 by {
                            if b == kv.len() - 1 {
                                assert(cache_view(before)[a] == kv[a]);
                            } else {
                                assert(cache_view(before)[a] == kv[a]);
                                assert(cache_view(before)[b] == kv[b]);
                            }
                        }
                        assert forall|j: int, t: int|
                            #![trigger kv[j], c[t]]
                            0 <= j < kv.len() && i + 1 <= t < c.len() implies kv[j].0 != c[t].0 by {
                            if j == kv.len() - 1 {
                                assert(c[i as int].0 != c[t].0);
                            } else {
                                assert(cache_view(before)[j] == kv[j]);
                            }
                        }
                    }
                }
            }
            i = i + 1;
        }
        assert(c.take(i as int) =~= c);
        kept
    }

    /// One poll cycle over a snapshot of the running processes, taken at `now`
    /// (nanoseconds): expired cache entries are dropped, each process is
    /// identified (from the cache when its process ID is known, else from its
    /// entry, which is then cached), the watched identifiers found are compared
    /// with the previous snapshot, and the cycle is counted. Returns the start
    /// and stop events.
    pub fn poll_snapshot(&mut self, entries: &Vec<ProcessEntry>, now: u64) -> (events: Vec<ProcessEvent>)
        requires
            old(self).well_formed(),
        ensures
            final(self).well_formed(),
            ({
                let r = poll_fold(
                    entries@,
                    (old(self).cache().filter(fresh(now)), Seq::empty()),
                    now,
                    old(self).watched(),
                );
                &&& final(self).cache() == r.0
                &&& final(self).running() == r.1
                &&& events.deep_view() == change_events(old(self).running(), r.1, old(self).apps())
                &&& final(self).estimated_process_count == next_estimate(
                    old(self).estimated_process_count as int,
                    r.1.len() as int,
                )
            }),
            final(self).watch_state == old(self).watch_state,
            final(self).interval_ms == old(self).interval_ms,
            final(self).poll_cycle_count == (if old(self).poll_cycle_count == u64::MAX {
                0
            } else {
                old(self).poll_cycle_count + 1
            }),
    {
        let ghost watched = self.watched();
        let ghost start = (self.cache().filter(fresh(now)), Seq::<AppIdentifierView>::empty());
        let mut cache = Self::expire_cache(&self.app_id_cache, now);
        let mut current: Vec<AppIdentifier> = Vec::new();
        assert(current.deep_view() =~= Seq::<AppIdentifierView>::empty());
        let mut i: usize = 0;
        while i < entries.len()
            invariant
                i <= entries@.len(),
                self.well_formed(),
                watched == self.watched(),
                current.deep_view().no_duplicates(),
                pids_unique(cache_view(cache@)),
                (cache_view(cache@), current.deep_view()) == poll_fold(
                    entries@.take(i as int),
                    start,
                    now,
                    watched,
                ),
            decreases entries@.len() - i,
        {
            let e = &entries[i];
            proof {
                assert(entries@.take(i + 1).drop_last() =~= entries@.take(i as int));
                assert(entries@.take(i + 1).last() == entries@[i as int]);
            }
            let ghost c0 = cache_view(cache@);
            let ghost cache_before = cache@;
            let ghost cur0 = current.deep_view();
            match find_cached(&cache, e.pid) {
                Some(k) => {
                    let id = cache[k].app_id.clone();
                    if self.watch_state.is_watched(&id) {
                        let again = id.clone();
                        cache.set(k, PidCacheEntry { pid: e.pid, app_id: id, last_seen: now });
                        assert(cache_view(cache@) =~= c0.update(k as int, (e.pid, again@, now)));
                        proof {
                            lemma_add_once_no_duplicates(cur0, again@);
                            let cv = cache_view(cache@);
                            assert(c0[k as int].0 == e.pid);
                            assert forall|a: int, b: int| #![trigger cv[a], cv[b]] 0 <= a < b < cv.len()
                                implies cv[a].0 != cv[b].0 by {
                                assert(cv[a].0 == c0[a].0);
                                assert(cv[b].0 == c0[b].0);
                            }
                        }
                        push_once(&mut current, again);
                    }
                },
                None => {
                    match entry_app_identifier(e) {
                        Some(id) => {
                            let w = self.watch_state.is_watched(&id);
                            let again = id.clone();
                            cache.push(PidCacheEntry { pid: e.pid, app_id: id, last_seen: now });
                            assert(cache_view(cache@) =~= c0.push((e.pid, again@, now)));
                            proof {
                                let cv = cache_view(cache@);
                                assert forall|a: int, b: int| #![trigger cv[a], cv[b]] 0 <= a < b < cv.len()
                                    implies cv[a].0 != cv[b].0 by {
                                    assert(cv[a] == c0[a]);
                                    if b < c0.len() {
                                        assert(cv[b] == c0[b]);
                                    } else {
                                        assert(c0[a].0 == cache_before[a as int].pid);
                                    }
                                }
                            }
                            if w {
                                proof {
                                    lemma_add_once_no_duplicates(cur0, again@);
                                }
                                push_once(&mut current, again);
                            }
                        },
                        None => {},
                    }
                },
            }
            i = i + 1;
        }
        assert(entries@.take(i as int) =~= entries@);
        self.app_id_cache = cache;
        let events = self.detect_changes(current);
        self.poll_cycle_count = if self.poll_cycle_count == u64::MAX {
            0
        } else {
            self.poll_cycle_count + 1
        };
        events
    }
}


proof fn lemma_filter_newly_started_self_empty(s: Seq<AppIdentifierView>, apps: Seq<MonitoredAppView>)
    ensures
        s.filter(newly_started(s, apps)).len() == 0,
{
    let f = s.filter(newly_started(s, apps));
    if f.len() > 0 {
        let x = f[0];
        s.lemma_filter_pred(newly_started(s, apps), 0);
        assert(f.contains(x));
        s.lemma_filter_contains_rev(newly_started(s, apps), x);
    }
}

/// A snapshot equal to the previous one gives no event.
pub proof fn lemma_unchanged_snapshot_no_events(
    snapshot: Seq<AppIdentifierView>,
    apps: Seq<MonitoredAppView>,
)
    ensures
        change_events(snapshot, snapshot, apps).len() == 0,
{
    lemma_filter_newly_started_self_empty(snapshot, apps);
}

/// Every event names an identifier that an enabled watched application matches:
/// processes that no application monitors never give an event.
pub proof fn lemma_events_only_for_monitored(
    prev: Seq<AppIdentifierView>,
    current: Seq<AppIdentifierView>,
    apps: Seq<MonitoredAppView>,
    i: int,
)
    requires
        0 <= i < change_events(prev, current, apps).len(),
    ensures
        match change_events(prev, current, apps)[i] {
            ProcessEventView::Started(id) => monitored(apps, id) && current.contains(id) && !prev.contains(id),
            ProcessEventView::Stopped(id) => monitored(apps, id) && prev.contains(id) && !current.contains(id),
        },
{
    let starts = current.filter(newly_started(prev, apps));
    let stops = prev.filter(newly_started(current, apps));
    let ev = change_events(prev, current, apps);
    if i < starts.len() {
        current.lemma_filter_pred(newly_started(prev, apps), i);
        assert(starts.contains(starts[i]));
        current.lemma_filter_contains_rev(newly_started(prev, apps), starts[i]);
        assert(ev[i] == ProcessEventView::Started(starts[i]));
    } else {
        let j = i - starts.len();
        prev.lemma_filter_pred(newly_started(current, apps), j);
        assert(stops.contains(stops[j]));
        prev.lemma_filter_contains_rev(newly_started(current, apps), stops[j]);
        assert(ev[i] == ProcessEventView::Stopped(stops[j]));
    }
}


/// The identifier names the application: a Win32 process name equal to the
/// entry's ignoring ASCII case, or a UWP package family name equal to the
/// entry's.
pub open spec fn names_app(app: MonitoredAppView, id: AppIdentifierView) -> bool {
    match (app, id) {
        (MonitoredAppView::Win32(a), AppIdentifierView::Win32(n)) => ascii_case_eq(a.process_name, n),
        (MonitoredAppView::Uwp(a), AppIdentifierView::Uwp(n)) => a.package_family_name == n,
        _ => false,
    }
}

/// Only enabled applications are monitored: a disabled entry never matches an
/// identifier, and an identifier is monitored exactly when some enabled entry
/// of the list names it.
pub proof fn lemma_only_enabled_apps_monitored(apps: Seq<MonitoredAppView>, id: AppIdentifierView)
    ensures
        forall|k: int| 0 <= k < apps.len() && !apps[k].enabled() ==> !#[trigger] matches_app(apps[k], id),
        monitored(apps, id) <==> exists|k: int|
            0 <= k < apps.len() && apps[k].enabled() && #[trigger] names_app(apps[k], id),
{
    if monitored(apps, id) {
        let k = choose|k: int| 0 <= k < apps.len() && #[trigger] matches_app(apps[k], id);
        assert(apps[k].enabled() && names_app(apps[k], id));
    }
    if exists|k: int| 0 <= k < apps.len() && apps[k].enabled() && #[trigger] names_app(apps[k], id) {
        let k = choose|k: int| 0 <= k < apps.len() && apps[k].enabled() && #[trigger] names_app(apps[k], id);
        assert(matches_app(apps[k], id));
    }
}

/// The identifier an event is about.
pub open spec fn event_app_id(e: ProcessEventView) -> AppIdentifierView {
    match e {
        ProcessEventView::Started(x) => x,
        ProcessEventView::Stopped(x) => x,
    }
}

/// Every start or stop event is about an identifier that an enabled entry of
/// the watch list names; a disabled application never gives an event.
pub proof fn lemma_events_only_for_enabled_apps(
    prev: Seq<AppIdentifierView>,
    current: Seq<AppIdentifierView>,
    apps: Seq<MonitoredAppView>,
    i: int,
)
    requires
        0 <= i < change_events(prev, current, apps).len(),
    ensures
        exists|k: int|
            0 <= k < apps.len() && apps[k].enabled() && #[trigger] names_app(
                apps[k],
                event_app_id(change_events(prev, current, apps)[i]),
            ),
{
    lemma_events_only_for_monitored(prev, current, apps, i);
    let id = event_app_id(change_events(prev, current, apps)[i]);
    assert(monitored(apps, id));
    let k = choose|k: int| 0 <= k < apps.len() && #[trigger] matches_app(apps[k], id);
    assert(apps[k].enabled() && names_app(apps[k], id));
}

proof fn lemma_last_index_after(prefix: Seq<char>, name: Seq<char>, c: char)
    requires
        !name.contains(c),
    ensures
        last_index_of(prefix.push(c) + name, c) == prefix.len(),
    decreases name.len(),
{
    let s = prefix.push(c) + name;
    if name.len() == 0 {
        assert(s =~= prefix.push(c));
    } else {
        assert(s.drop_last() =~= prefix.push(c) + name.drop_last());
        assert(s.last() == name.last());
        assert(name.last() != c) by {
            assert(name[name.len() - 1] == name.last());
        }
        assert(!name.drop_last().contains(c)) by {
            if name.drop_last().contains(c) {
                let k = choose|k: int| 0 <= k < name.drop_last().len() && name.drop_last()[k] == c;
                assert(name[k] == c);
            }
        }
        lemma_last_index_after(prefix, name.drop_last(), c);
    }
}

proof fn lemma_no_occurrence(name: Seq<char>, c: char)
    requires
        !name.contains(c),
    ensures
        last_index_of(name, c) == -1,
    decreases name.len(),
{
    if name.len() > 0 {
        assert(name[name.len() - 1] == name.last());
        assert(!name.drop_last().contains(c)) by {
            if name.drop_last().contains(c) {
                let k = choose|k: int| 0 <= k < name.drop_last().len() && name.drop_last()[k] == c;
                assert(name[k] == c);
            }
        }
        lemma_no_occurrence(name.drop_last(), c);
    }
}

/// Processes are matched by file name only: an executable in any directory
/// has the same process key as its bare file name, so two executables with
/// the same file name in different directories cannot be told apart.
pub proof fn lemma_process_key_ignores_directory(dir: Seq<char>, name: Seq<char>)
    requires
        !name.contains('\\'),
        !name.contains('/'),
    ensures
        process_key(dir.push('\\') + name) == process_key(name),
{
    lemma_last_index_after(dir, name, '\\');
    lemma_no_occurrence(name, '\\');
    lemma_no_occurrence(name, '/');
    let path = dir.push('\\') + name;
    assert(path.skip(dir.len() + 1int) =~= name);
}

} // verus!
