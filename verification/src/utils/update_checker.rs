//! Update checks against the latest GitHub release.
//!
//! The HTTP request is made by the caller; this module decides when to check,
//! where to ask and what a release means.

use crate::error::EasyHdrError;
use crate::text::{chars_of, concat, string_from_chars, sub_chars};
use vstd::prelude::*;

verus! {

/// Why `semver::Version::parse` rejects a text (its error message), or `None`
/// when it accepts it.
pub uninterp spec fn semver_parse_error(text: Seq<char>) -> Option<Seq<char>>;

/// Whether the version `a` is greater than `b` in semantic-version order
/// (`PartialOrd` of `semver::Version`), for texts that parse.
pub uninterp spec fn semver_newer(a: Seq<char>, b: Seq<char>) -> bool;

/// Parses a version (`semver::Version::parse`), keeping only whether it
/// failed and the error message.
#[verifier::external_body]
fn check_version(text: &str) -> (r: Result<(), String>)
    ensures
        match r {
            Ok(()) => semver_parse_error(text@) is None,
            Err(m) => semver_parse_error(text@) == Some(m@),
        },
{
    semver::Version::parse(text).map(|_| ()).map_err(|e| e.to_string())
}

/// A decimal digit.
pub open spec fn is_decimal_digit(c: char) -> bool {
    '0' <= c && c <= '9'
}

/// A nonempty run of decimal digits.
pub open spec fn is_number_text(s: Seq<char>) -> bool {
    s.len() > 0 && forall|i: int| 0 <= i < s.len() ==> is_decimal_digit(#[trigger] s[i])
}

/// The value of a run of decimal digits.
pub open spec fn decimal_value(s: Seq<char>) -> nat
    decreases s.len(),
{
    if s.len() == 0 {
        0
    } else {
        decimal_value(s.drop_last()) * 10 + ((s.last() as int - '0' as int) as nat)
    }
}

/// The text is `MAJOR.MINOR.PATCH` with three runs of decimal digits.
pub open spec fn is_plain_version_text(s: Seq<char>, a: Seq<char>, b: Seq<char>, c: Seq<char>) -> bool {
    is_number_text(a) && is_number_text(b) && is_number_text(c) && s == a + seq!['.'] + b + seq!['.'] + c
}

/// The numbers of a version text of the plain form `MAJOR.MINOR.PATCH` (no
/// pre-release and no build metadata), or `None` for any other text.
pub open spec fn plain_version(s: Seq<char>) -> Option<(nat, nat, nat)> {
    if exists|a: Seq<char>, b: Seq<char>, c: Seq<char>| is_plain_version_text(s, a, b, c) {
        let (a, b, c) = choose|a: Seq<char>, b: Seq<char>, c: Seq<char>| is_plain_version_text(s, a, b, c);
        Some((decimal_value(a), decimal_value(b), decimal_value(c)))
    } else {
        None
    }
}

/// Semantic-version precedence of versions without pre-release or build
/// metadata: by major, then minor, then patch number.
pub open spec fn version_greater(x: (nat, nat, nat), y: (nat, nat, nat)) -> bool {
    x.0 > y.0 || (x.0 == y.0 && (x.1 > y.1 || (x.1 == y.1 && x.2 > y.2)))
}

/// Compares two versions that parse (`semver::Version` `>`, the derived order
/// of major, minor, patch, pre-release and build metadata). For plain
/// `MAJOR.MINOR.PATCH` texts, which parse with empty pre-release and build
/// metadata, that is the order of the three numbers.
#[verifier::external_body]
fn version_newer(a: &str, b: &str) -> (r: bool)
    requires
        semver_parse_error(a@) is None,
        semver_parse_error(b@) is None,
    ensures
        r == semver_newer(a@, b@),
        plain_version(a@) matches Some(x) ==> (plain_version(b@) matches Some(y) ==> r == version_greater(
            x,
            y,
        )),
{
    match (semver::Version::parse(a), semver::Version::parse(b)) {
        (Ok(x), Ok(y)) => x > y,
        _ => false,
    }
}

/// Seconds since the Unix epoch (`SystemTime::now`); nothing is stated of the
/// value, which is the clock's.
#[verifier::external_body]
fn unix_time_secs() -> u64 {
    std::time::SystemTime::now().duration_since(std::time::UNIX_EPOCH).unwrap_or_default().as_secs()
}

/// A text without its leading `v` characters.
pub open spec fn strip_leading_v(s: Seq<char>) -> Seq<char>
    decreases s.len(),
{
    if s.len() > 0 && s[0] == 'v' {
        strip_leading_v(s.drop_first())
    } else {
        s
    }
}

/// Result of an update check
#[derive(Debug)]
pub struct UpdateCheckResult {
    /// Current application version
    pub current_version: String,
    /// Latest version available
    pub latest_version: String,
    /// Whether the latest version is newer than the current one
    pub update_available: bool,
    /// Page listing the releases
    pub releases_url: String,
}

/// Update checker
#[derive(Debug)]
pub struct UpdateChecker {
    /// Owner of the GitHub repository
    pub repo_owner: String,
    /// Name of the GitHub repository
    pub repo_name: String,
    /// Current application version (semantic version text)
    pub current_version: String,
    /// Minimum time between two checks, in seconds
    pub min_check_interval_secs: u64,
}

/// Whether a check is due: never checked, or at least the interval since the
/// last check (a last check in the future counts as just now).
pub open spec fn check_due(last_check_time: u64, now: u64, interval: u64) -> bool {
    last_check_time == 0 || (if now >= last_check_time {
        now - last_check_time
    } else {
        0
    }) >= interval
}

impl UpdateChecker {
    /// The current version parses as a semantic version.
    pub open spec fn well_formed(&self) -> bool {
        semver_parse_error(self.current_version@) is None
    }

    /// Create an update checker.
    pub fn new(
        repo_owner: String,
        repo_name: String,
        current_version: String,
        min_check_interval_secs: u64,
    ) -> (c: UpdateChecker)
        requires
            semver_parse_error(current_version@) is None,
        ensures
            c.well_formed(),
            c.repo_owner@ == repo_owner@,
            c.repo_name@ == repo_name@,
            c.current_version@ == current_version@,
            c.min_check_interval_secs == min_check_interval_secs,
    {
        UpdateChecker { repo_owner, repo_name, current_version, min_check_interval_secs }
    }

    /// Create an update checker from the text of the current version: fails
    /// with `ConfigError` and the parser's message when the text is not a
    /// semantic version.
    pub fn from_version_text(
        repo_owner: String,
        repo_name: String,
        current_version: String,
        min_check_interval_secs: u64,
    ) -> (r: Result<UpdateChecker, EasyHdrError>)
        ensures
            match semver_parse_error(current_version@) {
                Some(msg) => r matches Err(EasyHdrError::ConfigError(m)) && m@ == msg,
                None => r matches Ok(c) && {
                    &&& c.well_formed()
                    &&& c.repo_owner@ == repo_owner@
                    &&& c.repo_name@ == repo_name@
                    &&& c.current_version@ == current_version@
                    &&& c.min_check_interval_secs == min_check_interval_secs
                },
            },
    {
        match check_version(current_version.as_str()) {
            Err(m) => Err(EasyHdrError::ConfigError(m)),
            Ok(()) => Ok(UpdateChecker::new(repo_owner, repo_name, current_version, min_check_interval_secs)),
        }
    }

    /// Whether a check is due at `now` (seconds since the Unix epoch).
    pub fn should_check_at(&self, last_check_time: u64, now: u64) -> (r: bool)
        ensures
            r == check_due(last_check_time, now, self.min_check_interval_secs),
    {
        if last_check_time == 0 {
            return true;
        }
        let elapsed = if now >= last_check_time {
            now - last_check_time
        } else {
            0
        };
        elapsed >= self.min_check_interval_secs
    }

    /// Whether a check is due now: what `should_check_at` gives for the time
    /// that the system clock reads. Never checked means due, whatever the clock
    /// says.
    pub fn should_check(&self, last_check_time: u64) -> (r: bool)
        ensures
            last_check_time == 0 ==> r,
            exists|now: u64| r == #[trigger] check_due(last_check_time, now, self.min_check_interval_secs),
    {
        let now = unix_time_secs();
        let r = self.should_check_at(last_check_time, now);
        assert(r == check_due(last_check_time, now, self.min_check_interval_secs));
        r
    }

    /// Seconds since the Unix epoch.
    pub fn current_timestamp() -> u64 {
        unix_time_secs()
    }

    /// The GitHub API address of the latest release.
    pub fn latest_release_api_url(&self) -> (url: String)
        ensures
            url@ == "https://api.github.com/repos/"@ + self.repo_owner@ + "/"@ + self.repo_name@
                + "/releases/latest"@,
    {
        let a = concat("https://api.github.com/repos/", self.repo_owner.as_str());
        let b = concat(a.as_str(), "/");
        let c = concat(b.as_str(), self.repo_name.as_str());
        concat(c.as_str(), "/releases/latest")
    }

    /// Evaluate the latest release: prereleases are skipped, the tag (without
    /// leading `v`) must parse as a version, and an update is available when
    /// it is newer than the current version.
    pub fn evaluate_release(&self, tag_name: &str, prerelease: bool) -> (r: Result<
        UpdateCheckResult,
        EasyHdrError,
    >)
        requires
            self.well_formed(),
        ensures
            prerelease ==> (r matches Err(EasyHdrError::ConfigError(m)) && m@
                == "Latest release is a prerelease"@),
            !prerelease ==> match semver_parse_error(strip_leading_v(tag_name@)) {
                Some(msg) => r matches Err(EasyHdrError::ConfigError(m)) && m@ == msg,
                None => r matches Ok(res) && {
                    &&& res.current_version@ == self.current_version@
                    &&& res.latest_version@ == strip_leading_v(tag_name@)
                    &&& res.update_available == semver_newer(
                        strip_leading_v(tag_name@),
                        self.current_version@,
                    )
                    &&& res.releases_url@ == "https://github.com/"@ + self.repo_owner@ + "/"@
                        + self.repo_name@ + "/releases"@
                    &&& plain_version(strip_leading_v(tag_name@)) matches Some(t) ==> (plain_version(
                        self.current_version@,
                    ) matches Some(c) ==> res.update_available == version_greater(t, c))
                },
            },
    {
        if prerelease {
            return Err(EasyHdrError::ConfigError(String::from_str("Latest release is a prerelease")));
        }
        let chars = chars_of(tag_name);
        let mut start: usize = 0;
        assert(chars@.skip(0) =~= chars@);
        while start < chars.len() && chars[start] == 'v'
            invariant
                start <= chars@.len(),
                chars@ == tag_name@,
                strip_leading_v(tag_name@) == strip_leading_v(chars@.skip(start as int)),
            decreases chars@.len() - start,
        {
            assert(chars@.skip(start as int).drop_first() =~= chars@.skip(start + 1));
            start = start + 1;
        }
        let rest = sub_chars(&chars, start, chars.len());
        assert(rest@ =~= chars@.skip(start as int));
        let tag = string_from_chars(rest.as_slice());
        match check_version(tag.as_str()) {
            Err(m) => Err(EasyHdrError::ConfigError(m)),
            Ok(()) => {
                let update_available = version_newer(tag.as_str(), self.current_version.as_str());
                let a = concat("https://github.com/", self.repo_owner.as_str());
                let b = concat(a.as_str(), "/");
                let c = concat(b.as_str(), self.repo_name.as_str());
                let releases_url = concat(c.as_str(), "/releases");
                Ok(
                    UpdateCheckResult {
                        current_version: self.current_version.clone(),
                        latest_version: tag,
                        update_available,
                        releases_url,
                    },
                )
            },
        }
    }
}

/// Version precedence is a strict total order on `MAJOR.MINOR.PATCH`: never
/// newer than itself, never newer both ways, transitive, and of two different
/// versions one is newer. A higher major number wins whatever follows; with the
/// same major and minor numbers, a higher patch number is newer.
pub proof fn lemma_version_order(x: (nat, nat, nat), y: (nat, nat, nat), z: (nat, nat, nat))
    ensures
        !version_greater(x, x),
        !(version_greater(x, y) && version_greater(y, x)),
        version_greater(x, y) && version_greater(y, z) ==> version_greater(x, z),
        x != y ==> version_greater(x, y) || version_greater(y, x),
        x.0 > y.0 ==> version_greater(x, y),
        x.0 == y.0 && x.1 == y.1 ==> (version_greater(x, y) <==> x.2 > y.2),
        x.0 == y.0 && x.1 > y.1 ==> version_greater(x, y),
{
}

/// Two splits of a text at dots into digit runs are the same split.
proof fn lemma_number_split_unique(a: Seq<char>, s1: Seq<char>, a2: Seq<char>, s2: Seq<char>)
    requires
        is_number_text(a),
        is_number_text(a2),
        a + s1 == a2 + s2,
        s1.len() > 0 && s1[0] == '.',
        s2.len() > 0 && s2[0] == '.',
    ensures
        a == a2,
        s1 == s2,
{
    let t = a + s1;
    if a.len() < a2.len() {
        assert(t[a.len() as int] == s1[0]);
        assert(t[a.len() as int] == a2[a.len() as int]);
        assert(is_decimal_digit(a2[a.len() as int]));
    } else if a2.len() < a.len() {
        assert(t[a2.len() as int] == s2[0]);
        assert(t[a2.len() as int] == a[a2.len() as int]);
        assert(is_decimal_digit(a[a2.len() as int]));
    }
    assert(a =~= t.take(a.len() as int));
    assert(a2 =~= t.take(a2.len() as int));
    assert(s1 =~= t.skip(a.len() as int));
    assert(s2 =~= t.skip(a2.len() as int));
}

/// The numbers of a `MAJOR.MINOR.PATCH` text are the values of its three digit
/// runs.
pub proof fn lemma_plain_version_numbers(s: Seq<char>, a: Seq<char>, b: Seq<char>, c: Seq<char>)
    requires
        is_plain_version_text(s, a, b, c),
    ensures
        plain_version(s) == Some((decimal_value(a), decimal_value(b), decimal_value(c))),
{
    let (a2, b2, c2) = choose|a: Seq<char>, b: Seq<char>, c: Seq<char>| is_plain_version_text(s, a, b, c);
    assert(a + (seq!['.'] + b + seq!['.'] + c) =~= s);
    assert(a2 + (seq!['.'] + b2 + seq!['.'] + c2) =~= s);
    lemma_number_split_unique(a, seq!['.'] + b + seq!['.'] + c, a2, seq!['.'] + b2 + seq!['.'] + c2);
    let r1 = b + (seq!['.'] + c);
    let r2 = b2 + (seq!['.'] + c2);
    assert((seq!['.'] + b + seq!['.'] + c).drop_first() =~= r1);
    assert((seq!['.'] + b2 + seq!['.'] + c2).drop_first() =~= r2);
    lemma_number_split_unique(b, seq!['.'] + c, b2, seq!['.'] + c2);
    assert((seq!['.'] + c).drop_first() =~= c);
    assert((seq!['.'] + c2).drop_first() =~= c2);
}

} // verus!
