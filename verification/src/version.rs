//! Package versions: a semantic version with an optional build timestamp.

use vstd::prelude::*;
use chrono::TimeZone;
use vstd::std_specs::cmp::PartialEqSpec;
use crate::text::{chars_of, find_char, find_from, lemma_find_from_absent, lemma_find_from_bounds,
    same_text, Order};

verus! {

#[verifier::external_type_specification]
#[verifier::external_body]
pub struct ExSemverError(semver::Error);

#[verifier::external_type_specification]
#[verifier::external_body]
pub struct ExStampError(chrono::ParseError);

/// An instant in UTC: whole seconds since the Unix epoch and the
/// nanoseconds past that second.
#[derive(Copy, Clone, Debug, PartialEq, Eq, Structural)]
pub struct Timestamp {
    pub secs: i64,
    pub nanos: u32,
}

/// A semantic version, and the instant at which the package was built where
/// that is known.
#[derive(Clone, Debug)]
pub struct Version {
    pub major: u64,
    pub minor: u64,
    pub patch: u64,
    pub pre: String,
    pub build: String,
    pub time: Option<Timestamp>,
}

/// Why a text is no version; each error holds the part that was refused.
#[derive(Clone, Debug, PartialEq, Eq)]
pub enum VersionError {
    /// The part before the first `:` is no semantic version.
    InvalidSemver(String),
    /// The part after the `:` is no `YYYYMMDDTHHMMSSZ` timestamp.
    InvalidTimestamp(String),
}

/// The mathematical value of a [`VersionError`].
pub enum VersionFault {
    InvalidSemver(Seq<char>),
    InvalidTimestamp(Seq<char>),
}

impl View for VersionError {
    type V = VersionFault;

    open spec fn view(&self) -> VersionFault {
        match self {
            VersionError::InvalidSemver(part) => VersionFault::InvalidSemver(part@),
            VersionError::InvalidTimestamp(part) => VersionFault::InvalidTimestamp(part@),
        }
    }
}

/// The mathematical value of a [`Version`].
pub struct VersionView {
    pub major: u64,
    pub minor: u64,
    pub patch: u64,
    pub pre: Seq<char>,
    pub build: Seq<char>,
    pub time: Option<Timestamp>,
}

impl View for Version {
    type V = VersionView;

    open spec fn view(&self) -> VersionView {
        VersionView {
            major: self.major,
            minor: self.minor,
            patch: self.patch,
            pre: self.pre@,
            build: self.build@,
            time: self.time,
        }
    }
}

/// What `semver::Version::parse` makes of a text: the three numbers, the
/// pre-release tag and the build metadata, or `None` where it refuses the text.
pub uninterp spec fn semver_parse_spec(s: Seq<char>) -> Option<(u64, u64, u64, Seq<char>, Seq<char>)>;

/// The text that `semver::Version` displays for the given parts.
pub uninterp spec fn semver_display(major: u64, minor: u64, patch: u64, pre: Seq<char>, build: Seq<char>) -> Seq<char>;

/// The sign of `semver::Prerelease`'s ordering of two pre-release tags.
pub uninterp spec fn semver_pre_order(a: Seq<char>, b: Seq<char>) -> int;

/// The sign of `semver::BuildMetadata`'s ordering of two build-metadata tags.
pub uninterp spec fn semver_build_order(a: Seq<char>, b: Seq<char>) -> int;

/// The instant that chrono reads from a text in the format
/// `%Y%m%dT%H%M%SZ`, or `None` where it refuses the text.
pub uninterp spec fn stamp_parse_spec(s: Seq<char>) -> Option<Timestamp>;

/// The text that chrono writes for an instant in the format `%Y%m%dT%H%M%SZ`.
pub uninterp spec fn stamp_display(secs: i64, nanos: u32) -> Seq<char>;

/// Calls `semver::Version::parse`. The contract names what it makes of the
/// text.
#[verifier::external_body]
fn semver_parse(s: &str) -> (r: Result<Version, semver::Error>)
    ensures
        match r {
            Ok(v) => semver_parse_spec(s@) == Some((v.major, v.minor, v.patch, v.pre@, v.build@))
                && v.time is None,
            Err(_) => semver_parse_spec(s@) is None,
        },
{
    let v = semver::Version::parse(s)?;
    Ok(
        Version {
            major: v.major,
            minor: v.minor,
            patch: v.patch,
            pre: v.pre.as_str().to_string(),
            build: v.build.as_str().to_string(),
            time: None,
        },
    )
}

/// Calls the `Display` of `semver::Version` on the given parts; a tag that
/// is no valid tag counts as the empty one.
#[verifier::external_body]
fn semver_text(major: u64, minor: u64, patch: u64, pre: &str, build: &str) -> (r: String)
    ensures
        r@ == semver_display(major, minor, patch, pre@, build@),
{
    let v = semver::Version {
        major,
        minor,
        patch,
        pre: semver::Prerelease::new(pre).unwrap_or_default(),
        build: semver::BuildMetadata::new(build).unwrap_or_default(),
    };
    v.to_string()
}

/// Calls `Ord::cmp` of `semver::Prerelease`; a tag that is no valid tag
/// counts as the empty one. The contract claims that the result is what the
/// name [`semver_pre_order`] stands for, and that comparing the other way
/// round gives the reverse, as `Ord` asks of every implementation.
#[verifier::external_body]
fn prerelease_order(a: &str, b: &str) -> (r: Order)
    ensures
        r.sign() == semver_pre_order(a@, b@),
        r.sign() == -semver_pre_order(b@, a@),
{
    let x = semver::Prerelease::new(a).unwrap_or_default();
    let y = semver::Prerelease::new(b).unwrap_or_default();
    match x.cmp(&y) {
        std::cmp::Ordering::Less => Order::Less,
        std::cmp::Ordering::Equal => Order::Equal,
        std::cmp::Ordering::Greater => Order::Greater,
    }
}

/// Calls `Ord::cmp` of `semver::BuildMetadata`; a tag that is no valid tag
/// counts as the empty one. The contract claims that the result is what the
/// name [`semver_build_order`] stands for, and that comparing the other way
/// round gives the reverse, as `Ord` asks of every implementation.
#[verifier::external_body]
fn build_order(a: &str, b: &str) -> (r: Order)
    ensures
        r.sign() == semver_build_order(a@, b@),
        r.sign() == -semver_build_order(b@, a@),
{
    let x = semver::BuildMetadata::new(a).unwrap_or_default();
    let y = semver::BuildMetadata::new(b).unwrap_or_default();
    match x.cmp(&y) {
        std::cmp::Ordering::Less => Order::Less,
        std::cmp::Ordering::Equal => Order::Equal,
        std::cmp::Ordering::Greater => Order::Greater,
    }
}

/// Calls chrono's `TimeZone::datetime_from_str` on `Utc` with the format
/// `%Y%m%dT%H%M%SZ`. The contract names the instant that it reads.
#[allow(deprecated)]
#[verifier::external_body]
fn stamp_parse(s: &str) -> (r: Result<Timestamp, chrono::ParseError>)
    ensures
        match r {
            Ok(t) => stamp_parse_spec(s@) == Some(t),
            Err(_) => stamp_parse_spec(s@) is None,
        },
{
    let t = chrono::Utc.datetime_from_str(s, "%Y%m%dT%H%M%SZ")?;
    Ok(Timestamp { secs: t.timestamp(), nanos: t.timestamp_subsec_nanos() })
}

/// Calls chrono's `DateTime::format` with the format `%Y%m%dT%H%M%SZ` on
/// the instant that `DateTime::from_timestamp` makes of the two numbers;
/// the text is empty where chrono has no such instant.
#[verifier::external_body]
fn stamp_text(t: Timestamp) -> (r: String)
    ensures
        r@ == stamp_display(t.secs, t.nanos),
{
    match chrono::DateTime::from_timestamp(t.secs, t.nanos) {
        Some(d) => d.format("%Y%m%dT%H%M%SZ").to_string(),
        None => String::new(),
    }
}

/// Calls chrono's `Utc::now`. Nothing is claimed of the instant.
#[verifier::external_body]
pub(crate) fn stamp_now() -> (r: Timestamp) {
    let t = chrono::Utc::now();
    Timestamp { secs: t.timestamp(), nanos: t.timestamp_subsec_nanos() }
}

/// Sign of the comparison of two integers.
pub open spec fn int_order(a: int, b: int) -> int {
    if a < b {
        -1
    } else if a > b {
        1
    } else {
        0
    }
}

/// Order of two optional instants; an absent one comes before any instant.
pub open spec fn time_order(a: Option<Timestamp>, b: Option<Timestamp>) -> int {
    match (a, b) {
        (None, None) => 0,
        (None, Some(_)) => -1,
        (Some(_), None) => 1,
        (Some(x), Some(y)) => if x.secs != y.secs {
            int_order(x.secs as int, y.secs as int)
        } else {
            int_order(x.nanos as int, y.nanos as int)
        },
    }
}

impl VersionView {
    /// Equality of the semantic versions alone.
    pub open spec fn same_semver(self, other: VersionView) -> bool {
        self.major == other.major && self.minor == other.minor && self.patch == other.patch
            && self.pre == other.pre && self.build == other.build
    }

    /// Equality of the semantic versions and of the timestamps.
    pub open spec fn exact(self, other: VersionView) -> bool {
        self.same_semver(other) && self.time == other.time
    }

    /// Order of the semantic versions: the three numbers in turn, then the
    /// pre-release tags, then the build metadata.
    pub open spec fn semver_order(self, other: VersionView) -> int {
        if self.major != other.major {
            int_order(self.major as int, other.major as int)
        } else if self.minor != other.minor {
            int_order(self.minor as int, other.minor as int)
        } else if self.patch != other.patch {
            int_order(self.patch as int, other.patch as int)
        } else if semver_pre_order(self.pre, other.pre) != 0 {
            semver_pre_order(self.pre, other.pre)
        } else {
            semver_build_order(self.build, other.build)
        }
    }

    /// Order of two versions: the semantic versions decide, and the
    /// timestamps where those tie.
    pub open spec fn order(self, other: VersionView) -> int {
        if self.semver_order(other) != 0 {
            self.semver_order(other)
        } else {
            time_order(self.time, other.time)
        }
    }

    /// The written form: the semantic version, then `:` and the timestamp
    /// where there is one.
    pub open spec fn text(self) -> Seq<char> {
        let head = semver_display(self.major, self.minor, self.patch, self.pre, self.build);
        match self.time {
            None => head,
            Some(t) => head + seq![':'] + stamp_display(t.secs, t.nanos),
        }
    }
}

/// The semantic version that a text denotes: what the semver crate reads
/// from it, where it writes that as the very same text.
pub open spec fn semver_of(s: Seq<char>) -> Option<(u64, u64, u64, Seq<char>, Seq<char>)> {
    match semver_parse_spec(s) {
        Some(c) => if semver_display(c.0, c.1, c.2, c.3, c.4) == s {
            Some(c)
        } else {
            None
        },
        None => None,
    }
}

/// The instant that a text of the form `YYYYMMDDTHHMMSSZ` denotes: what
/// chrono reads from it, where it writes that as the very same text.
pub open spec fn stamp_of(s: Seq<char>) -> Option<Timestamp> {
    match stamp_parse_spec(s) {
        Some(t) => if stamp_display(t.secs, t.nanos) == s {
            Some(t)
        } else {
            None
        },
        None => None,
    }
}

/// The version that a text denotes. The text up to the first `:` is the
/// semantic version. With exactly one `:` the rest is the timestamp; with
/// none, or with more than one, the version has no timestamp.
pub open spec fn version_of(s: Seq<char>) -> Result<VersionView, VersionFault> {
    let i = find_from(s, ':', 0);
    match semver_of(s.subrange(0, i)) {
        None => Err(VersionFault::InvalidSemver(s.subrange(0, i))),
        Some(c) => {
            let bare = VersionView {
                major: c.0,
                minor: c.1,
                patch: c.2,
                pre: c.3,
                build: c.4,
                time: None,
            };
            if i == s.len() || find_from(s, ':', i + 1) < s.len() {
                Ok(bare)
            } else {
                match stamp_of(s.subrange(i + 1, s.len() as int)) {
                    None => Err(VersionFault::InvalidTimestamp(s.subrange(i + 1, s.len() as int))),
                    Some(t) => Ok(VersionView { time: Some(t), ..bare }),
                }
            }
        },
    }
}

/// In a text made of a head without `:`, one `:` and a tail without `:`, the
/// only `:` stands right after the head.
proof fn lemma_single_colon(head: Seq<char>, tail: Seq<char>)
    requires
        !head.contains(':'),
        !tail.contains(':'),
    ensures
        find_from(head + seq![':'] + tail, ':', 0) == head.len(),
        find_from(head + seq![':'] + tail, ':', head.len() as int + 1) == (head + seq![':'] + tail).len(),
        (head + seq![':'] + tail).subrange(0, head.len() as int) == head,
        (head + seq![':'] + tail).subrange(
            head.len() as int + 1,
            (head + seq![':'] + tail).len() as int,
        ) == tail,
{
    let s = head + seq![':'] + tail;
    let n = head.len() as int;
    lemma_find_from_bounds(s, ':', 0);
    assert forall|k: int| 0 <= k < n implies s[k] != ':' by {
        assert(s[k] == head[k]);
        assert(head.contains(head[k]));
    }
    assert(s[n] == ':');
    assert forall|k: int| n + 1 <= k < s.len() implies s[k] != ':' by {
        assert(s[k] == tail[k - n - 1]);
        assert(tail.contains(tail[k - n - 1]));
    }
    lemma_find_from_absent(s, ':', n + 1);
    assert(s.subrange(0, n) =~= head);
    assert(s.subrange(n + 1, s.len() as int) =~= tail);
}

/// A text without `:` is its own head.
proof fn lemma_no_colon(head: Seq<char>)
    requires
        !head.contains(':'),
    ensures
        find_from(head, ':', 0) == head.len(),
        head.subrange(0, head.len() as int) == head,
{
    assert forall|k: int| 0 <= k < head.len() implies head[k] != ':' by {
        assert(head.contains(head[k]));
    }
    lemma_find_from_absent(head, ':', 0);
    assert(head.subrange(0, head.len() as int) =~= head);
}

fn order_u64(a: u64, b: u64) -> (r: Order)
    ensures
        r.sign() == int_order(a as int, b as int),
{
    if a < b {
        Order::Less
    } else if a > b {
        Order::Greater
    } else {
        Order::Equal
    }
}

impl Version {
    /// The version `major.minor.patch` without tags, built at `time`.
    pub fn stamped(major: u64, minor: u64, patch: u64, time: Timestamp) -> (r: Version)
        ensures
            r.major == major,
            r.minor == minor,
            r.patch == patch,
            r.pre@.len() == 0,
            r.build@.len() == 0,
            r.time == Some(time),
    {
        Version { major, minor, patch, pre: String::new(), build: String::new(), time: Some(time) }
    }

    /// The version `major.minor.patch`, stamped with the current time.
    pub fn new(major: u64, minor: u64, patch: u64) -> (r: Version)
        ensures
            r.major == major,
            r.minor == minor,
            r.patch == patch,
            r.pre@.len() == 0,
            r.build@.len() == 0,
            r.time is Some,
    {
        Version::stamped(major, minor, patch, stamp_now())
    }

    /// Reads a version from `semver` or `semver:YYYYMMDDTHHMMSSZ`. Both
    /// parts must be written as they are written back: a text that the
    /// parsers would read but write differently is refused.
    pub fn from(version: &str) -> (r: Result<Version, VersionError>)
        ensures
            match r {
                Ok(v) => version_of(version@) == Ok::<VersionView, VersionFault>(v@),
                Err(e) => version_of(version@) == Err::<VersionView, VersionFault>(e@),
            },
    {
        let chars = chars_of(version);
        let n: usize = chars.len();
        let i: usize = find_char(&chars, ':', 0);
        let head = version.substring_char(0, i);
        let mut v = match semver_parse(head) {
            Ok(v) => v,
            Err(_) => {
                return Err(VersionError::InvalidSemver(String::from_str(head)));
            },
        };
        let written = semver_text(v.major, v.minor, v.patch, v.pre.as_str(), v.build.as_str());
        if !same_text(written.as_str(), head) {
            return Err(VersionError::InvalidSemver(String::from_str(head)));
        }
        if i == n {
            return Ok(v);
        }
        let j: usize = find_char(&chars, ':', i + 1);
        if j < n {
            return Ok(v);
        }
        let tail = version.substring_char(i + 1, n);
        match stamp_parse(tail) {
            Ok(t) => {
                if !same_text(stamp_text(t).as_str(), tail) {
                    return Err(VersionError::InvalidTimestamp(String::from_str(tail)));
                }
                v.time = Some(t);
                Ok(v)
            },
            Err(_) => Err(VersionError::InvalidTimestamp(String::from_str(tail))),
        }
    }

    /// The written form of the version.
    pub fn to_string(&self) -> (r: String)
        ensures
            r@ == self@.text(),
    {
        let mut out = semver_text(
            self.major,
            self.minor,
            self.patch,
            self.pre.as_str(),
            self.build.as_str(),
        );
        match self.time {
            None => out,
            Some(t) => {
                out.append(":");
                proof {
                    reveal_strlit(":");
                    assert(":"@ =~= seq![':']);
                }
                out.append(stamp_text(t).as_str());
                out
            },
        }
    }

    /// A copy with the same value.
    pub fn duplicate(&self) -> (r: Version)
        ensures
            r@ == self@,
    {
        Version {
            major: self.major,
            minor: self.minor,
            patch: self.patch,
            pre: self.pre.clone(),
            build: self.build.clone(),
            time: self.time,
        }
    }

    /// Exact equality: the semantic versions and the timestamps agree.
    pub fn exq(&self, other: &Version) -> (r: bool)
        ensures
            r == self@.exact(other@),
    {
        self.same_semver(other) && self.time == other.time
    }

    /// Whether the semantic versions agree, whatever the timestamps.
    pub fn same_semver(&self, other: &Version) -> (r: bool)
        ensures
            r == self@.same_semver(other@),
    {
        self.major == other.major && self.minor == other.minor && self.patch == other.patch
            && same_text(self.pre.as_str(), other.pre.as_str()) && same_text(
            self.build.as_str(),
            other.build.as_str(),
        )
    }

    /// Orders the semantic versions alone.
    pub fn compare_semver(&self, other: &Version) -> (r: Order)
        ensures
            r.sign() == self@.semver_order(other@),
            r.sign() == -other@.semver_order(self@),
    {
        if self.major != other.major {
            return order_u64(self.major, other.major);
        }
        if self.minor != other.minor {
            return order_u64(self.minor, other.minor);
        }
        if self.patch != other.patch {
            return order_u64(self.patch, other.patch);
        }
        let pre = prerelease_order(self.pre.as_str(), other.pre.as_str());
        if pre != Order::Equal {
            return pre;
        }
        build_order(self.build.as_str(), other.build.as_str())
    }

    /// Orders two versions: by semantic version, then by timestamp, a
    /// version without timestamp before one with.
    pub fn compare(&self, other: &Version) -> (r: Order)
        ensures
            r.sign() == self@.order(other@),
            r.sign() == -other@.order(self@),
    {
        let by_semver = self.compare_semver(other);
        if by_semver != Order::Equal {
            return by_semver;
        }
        match (self.time, other.time) {
            (None, None) => Order::Equal,
            (None, Some(_)) => Order::Less,
            (Some(_), None) => Order::Greater,
            (Some(x), Some(y)) => {
                if x.secs < y.secs {
                    Order::Less
                } else if x.secs > y.secs {
                    Order::Greater
                } else if x.nanos < y.nanos {
                    Order::Less
                } else if x.nanos > y.nanos {
                    Order::Greater
                } else {
                    Order::Equal
                }
            },
        }
    }

    /// The later of two versions; `other` where neither is later.
    pub fn max(self, other: Version) -> (r: Version)
        ensures
            r == (if self@.order(other@) > 0 {
                self
            } else {
                other
            }),
    {
        if self.compare(&other) == Order::Greater {
            self
        } else {
            other
        }
    }

    /// The earlier of two versions; `self` where neither is earlier.
    pub fn min(self, other: Version) -> (r: Version)
        ensures
            r == (if self@.order(other@) > 0 {
                other
            } else {
                self
            }),
    {
        if self.compare(&other) == Order::Greater {
            other
        } else {
            self
        }
    }
}

impl PartialEq for Version {
    /// `==` compares the semantic versions only.
    fn eq(&self, other: &Version) -> (r: bool) {
        self.same_semver(other)
    }
}

impl vstd::std_specs::cmp::PartialEqSpecImpl for Version {
    open spec fn obeys_eq_spec() -> bool {
        true
    }

    open spec fn eq_spec(&self, other: &Version) -> bool {
        self@.same_semver(other@)
    }
}

/// A version that was read from a text writes itself as a text that reads
/// back as the same version.
pub proof fn lemma_round_trip(s: Seq<char>)
    requires
        version_of(s) is Ok,
    ensures
        version_of(version_of(s)->Ok_0.text()) == version_of(s),
{
    let i = find_from(s, ':', 0);
    lemma_find_from_bounds(s, ':', 0);
    let head = s.subrange(0, i);
    assert forall|k: int| 0 <= k < head.len() implies head[k] != ':' by {
        assert(head[k] == s[k]);
    }
    assert(!head.contains(':'));
    let v = version_of(s)->Ok_0;
    assert(semver_display(v.major, v.minor, v.patch, v.pre, v.build) == head);
    match v.time {
        None => {
            lemma_no_colon(head);
        },
        Some(t) => {
            let tail = s.subrange(i + 1, s.len() as int);
            lemma_find_from_bounds(s, ':', i + 1);
            assert forall|k: int| 0 <= k < tail.len() implies tail[k] != ':' by {
                assert(tail[k] == s[i + 1 + k]);
            }
            assert(!tail.contains(':'));
            assert(stamp_display(t.secs, t.nanos) == tail);
            lemma_single_colon(head, tail);
        },
    }
}

/// Versions that agree in semantic version are equal under `==`. They are
/// exactly equal where their timestamps agree too, and not exactly equal
/// where their timestamps differ.
pub proof fn lemma_equal_and_exact(a: Version, b: Version)
    requires
        a@.same_semver(b@),
    ensures
        a.eq_spec(&b),
        a@.time == b@.time ==> a@.exact(b@),
        a@.time != b@.time ==> !a@.exact(b@),
{
}

} // verus!
