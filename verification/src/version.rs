//! Versions: what they hold, how they are written, and which of two comes first.

pub mod bump;
pub mod list;
pub mod update;

use crate::text::{replace_first, replaced_first};
use crate::token::VERSION;
use std::cmp::Ordering;
use vstd::prelude::*;
use vstd::string::*;

verus! {

/// A version as plain numbers and sequences of characters.
pub struct VersionView {
    pub major: nat,
    pub minor: nat,
    pub patch: nat,
    pub pre: Seq<char>,
    pub build: Seq<char>,
}

/// A semantic version: three numbers, then the pre-release and the build
/// text, each empty where the version has none.
#[derive(Debug, PartialEq, Eq)]
pub struct Version {
    pub major: u64,
    pub minor: u64,
    pub patch: u64,
    pub pre: String,
    pub build: String,
}

impl View for Version {
    type V = VersionView;

    open spec fn view(&self) -> VersionView {
        VersionView {
            major: self.major as nat,
            minor: self.minor as nat,
            patch: self.patch as nat,
            pre: self.pre@,
            build: self.build@,
        }
    }
}

impl Clone for Version {
    fn clone(&self) -> (r: Self)
        ensures
            r == *self,
    {
        Version {
            major: self.major,
            minor: self.minor,
            patch: self.patch,
            pre: self.pre.clone(),
            build: self.build.clone(),
        }
    }
}

/// The release `major.minor.patch`, as a view.
pub open spec fn release(major: nat, minor: nat, patch: nat) -> VersionView {
    VersionView { major, minor, patch, pre: Seq::empty(), build: Seq::empty() }
}

/// The character that writes the digit `d`.
pub open spec fn digit_char(d: nat) -> char {
    if d == 0 {
        '0'
    } else if d == 1 {
        '1'
    } else if d == 2 {
        '2'
    } else if d == 3 {
        '3'
    } else if d == 4 {
        '4'
    } else if d == 5 {
        '5'
    } else if d == 6 {
        '6'
    } else if d == 7 {
        '7'
    } else if d == 8 {
        '8'
    } else {
        '9'
    }
}

/// `n` in decimal digits, without leading zeros.
pub open spec fn decimal(n: nat) -> Seq<char>
    decreases n,
{
    if n < 10 {
        seq![digit_char(n)]
    } else {
        decimal(n / 10).push(digit_char(n % 10))
    }
}

/// `text` behind `mark` where `text` is not empty, else nothing.
pub open spec fn marked(mark: char, text: Seq<char>) -> Seq<char> {
    if text.len() > 0 {
        seq![mark] + text
    } else {
        Seq::empty()
    }
}

/// How a version is written: `major.minor.patch`, then `-` and the
/// pre-release text if there is one, then `+` and the build text if there is one.
pub open spec fn version_text(v: VersionView) -> Seq<char> {
    decimal(v.major) + seq!['.'] + decimal(v.minor) + seq!['.'] + decimal(v.patch) + marked(
        '-',
        v.pre,
    ) + marked('+', v.build)
}

/// The one-character text of the digit `d`.
fn digit_text(d: u64) -> (s: &'static str)
    requires
        d < 10,
    ensures
        s@ == seq![digit_char(d as nat)],
{
    proof {
        reveal_strlit("0");
        reveal_strlit("1");
        reveal_strlit("2");
        reveal_strlit("3");
        reveal_strlit("4");
        reveal_strlit("5");
        reveal_strlit("6");
        reveal_strlit("7");
        reveal_strlit("8");
        reveal_strlit("9");
    }
    let s = if d == 0 {
        "0"
    } else if d == 1 {
        "1"
    } else if d == 2 {
        "2"
    } else if d == 3 {
        "3"
    } else if d == 4 {
        "4"
    } else if d == 5 {
        "5"
    } else if d == 6 {
        "6"
    } else if d == 7 {
        "7"
    } else if d == 8 {
        "8"
    } else {
        "9"
    };
    s
}

/// `n` written in decimal digits.
pub fn decimal_text(n: u64) -> (s: String)
    ensures
        s@ == decimal(n as nat),
    decreases n,
{
    if n < 10 {
        String::from_str(digit_text(n))
    } else {
        let mut s = decimal_text(n / 10);
        let last = digit_text(n % 10);
        s.append(last);
        s
    }
}

impl Version {
    /// The release `major.minor.patch`, with no pre-release and no build text.
    pub fn new(major: u64, minor: u64, patch: u64) -> (r: Version)
        ensures
            r@ == release(major as nat, minor as nat, patch as nat),
    {
        Version { major, minor, patch, pre: String::new(), build: String::new() }
    }

    /// This version as text.
    pub fn to_string(&self) -> (s: String)
        ensures
            s@ == version_text(self@),
    {
        proof {
            reveal_strlit(".");
            reveal_strlit("-");
            reveal_strlit("+");
        }
        let mut s = decimal_text(self.major);
        s.append(".");
        let minor = decimal_text(self.minor);
        s.append(minor.as_str());
        s.append(".");
        let patch = decimal_text(self.patch);
        s.append(patch.as_str());
        let ghost numbers = s@;
        if !self.pre.as_str().is_empty() {
            s.append("-");
            s.append(self.pre.as_str());
        }
        if !self.build.as_str().is_empty() {
            s.append("+");
            s.append(self.build.as_str());
        }
        s
    }
}

/// The version that lenient parsing reads from `text`, if it reads one.
pub uninterp spec fn lenient_version(text: Seq<char>) -> Option<VersionView>;

/// The version that strict semver parsing reads from `text`, if it reads one.
pub uninterp spec fn strict_version(text: Seq<char>) -> Option<VersionView>;

/// Reads a version from `text` with `semver::Version::parse`, which takes
/// only what the semver grammar allows. The contract claims only that the
/// outcome is a function of the text; the fields are those of the
/// `semver::Version` that came back, its pre-release and build metadata as
/// the text they hold.
#[verifier::external_body]
pub(crate) fn strict_parse(text: &str) -> (r: Option<Version>)
    ensures
        match r {
            Some(v) => strict_version(text@) == Some(v@),
            None => strict_version(text@) is None,
        },
{
    match semver::Version::parse(text) {
        Ok(v) => Some(
            Version {
                major: v.major,
                minor: v.minor,
                patch: v.patch,
                pre: v.pre.as_str().to_string(),
                build: v.build.as_str().to_string(),
            },
        ),
        Err(_) => None,
    }
}

/// The order in which semver places two pre-release texts: negative where
/// `a` comes first, zero where neither does, positive where `b` comes first.
pub uninterp spec fn prerelease_order(a: Seq<char>, b: Seq<char>) -> int;

/// Reads a version from `text` with `lenient_semver::parse`, which also takes
/// forms that strict semver refuses (a leading `v`, missing minor or patch
/// numbers, further numbers). The contract claims only that the outcome is a
/// function of the text; the fields are those of the `semver::Version` that
/// came back, its pre-release and build metadata as the text they hold.
#[verifier::external_body]
pub(crate) fn lenient_parse(text: &str) -> (r: Option<Version>)
    ensures
        match r {
            Some(v) => lenient_version(text@) == Some(v@),
            None => lenient_version(text@) is None,
        },
{
    match lenient_semver::parse(text) {
        Ok(v) => Some(
            Version {
                major: v.major,
                minor: v.minor,
                patch: v.patch,
                pre: v.pre.as_str().to_string(),
                build: v.build.as_str().to_string(),
            },
        ),
        Err(_) => None,
    }
}

/// Compares two pre-release texts by the `Ord` of `semver::Prerelease`,
/// which semver documents as a total order: identifier by identifier,
/// numbers by value and below words, words by their characters, the shorter
/// of two texts first where one begins the other. A text that semver does
/// not take for a pre-release is compared as the empty one.
///
/// The contract claims that the outcome is a function of the two texts and
/// one of -1, 0 and 1; that the two texts taken the other way round compare
/// the other way round; and that a text which does not come after `a` does
/// not come after `b` either, where `a` does not come after `b`.
#[verifier::external_body]
pub(crate) fn compare_prerelease(a: &str, b: &str) -> (r: i8)
    ensures
        r == prerelease_order(a@, b@),
        -1 <= r <= 1,
        prerelease_order(b@, a@) == -r,
        forall|c: Seq<char>|
            r <= 0 && #[trigger] prerelease_order(c, a@) <= 0 ==> prerelease_order(c, b@) <= 0,
{
    let x = semver::Prerelease::new(a).unwrap_or_default();
    let y = semver::Prerelease::new(b).unwrap_or_default();
    match x.cmp(&y) {
        Ordering::Less => -1,
        Ordering::Equal => 0,
        Ordering::Greater => 1,
    }
}

/// The order of two pre-release texts, either of which may be empty: a
/// version without a pre-release comes after one with; two with a
/// pre-release are ordered as semver orders the texts.
pub open spec fn pre_order(a: Seq<char>, b: Seq<char>) -> int {
    if a.len() == 0 && b.len() == 0 {
        0
    } else if a.len() == 0 {
        1
    } else if b.len() == 0 {
        -1
    } else {
        prerelease_order(a, b)
    }
}

/// Semantic-version precedence of `a` against `b`: by major, then minor, then
/// patch number, then by pre-release. Build text plays no part. Negative
/// where `a` comes first, zero where neither does, positive where `b` does.
pub open spec fn precedence(a: VersionView, b: VersionView) -> int {
    if a.major != b.major {
        if a.major < b.major {
            -1
        } else {
            1
        }
    } else if a.minor != b.minor {
        if a.minor < b.minor {
            -1
        } else {
            1
        }
    } else if a.patch != b.patch {
        if a.patch < b.patch {
            -1
        } else {
            1
        }
    } else {
        pre_order(a.pre, b.pre)
    }
}

/// `a` does not come after `b`.
pub open spec fn precedes(a: VersionView, b: VersionView) -> bool {
    precedence(a, b) <= 0
}

impl Version {
    /// Reads a version from `text`, strictly by the semver grammar.
    pub fn parse(text: &str) -> (r: Option<Version>)
        ensures
            match r {
                Some(v) => strict_version(text@) == Some(v@),
                None => strict_version(text@) is None,
            },
    {
        strict_parse(text)
    }

    /// Reads a version from `text`, leniently.
    pub fn parse_lenient(text: &str) -> (r: Option<Version>)
        ensures
            match r {
                Some(v) => lenient_version(text@) == Some(v@),
                None => lenient_version(text@) is None,
            },
    {
        lenient_parse(text)
    }

    /// The precedence of this version against `other`: -1, 0 or 1. Taken
    /// the other way round the two compare the other way round, and a version
    /// that does not come after this one does not come after `other` either,
    /// where this one does not come after `other`.
    pub fn precedence(&self, other: &Version) -> (r: i8)
        ensures
            r == precedence(self@, other@),
            -1 <= r <= 1,
            precedence(other@, self@) == -r,
            forall|c: VersionView| r <= 0 && #[trigger] precedes(c, self@) ==> precedes(c, other@),
    {
        if self.major != other.major {
            if self.major < other.major {
                -1
            } else {
                1
            }
        } else if self.minor != other.minor {
            if self.minor < other.minor {
                -1
            } else {
                1
            }
        } else if self.patch != other.patch {
            if self.patch < other.patch {
                -1
            } else {
                1
            }
        } else {
            let a = self.pre.as_str();
            let b = other.pre.as_str();
            if a.is_empty() && b.is_empty() {
                0
            } else if a.is_empty() {
                1
            } else if b.is_empty() {
                -1
            } else {
                compare_prerelease(a, b)
            }
        }
    }

    /// Whether this version does not come after `other`. Where it does,
    /// `other` comes before it; where it does not, whatever does not come
    /// after this version does not come after `other` either.
    pub fn precedes(&self, other: &Version) -> (r: bool)
        ensures
            r == precedes(self@, other@),
            !r ==> precedence(other@, self@) < 0,
            r ==> forall|c: VersionView| #[trigger] precedes(c, self@) ==> precedes(c, other@),
    {
        self.precedence(other) <= 0
    }
}

/// `pattern` with `version`, as text, in the place of the leftmost marker;
/// further markers stay as they are.
pub open spec fn rendered(pattern: Seq<char>, version: VersionView) -> Seq<char> {
    replaced_first(pattern, VERSION@, version_text(version))
}

/// Writes `version` into `pattern` in the place of the leftmost marker.
pub fn render(pattern: &str, version: &Version) -> (r: String)
    ensures
        r@ == rendered(pattern@, version@),
{
    let text = version.to_string();
    replace_first(pattern, VERSION, text.as_str())
}

/// `version` with its major number raised by one, and nothing behind it.
pub open spec fn bumped_major(v: VersionView) -> VersionView {
    release(v.major + 1, 0, 0)
}

/// `version` with its minor number raised by one, and nothing behind it.
pub open spec fn bumped_minor(v: VersionView) -> VersionView {
    release(v.major, v.minor + 1, 0)
}

/// `version` with its patch number raised by one, and nothing behind it.
pub open spec fn bumped_patch(v: VersionView) -> VersionView {
    release(v.major, v.minor, v.patch + 1)
}

/// The next major version: `(major + 1, 0, 0)`, pre-release and build text cleared.
pub fn bump_major_version(version: Version) -> (r: Version)
    requires
        version.major < u64::MAX,
    ensures
        r@ == bumped_major(version@),
{
    bump::major_version(version)
}

/// The next minor version: `(major, minor + 1, 0)`, pre-release and build text cleared.
pub fn bump_minor_version(version: Version) -> (r: Version)
    requires
        version.minor < u64::MAX,
    ensures
        r@ == bumped_minor(version@),
{
    bump::minor_version(version)
}

/// The next patch version: `(major, minor, patch + 1)`, pre-release and build text cleared.
pub fn bump_patch_version(version: Version) -> (r: Version)
    requires
        version.patch < u64::MAX,
    ensures
        r@ == bumped_patch(version@),
{
    bump::patch_version(version)
}

} // verus!
