//! Semantic versions and their canonical text.

use crate::digest::{hex_digit, hex_digit_str};
use vstd::prelude::*;
use vstd::string::*;

verus! {

/// Characters allowed in pre-release and build labels: ASCII letters,
/// digits, `-` and `.`.
pub open spec fn label_char(c: char) -> bool {
    ('a' <= c <= 'z') || ('A' <= c <= 'Z') || ('0' <= c <= '9') || c == '-' || c == '.'
}

/// A label is a possibly empty run of label characters.
pub open spec fn valid_label(text: Seq<char>) -> bool {
    forall|i: int| 0 <= i < text.len() ==> label_char(#[trigger] text[i])
}

/// Decimal digits of `n`, most significant first, without padding.
pub open spec fn decimal(n: nat) -> Seq<char>
    decreases n,
{
    if n < 10 {
        seq![hex_digit(n as int)]
    } else {
        decimal(n / 10).push(hex_digit((n % 10) as int))
    }
}

/// `prefix` followed by `label`, or nothing when the label is empty.
pub open spec fn tagged(prefix: char, label: Seq<char>) -> Seq<char> {
    if label.len() == 0 {
        Seq::<char>::empty()
    } else {
        seq![prefix] + label
    }
}

/// Mathematical value of a [`Version`].
pub struct VersionView {
    pub major: u64,
    pub minor: u64,
    pub patch: u64,
    pub pre: Seq<char>,
    pub build: Seq<char>,
}

impl VersionView {
    /// `major.minor.patch`, then `-pre` and `+build` where present.
    pub open spec fn text(self) -> Seq<char> {
        decimal(self.major as nat) + seq!['.'] + decimal(self.minor as nat) + seq!['.'] + decimal(
            self.patch as nat,
        ) + tagged('-', self.pre) + tagged('+', self.build)
    }

    /// Both labels are made of label characters.
    pub open spec fn wf(self) -> bool {
        valid_label(self.pre) && valid_label(self.build)
    }
}

/// What the `semver` crate's `Version::parse` makes of a text: the five
/// components of the version, or nothing where it rejects the text.
pub uninterp spec fn semver_parts(text: Seq<char>) -> Option<VersionView>;

/// How the `semver` crate's `Version::cmp_precedence` orders the versions
/// that its `Version::parse` makes of two texts: a negative number where
/// the first has the lower precedence, zero where both have the same, a
/// positive number where the first has the higher; nothing where it
/// rejects one of the texts.
pub uninterp spec fn semver_precedence(a: Seq<char>, b: Seq<char>) -> Option<i8>;

/// How one version stands to another in precedence.
#[derive(Debug, Clone, Copy, PartialEq, Eq, Structural)]
pub enum Precedence {
    Lower,
    Same,
    Higher,
}

/// The standing that a sign tells: negative is lower, zero the same,
/// positive higher.
pub open spec fn standing(sign: i8) -> Precedence {
    if sign < 0 {
        Precedence::Lower
    } else if sign == 0 {
        Precedence::Same
    } else {
        Precedence::Higher
    }
}

/// The standing that an optional sign tells.
pub open spec fn standing_of(sign: Option<i8>) -> Option<Precedence> {
    match sign {
        Some(sign) => Some(standing(sign)),
        None => None,
    }
}

impl Precedence {
    /// The standing that a sign tells.
    pub fn from_sign(sign: i8) -> (p: Precedence)
        ensures
            p == standing(sign),
    {
        if sign < 0 {
            Precedence::Lower
        } else if sign == 0 {
            Precedence::Same
        } else {
            Precedence::Higher
        }
    }
}

/// Parses both texts with `semver::Version::parse` and compares the two
/// versions with `semver::Version::cmp_precedence`, which goes by the three
/// numbers and the pre-release label and leaves the build label aside.
/// Trusted: the outcome is a function of the characters of the two texts
/// alone.
#[verifier::external_body]
fn semver_compare(a: &str, b: &str) -> (r: Option<i8>)
    ensures
        r == semver_precedence(a@, b@),
{
    let x = semver::Version::parse(a).ok()?;
    let y = semver::Version::parse(b).ok()?;
    Some(
        match x.cmp_precedence(&y) {
            std::cmp::Ordering::Less => -1,
            std::cmp::Ordering::Equal => 0,
            std::cmp::Ordering::Greater => 1,
        },
    )
}

/// A semantic version.
#[derive(Debug)]
pub struct Version {
    major: u64,
    minor: u64,
    patch: u64,
    pre: String,
    build: String,
}

impl View for Version {
    type V = VersionView;

    closed spec fn view(&self) -> VersionView {
        VersionView {
            major: self.major,
            minor: self.minor,
            patch: self.patch,
            pre: self.pre@,
            build: self.build@,
        }
    }
}

impl Clone for Version {
    fn clone(&self) -> (r: Self)
        ensures
            r@ == self@,
    {
        Version {
            major: self.major,
            minor: self.minor,
            patch: self.patch,
            pre: self.pre.clone(),
            build: self.build.clone(),
        }
    }
}

/// The five components of a version as plain values.
pub struct VersionParts {
    pub major: u64,
    pub minor: u64,
    pub patch: u64,
    pub pre: String,
    pub build: String,
}

impl View for VersionParts {
    type V = VersionView;

    open spec fn view(&self) -> VersionView {
        VersionView {
            major: self.major,
            minor: self.minor,
            patch: self.patch,
            pre: self.pre@,
            build: self.build@,
        }
    }
}

/// The view of optional parts.
pub open spec fn parts_view(parts: Option<VersionParts>) -> Option<VersionView> {
    match parts {
        Some(p) => Some(p@),
        None => None,
    }
}

/// What [`Version::parse`] returns for a given outcome of the parser: the
/// parsed components where there are any and their labels are valid.
pub open spec fn accepted(parsed: Option<VersionView>) -> Option<VersionView> {
    match parsed {
        Some(v) => if v.wf() {
            Some(v)
        } else {
            None
        },
        None => None,
    }
}

/// Calls `semver::Version::parse` and copies the fields of the result out:
/// the three numbers, and the text of the pre-release and build labels.
/// Trusted: the outcome is a function of the characters of `text` alone.
#[verifier::external_body]
fn semver_parse(text: &str) -> (r: Option<VersionParts>)
    ensures
        parts_view(r) == semver_parts(text@),
{
    match semver::Version::parse(text) {
        Ok(v) => Some(
            VersionParts {
                major: v.major,
                minor: v.minor,
                patch: v.patch,
                pre: v.pre.as_str().to_string(),
                build: v.build.as_str().to_string(),
            },
        ),
        Err(_) => None,
    }
}

fn label_byte(b: u8) -> (ok: bool)
    ensures
        ok == label_char(b as char),
{
    (b >= 97 && b <= 122) || (b >= 65 && b <= 90) || (b >= 48 && b <= 57) || b == 45 || b == 46
}

/// Decides whether `text` is a valid label.
pub fn is_label(text: &str) -> (ok: bool)
    ensures
        ok == valid_label(text@),
{
    if !text.is_ascii() {
        proof {
            if valid_label(text@) {
                assert forall|i: int| 0 <= i < text@.len() implies '\0' <= #[trigger] text@[i]
                    <= '\u{7f}' by {
                    assert(label_char(text@[i]));
                }
            }
        }
        return false;
    }
    let n = text.unicode_len();
    let mut i: usize = 0;
    while i < n
        invariant
            n == text@.len(),
            text.is_ascii(),
            i <= n,
            forall|j: int| 0 <= j < i ==> label_char(#[trigger] text@[j]),
        decreases n - i,
    {
        let b = text.get_ascii(i);
        proof {
            let c = text@[i as int];
            assert('\0' <= c <= '\u{7f}');
            assert(b as char == c);
        }
        if !label_byte(b) {
            return false;
        }
        i += 1;
    }
    true
}

fn push_decimal(text: &mut String, n: u64)
    ensures
        final(text)@ == old(text)@ + decimal(n as nat),
    decreases n,
{
    if n >= 10 {
        push_decimal(text, n / 10);
    }
    let d: u8 = (n % 10) as u8;
    text.append(hex_digit_str(d));
    proof {
        if n >= 10 {
            assert(final(text)@ =~= old(text)@ + decimal(n as nat));
        } else {
            assert(final(text)@ =~= old(text)@ + decimal(n as nat));
        }
    }
}

fn push_tagged(text: &mut String, prefix: &str, label: &str)
    requires
        prefix@.len() == 1,
    ensures
        final(text)@ == old(text)@ + tagged(prefix@[0], label@),
{
    if label.unicode_len() > 0 {
        text.append(prefix);
        text.append(label);
        proof {
            assert(prefix@ =~= seq![prefix@[0]]);
            assert(final(text)@ =~= old(text)@ + tagged(prefix@[0], label@));
        }
    } else {
        proof {
            assert(final(text)@ =~= old(text)@ + tagged(prefix@[0], label@));
        }
    }
}

impl Version {
    /// Both labels are made of label characters.
    pub open spec fn wf(&self) -> bool {
        self@.wf()
    }

    /// The release `major.minor.patch`, without labels.
    pub fn new(major: u64, minor: u64, patch: u64) -> (v: Version)
        ensures
            v.wf(),
            v@ == (VersionView {
                major,
                minor,
                patch,
                pre: Seq::<char>::empty(),
                build: Seq::<char>::empty(),
            }),
    {
        Version { major, minor, patch, pre: String::new(), build: String::new() }
    }

    /// Builds a version from its components; `None` unless both labels are
    /// valid.
    pub fn from_parts(parts: VersionParts) -> (r: Option<Version>)
        ensures
            r is Some <==> parts@.wf(),
            r matches Some(v) ==> v.wf() && v@ == parts@,
    {
        if is_label(parts.pre.as_str()) && is_label(parts.build.as_str()) {
            Some(
                Version {
                    major: parts.major,
                    minor: parts.minor,
                    patch: parts.patch,
                    pre: parts.pre,
                    build: parts.build,
                },
            )
        } else {
            None
        }
    }

    /// Parses a version text.
    pub fn parse(text: &str) -> (r: Option<Version>)
        ensures
            r matches Some(v) ==> v.wf(),
            (match r {
                Some(v) => Some(v@),
                None => None,
            }) == accepted(semver_parts(text@)),
    {
        match semver_parse(text) {
            Some(parts) => Version::from_parts(parts),
            None => None,
        }
    }

    /// The major number.
    pub fn major(&self) -> (n: u64)
        ensures
            n == self@.major,
    {
        self.major
    }

    /// The minor number.
    pub fn minor(&self) -> (n: u64)
        ensures
            n == self@.minor,
    {
        self.minor
    }

    /// The patch number.
    pub fn patch(&self) -> (n: u64)
        ensures
            n == self@.patch,
    {
        self.patch
    }

    /// The pre-release label; empty where there is none.
    pub fn pre(&self) -> (s: &str)
        ensures
            s@ == self@.pre,
    {
        self.pre.as_str()
    }

    /// The build label; empty where there is none.
    pub fn build(&self) -> (s: &str)
        ensures
            s@ == self@.build,
    {
        self.build.as_str()
    }

    /// The canonical text of this version.
    pub fn to_text(&self) -> (text: String)
        ensures
            text@ == self@.text(),
    {
        proof {
            reveal_strlit(".");
            reveal_strlit("-");
            reveal_strlit("+");
        }
        let mut text = String::new();
        push_decimal(&mut text, self.major);
        text.append(".");
        push_decimal(&mut text, self.minor);
        text.append(".");
        push_decimal(&mut text, self.patch);
        push_tagged(&mut text, "-", self.pre.as_str());
        push_tagged(&mut text, "+", self.build.as_str());
        proof {
            assert(text@ =~= self@.text());
        }
        text
    }

    /// How this version stands to `other` in SemVer precedence, which
    /// goes by the numbers and the pre-release label. Nothing where the
    /// text of one of the two is not taken as a version.
    pub fn precedence(&self, other: &Version) -> (r: Option<Precedence>)
        ensures
            r == standing_of(semver_precedence(self@.text(), other@.text())),
    {
        let a = self.to_text();
        let b = other.to_text();
        match semver_compare(a.as_str(), b.as_str()) {
            Some(sign) => Some(Precedence::from_sign(sign)),
            None => None,
        }
    }

    /// Component-wise equality.
    pub fn same(&self, other: &Version) -> (r: bool)
        ensures
            r == (self@ == other@),
    {
        self.major == other.major && self.minor == other.minor && self.patch == other.patch
            && self.pre == other.pre && self.build == other.build
    }
}

} // verus!
