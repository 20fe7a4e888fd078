//! Semantic versioning support.

use vstd::prelude::*;
use crate::common::text::{
    all_digits, decimal, digits_value, lemma_decimal, lemma_digits_value_prefix_monotone,
    lemma_digits_value_push, u64_to_decimal,
};

verus! {

/// Semantic version following the semver.org `MAJOR.MINOR.PATCH` scheme.
#[derive(Debug, Clone, Copy, PartialEq, Eq, Structural, Hash, Ord)]
pub struct SemanticVersion {
    pub major: u32,
    pub minor: u32,
    pub patch: u32,
}

/// Error type for version parsing.
#[derive(Debug, Clone, PartialEq, Eq)]
pub enum ParseVersionError {
    /// Invalid format (expected X.Y.Z); holds the whole input.
    InvalidFormat(String),
    /// Invalid number in a version component; holds that component.
    InvalidNumber(String),
}

/// What parsing a version text yields, as mathematical values.
pub enum VersionParse {
    Parsed(SemanticVersion),
    BadFormat(Seq<char>),
    BadNumber(Seq<char>),
}

impl ParseVersionError {
    /// The error as a mathematical value.
    pub open spec fn as_parse(&self) -> VersionParse {
        match self {
            ParseVersionError::InvalidFormat(s) => VersionParse::BadFormat(s@),
            ParseVersionError::InvalidNumber(s) => VersionParse::BadNumber(s@),
        }
    }

    /// The message that `Display` writes for this error.
    pub fn to_string(&self) -> (r: String)
        ensures
            r@ == parse_error_message(self.as_parse()),
    {
        proof {
            reveal_strlit("Invalid version format: '");
            reveal_strlit("' (expected X.Y.Z)");
            reveal_strlit("Invalid version number: '");
            reveal_strlit("'");
        }
        match self {
            ParseVersionError::InvalidFormat(s) => {
                let r = String::from_str("Invalid version format: '").concat(s.as_str()).concat(
                    "' (expected X.Y.Z)",
                );
                r
            },
            ParseVersionError::InvalidNumber(s) => {
                String::from_str("Invalid version number: '").concat(s.as_str()).concat("'")
            },
        }
    }
}

/// The message of a parse error.
pub open spec fn parse_error_message(p: VersionParse) -> Seq<char> {
    match p {
        VersionParse::BadFormat(s) => "Invalid version format: '"@ + s + "' (expected X.Y.Z)"@,
        VersionParse::BadNumber(s) => "Invalid version number: '"@ + s + "'"@,
        VersionParse::Parsed(_) => Seq::empty(),
    }
}

/// The digits of an unsigned number, after an optional leading `+`.
pub open spec fn unsigned_digits(s: Seq<char>) -> Seq<char> {
    if s.len() > 0 && s[0] == '+' {
        s.drop_first()
    } else {
        s
    }
}

/// What `str::parse::<u32>` accepts: an optional `+`, then one or more decimal
/// digits whose value fits in a `u32`.
pub open spec fn parse_u32_spec(s: Seq<char>) -> Option<u32> {
    let d = unsigned_digits(s);
    if d.len() == 0 || !all_digits(d) || digits_value(d) > u32::MAX {
        None
    } else {
        Some(digits_value(d) as u32)
    }
}

/// Positions of the `.` characters of `s`, in increasing order.
pub open spec fn dot_positions(s: Seq<char>) -> Seq<int>
    decreases s.len(),
{
    if s.len() == 0 {
        Seq::empty()
    } else {
        let p = dot_positions(s.drop_last());
        if s.last() == '.' {
            p.push(s.len() - 1)
        } else {
            p
        }
    }
}

/// Result of parsing `MAJOR.MINOR.PATCH`: the text must split on `.` into
/// exactly three parts, each a `u32`; the first part that is no number is
/// reported.
pub open spec fn parse_version_text(s: Seq<char>) -> VersionParse {
    let dots = dot_positions(s);
    if dots.len() != 2 {
        VersionParse::BadFormat(s)
    } else {
        let p0 = s.subrange(0, dots[0]);
        let p1 = s.subrange(dots[0] + 1, dots[1]);
        let p2 = s.subrange(dots[1] + 1, s.len() as int);
        if parse_u32_spec(p0) is None {
            VersionParse::BadNumber(p0)
        } else if parse_u32_spec(p1) is None {
            VersionParse::BadNumber(p1)
        } else if parse_u32_spec(p2) is None {
            VersionParse::BadNumber(p2)
        } else {
            VersionParse::Parsed(
                SemanticVersion {
                    major: parse_u32_spec(p0)->0,
                    minor: parse_u32_spec(p1)->0,
                    patch: parse_u32_spec(p2)->0,
                },
            )
        }
    }
}

/// The text `MAJOR.MINOR.PATCH` that `Display` writes.
pub open spec fn version_text(v: SemanticVersion) -> Seq<char> {
    decimal(v.major as nat) + seq!['.'] + decimal(v.minor as nat) + seq!['.'] + decimal(
        v.patch as nat,
    )
}

pub proof fn lemma_dot_positions(s: Seq<char>)
    ensures
        forall|k: int|
            0 <= k < dot_positions(s).len() ==> 0 <= #[trigger] dot_positions(s)[k] < s.len()
                && s[dot_positions(s)[k]] == '.',
        forall|j: int, k: int|
            0 <= j < k < dot_positions(s).len() ==> dot_positions(s)[j] < dot_positions(s)[k],
    decreases s.len(),
{
    if s.len() > 0 {
        lemma_dot_positions(s.drop_last());
        let p = dot_positions(s.drop_last());
        assert forall|k: int| 0 <= k < p.len() implies s[p[k]] == '.' by {
            assert(s.drop_last()[p[k]] == s[p[k]]);
        }
    }
}

proof fn lemma_dot_positions_append_no_dots(x: Seq<char>, y: Seq<char>)
    requires
        forall|i: int| 0 <= i < y.len() ==> #[trigger] y[i] != '.',
    ensures
        dot_positions(x + y) == dot_positions(x),
    decreases y.len(),
{
    if y.len() > 0 {
        let y0 = y.drop_last();
        assert forall|i: int| 0 <= i < y0.len() implies #[trigger] y0[i] != '.' by {
            assert(y0[i] == y[i]);
        }
        lemma_dot_positions_append_no_dots(x, y0);
        assert((x + y).drop_last() =~= x + y0);
        assert((x + y).last() == y.last());
    } else {
        assert(x + y =~= x);
    }
}

proof fn lemma_dot_positions_push_dot(x: Seq<char>)
    ensures
        dot_positions(x.push('.')) == dot_positions(x).push(x.len() as int),
{
    assert(x.push('.').drop_last() =~= x);
}

proof fn lemma_parse_decimal(n: nat)
    requires
        n <= u32::MAX,
    ensures
        parse_u32_spec(decimal(n)) == Some(n as u32),
{
    lemma_decimal(n);
    assert(unsigned_digits(decimal(n)) == decimal(n));
}

/// Writing a version and reading it back gives the same version.
pub proof fn law_version_text_round_trip(v: SemanticVersion)
    ensures
        parse_version_text(version_text(v)) == VersionParse::Parsed(v),
{
    let a = decimal(v.major as nat);
    let b = decimal(v.minor as nat);
    let c = decimal(v.patch as nat);
    lemma_decimal(v.major as nat);
    lemma_decimal(v.minor as nat);
    lemma_decimal(v.patch as nat);
    let dot = seq!['.'];
    let s1 = a + dot;
    let s2 = s1 + b;
    let s3 = s2 + dot;
    let s = s3 + c;
    assert(s =~= version_text(v));
    lemma_dot_positions_append_no_dots(Seq::<char>::empty(), a);
    assert(Seq::<char>::empty() + a =~= a);
    assert(s1 =~= a.push('.'));
    lemma_dot_positions_push_dot(a);
    lemma_dot_positions_append_no_dots(s1, b);
    assert(s3 =~= s2.push('.'));
    lemma_dot_positions_push_dot(s2);
    lemma_dot_positions_append_no_dots(s3, c);
    let dots = dot_positions(s);
    assert(dots =~= seq![a.len() as int, (a.len() + 1 + b.len()) as int]);
    assert(s.subrange(0, dots[0]) =~= a);
    assert(s.subrange(dots[0] + 1, dots[1]) =~= b);
    assert(s.subrange(dots[1] + 1, s.len() as int) =~= c);
    lemma_parse_decimal(v.major as nat);
    lemma_parse_decimal(v.minor as nat);
    lemma_parse_decimal(v.patch as nat);
}

/// Parse a `u32` as `str::parse::<u32>` does.
fn parse_u32_text(s: &str) -> (r: Option<u32>)
    ensures
        r == parse_u32_spec(s@),
{
    let n = s.unicode_len();
    if n == 0 {
        return None;
    }
    let mut i: usize = 0;
    if s.get_char(0) == '+' {
        i = 1;
    }
    if i == n {
        return None;
    }
    let start = i;
    let ghost digits = unsigned_digits(s@);
    assert(digits =~= s@.subrange(start as int, n as int));
    let mut acc: u64 = 0;
    while i < n
        invariant
            start <= i <= n,
            n == s@.len(),
            start < n,
            digits == s@.subrange(start as int, n as int),
            digits == unsigned_digits(s@),
            all_digits(digits.take(i - start)),
            acc == digits_value(digits.take(i - start)),
            acc <= u32::MAX,
        decreases n - i,
    {
        let c = s.get_char(i);
        assert(c == digits[i - start]);
        if !('0' <= c && c <= '9') {
            assert(!all_digits(digits));
            return None;
        }
        let d: u64 = ((c as u32) - 48) as u64;
        let ghost prefix = digits.take(i - start);
        assert(digits.take(i + 1 - start) =~= prefix.push(c));
        proof {
            lemma_digits_value_push(prefix, c);
        }
        let next: u64 = acc * 10 + d;
        if next > 4294967295u64 {
            proof {
                if all_digits(digits) {
                    lemma_digits_value_prefix_monotone(digits, i + 1 - start);
                }
            }
            return None;
        }
        acc = next;
        i = i + 1;
        assert(all_digits(digits.take(i - start)));
    }
    assert(digits.take(n - start) =~= digits);
    Some(acc as u32)
}

impl SemanticVersion {
    /// Create a new semantic version.
    pub fn new(major: u32, minor: u32, patch: u32) -> (r: Self)
        ensures
            r == (SemanticVersion { major, minor, patch }),
    {
        SemanticVersion { major, minor, patch }
    }

    /// Check if this version is compatible with another (same major version).
    pub fn is_compatible_with(&self, other: &Self) -> (r: bool)
        ensures
            r == (self.major == other.major),
    {
        self.major == other.major
    }

    /// Increment major version (resets minor and patch to 0).
    pub fn increment_major(&self) -> (r: Self)
        requires
            self.major < u32::MAX,
        ensures
            r == (SemanticVersion { major: (self.major + 1) as u32, minor: 0, patch: 0 }),
    {
        Self::new(self.major + 1, 0, 0)
    }

    /// Increment minor version (resets patch to 0).
    pub fn increment_minor(&self) -> (r: Self)
        requires
            self.minor < u32::MAX,
        ensures
            r == (SemanticVersion { major: self.major, minor: (self.minor + 1) as u32, patch: 0 }),
    {
        Self::new(self.major, self.minor + 1, 0)
    }

    /// Increment patch version.
    pub fn increment_patch(&self) -> (r: Self)
        requires
            self.patch < u32::MAX,
        ensures
            r == (SemanticVersion {
                major: self.major,
                minor: self.minor,
                patch: (self.patch + 1) as u32,
            }),
    {
        Self::new(self.major, self.minor, self.patch + 1)
    }

    /// The default version, 1.0.0.
    pub fn default() -> (r: Self)
        ensures
            r == (SemanticVersion { major: 1, minor: 0, patch: 0 }),
    {
        Self::new(1, 0, 0)
    }

    /// The text `MAJOR.MINOR.PATCH`, as `Display` writes it.
    pub fn to_string(&self) -> (r: String)
        ensures
            r@ == version_text(*self),
    {
        proof {
            reveal_strlit(".");
        }
        let r = u64_to_decimal(self.major as u64).concat(".").concat(
            u64_to_decimal(self.minor as u64).as_str(),
        ).concat(".").concat(u64_to_decimal(self.patch as u64).as_str());
        assert(r@ =~= version_text(*self));
        r
    }

    /// Parse `MAJOR.MINOR.PATCH`.
    pub fn from_str(s: &str) -> (r: Result<Self, ParseVersionError>)
        ensures
            match r {
                Ok(v) => parse_version_text(s@) == VersionParse::Parsed(v),
                Err(e) => parse_version_text(s@) == e.as_parse(),
            },
    {
        let n = s.unicode_len();
        let mut dots: Vec<usize> = Vec::new();
        let mut i: usize = 0;
        while i < n
            invariant
                i <= n,
                n == s@.len(),
                dots@.len() == dot_positions(s@.take(i as int)).len(),
                forall|k: int|
                    0 <= k < dots@.len() ==> dots@[k] as int == #[trigger] dot_positions(
                        s@.take(i as int),
                    )[k],
            decreases n - i,
        {
            let c = s.get_char(i);
            let ghost before = s@.take(i as int);
            assert(s@.take(i + 1).drop_last() =~= before);
            assert(s@.take(i + 1).last() == c);
            if c == '.' {
                dots.push(i);
            }
            i = i + 1;
        }
        assert(s@.take(n as int) =~= s@);
        proof {
            lemma_dot_positions(s@);
        }
        if dots.len() != 2 {
            return Err(ParseVersionError::InvalidFormat(String::from_str(s)));
        }
        let d0 = dots[0];
        let d1 = dots[1];
        assert(d0 < d1);
        let p0 = s.substring_char(0, d0);
        let p1 = s.substring_char(d0 + 1, d1);
        let p2 = s.substring_char(d1 + 1, n);
        let major = match parse_u32_text(p0) {
            Some(x) => x,
            None => {
                return Err(ParseVersionError::InvalidNumber(String::from_str(p0)));
            },
        };
        let minor = match parse_u32_text(p1) {
            Some(x) => x,
            None => {
                return Err(ParseVersionError::InvalidNumber(String::from_str(p1)));
            },
        };
        let patch = match parse_u32_text(p2) {
            Some(x) => x,
            None => {
                return Err(ParseVersionError::InvalidNumber(String::from_str(p2)));
            },
        };
        Ok(Self::new(major, minor, patch))
    }
}

impl core::str::FromStr for SemanticVersion {
    type Err = ParseVersionError;

    fn from_str(s: &str) -> (r: Result<Self, ParseVersionError>)
        ensures
            match r {
                Ok(v) => parse_version_text(s@) == VersionParse::Parsed(v),
                Err(e) => parse_version_text(s@) == e.as_parse(),
            },
    {
        SemanticVersion::from_str(s)
    }
}

} // verus!
