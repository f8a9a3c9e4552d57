//! Calls into other crates. Each item here states what the library takes on trust about
//! code that the verifier does not read; nothing in this file is proved.

use std::cmp::Ordering;
use vstd::prelude::*;

verus! {

/// How one version stands to another in the order of semantic versions.
#[derive(Debug, Clone, Copy, PartialEq, Eq, Structural)]
pub enum Precedence {
    Lower,
    Same,
    Higher,
}

impl Precedence {
    /// The same relation read from the other side.
    pub open spec fn reversed(self) -> Precedence {
        match self {
            Precedence::Lower => Precedence::Higher,
            Precedence::Same => Precedence::Same,
            Precedence::Higher => Precedence::Lower,
        }
    }
}

/// What `semver::Version::parse` has against `text`: the words of its error, or `None`
/// where it accepts the text.
pub uninterp spec fn semver_complaint(text: Seq<char>) -> Option<Seq<char>>;

/// Whether `text` is a semantic version.
pub open spec fn semver_valid(text: Seq<char>) -> bool {
    semver_complaint(text) is None
}

/// What `Ord::cmp` of `semver::Version` says of the versions that `a` and `b` parse to,
/// the first held against the second.
pub uninterp spec fn semver_precedence(a: Seq<char>, b: Seq<char>) -> Precedence;

/// The text that `url::Url::parse` makes of `input`: the URL in its normal form, or
/// `None` where `input` is not an absolute URL.
pub uninterp spec fn url_serialization(input: Seq<char>) -> Option<Seq<char>>;

/// The pieces of the path of the URL that `input` parses to, as `url::Url::path_segments`
/// gives them; `None` where `input` does not parse or the URL cannot be a base.
pub uninterp spec fn url_path_segments(input: Seq<char>) -> Option<Seq<Seq<char>>>;

/// The digits of the hexadecimal system, in lower case.
pub const HEX_DIGITS: &'static str = "0123456789abcdef";

/// How many of the four hyphens of a printed identifier stand before position `i`.
pub open spec fn hyphens_before(i: int) -> int {
    (if i > 8 {
        1int
    } else {
        0int
    }) + (if i > 13 {
        1int
    } else {
        0int
    }) + (if i > 18 {
        1int
    } else {
        0int
    }) + (if i > 23 {
        1int
    } else {
        0int
    })
}

/// The character at position `i` of the printed identifier `id`: a hyphen behind the
/// groups of eight, four, four and four digits, else the hexadecimal digit of `id` that
/// falls on the position, the highest first.
pub open spec fn uuid_char(id: u128, i: int) -> char {
    if i == 8 || i == 13 || i == 18 || i == 23 {
        '-'
    } else {
        HEX_DIGITS@[(id as int / vstd::arithmetic::power::pow(16, (31 - (i - hyphens_before(i))) as nat))
            % 16]
    }
}

/// How `uuid::Uuid` prints the identifier with the number `id`: its thirty-two
/// hexadecimal digits in lower case, in five groups with hyphens between them.
pub open spec fn uuid_text(id: u128) -> Seq<char> {
    Seq::new(36, |i: int| uuid_char(id, i))
}

/// The views of the strings of `v`, in order.
pub open spec fn views_of(v: Seq<String>) -> Seq<Seq<char>> {
    v.map_values(|s: String| s@)
}

/// `semver::Version::parse`, asked what it has against `text`; the error is handed back
/// in its own words (`Display`). The crate accepts `major.minor.patch` with an optional
/// pre-release and build part, and nothing else.
#[verifier::external_body]
pub(crate) fn semver_refusal(text: &str) -> (r: Option<String>)
    ensures
        match r {
            Some(words) => semver_complaint(text@) == Some(words@),
            None => semver_complaint(text@) is None,
        },
{
    semver::Version::parse(text).err().map(|e| e.to_string())
}

/// `Ord::cmp` on `semver::Version`, for two texts that parse. The crate documents a total
/// order: major, minor and patch as numbers, then a release above its pre-releases, then
/// the pre-release identifiers, and last the build metadata. Two facts of a total order
/// are taken with the result: held the other way round the answer is the reverse, and a
/// text stands level with itself.
#[verifier::external_body]
pub(crate) fn semver_compare(a: &str, b: &str) -> (r: Precedence)
    requires
        semver_valid(a@),
        semver_valid(b@),
    ensures
        r == semver_precedence(a@, b@),
        r.reversed() == semver_precedence(b@, a@),
        a@ == b@ ==> r == Precedence::Same,
{
    let left = semver::Version::parse(a).unwrap();
    let right = semver::Version::parse(b).unwrap();
    match left.cmp(&right) {
        Ordering::Less => Precedence::Lower,
        Ordering::Equal => Precedence::Same,
        Ordering::Greater => Precedence::Higher,
    }
}

/// `url::Url::parse`, with the URL handed back as its text (`String::from`).
#[verifier::external_body]
pub(crate) fn parse_url(input: &str) -> (r: Option<String>)
    ensures
        match r {
            Some(s) => url_serialization(input@) == Some(s@),
            None => url_serialization(input@) is None,
        },
{
    url::Url::parse(input).ok().map(String::from)
}

/// `url::Url::path_segments` of the URL that `input` parses to, each piece copied out.
#[verifier::external_body]
pub(crate) fn path_segments_of(input: &str) -> (r: Option<Vec<String>>)
    ensures
        match r {
            Some(v) => url_path_segments(input@) == Some(views_of(v@)),
            None => url_path_segments(input@) is None,
        },
{
    let url = url::Url::parse(input).ok()?;
    let segments = url.path_segments()?;
    Some(segments.map(String::from).collect())
}

/// `uuid::Uuid::new_v4` as a number: a random identifier, of which nothing is known. The
/// crate panics where the machine can give it no random bytes.
#[verifier::external_body]
pub(crate) fn random_id() -> (id: u128) {
    uuid::Uuid::new_v4().as_u128()
}

/// `Display` of `uuid::Uuid`: lower-case hexadecimal digits in five hyphenated groups.
#[verifier::external_body]
pub(crate) fn id_text(id: u128) -> (r: String)
    ensures
        r@ == uuid_text(id),
{
    uuid::Uuid::from_u128(id).to_string()
}

/// `chrono::Utc::now`, in milliseconds since the Unix epoch: the clock's reading, of
/// which nothing is known. The crate panics where the clock stands before the epoch.
#[verifier::external_body]
pub(crate) fn now_millis() -> (t: i64) {
    chrono::Utc::now().timestamp_millis()
}

/// `Display` of `ctrlc::Signal::SIGTERM`: the name of the signal that asks a process to
/// end, as the command `kill` takes it.
#[verifier::external_body]
pub(crate) fn sigterm_name() -> (r: String)
    ensures
        r@ == "SIGTERM"@,
{
    ctrlc::Signal::SIGTERM.to_string()
}

/// The error of an operation on files, which the verifier does not look into.
#[verifier::external_type_specification]
#[verifier::external_body]
pub struct ExIoError(std::io::Error);

/// The error of `reqwest`, which the verifier does not look into.
#[verifier::external_type_specification]
#[verifier::external_body]
pub struct ExReqwestError(reqwest::Error);

/// The error of `serde_json`, which the verifier does not look into.
#[verifier::external_type_specification]
#[verifier::external_body]
pub struct ExJsonError(serde_json::Error);

} // verus!
