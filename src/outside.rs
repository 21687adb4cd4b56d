//! Calls into the crates this library relies on, each with the contract it is trusted to meet.
use vstd::prelude::*;

verus! {

#[verifier::external_type_specification]
#[verifier::external_body]
pub struct ExRegex(regex::Regex);

#[verifier::external_type_specification]
#[verifier::external_body]
pub struct ExRegexError(regex::Error);

/// Whether the pattern text compiles under the `regex` crate's syntax and limits.
pub uninterp spec fn regex_compiles(pattern: Seq<char>) -> bool;

/// Whether a regex compiled from `pattern` matches somewhere in `text`.
pub uninterp spec fn regex_matches(pattern: Seq<char>, text: Seq<char>) -> bool;

/// The normalized (lower-case) form of a header name, or `None` when the text is no valid name.
pub uninterp spec fn header_name_of(name: Seq<char>) -> Option<Seq<char>>;

/// The text of a status code: the number, a space, and the canonical reason phrase.
pub uninterp spec fn status_text_of(code: u16) -> Seq<char>;

/// The canonical hyphenated text of a 128-bit identifier.
pub uninterp spec fn hyphenated_of(id: u128) -> Seq<char>;

/// The RFC 3339 text of the UTC instant `nanos` nanoseconds after the Unix epoch,
/// or `None` when the instant cannot be represented or formatted.
pub uninterp spec fn rfc3339_of(nanos: i128) -> Option<Seq<char>>;

/// A compiled regular expression together with the text it was compiled from. Its fields are
/// private to this module, and `regex_new` is the only place that builds one, so the regex is
/// always the one compiled from `source`.
pub struct CompiledRegex {
    source: String,
    re: regex::Regex,
}

impl View for CompiledRegex {
    type V = Seq<char>;

    closed spec fn view(&self) -> Seq<char> {
        self.source@
    }
}

impl CompiledRegex {
    /// The text the regex was compiled from.
    pub fn as_str(&self) -> (r: &str)
        ensures
            r@ == self@,
    {
        self.source.as_str()
    }
}

/// Relies on `regex::Regex::new`: compiles `pattern`, failing exactly when it is not valid.
#[verifier::external_body]
pub(crate) fn regex_new(pattern: &str) -> (r: Result<CompiledRegex, regex::Error>)
    ensures
        r is Ok <==> regex_compiles(pattern@),
        r matches Ok(c) ==> c@ == pattern@,
{
    match regex::Regex::new(pattern) {
        Ok(re) => Ok(CompiledRegex { source: pattern.to_string(), re }),
        Err(e) => Err(e),
    }
}

/// Relies on `regex::Regex::is_match`: whether the regex matches somewhere in `text`.
#[verifier::external_body]
pub(crate) fn regex_is_match(c: &CompiledRegex, text: &str) -> (r: bool)
    ensures
        r == regex_matches(c@, text@),
{
    c.re.is_match(text)
}

/// Relies on `http::HeaderName::try_from(&str)` and `HeaderName::as_str`: validates and
/// lower-cases a header name. The empty text is no valid name.
#[verifier::external_body]
pub(crate) fn parse_header_name(name: &str) -> (r: Option<String>)
    ensures
        r matches Some(s) ==> Some(s@) == header_name_of(name@),
        r is None <==> header_name_of(name@) is None,
        name@.len() == 0 ==> r is None,
        r matches Some(s) ==> s@.len() > 0,
        r matches Some(s) ==> header_name_of(s@) == Some(s@),
{
    actix_http::header::HeaderName::try_from(name).ok().map(|h| h.as_str().to_string())
}

/// Relies on `http::StatusCode::from_u16`, which accepts 100 to 999, and on the
/// status code's `Display`.
#[verifier::external_body]
pub(crate) fn status_text(code: u16) -> (r: String)
    requires
        100 <= code <= 999,
    ensures
        r@ == status_text_of(code),
{
    match actix_http::StatusCode::from_u16(code) {
        Ok(s) => s.to_string(),
        Err(_) => String::new(),
    }
}

/// Whether `id` is a version-4 (random) UUID: version nibble 4, variant bits `10`.
pub open spec fn is_v4(id: u128) -> bool {
    (id >> 76u128) & 0xfu128 == 4u128 && (id >> 62u128) & 0x3u128 == 2u128
}

/// Relies on `uuid::Uuid::new_v4` and `Uuid::as_u128`: a random identifier whose version and
/// variant bits `new_v4` sets.
#[verifier::external_body]
pub(crate) fn random_id() -> (r: u128)
    ensures
        is_v4(r),
{
    uuid::Uuid::new_v4().as_u128()
}

/// Relies on `uuid::Uuid::as_hyphenated` and its `Display`: 36 characters.
#[verifier::external_body]
pub(crate) fn hyphenated(id: u128) -> (r: String)
    ensures
        r@ == hyphenated_of(id),
        r@.len() == 36,
{
    uuid::Uuid::from_u128(id).as_hyphenated().to_string()
}

/// Relies on `time::OffsetDateTime::from_unix_timestamp_nanos` and on formatting with
/// `time::format_description::well_known::Rfc3339`.
#[verifier::external_body]
pub(crate) fn format_rfc3339(nanos: i128) -> (r: Option<String>)
    ensures
        r matches Some(s) ==> rfc3339_of(nanos) == Some(s@),
        r is None <==> rfc3339_of(nanos) is None,
{
    time::OffsetDateTime::from_unix_timestamp_nanos(nanos)
        .ok()
        .and_then(|t| t.format(&time::format_description::well_known::Rfc3339).ok())
}

/// Relies on `usize`'s `Display`: its decimal digits.
#[verifier::external_body]
pub(crate) fn usize_text(n: usize) -> (r: String)
    ensures
        r@ == crate::field::decimal(n as nat),
{
    n.to_string()
}

/// Relies on `String::from_utf8`: bytes that are ASCII are valid UTF-8, one character each.
#[verifier::external_body]
pub(crate) fn ascii_text(bytes: &Vec<u8>) -> (r: String)
    requires
        forall|i: int| 0 <= i < bytes@.len() ==> bytes@[i] < 128,
    ensures
        r@ == crate::field::ascii_chars(bytes@),
{
    String::from_utf8(bytes.clone()).unwrap_or_default()
}

} // verus!
