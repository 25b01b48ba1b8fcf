//! The rule that tells an address from a search query, and the URL that each leads to.

use vstd::prelude::*;
use vstd::string::StringSliceAdditionalSpecFns;
use vstd::utf8::encode_utf8;

use crate::browser::address::{parsed_url, Address};
use crate::text::{contains_char, contains_whitespace, followed_by, has_whitespace, same_text};

verus! {

/// What is put before a host name that was typed without a scheme.
pub const DEFAULT_SCHEME_PREFIX: &'static str = "https://";

/// What is put before the encoded query of a search.
pub const SEARCH_URL_PREFIX: &'static str = "https://www.google.com/search?q=";

/// The mathematical model of a classification.
pub enum Target {
    /// A URL to load.
    Address(Seq<char>),
    /// A text to hand to the search engine.
    SearchQuery(Seq<char>),
}

/// The outcome of classifying a text typed into the address bar.
#[derive(Debug, PartialEq, Eq)]
pub enum Classification {
    /// The URL that the text stands for.
    Address(String),
    /// The text, to be searched for.
    SearchQuery(String),
}

impl View for Classification {
    type V = Target;

    open spec fn view(&self) -> Target {
        match self {
            Classification::Address(url) => Target::Address(url@),
            Classification::SearchQuery(query) => Target::SearchQuery(query@),
        }
    }
}

/// The schemes of the pages that the content view loads as they are typed.
pub open spec fn is_web_scheme(scheme: Seq<char>) -> bool {
    scheme == "http"@ || scheme == "https"@
}

/// A dot and no white space: the text is taken for a host name without a scheme.
pub open spec fn looks_like_host(text: Seq<char>) -> bool {
    text.contains('.') && !has_whitespace(text)
}

/// The rule, in its order of precedence. `scheme` is the scheme that the URL parser
/// found in `text`, or `None` where it refused the text.
pub open spec fn classification(text: Seq<char>, scheme: Option<Seq<char>>) -> Target {
    if scheme is Some && is_web_scheme(scheme->0) {
        Target::Address(text)
    } else if looks_like_host(text) {
        Target::Address(DEFAULT_SCHEME_PREFIX@ + text)
    } else {
        Target::SearchQuery(text)
    }
}

/// The scheme that the URL parser finds in `text`, or `None` where it refuses the text.
pub open spec fn parsed_scheme(text: Seq<char>) -> Option<Seq<char>> {
    match parsed_url(text) {
        Some(record) => Some(record.scheme),
        None => None,
    }
}

/// The classification of `text`.
pub open spec fn classified(text: Seq<char>) -> Target {
    classification(text, parsed_scheme(text))
}

/// The bytes that stand for themselves in a percent-encoded text: the ASCII letters
/// and digits, `-`, `.`, `_` and `~`.
pub open spec fn is_unreserved(byte: u8) -> bool {
    ||| 0x30 <= byte <= 0x39
    ||| 0x41 <= byte <= 0x5a
    ||| 0x61 <= byte <= 0x7a
    ||| byte == 0x2d
    ||| byte == 0x2e
    ||| byte == 0x5f
    ||| byte == 0x7e
}

/// The upper-case hexadecimal digit of a value below 16.
pub open spec fn hex_digit(value: u8) -> char {
    if value < 10 {
        ((0x30 + value) as u8) as char
    } else {
        ((0x41 + value - 10) as u8) as char
    }
}

/// An unreserved byte as it is; any other as `%` and its two hexadecimal digits.
pub open spec fn percent_encoded_byte(byte: u8) -> Seq<char> {
    if is_unreserved(byte) {
        seq![byte as char]
    } else {
        seq!['%', hex_digit(byte / 16), hex_digit(byte % 16)]
    }
}

/// Each byte percent-encoded, in order.
pub open spec fn percent_encoded(bytes: Seq<u8>) -> Seq<char>
    decreases bytes.len(),
{
    if bytes.len() == 0 {
        Seq::empty()
    } else {
        percent_encoded(bytes.drop_last()) + percent_encoded_byte(bytes.last())
    }
}

/// The URL of the search for `query`.
pub open spec fn search_url_of(query: Seq<char>) -> Seq<char> {
    SEARCH_URL_PREFIX@ + percent_encoded(encode_utf8(query))
}

impl Target {
    /// The URL that the content view loads for this classification.
    pub open spec fn destination(self) -> Seq<char> {
        match self {
            Target::Address(url) => url,
            Target::SearchQuery(query) => search_url_of(query),
        }
    }
}

/// Calls `urlencoding::encode`. Trusted: the result holds, for each byte of the text's
/// UTF-8 encoding in order, the byte itself where it is an ASCII letter or digit or one
/// of `-`, `.`, `_`, `~`, and else `%` and the byte's two upper-case hexadecimal digits.
#[verifier::external_body]
fn percent_encode(text: &str) -> (encoded: String)
    ensures
        encoded@ == percent_encoded(text.spec_bytes()),
{
    urlencoding::encode(text).into_owned()
}

/// The rule itself, on a text and the scheme that the URL parser found in it.
pub fn classify_with_scheme(text: &str, scheme: Option<&str>) -> (result: Classification)
    ensures
        result@ == classification(
            text@,
            match scheme {
                Some(found) => Some(found@),
                None => None,
            },
        ),
{
    let web = match scheme {
        Some(found) => same_text(found, "http") || same_text(found, "https"),
        None => false,
    };
    if web {
        Classification::Address(text.to_owned())
    } else if contains_char(text, '.') && !contains_whitespace(text) {
        Classification::Address(followed_by(DEFAULT_SCHEME_PREFIX, text))
    } else {
        Classification::SearchQuery(text.to_owned())
    }
}

/// Classifies a text typed into the address bar: a text that parses as an `http` or
/// `https` URL is an address as it stands; else a text with a dot and no white space is
/// an address once `https://` is put before it; any other text is a search query.
pub fn classify(text: &str) -> (result: Classification)
    ensures
        result@ == classified(text@),
{
    match Address::parse(text) {
        Ok(address) => classify_with_scheme(text, Some(address.scheme())),
        Err(_) => classify_with_scheme(text, None),
    }
}

/// The URL of the search for `query`: the search engine's prefix, then the query
/// percent-encoded.
pub fn search_url(query: &str) -> (url: String)
    ensures
        url@ == search_url_of(query@),
{
    let encoded = percent_encode(query);
    followed_by(SEARCH_URL_PREFIX, encoded.as_str())
}

impl Classification {
    /// The URL that the content view loads: the address, or the URL of the search.
    pub fn destination(&self) -> (url: String)
        ensures
            url@ == self@.destination(),
    {
        match self {
            Classification::Address(url) => url.clone(),
            Classification::SearchQuery(query) => search_url(query.as_str()),
        }
    }
}

} // verus!
