//! Addresses: texts that the URL parser accepts as absolute URLs.

use vstd::prelude::*;

verus! {

/// What the URL parser makes of an accepted text.
pub struct UrlRecord {
    /// The URL as the parser writes it out again.
    pub href: Seq<char>,
    /// Its scheme, in lower case and without the colon.
    pub scheme: Seq<char>,
}

/// The record that `url::Url::parse` makes of `text`, or `None` where it refuses the text.
pub uninterp spec fn parsed_url(text: Seq<char>) -> Option<UrlRecord>;

/// Whether the URL parser accepts `text` as an absolute URL.
pub open spec fn is_valid_address(text: Seq<char>) -> bool {
    parsed_url(text) is Some
}

/// `url::ParseError`, the reason that the URL parser gives for refusing a text. It is
/// declared so that a refusal can be taken from the parser; nothing is known of it.
#[verifier::external_type_specification]
#[verifier::external_body]
pub struct ExParseError(url::ParseError);

/// The error of a text that does not parse as an absolute URL.
#[derive(Clone, Copy, Debug, PartialEq, Eq)]
pub struct InvalidAddress;

/// A validated, absolute URL.
#[derive(Debug, PartialEq, Eq)]
pub struct Address {
    href: String,
    scheme: String,
}

impl View for Address {
    type V = UrlRecord;

    closed spec fn view(&self) -> UrlRecord {
        UrlRecord { href: self.href@, scheme: self.scheme@ }
    }
}

impl Clone for Address {
    fn clone(&self) -> (copy: Address)
        ensures
            copy@ == self@,
    {
        Address { href: self.href.clone(), scheme: self.scheme.clone() }
    }
}

impl Address {
    /// Parses `text` as an absolute URL. The parser decides; it accepts a text exactly
    /// where `is_valid_address` holds of it.
    pub fn parse(text: &str) -> (result: Result<Address, InvalidAddress>)
        ensures
            match result {
                Ok(address) => parsed_url(text@) == Some(address@),
                Err(_) => !is_valid_address(text@),
            },
    {
        match parse_url(text) {
            Ok(address) => Ok(address),
            Err(_) => Err(InvalidAddress),
        }
    }

    /// The URL as the parser wrote it out.
    pub fn as_str(&self) -> (text: &str)
        ensures
            text@ == self@.href,
    {
        self.href.as_str()
    }

    /// The scheme of the URL, in lower case and without the colon.
    pub fn scheme(&self) -> (text: &str)
        ensures
            text@ == self@.scheme,
    {
        self.scheme.as_str()
    }
}

/// Calls `url::Url::parse` on `text`, and reads `as_str` and `scheme` off the URL it
/// returns. Trusted: the outcome is the one that `parsed_url` names for this text, so
/// the same text is accepted or refused alike on every call, with the same record.
#[verifier::external_body]
fn parse_url(text: &str) -> (parsed: Result<Address, url::ParseError>)
    ensures
        match parsed {
            Ok(address) => parsed_url(text@) == Some(address@),
            Err(_) => parsed_url(text@) is None,
        },
{
    match url::Url::parse(text) {
        Ok(url) => Ok(Address { href: url.as_str().to_string(), scheme: url.scheme().to_string() }),
        Err(error) => Err(error),
    }
}

} // verus!
