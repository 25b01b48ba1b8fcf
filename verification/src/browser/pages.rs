//! The shell's own pages: where their files lie, the start page as a `data:` URL, and
//! the script that draws a navigation bar into every page, with the home page's URL
//! filled in.

use vstd::prelude::*;
use vstd::string::StringSliceAdditionalSpecFns;

use crate::text::followed_by;

verus! {

/// The directory of the shell's pages, below the directory that the shell runs in.
pub const ASSET_DIRECTORY: &'static str = "assets";

/// What stands before a path in the URL of a local file.
pub const FILE_URL_PREFIX: &'static str = "file://";

/// What follows the label in the message on a page that is not there.
pub const NOT_FOUND_INFIX: &'static str = " file not found: ";

/// One of the pages that the shell loads from files.
#[derive(Clone, Copy, Debug, PartialEq, Eq)]
pub enum Asset {
    /// The page of the whole application.
    App,
    /// The navigation bar.
    Nav,
    /// The home page.
    Home,
}

impl Asset {
    /// The name of the page's file in the asset directory.
    pub open spec fn file_name_text(self) -> Seq<char> {
        match self {
            Asset::App => "app.html"@,
            Asset::Nav => "nav.html"@,
            Asset::Home => "home.html"@,
        }
    }

    /// What the page is called in a message. The application's page goes by the name
    /// of the home page.
    pub open spec fn label_text(self) -> Seq<char> {
        match self {
            Asset::Nav => "Nav"@,
            _ => "Home"@,
        }
    }

    /// The name of the page's file in the asset directory.
    pub fn file_name(self) -> (name: &'static str)
        ensures
            name@ == self.file_name_text(),
    {
        match self {
            Asset::App => "app.html",
            Asset::Nav => "nav.html",
            Asset::Home => "home.html",
        }
    }

    /// What the page is called in a message.
    pub fn label(self) -> (label: &'static str)
        ensures
            label@ == self.label_text(),
    {
        match self {
            Asset::Nav => "Nav",
            _ => "Home",
        }
    }
}

/// The mathematical model of a located page.
pub open spec fn located(asset: Asset, path: Seq<char>, exists: bool) -> Result<
    Seq<char>,
    Seq<char>,
> {
    if exists {
        Ok(FILE_URL_PREFIX@ + path)
    } else {
        Err(asset.label_text() + NOT_FOUND_INFIX@ + path)
    }
}

/// The URL of the page `asset`, whose file is expected at `path`: the `file:` URL of
/// the path where the file exists, and else the message that names the page and the
/// path.
pub fn local_file_url(asset: Asset, path: &str, exists: bool) -> (result: Result<String, String>)
    ensures
        match located(asset, path@, exists) {
            Ok(url) => result matches Ok(found) && found@ == url,
            Err(message) => result matches Err(reason) && reason@ == message,
        },
{
    if exists {
        Ok(followed_by(FILE_URL_PREFIX, path))
    } else {
        let label = followed_by(asset.label(), NOT_FOUND_INFIX);
        Err(followed_by(label.as_str(), path))
    }
}

/// What stands before the encoded markup in the `data:` URL of an HTML page.
pub const DATA_URL_PREFIX: &'static str = "data:text/html;base64,";

/// What stands in the script's template for the URL of the home page.
pub const HOME_PLACEHOLDER: &'static str = "{HOME}";

/// The 64 digits of base64, in the order of their values.
pub const BASE64_DIGITS: &'static str =
    "ABCDEFGHIJKLMNOPQRSTUVWXYZabcdefghijklmnopqrstuvwxyz0123456789+/";

/// The base64 digit of a value below 64.
pub open spec fn base64_digit(value: int) -> char {
    BASE64_DIGITS@[value]
}

/// The four digits of three bytes: their 24 bits, six at a time.
pub open spec fn base64_group(first: int, second: int, third: int) -> Seq<char> {
    seq![
        base64_digit(first / 4),
        base64_digit(first % 4 * 16 + second / 16),
        base64_digit(second % 16 * 4 + third / 64),
        base64_digit(third % 64),
    ]
}

/// The base64 encoding of `bytes` with the standard alphabet and padding: four
/// digits for each three bytes; a last group of one or two bytes is filled up with
/// zero bits, and `=` stands for each digit that holds none of its bits.
pub open spec fn base64_encoded(bytes: Seq<u8>) -> Seq<char>
    decreases bytes.len(),
{
    if bytes.len() == 0 {
        Seq::empty()
    } else if bytes.len() == 1 {
        base64_group(bytes[0] as int, 0, 0).take(2) + seq!['=', '=']
    } else if bytes.len() == 2 {
        base64_group(bytes[0] as int, bytes[1] as int, 0).take(3) + seq!['=']
    } else {
        base64_group(bytes[0] as int, bytes[1] as int, bytes[2] as int) + base64_encoded(
            bytes.skip(3),
        )
    }
}

/// `text` with each occurrence of `pattern` replaced by `with`: the occurrences are
/// found from the left, and none overlaps the one before it.
pub open spec fn replaced(text: Seq<char>, pattern: Seq<char>, with: Seq<char>) -> Seq<char>
    recommends
        pattern.len() > 0,
    decreases text.len(),
{
    if pattern.len() == 0 || text.len() < pattern.len() {
        text
    } else if text.take(pattern.len() as int) == pattern {
        with + replaced(text.skip(pattern.len() as int), pattern, with)
    } else {
        seq![text[0]] + replaced(text.skip(1), pattern, with)
    }
}

/// Calls `base64::encode` on the text's UTF-8 bytes. Trusted: the result is their
/// base64 encoding with the standard alphabet and padding.
#[verifier::external_body]
#[allow(deprecated)]
fn base64_encode(text: &str) -> (encoded: String)
    ensures
        encoded@ == base64_encoded(text.spec_bytes()),
{
    base64::encode(text)
}

/// Calls `str::replace`. Trusted: the result is `text` with each occurrence of
/// `pattern`, found from the left and not overlapping, replaced by `with`.
#[verifier::external_body]
fn replace_all(text: &str, pattern: &str, with: &str) -> (result: String)
    requires
        pattern@.len() > 0,
    ensures
        result@ == replaced(text@, pattern@, with@),
{
    text.replace(pattern, with)
}

/// The `data:` URL that holds the page `html`, so that a script can navigate to it.
pub fn build_start_page_data_url(html: &str) -> (url: String)
    ensures
        url@ == DATA_URL_PREFIX@ + base64_encoded(html.spec_bytes()),
{
    let encoded = base64_encode(html);
    followed_by(DATA_URL_PREFIX, encoded.as_str())
}

/// The script `template` with the URL of the home page in each place that the
/// template marks for it.
pub fn build_global_nav_script(template: &str, home_data_url: &str) -> (script: String)
    ensures
        script@ == replaced(template@, HOME_PLACEHOLDER@, home_data_url@),
{
    proof {
        reveal_strlit("{HOME}");
    }
    replace_all(template, HOME_PLACEHOLDER, home_data_url)
}

} // verus!
