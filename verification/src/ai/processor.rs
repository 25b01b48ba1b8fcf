//! What is read off a page's markup: the text of its body, its links and its title.

use vstd::prelude::*;
use vstd::string::StringExecFns;

verus! {

/// The selector of the element whose text is the page's text.
pub const BODY_SELECTOR: &'static str = "body";

/// The selector of the page's links.
pub const LINK_SELECTOR: &'static str = "a[href]";

/// The attribute that holds a link's target.
pub const LINK_ATTRIBUTE: &'static str = "href";

/// The selector of the page's title.
pub const TITLE_SELECTOR: &'static str = "title";

/// What stands between two text nodes in the text of an element.
pub const TEXT_SEPARATOR: &'static str = " ";

/// For each element of the HTML document `html` that the CSS selector group `selector`
/// matches, in the order of the document, the text nodes below it, in that order.
/// `None` where `selector` is no selector group.
pub uninterp spec fn selected_texts(html: Seq<char>, selector: Seq<char>) -> Option<
    Seq<Seq<Seq<char>>>,
>;

/// For each element of the HTML document `html` that the CSS selector group `selector`
/// matches, in the order of the document, the value of its attribute `attribute`,
/// where it has one. `None` where `selector` is no selector group.
pub uninterp spec fn selected_attributes(
    html: Seq<char>,
    selector: Seq<char>,
    attribute: Seq<char>,
) -> Option<Seq<Option<Seq<char>>>>;

/// Parses `selector` with `scraper::Selector::parse` and `html` with
/// `scraper::Html::parse_document`, walks the matches of `Html::select` and collects
/// what `ElementRef::text` yields for each. Trusted: the outcome is the one that
/// `selected_texts` names for this markup and selector.
#[verifier::external_body]
fn select_texts(html: &str, selector: &str) -> (found: Option<Vec<Vec<String>>>)
    ensures
        found.deep_view() == selected_texts(html@, selector@),
{
    let selector = scraper::Selector::parse(selector).ok()?;
    let document = scraper::Html::parse_document(html);
    Some(
        document.select(&selector).map(
            |element| element.text().map(|node| node.to_string()).collect(),
        ).collect(),
    )
}

/// Parses `selector` with `scraper::Selector::parse` and `html` with
/// `scraper::Html::parse_document`, walks the matches of `Html::select` and collects
/// what `Element::attr` returns for the element of each. Trusted: the outcome is the
/// one that `selected_attributes` names for this markup, selector and attribute.
#[verifier::external_body]
fn select_attributes(html: &str, selector: &str, attribute: &str) -> (found: Option<
    Vec<Option<String>>,
>)
    ensures
        found.deep_view() == selected_attributes(html@, selector@, attribute@),
{
    let selector = scraper::Selector::parse(selector).ok()?;
    let document = scraper::Html::parse_document(html);
    Some(
        document.select(&selector).map(
            |element| element.value().attr(attribute).map(|value| value.to_string()),
        ).collect(),
    )
}

/// The texts of `parts` in order, with `separator` between each two.
pub open spec fn joined(parts: Seq<Seq<char>>, separator: Seq<char>) -> Seq<char>
    decreases parts.len(),
{
    if parts.len() == 0 {
        Seq::empty()
    } else if parts.len() == 1 {
        parts[0]
    } else {
        joined(parts.drop_last(), separator) + separator + parts.last()
    }
}

/// The values that are there, in order.
pub open spec fn present(values: Seq<Option<Seq<char>>>) -> Seq<Seq<char>>
    decreases values.len(),
{
    if values.len() == 0 {
        Seq::empty()
    } else if values.last() is Some {
        present(values.drop_last()).push(values.last()->0)
    } else {
        present(values.drop_last())
    }
}

/// The text of the first of `elements`: its text nodes with a space between each two.
pub open spec fn first_text(elements: Seq<Seq<Seq<char>>>) -> Option<Seq<char>> {
    if elements.len() == 0 {
        None
    } else {
        Some(joined(elements[0], TEXT_SEPARATOR@))
    }
}

/// The error of a selector that is no CSS selector group.
#[derive(Clone, Copy, Debug, PartialEq, Eq)]
pub struct InvalidSelector;

/// `parts` in order, with `separator` between each two.
pub fn join(parts: &Vec<String>, separator: &str) -> (text: String)
    ensures
        text@ == joined(parts.deep_view(), separator@),
{
    let mut text = String::new();
    let mut i: usize = 0;
    while i < parts.len()
        invariant
            i <= parts.len(),
            text@ == joined(parts.deep_view().take(i as int), separator@),
        decreases parts.len() - i,
    {
        proof {
            let done = parts.deep_view().take(i as int);
            let next = parts.deep_view().take(i + 1);
            assert(next.drop_last() =~= done);
            assert(next.last() == parts[i as int]@);
            assert(Seq::<char>::empty() + parts[i as int]@ =~= parts[i as int]@);
        }
        if i > 0 {
            text.append(separator);
        }
        text.append(parts[i].as_str());
        i += 1;
    }
    assert(parts.deep_view().take(parts.len() as int) =~= parts.deep_view());
    text
}

/// The text of the first of `elements`, or `None` where there is none.
pub fn text_of_first(elements: &Vec<Vec<String>>) -> (text: Option<String>)
    ensures
        text.deep_view() == first_text(elements.deep_view()),
{
    if elements.len() == 0 {
        None
    } else {
        Some(join(&elements[0], TEXT_SEPARATOR))
    }
}

/// The values that are there, in order.
pub fn collect_present(values: &Vec<Option<String>>) -> (kept: Vec<String>)
    ensures
        kept.deep_view() == present(values.deep_view()),
{
    let mut kept: Vec<String> = Vec::new();
    let mut i: usize = 0;
    while i < values.len()
        invariant
            i <= values.len(),
            kept.deep_view() == present(values.deep_view().take(i as int)),
        decreases values.len() - i,
    {
        proof {
            let done = values.deep_view().take(i as int);
            let next = values.deep_view().take(i + 1);
            assert(next.drop_last() =~= done);
            assert(next.last() == values[i as int].deep_view());
        }
        let ghost before = kept.deep_view();
        match &values[i] {
            Some(value) => {
                kept.push(value.clone());
                assert(kept.deep_view() =~= before.push(value@));
            },
            None => {},
        }
        i += 1;
    }
    assert(values.deep_view().take(values.len() as int) =~= values.deep_view());
    kept
}

/// Reads pages with an HTML parser and CSS selectors.
pub struct ContentProcessor;

impl ContentProcessor {
    /// A processor; it holds no state.
    pub fn new() -> (processor: ContentProcessor) {
        ContentProcessor
    }

    /// The text of the first element of the page that `selector` matches, or `None`
    /// where it matches none. A text that is no selector is refused.
    pub fn select_first_text(&self, html: &str, selector: &str) -> (result: Result<
        Option<String>,
        InvalidSelector,
    >)
        ensures
            match selected_texts(html@, selector@) {
                Some(elements) => result matches Ok(text) && text.deep_view() == first_text(
                    elements,
                ),
                None => result is Err,
            },
    {
        match select_texts(html, selector) {
            Some(elements) => Ok(text_of_first(&elements)),
            None => Err(InvalidSelector),
        }
    }

    /// The values of `attribute` on the elements of the page that `selector` matches,
    /// in the order of the document; an element without the attribute gives none. A
    /// text that is no selector is refused.
    pub fn select_attribute(&self, html: &str, selector: &str, attribute: &str) -> (result: Result<
        Vec<String>,
        InvalidSelector,
    >)
        ensures
            match selected_attributes(html@, selector@, attribute@) {
                Some(values) => result matches Ok(kept) && kept.deep_view() == present(values),
                None => result is Err,
            },
    {
        match select_attributes(html, selector, attribute) {
            Some(values) => Ok(collect_present(&values)),
            None => Err(InvalidSelector),
        }
    }

    /// The text of the page's body, its text nodes with a space between each two; the
    /// empty text where the document has no body.
    pub fn extract_text(&self, html: &str) -> (result: Result<String, InvalidSelector>)
        ensures
            match selected_texts(html@, BODY_SELECTOR@) {
                Some(elements) => result matches Ok(text) && text@ == match first_text(elements) {
                    Some(found) => found,
                    None => Seq::empty(),
                },
                None => result is Err,
            },
    {
        match self.select_first_text(html, BODY_SELECTOR) {
            Ok(Some(text)) => Ok(text),
            Ok(None) => Ok(String::new()),
            Err(error) => Err(error),
        }
    }

    /// The targets of the page's links, in the order of the document.
    pub fn extract_links(&self, html: &str) -> (result: Result<Vec<String>, InvalidSelector>)
        ensures
            match selected_attributes(html@, LINK_SELECTOR@, LINK_ATTRIBUTE@) {
                Some(values) => result matches Ok(links) && links.deep_view() == present(values),
                None => result is Err,
            },
    {
        self.select_attribute(html, LINK_SELECTOR, LINK_ATTRIBUTE)
    }

    /// The text of the page's first title element, or `None` where it has none.
    pub fn extract_title(&self, html: &str) -> (result: Result<Option<String>, InvalidSelector>)
        ensures
            match selected_texts(html@, TITLE_SELECTOR@) {
                Some(elements) => result matches Ok(title) && title.deep_view() == first_text(
                    elements,
                ),
                None => result is Err,
            },
    {
        self.select_first_text(html, TITLE_SELECTOR)
    }
}

} // verus!
