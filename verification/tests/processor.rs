use syncflo_browser::ai::processor::{
    collect_present, join, text_of_first, ContentProcessor, InvalidSelector,
};

fn texts(parts: &[&str]) -> Vec<String> {
    parts.iter().map(|part| part.to_string()).collect()
}

const PAGE: &str = "<!DOCTYPE html><html><head><title>A  page</title></head>\
<body><h1>Hello</h1><p>to <b>the</b> world</p>\
<a href=\"https://a.test/\">first</a><a name=\"anchor\">none</a>\
<a href=\"/relative?x=1&amp;y=2\">second</a><a href=\"\">empty</a></body></html>";

#[test]
fn text_of_the_body() {
    let processor = ContentProcessor::new();
    assert_eq!(
        processor.extract_text(PAGE),
        Ok("Hello to  the  world first none second empty".to_string())
    );
    assert_eq!(processor.extract_text("<p>one</p><p>two</p>"), Ok("one two".to_string()));
    assert_eq!(processor.extract_text("just text"), Ok("just text".to_string()));
}

#[test]
fn text_of_an_empty_body() {
    let processor = ContentProcessor::new();
    assert_eq!(processor.extract_text(""), Ok(String::new()));
    assert_eq!(processor.extract_text("<html><body></body></html>"), Ok(String::new()));
    assert_eq!(processor.extract_text("<title>only a title</title>"), Ok(String::new()));
}

#[test]
fn links_in_document_order() {
    let processor = ContentProcessor::new();
    assert_eq!(
        processor.extract_links(PAGE),
        Ok(texts(&["https://a.test/", "/relative?x=1&y=2", ""]))
    );
    assert_eq!(processor.extract_links("<p>no links</p><a>here</a>"), Ok(Vec::new()));
    assert_eq!(processor.extract_links(""), Ok(Vec::new()));
    assert_eq!(
        processor.extract_links("<div><a href=b>1</a><span><a HREF='a'>2</a></span></div>"),
        Ok(texts(&["b", "a"]))
    );
}

#[test]
fn title_of_the_page() {
    let processor = ContentProcessor::new();
    assert_eq!(processor.extract_title(PAGE), Ok(Some("A  page".to_string())));
    assert_eq!(processor.extract_title("<p>no title</p>"), Ok(None));
    assert_eq!(processor.extract_title(""), Ok(None));
    assert_eq!(processor.extract_title("<title></title>"), Ok(Some(String::new())));
    assert_eq!(
        processor.extract_title("<title>first</title><body><svg><title>second</title></svg>"),
        Ok(Some("first".to_string()))
    );
}

#[test]
fn first_text_of_any_selector() {
    let processor = ContentProcessor::new();
    assert_eq!(processor.select_first_text(PAGE, "h1"), Ok(Some("Hello".to_string())));
    assert_eq!(processor.select_first_text(PAGE, "p"), Ok(Some("to  the  world".to_string())));
    assert_eq!(processor.select_first_text(PAGE, "a[name], b"), Ok(Some("the".to_string())));
    assert_eq!(processor.select_first_text(PAGE, "h2"), Ok(None));
    assert_eq!(processor.select_first_text("", "p"), Ok(None));
}

#[test]
fn attribute_of_any_selector() {
    let processor = ContentProcessor::new();
    assert_eq!(
        processor.select_attribute(PAGE, "a", "href"),
        Ok(texts(&["https://a.test/", "/relative?x=1&y=2", ""]))
    );
    assert_eq!(processor.select_attribute(PAGE, "a", "name"), Ok(texts(&["anchor"])));
    assert_eq!(processor.select_attribute(PAGE, "a", "title"), Ok(Vec::new()));
    assert_eq!(processor.select_attribute(PAGE, "h2", "href"), Ok(Vec::new()));
}

#[test]
fn text_that_is_no_selector_is_refused() {
    let processor = ContentProcessor::new();
    assert_eq!(processor.select_first_text(PAGE, "a["), Err(InvalidSelector));
    assert_eq!(processor.select_first_text(PAGE, ""), Err(InvalidSelector));
    assert_eq!(processor.select_first_text(PAGE, "p >"), Err(InvalidSelector));
    assert_eq!(processor.select_attribute(PAGE, "a[", "href"), Err(InvalidSelector));
    assert_eq!(processor.select_attribute(PAGE, "::", "href"), Err(InvalidSelector));
}

#[test]
fn join_puts_the_separator_between() {
    assert_eq!(join(&texts(&[]), " "), "");
    assert_eq!(join(&texts(&["a"]), " "), "a");
    assert_eq!(join(&texts(&["a", "b", "c"]), " "), "a b c");
    assert_eq!(join(&texts(&["a", "b", "c"]), ", "), "a, b, c");
    assert_eq!(join(&texts(&["a", "b"]), ""), "ab");
    assert_eq!(join(&texts(&["", ""]), "-"), "-");
    assert_eq!(join(&texts(&["", "a", ""]), "-"), "-a-");
}

#[test]
fn text_of_first_reads_the_first_element_only() {
    assert_eq!(text_of_first(&vec![]), None);
    assert_eq!(text_of_first(&vec![texts(&[])]), Some(String::new()));
    assert_eq!(text_of_first(&vec![texts(&["a", "b"]), texts(&["c"])]), Some("a b".to_string()));
    assert_eq!(text_of_first(&vec![texts(&["a"])]), Some("a".to_string()));
}

#[test]
fn collect_present_keeps_the_order() {
    assert_eq!(collect_present(&vec![]), Vec::<String>::new());
    assert_eq!(collect_present(&vec![None, None]), Vec::<String>::new());
    assert_eq!(
        collect_present(&vec![Some("a".to_string()), None, Some("b".to_string()), Some("a".to_string())]),
        texts(&["a", "b", "a"])
    );
}
