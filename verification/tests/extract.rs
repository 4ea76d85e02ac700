use link_scraper::error::ScraperError;
use link_scraper::extract::{
    compile_selector, fits_as_page, fits_as_selector, lookup_attribute, output_line, scrape,
    scrape_with, Lookup, ATTRIBUTE, LABEL, MAX_PAGE_BYTES, MAX_SELECTOR_BYTES, SELECTOR,
};
use scraper::Html;

#[test]
fn fixed_texts_are_exact() {
    assert_eq!(SELECTOR, "div>p>a");
    assert_eq!(ATTRIBUTE, "href");
    assert_eq!(LABEL, "More information link: ");
}

#[test]
fn the_example_page_gives_its_link() {
    let body = "<div><p><a href=\"https://www.iana.org/domains/example\">More information...</a></p></div>";
    let lookup = scrape(body).unwrap();
    assert_eq!(lookup, Lookup::Found("https://www.iana.org/domains/example".to_string()));
    assert_eq!(
        lookup.link_line(),
        "More information link: https://www.iana.org/domains/example"
    );
}

#[test]
fn a_whole_page_gives_its_link() {
    let body = "<!doctype html>\n<html>\n<head>\n    <title>Example Domain</title>\n    <meta charset=\"utf-8\" />\n</head>\n<body>\n<div>\n    <h1>Example Domain</h1>\n    <p>This domain is for use in illustrative examples in documents.</p>\n    <p><a href=\"https://www.iana.org/domains/example\">More information...</a></p>\n</div>\n</body>\n</html>\n";
    assert_eq!(
        scrape(body),
        Ok(Lookup::Found("https://www.iana.org/domains/example".to_string()))
    );
}

#[test]
fn a_page_without_the_link_gives_no_match() {
    assert_eq!(scrape("<div><p>More information...</p></div>"), Ok(Lookup::NoMatch));
}

#[test]
fn an_empty_page_gives_no_match() {
    assert_eq!(scrape(""), Ok(Lookup::NoMatch));
}

#[test]
fn a_link_outside_a_paragraph_gives_no_match() {
    assert_eq!(scrape("<div><a href=\"https://a.example/\">a</a></div>"), Ok(Lookup::NoMatch));
    assert_eq!(scrape("<p><a href=\"https://a.example/\">a</a></p>"), Ok(Lookup::NoMatch));
}

#[test]
fn a_link_deeper_than_a_child_gives_no_match() {
    assert_eq!(
        scrape("<div><p><span><a href=\"https://a.example/\">a</a></span></p></div>"),
        Ok(Lookup::NoMatch)
    );
}

#[test]
fn a_link_without_href_gives_missing_attribute() {
    assert_eq!(
        scrape("<div><p><a>More information...</a></p></div>"),
        Ok(Lookup::MissingAttribute)
    );
}

#[test]
fn a_link_with_another_attribute_only_gives_missing_attribute() {
    assert_eq!(
        scrape("<div><p><a name=\"x\" title=\"y\">More information...</a></p></div>"),
        Ok(Lookup::MissingAttribute)
    );
}

#[test]
fn the_first_match_decides() {
    assert_eq!(
        scrape("<div><p><a href=\"one\">1</a><a href=\"two\">2</a></p></div>"),
        Ok(Lookup::Found("one".to_string()))
    );
    assert_eq!(
        scrape("<div><p><a>1</a><a href=\"two\">2</a></p></div>"),
        Ok(Lookup::MissingAttribute)
    );
}

#[test]
fn links_that_do_not_match_are_passed_over() {
    assert_eq!(
        scrape("<a href=\"zero\">0</a><div><a href=\"one\">1</a><p><a href=\"two\">2</a></p></div>"),
        Ok(Lookup::Found("two".to_string()))
    );
}

#[test]
fn an_empty_href_is_found() {
    assert_eq!(scrape("<div><p><a href=\"\">x</a></p></div>"), Ok(Lookup::Found(String::new())));
}

#[test]
fn character_references_in_the_link_are_resolved() {
    assert_eq!(
        scrape("<div><p><a href=\"https://a.example/?x=1&amp;y=2\">x</a></p></div>"),
        Ok(Lookup::Found("https://a.example/?x=1&y=2".to_string()))
    );
}

#[test]
fn a_selector_that_is_none_is_refused() {
    let body = "<div><p><a href=\"https://www.iana.org/domains/example\">More information...</a></p></div>";
    assert_eq!(scrape_with(body, "div>p>a$", "href"), Err(ScraperError::SelectorError));
    assert_eq!(scrape_with(body, "", "href"), Err(ScraperError::SelectorError));
    assert_eq!(scrape_with(body, "div>", "href"), Err(ScraperError::SelectorError));
}

#[test]
fn a_refused_selector_is_refused_whatever_the_page() {
    assert_eq!(scrape_with("", "div>p>a$", "href"), Err(ScraperError::SelectorError));
    assert_eq!(scrape_with("<p>", "div>p>a$", "href"), Err(ScraperError::SelectorError));
}

#[test]
fn scrape_with_takes_selector_and_attribute() {
    let body = "<ul><li class=\"x\" title=\"first\">1</li><li class=\"y\" title=\"second\">2</li></ul>";
    assert_eq!(scrape_with(body, "li.y", "title"), Ok(Lookup::Found("second".to_string())));
    assert_eq!(scrape_with(body, "li", "title"), Ok(Lookup::Found("first".to_string())));
    assert_eq!(scrape_with(body, "li", "href"), Ok(Lookup::MissingAttribute));
    assert_eq!(scrape_with(body, "ol", "title"), Ok(Lookup::NoMatch));
}

#[test]
fn scrape_is_scrape_with_on_the_fixed_texts() {
    let bodies = [
        "<div><p><a href=\"x\">x</a></p></div>",
        "<div><p><a>x</a></p></div>",
        "<div><p>x</p></div>",
        "",
    ];
    for body in bodies {
        assert_eq!(scrape(body), scrape_with(body, "div>p>a", "href"));
    }
}

#[test]
fn compile_selector_accepts_the_fixed_selector() {
    assert!(compile_selector("div>p>a").is_ok());
    assert_eq!(compile_selector("div>p>a"), Ok(scraper::Selector::parse("div>p>a").unwrap()));
}

#[test]
fn compile_selector_refuses_what_is_no_selector() {
    assert_eq!(compile_selector("div>p>a$"), Err(ScraperError::SelectorError));
    assert_eq!(compile_selector(">"), Err(ScraperError::SelectorError));
}

#[test]
fn lookup_attribute_searches_a_parsed_document() {
    let document = Html::parse_document("<div><p><a href=\"x\" id=\"i\">x</a></p><p>y</p></div>");
    let link = compile_selector("div>p>a").unwrap();
    let paragraph = compile_selector("p").unwrap();
    let table = compile_selector("table").unwrap();
    assert_eq!(lookup_attribute(&document, &link, "href"), Lookup::Found("x".to_string()));
    assert_eq!(lookup_attribute(&document, &link, "id"), Lookup::Found("i".to_string()));
    assert_eq!(lookup_attribute(&document, &link, "class"), Lookup::MissingAttribute);
    assert_eq!(lookup_attribute(&document, &paragraph, "href"), Lookup::MissingAttribute);
    assert_eq!(lookup_attribute(&document, &table, "href"), Lookup::NoMatch);
}

#[test]
fn output_line_puts_the_label_before_the_link() {
    assert_eq!(
        output_line("https://www.iana.org/domains/example"),
        "More information link: https://www.iana.org/domains/example"
    );
    assert_eq!(output_line(""), "More information link: ");
    assert_eq!(output_line("x y"), "More information link: x y");
}

#[test]
fn link_line_shows_what_was_found() {
    assert_eq!(Lookup::Found("x".to_string()).link_line(), "More information link: x");
    assert_eq!(Lookup::Found(String::new()).link_line(), "More information link: ");
}

#[test]
fn the_limits_are_exact() {
    assert_eq!(MAX_PAGE_BYTES, 536_870_912);
    assert_eq!(MAX_SELECTOR_BYTES, 256);
}

#[test]
fn ordinary_pages_fit() {
    assert!(fits_as_page(""));
    assert!(fits_as_page("<div><p><a href=\"x\">x</a></p></div>"));
    assert!(fits_as_page(&"\u{20ac}".repeat(1000)));
}

#[test]
fn ordinary_selectors_fit() {
    assert!(fits_as_selector(""));
    assert!(fits_as_selector("div>p>a"));
    assert!(fits_as_selector("div>p>a$"));
    assert!(fits_as_selector(SELECTOR));
}

#[test]
fn a_page_fits_up_to_the_limit_and_no_further() {
    let text = String::from_utf8(vec![0u8; MAX_PAGE_BYTES + 1]).unwrap();
    assert!(fits_as_page(&text[..MAX_PAGE_BYTES]));
    assert!(fits_as_page(&text[..MAX_PAGE_BYTES - 1]));
    assert!(!fits_as_page(&text));
}

#[test]
fn a_selector_fits_up_to_the_limit_and_no_further() {
    assert!(fits_as_selector(&"a".repeat(255)));
    assert!(fits_as_selector(&"a".repeat(256)));
    assert!(!fits_as_selector(&"a".repeat(257)));
    assert!(!fits_as_selector(&"a".repeat(100_000)));
}

#[test]
fn the_length_of_a_selector_is_counted_in_bytes() {
    let name = "\u{e9}".repeat(128);
    assert_eq!(name.len(), 256);
    assert!(fits_as_selector(&name));
    let longer = "\u{e9}".repeat(129);
    assert_eq!(longer.chars().count(), 129);
    assert!(!fits_as_selector(&longer));
}

#[test]
fn the_deepest_negations_that_fit_are_compiled_and_matched() {
    let body = "<div><p><a href=\"x\">x</a></p></div>";
    let even = format!("{}a{}", ":not(".repeat(42), ")".repeat(42));
    assert_eq!(even.len(), 253);
    assert!(fits_as_selector(&even));
    assert_eq!(scrape_with(body, &even, "href"), Ok(Lookup::Found("x".to_string())));
    let odd = format!("{}a{}", ":not(".repeat(41), ")".repeat(41));
    assert!(fits_as_selector(&odd));
    assert_eq!(scrape_with(body, &odd, "href"), Ok(Lookup::MissingAttribute));
}

#[test]
fn the_longest_chains_that_fit_are_compiled_and_matched() {
    let mut siblings = "<p></p>".repeat(127);
    siblings.push_str("<p title=\"last\"></p>");
    let next = vec!["p"; 128].join("+");
    assert_eq!(next.len(), 255);
    assert_eq!(scrape_with(&siblings, &next, "title"), Ok(Lookup::Found("last".to_string())));
    let later = vec!["p"; 128].join("~");
    assert_eq!(scrape_with(&siblings, &later, "title"), Ok(Lookup::Found("last".to_string())));
    let mut nested = "<b>".repeat(127);
    nested.push_str("<b title=\"inmost\">");
    let child = vec!["b"; 128].join(">");
    assert_eq!(scrape_with(&nested, &child, "title"), Ok(Lookup::Found("inmost".to_string())));
    let inside = vec!["b"; 128].join(" ");
    assert_eq!(scrape_with(&nested, &inside, "title"), Ok(Lookup::Found("inmost".to_string())));
}

#[test]
fn the_length_of_a_page_is_counted_in_bytes() {
    let euro = "\u{20ac}";
    assert_eq!(euro.len(), 3);
    let count = MAX_PAGE_BYTES / 3;
    let text = euro.repeat(count + 1);
    assert!(text.chars().count() < MAX_PAGE_BYTES);
    assert!(!fits_as_page(&text));
    assert!(fits_as_page(&text[..3 * count]));
}

#[test]
fn a_page_of_nul_bytes_is_parsed() {
    let body = "<div><p><a href=\"\0\0\">\0</a></p></div>";
    assert_eq!(scrape(body), Ok(Lookup::Found("\u{fffd}\u{fffd}".to_string())));
}
