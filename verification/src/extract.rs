//! Searching a page for the link that is to be shown.
//!
//! The page is parsed and queried by the `scraper` crate. Verus does not look
//! inside a parsed document, a compiled selector or an element; what the
//! crate computes from them is spoken of through the four names below.

use vstd::prelude::*;
use vstd::utf8::encode_utf8;
use scraper::error::SelectorErrorKind;
use scraper::{ElementRef, Html, Selector};
use crate::error::ScraperError;

verus! {

/// `scraper::Html`, a parsed document.
#[verifier::external_type_specification]
#[verifier::external_body]
pub struct ExHtml(Html);

/// `scraper::Selector`, a compiled group of CSS selectors.
#[verifier::external_type_specification]
#[verifier::external_body]
pub struct ExSelector(Selector);

/// `scraper::ElementRef`, an element of a parsed document.
#[verifier::external_type_specification]
#[verifier::external_body]
pub struct ExElementRef<'a>(ElementRef<'a>);

/// `scraper::error::SelectorErrorKind`, the reason why a selector was refused.
#[verifier::external_type_specification]
#[verifier::external_body]
pub struct ExSelectorErrorKind<'a>(SelectorErrorKind<'a>);

/// The document that `Html::parse_document` builds from `text`.
pub uninterp spec fn parsed_document(text: Seq<char>) -> Html;

/// The selector that `Selector::parse` compiles from `css`, if it accepts it.
pub uninterp spec fn compiled_selector(css: Seq<char>) -> Option<Selector>;

/// The first element that `Html::select` yields for `selector` in `document`,
/// if it yields any.
pub uninterp spec fn first_selected(document: Html, selector: Selector) -> Option<
    ElementRef<'static>,
>;

/// The value that `Element::attr` finds for the attribute `name` of `element`,
/// if the element has that attribute.
pub uninterp spec fn attribute_of(element: ElementRef<'static>, name: Seq<char>) -> Option<
    Seq<char>,
>;

/// The most bytes that a page may have.
pub const MAX_PAGE_BYTES: usize = 0x2000_0000;

/// The most bytes that the text of a selector may have.
pub const MAX_SELECTOR_BYTES: usize = 256;

/// Whether `text`, encoded as UTF-8, is short enough to be parsed as a page.
pub open spec fn page_fits(text: Seq<char>) -> bool {
    encode_utf8(text).len() <= MAX_PAGE_BYTES
}

/// Whether `css`, encoded as UTF-8, is short enough to be compiled as a
/// selector.
pub open spec fn selector_fits(css: Seq<char>) -> bool {
    encode_utf8(css).len() <= MAX_SELECTOR_BYTES
}

/// Whether `selector` is what a text that is short enough compiles to.
pub open spec fn selector_is_short(selector: Selector) -> bool {
    exists|css: Seq<char>| selector_fits(css) && #[trigger] compiled_selector(css) == Some(selector)
}

/// `Html::parse_document`, which builds a document from a text and refuses
/// none.
///
/// The parser keeps every text in a tendril of the `tendril` crate. To make
/// one of more than `u32::MAX` bytes panics, and so does to lengthen one
/// beyond 2^31 bytes, since its capacity is rounded up to a power of two in
/// a `u32`. The page is made one tendril as it is handed over. Each other
/// tendril (a text node, a comment, a name, the value of an attribute) is
/// put together from what the tokenizer yields for a part of the page, each
/// part once. The tokenizer yields at most three bytes for one byte of the
/// page: three for a NUL byte, which it replaces by U+FFFD, and for a
/// character reference never more than six for its five. So a page of at
/// most 2^29 bytes, which is [`MAX_PAGE_BYTES`], leaves every tendril below
/// 3 * 2^29 bytes, which is less than 2^31.
#[verifier::external_body]
fn parse_document(text: &str) -> (document: Html)
    requires
        page_fits(text@),
    ensures
        document == parsed_document(text@),
{
    Html::parse_document(text)
}

/// `Selector::parse`, which compiles a selector or refuses it.
///
/// The parser descends into itself once for each negation that stands
/// inside another, without a limit of its own, and each level holds a
/// builder with room for 32 components on the stack, some kilobytes in all
/// (about 14 where nothing is optimized). A negation takes six bytes of the
/// text, so a text of at most [`MAX_SELECTOR_BYTES`] bytes, which is 256,
/// descends 42 levels at most and stays far below the two megabytes that
/// the stack of a thread has by default. To drop the selector descends as
/// deep. The tokenizer's count of line breaks and the sums of the
/// specificity are `u32`s that grow by one step for a byte of the text at
/// most, and do not overflow on such a text.
#[verifier::external_body]
fn parse_selector<'a>(css: &'a str) -> (r: Result<Selector, SelectorErrorKind<'a>>)
    requires
        selector_fits(css@),
    ensures
        match r {
            Ok(selector) => compiled_selector(css@) == Some(selector),
            Err(_) => compiled_selector(css@) is None,
        },
{
    Selector::parse(css)
}

/// `Html::select`, and `next` on the iterator that it returns: the first
/// element that the iterator yields, if it yields any.
///
/// To match an element, the matcher calls itself once for each compound of
/// the selector and for each negation inside another, however long the page
/// is. A selector that was compiled from at most [`MAX_SELECTOR_BYTES`]
/// bytes has fewer than 256 of both together, at a kilobyte or two of stack
/// each.
#[verifier::external_body]
fn select_first<'a>(document: &'a Html, selector: &Selector) -> (r: Option<ElementRef<'a>>)
    requires
        selector_is_short(*selector),
    ensures
        r == first_selected(*document, *selector),
{
    document.select(selector).next()
}

/// `ElementRef::value` and `Element::attr` on it: the value of the element's
/// attribute of that name.
#[verifier::external_body]
fn element_attr<'a>(element: ElementRef<'a>, name: &str) -> (r: Option<&'a str>)
    ensures
        match r {
            Some(value) => attribute_of(element, name@) == Some(value@),
            None => attribute_of(element, name@) is None,
        },
{
    element.value().attr(name)
}

/// What a search of a document for an attribute comes to. `T` is the type of
/// the attribute's value: a `String` in running code, a `Seq<char>` in
/// specifications.
#[derive(Debug, PartialEq, Eq)]
pub enum Lookup<T> {
    /// The selector matches no element of the document.
    NoMatch,
    /// The first element that the selector matches has no such attribute.
    MissingAttribute,
    /// The value of the attribute of the first element that the selector
    /// matches.
    Found(T),
}

impl View for Lookup<String> {
    type V = Lookup<Seq<char>>;

    open spec fn view(&self) -> Lookup<Seq<char>> {
        match self {
            Lookup::NoMatch => Lookup::NoMatch,
            Lookup::MissingAttribute => Lookup::MissingAttribute,
            Lookup::Found(value) => Lookup::Found(value@),
        }
    }
}

/// The search of `document` for the attribute `attribute` of the first
/// element that `selector` matches.
pub open spec fn lookup_in(document: Html, selector: Selector, attribute: Seq<char>) -> Lookup<
    Seq<char>,
> {
    match first_selected(document, selector) {
        None => Lookup::NoMatch,
        Some(element) => match attribute_of(element, attribute) {
            None => Lookup::MissingAttribute,
            Some(value) => Lookup::Found(value),
        },
    }
}

/// Searches `document` for the attribute `attribute` of the first element
/// that `selector` matches. The selector is one that [`compile_selector`]
/// has returned.
pub fn lookup_attribute(document: &Html, selector: &Selector, attribute: &str) -> (r: Lookup<
    String,
>)
    requires
        selector_is_short(*selector),
    ensures
        r@ == lookup_in(*document, *selector, attribute@),
{
    match select_first(document, selector) {
        None => Lookup::NoMatch,
        Some(element) => match element_attr(element, attribute) {
            None => Lookup::MissingAttribute,
            Some(value) => Lookup::Found(value.to_owned()),
        },
    }
}

/// Says whether `text` is short enough to be parsed as a page.
pub fn fits_as_page(text: &str) -> (fits: bool)
    ensures
        fits == page_fits(text@),
{
    text.as_bytes().len() <= MAX_PAGE_BYTES
}

/// Says whether `css` is short enough to be compiled as a selector.
pub fn fits_as_selector(css: &str) -> (fits: bool)
    ensures
        fits == selector_fits(css@),
{
    css.as_bytes().len() <= MAX_SELECTOR_BYTES
}

/// Compiles `css`, or says that it is no selector.
pub fn compile_selector(css: &str) -> (r: Result<Selector, ScraperError>)
    requires
        selector_fits(css@),
    ensures
        match r {
            Ok(selector) => compiled_selector(css@) == Some(selector) && selector_is_short(
                selector,
            ),
            Err(e) => compiled_selector(css@) is None && e == ScraperError::SelectorError,
        },
{
    match parse_selector(css) {
        Ok(selector) => Ok(selector),
        Err(_) => Err(ScraperError::SelectorError),
    }
}

/// What a returned search stands for in specifications.
pub open spec fn outcome_view(r: Result<Lookup<String>, ScraperError>) -> Result<
    Lookup<Seq<char>>,
    ScraperError,
> {
    match r {
        Ok(lookup) => Ok(lookup@),
        Err(e) => Err(e),
    }
}

/// What [`scrape_with`] returns: the selector is refused, or the page is
/// searched with it.
pub open spec fn scrape_result(body: Seq<char>, css: Seq<char>, attribute: Seq<char>) -> Result<
    Lookup<Seq<char>>,
    ScraperError,
> {
    match compiled_selector(css) {
        None => Err(ScraperError::SelectorError),
        Some(selector) => Ok(lookup_in(parsed_document(body), selector, attribute)),
    }
}

/// A search fails in an orderly manner for the selector's sake only, and
/// then whatever the page holds and whichever attribute is asked for. A page
/// without a match, or a match without the attribute, is a search that
/// succeeded.
pub proof fn lemma_scrape_fails_for_selector_only(
    body: Seq<char>,
    css: Seq<char>,
    attribute: Seq<char>,
)
    ensures
        scrape_result(body, css, attribute) is Err <==> compiled_selector(css) is None,
        scrape_result(body, css, attribute) matches Err(e) ==> e == ScraperError::SelectorError,
{
}

/// Parses `body` as an HTML document, compiles `css`, and searches the
/// document for the attribute `attribute` of the first element that the
/// selector matches. A page or a selector that is too long is no input:
/// [`fits_as_page`] and [`fits_as_selector`] tell.
pub fn scrape_with(body: &str, css: &str, attribute: &str) -> (r: Result<
    Lookup<String>,
    ScraperError,
>)
    requires
        page_fits(body@),
        selector_fits(css@),
    ensures
        outcome_view(r) == scrape_result(body@, css@, attribute@),
{
    let document = parse_document(body);
    let selector = compile_selector(css)?;
    Ok(lookup_attribute(&document, &selector, attribute))
}

/// The selector of the link that is looked for.
pub const SELECTOR: &'static str = "div>p>a";

/// The attribute that holds the link.
pub const ATTRIBUTE: &'static str = "href";

/// What the link is shown behind.
pub const LABEL: &'static str = "More information link: ";

/// The fixed selector is short enough to be compiled.
pub proof fn lemma_selector_fits()
    ensures
        selector_fits(SELECTOR@),
{
    reveal_strlit("div>p>a");
    assert(vstd::utf8::is_ascii_chars(SELECTOR@));
    vstd::utf8::is_ascii_chars_encode_utf8(SELECTOR@);
}

/// Searches the page `body` for the link: the `href` of the first `a` that
/// is a child of a `p` that is a child of a `div`. A page that is too long
/// is no input: [`fits_as_page`] tells.
pub fn scrape(body: &str) -> (r: Result<Lookup<String>, ScraperError>)
    requires
        page_fits(body@),
    ensures
        outcome_view(r) == scrape_result(body@, SELECTOR@, ATTRIBUTE@),
{
    proof {
        lemma_selector_fits();
    }
    scrape_with(body, SELECTOR, ATTRIBUTE)
}

/// The line that shows `link`.
pub fn output_line(link: &str) -> (line: String)
    ensures
        line@ == LABEL@ + link@,
{
    LABEL.to_owned().concat(link)
}

impl Lookup<String> {
    /// The line that shows the link that was found. A search that found none
    /// has no line.
    pub fn link_line(&self) -> (line: String)
        requires
            self is Found,
        ensures
            line@ == LABEL@ + self@->Found_0,
    {
        match self {
            Lookup::Found(link) => output_line(link.as_str()),
            _ => unreached(),
        }
    }
}

} // verus!
