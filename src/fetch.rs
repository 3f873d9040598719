use vstd::prelude::*;
use rand::Rng;
use crate::price::{Price, FetchError, parse_price, parse_price_result};

verus! {

/// The CSS selector of the element that holds a product page's price.
pub const PRICE_SELECTOR: &'static str = "span.pdp-price";

/// The shortest pause before a page is loaded, in milliseconds.
pub const MIN_PACING_MS: u64 = 2000;

/// The bound (exclusive) on the pause before a page is loaded, in milliseconds.
pub const MAX_PACING_MS: u64 = 5000;

/// The text of the first element of the HTML document `html` that the CSS
/// selector `selector` matches, or none when nothing matches or the selector
/// is invalid.
pub uninterp spec fn element_text_of(html: Seq<char>, selector: Seq<char>) -> Option<Seq<char>>;

/// Relies on scraper: `Html::parse_document` on `html`, `Selector::parse` on
/// `selector`, the first element that `Html::select` yields, and the text of
/// that element (`ElementRef::text`, its text nodes in document order).
#[verifier::external_body]
fn first_element_text(html: &str, selector: &str) -> (r: Option<String>)
    ensures
        match r {
            Some(t) => element_text_of(html@, selector@) == Some(t@),
            None => element_text_of(html@, selector@) == None::<Seq<char>>,
        },
{
    let sel = scraper::Selector::parse(selector).ok()?;
    let doc = scraper::Html::parse_document(html);
    let first = doc.select(&sel).next();
    first.map(|el| el.text().collect::<String>())
}

/// The outcome of reading a price out of a rendered product page whose price
/// element holds the text `text` (none: the page has no price element).
pub open spec fn price_from_element(text: Option<Seq<char>>) -> Result<Price, FetchError> {
    match text {
        Some(t) => parse_price_result(t),
        None => Err(FetchError::PriceMissing),
    }
}

/// Reads the price out of a rendered product page: the page's price element
/// must exist, and its text must parse as a price. A missing element and an
/// unreadable price are errors, never a price of zero.
pub fn extract_price(html: &str) -> (r: Result<Price, FetchError>)
    ensures
        r == price_from_element(element_text_of(html@, PRICE_SELECTOR@)),
{
    match first_element_text(html, PRICE_SELECTOR) {
        Some(t) => price_of_element_text(Some(t.as_str())),
        None => price_of_element_text(None),
    }
}

/// Reads the price out of the text of a page's price element, if the page
/// has one.
pub fn price_of_element_text(text: Option<&str>) -> (r: Result<Price, FetchError>)
    ensures
        r == price_from_element(
            match text {
                Some(t) => Some(t@),
                None => None,
            },
        ),
{
    match text {
        Some(t) => parse_price(t),
        None => Err(FetchError::PriceMissing),
    }
}

/// Relies on rand 0.8: `thread_rng().gen_range(lo..hi)` returns a value in
/// `lo..hi`, and panics only when that range is empty.
#[verifier::external_body]
fn random_in_range(lo: u64, hi: u64) -> (r: u64)
    requires
        lo < hi,
    ensures
        lo <= r < hi,
{
    rand::thread_rng().gen_range(lo..hi)
}

/// A randomized pause, in milliseconds, to take before loading a product
/// page, so that requests do not come at uniform intervals.
pub fn pacing_delay_ms() -> (r: u64)
    ensures
        MIN_PACING_MS <= r < MAX_PACING_MS,
{
    random_in_range(MIN_PACING_MS, MAX_PACING_MS)
}

} // verus!
