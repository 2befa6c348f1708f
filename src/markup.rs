use vstd::prelude::*;
use crate::extract::{assemble, row_views, snapshot_of, Resp, RespView, RowCells, RowView};

verus! {

/// Selector of the page's "as of" date label.
pub const DATE_PATTERN: &'static str = "div.price-date";

/// Selector of the table rows that hold a city's prices.
pub const ROW_PATTERN: &'static str = "tr.city";

/// Selector, within a row, of the city-name cells.
pub const CITY_PATTERN: &'static str = "td.gwgp-cityname";

/// Selector, within a row, of the price cells.
pub const PRICE_PATTERN: &'static str = "td.gwgp-price";

/// What scraper finds in a document text for a selector: the text of the
/// first matching element (its descendant text nodes, joined), if any; none
/// as well where the selector does not parse.
pub uninterp spec fn first_text_of(text: Seq<char>, pattern: Seq<char>) -> Option<Seq<char>>;

/// What scraper finds in a document text for a row selector and two cell
/// selectors: for each matching row, in the order in which scraper's `select`
/// yields them (the order in which the parser created the elements), the
/// text of its first matching city cell and the text segments of each
/// matching price cell; none where a selector does not parse.
pub uninterp spec fn rows_of(
    text: Seq<char>,
    row_pattern: Seq<char>,
    city_pattern: Seq<char>,
    price_pattern: Seq<char>,
) -> Option<Seq<RowView>>;

/// Relies on scraper's `Selector::parse`, `Html::parse_document`,
/// `Html::select` and `ElementRef::text`: the joined text nodes of the first
/// element of the parsed document that matches `pattern`. The parse is
/// best-effort and never fails; text nodes come in tree order, so the result
/// depends on the arguments alone.
#[verifier::external_body]
fn first_text(text: &str, pattern: &str) -> (r: Option<String>)
    ensures
        match r {
            Some(s) => first_text_of(text@, pattern@) == Some(s@),
            None => first_text_of(text@, pattern@) is None,
        },
{
    let selector = scraper::Selector::parse(pattern).ok()?;
    scraper::Html::parse_document(text).select(&selector).next().map(|e| e.text().collect())
}

/// Relies on scraper's `Selector::parse`, `Html::parse_document`,
/// `Html::select`, `ElementRef::select` and `ElementRef::text`: the matching
/// rows of the parsed document, each as its first city cell's joined text
/// nodes and its price cells' text nodes. Only text nodes are read, never
/// serialised attributes, so the result depends on the arguments alone.
#[verifier::external_body]
fn scan_rows(text: &str, row_pattern: &str, city_pattern: &str, price_pattern: &str) -> (r: Option<Vec<RowCells>>)
    ensures
        match r {
            Some(rows) => rows_of(text@, row_pattern@, city_pattern@, price_pattern@) == Some(row_views(rows@)),
            None => rows_of(text@, row_pattern@, city_pattern@, price_pattern@) is None,
        },
{
    let (row, city, price) = (scraper::Selector::parse(row_pattern).ok()?, scraper::Selector::parse(city_pattern).ok()?, scraper::Selector::parse(price_pattern).ok()?);
    Some(scraper::Html::parse_document(text).select(&row).map(|e| RowCells {
        city: e.select(&city).next().map(|c| c.text().collect()),
        prices: e.select(&price).map(|p| p.text().map(String::from).collect()).collect(),
    }).collect())
}

/// The rows that the page's selectors find in a document text; none where
/// they cannot be applied.
pub open spec fn page_rows(text: Seq<char>) -> Seq<RowView> {
    match rows_of(text, ROW_PATTERN@, CITY_PATTERN@, PRICE_PATTERN@) {
        Some(rows) => rows,
        None => Seq::empty(),
    }
}

/// The snapshot that a document text gives.
pub open spec fn page_snapshot(text: Seq<char>) -> RespView {
    snapshot_of(first_text_of(text, DATE_PATTERN@), page_rows(text))
}

/// Extracts the date label and the per-city price table from the raw text of
/// the prediction page.
pub fn extract(text: &str) -> (r: Resp)
    ensures
        r@ == page_snapshot(text@),
{
    let date = first_text(text, DATE_PATTERN);
    let rows = match scan_rows(text, ROW_PATTERN, CITY_PATTERN, PRICE_PATTERN) {
        Some(rows) => rows,
        None => Vec::new(),
    };
    proof {
        assert(row_views(rows@) =~= page_rows(text@));
    }
    assemble(date, &rows)
}

} // verus!
