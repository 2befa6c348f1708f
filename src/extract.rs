use vstd::prelude::*;
use vstd::string::*;
use crate::cells::{city_key, cell_price, key_of, parse_cell, trimmed};
use crate::price::{OilPrice, OilPriceView};
use crate::table::PriceTable;

verus! {

/// What the page yields for one table row: the text of its first city cell,
/// if it has one, and the text segments of each of its price cells, in
/// document order.
#[derive(Debug, Clone)]
pub struct RowCells {
    pub city: Option<String>,
    pub prices: Vec<Vec<String>>,
}

/// The mathematical content of a [`RowCells`].
pub struct RowView {
    pub city: Option<Seq<char>>,
    pub prices: Seq<Seq<Seq<char>>>,
}

impl View for RowCells {
    type V = RowView;

    open spec fn view(&self) -> RowView {
        RowView {
            city: match self.city {
                Some(c) => Some(c@),
                None => None,
            },
            prices: self.prices.deep_view(),
        }
    }
}

pub open spec fn row_views(rows: Seq<RowCells>) -> Seq<RowView> {
    rows.map_values(|r: RowCells| r@)
}

/// The entry a row contributes to the table, if any: a row needs a city cell
/// and three price cells (regular, premium, diesel, in that order) that each
/// hold a quote.
pub open spec fn row_entry(row: RowView) -> Option<(Seq<char>, OilPriceView)> {
    match row.city {
        None => None,
        Some(c) => {
            if row.prices.len() < 3 {
                None
            } else {
                match (cell_price(row.prices[0]), cell_price(row.prices[1]), cell_price(row.prices[2])) {
                    (Some(regular), Some(premium), Some(diesel)) => Some(
                        (key_of(trimmed(c)), OilPriceView { regular, premium, diesel }),
                    ),
                    _ => None,
                }
            }
        }
    }
}

/// The table that rows give when they are entered in the order given: rows
/// without an entry are skipped, and a later row for a city replaces an
/// earlier one.
pub open spec fn table_of(rows: Seq<RowView>) -> Map<Seq<char>, OilPriceView>
    decreases rows.len(),
{
    if rows.len() == 0 {
        Map::empty()
    } else {
        let earlier = table_of(rows.drop_last());
        match row_entry(rows.last()) {
            Some(e) => earlier.insert(e.0, e.1),
            None => earlier,
        }
    }
}

/// The date label of a page: the label found, or `"N/A"` where there is none.
pub open spec fn date_of(found: Option<Seq<char>>) -> Seq<char> {
    match found {
        Some(d) => d,
        None => "N/A"@,
    }
}

/// The mathematical content of a [`Resp`].
pub struct RespView {
    pub date_info: Seq<char>,
    pub prices: Map<Seq<char>, OilPriceView>,
}

/// The snapshot that a date label (if found) and the page's rows give.
pub open spec fn snapshot_of(date: Option<Seq<char>>, rows: Seq<RowView>) -> RespView {
    RespView { date_info: date_of(date), prices: table_of(rows) }
}

/// One scrape of the prediction page: its "as of" label and the price
/// record of each city.
#[derive(Debug, Clone)]
pub struct Resp {
    pub date_info: String,
    pub prices: PriceTable,
}

impl View for Resp {
    type V = RespView;

    open spec fn view(&self) -> RespView {
        RespView { date_info: self.date_info@, prices: self.prices@ }
    }
}

impl Resp {
    /// The record of a city, looked up by its exact key.
    pub fn lookup(&self, city: &str) -> (r: Option<&OilPrice>)
        ensures
            match r {
                Some(p) => self@.prices.contains_key(city@) && self@.prices[city@] == p@,
                None => !self@.prices.contains_key(city@),
            },
    {
        self.prices.get(city)
    }
}

/// The entry of one row: its city key and its three quotes, or none where the
/// row lacks a city cell, has fewer than three price cells, or one of the
/// first three is malformed.
pub fn extract_row(row: &RowCells) -> (r: Option<(String, OilPrice)>)
    ensures
        match r {
            Some(e) => row_entry(row@) == Some((e.0@, e.1@)),
            None => row_entry(row@) is None,
        },
{
    let city = match &row.city {
        Some(c) => city_key(c.as_str()),
        None => return None,
    };
    if row.prices.len() < 3 {
        return None;
    }
    proof {
        assert(row@.prices[0] == row.prices@[0].deep_view());
        assert(row@.prices[1] == row.prices@[1].deep_view());
        assert(row@.prices[2] == row.prices@[2].deep_view());
    }
    let mut price = OilPrice::new_default();
    match parse_cell(&row.prices[0]) {
        Ok(p) => price.regular = p,
        Err(_) => return None,
    }
    match parse_cell(&row.prices[1]) {
        Ok(p) => price.premium = p,
        Err(_) => return None,
    }
    match parse_cell(&row.prices[2]) {
        Ok(p) => price.diesel = p,
        Err(_) => return None,
    }
    Some((city, price))
}

/// The table of all rows, entered in the order given.
pub fn build_table(rows: &Vec<RowCells>) -> (r: PriceTable)
    ensures
        r@ == table_of(row_views(rows@)),
{
    let mut table = PriceTable::new();
    let mut i: usize = 0;
    while i < rows.len()
        invariant
            i <= rows@.len(),
            table@ == table_of(row_views(rows@).take(i as int)),
        decreases rows@.len() - i,
    {
        proof {
            assert(row_views(rows@).take(i + 1).drop_last() =~= row_views(rows@).take(i as int));
        }
        match extract_row(&rows[i]) {
            Some((city, price)) => table.insert(city, price),
            None => {},
        }
        i = i + 1;
    }
    assert(row_views(rows@).take(i as int) =~= row_views(rows@));
    table
}

/// The snapshot of a page from what was found on it: the date label, if
/// any, and the rows in the order in which they were found.
pub fn assemble(date: Option<String>, rows: &Vec<RowCells>) -> (r: Resp)
    ensures
        r@ == snapshot_of(
            match date {
                Some(d) => Some(d@),
                None => None,
            },
            row_views(rows@),
        ),
{
    let date_info = match date {
        Some(d) => d,
        None => String::from_str("N/A"),
    };
    Resp { date_info, prices: build_table(rows) }
}

} // verus!
