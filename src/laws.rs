use vstd::prelude::*;
use crate::extract::{row_entry, snapshot_of, table_of, RowView};
use crate::markup::page_snapshot;
use crate::price::OilPriceView;

verus! {

/// Extraction is a function of the document text: the same text gives the
/// same date label and the same table, key for key and field for field.
pub proof fn law_extract_is_deterministic(a: Seq<char>, b: Seq<char>)
    requires
        a == b,
    ensures
        page_snapshot(a) == page_snapshot(b),
{
}

/// A row that contributes no entry leaves the table as the other rows make
/// it, wherever it stands among them.
pub proof fn law_skipped_row_changes_nothing(before: Seq<RowView>, row: RowView, after: Seq<RowView>)
    requires
        row_entry(row) is None,
    ensures
        table_of(before + seq![row] + after) == table_of(before + after),
    decreases after.len(),
{
    let s1 = before + seq![row] + after;
    let s2 = before + after;
    if after.len() == 0 {
        assert(s1.drop_last() =~= before);
        assert(s2 =~= before);
    } else {
        law_skipped_row_changes_nothing(before, row, after.drop_last());
        assert(s1.drop_last() =~= before + seq![row] + after.drop_last());
        assert(s2.drop_last() =~= before + after.drop_last());
    }
}

/// A row without a city cell appears under no key: the table is what the
/// other rows make it.
pub proof fn law_row_without_city_is_skipped(before: Seq<RowView>, row: RowView, after: Seq<RowView>)
    requires
        row.city is None,
    ensures
        table_of(before + seq![row] + after) == table_of(before + after),
{
    law_skipped_row_changes_nothing(before, row, after);
}

/// A row with fewer than three price cells is left out whole: the table is
/// what the other rows make it.
pub proof fn law_row_with_few_prices_is_skipped(before: Seq<RowView>, row: RowView, after: Seq<RowView>)
    requires
        row.prices.len() < 3,
    ensures
        table_of(before + seq![row] + after) == table_of(before + after),
{
    law_skipped_row_changes_nothing(before, row, after);
}

/// A row whose regular, premium or diesel cell has fewer than two text
/// segments is left out whole, whatever its other cells hold.
pub proof fn law_row_with_malformed_cell_is_skipped(
    before: Seq<RowView>,
    row: RowView,
    after: Seq<RowView>,
    i: int,
)
    requires
        0 <= i < 3,
        i < row.prices.len(),
        row.prices[i].len() < 2,
    ensures
        table_of(before + seq![row] + after) == table_of(before + after),
{
    law_skipped_row_changes_nothing(before, row, after);
}

/// Of several rows for one city, the last one that holds an entry decides
/// what the table holds for that city.
pub proof fn law_last_row_wins(
    before: Seq<RowView>,
    row: RowView,
    after: Seq<RowView>,
    key: Seq<char>,
    value: OilPriceView,
)
    requires
        row_entry(row) == Some((key, value)),
        forall|j: int|
            0 <= j < after.len() ==> match #[trigger] row_entry(after[j]) {
                Some(e) => e.0 != key,
                None => true,
            },
    ensures
        table_of(before + seq![row] + after).contains_key(key),
        table_of(before + seq![row] + after)[key] == value,
    decreases after.len(),
{
    let s = before + seq![row] + after;
    if after.len() == 0 {
        assert(s.drop_last() =~= before);
    } else {
        law_last_row_wins(before, row, after.drop_last(), key, value);
        assert(s.drop_last() =~= before + seq![row] + after.drop_last());
        assert(row_entry(after[after.len() - 1]) == row_entry(s.last()));
    }
}

/// Without a date label the snapshot's date is exactly `"N/A"`.
pub proof fn law_date_falls_back(rows: Seq<RowView>)
    ensures
        snapshot_of(None, rows).date_info == "N/A"@,
{
}

} // verus!
