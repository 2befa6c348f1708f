use gwgp::cells::{city_key, parse_cell, strip_marker, MalformedCellError};
use gwgp::extract::{assemble, build_table, extract_row, Resp, RowCells};
use gwgp::markup::extract;
use gwgp::price::{OilPrice, Price};
use gwgp::table::PriceTable;

fn segs(parts: &[&str]) -> Vec<String> {
    parts.iter().map(|s| s.to_string()).collect()
}

fn row(city: Option<&str>, cells: &[&[&str]]) -> RowCells {
    RowCells { city: city.map(|c| c.to_string()), prices: cells.iter().map(|c| segs(c)).collect() }
}

fn toronto_row() -> RowCells {
    row(Some("Toronto†"), &[&["1.53", "+0.02"], &["1.61", "+0.01"], &["1.45", "-0.03"]])
}

fn assert_price(p: &Price, value: &str, change: &str) {
    assert_eq!(p.value, value);
    assert_eq!(p.change, change);
}

fn page(date: Option<&str>, rows: &[(&str, [(&str, &str); 3])]) -> String {
    let mut body = String::from("<html><body>");
    if let Some(d) = date {
        body.push_str(&format!("<div class=\"price-date\">{}</div>", d));
    }
    body.push_str("<table>");
    for (city, cells) in rows {
        body.push_str(&format!("<tr class=\"city\"><td class=\"gwgp-cityname\">{}</td>", city));
        for (v, c) in cells {
            body.push_str(&format!("<td class=\"gwgp-price\">{}<span>{}</span></td>", v, c));
        }
        body.push_str("</tr>");
    }
    body.push_str("</table></body></html>");
    body
}

#[test]
fn price_new_default_is_empty() {
    let p = Price::new_default();
    assert_price(&p, "", "");
    let o = OilPrice::new_default();
    assert_price(&o.regular, "", "");
    assert_price(&o.premium, "", "");
    assert_price(&o.diesel, "", "");
}

#[test]
fn price_constructors_keep_fields() {
    let o = OilPrice::new(
        Price::new("1.53".to_string(), "+0.02".to_string()),
        Price::new("1.61".to_string(), "+0.01".to_string()),
        Price::new("1.45".to_string(), "-0.03".to_string()),
    );
    assert_price(&o.regular, "1.53", "+0.02");
    assert_price(&o.premium, "1.61", "+0.01");
    assert_price(&o.diesel, "1.45", "-0.03");
}

#[test]
fn price_render_text() {
    let p = Price::new("1.53".to_string(), "+0.02".to_string());
    assert_eq!(p.render(), " 💲1.53  🔄+0.02");
    let o = OilPrice::new(p.clone(), p.clone(), Price::new("1.45".to_string(), "-0.03".to_string()));
    assert_eq!(
        o.render(),
        "⛽ **R**:      💲1.53  🔄+0.02\n🚗 **P**:      💲1.53  🔄+0.02\n🚚 **D**:      💲1.45  🔄-0.03"
    );
}

#[test]
fn strip_marker_drops_last_character() {
    assert_eq!(strip_marker("Calgary*"), "Calgary");
    assert_eq!(strip_marker("Toronto†"), "Toronto");
    assert_eq!(strip_marker("X"), "");
    assert_eq!(strip_marker(""), "");
}

#[test]
fn city_key_trims_then_strips() {
    assert_eq!(city_key("  Calgary*\n"), "Calgary");
    assert_eq!(city_key("   "), "");
    assert_eq!(city_key(" Montréal† "), "Montréal");
}

#[test]
fn parse_cell_trims_segments() {
    let p = parse_cell(&segs(&[" 1.53 ", "\t+0.02 "])).unwrap();
    assert_price(&p, "1.53", "+0.02");
    let p = parse_cell(&segs(&["1.53", "+0.02", "extra"])).unwrap();
    assert_price(&p, "1.53", "+0.02");
}

#[test]
fn parse_cell_rejects_short_cells() {
    assert_eq!(parse_cell(&segs(&["1.53"])).unwrap_err(), MalformedCellError);
    assert_eq!(parse_cell(&segs(&[])).unwrap_err(), MalformedCellError);
}

#[test]
fn extract_row_scenario() {
    let (city, p) = extract_row(&toronto_row()).unwrap();
    assert_eq!(city, "Toronto");
    assert_price(&p.regular, "1.53", "+0.02");
    assert_price(&p.premium, "1.61", "+0.01");
    assert_price(&p.diesel, "1.45", "-0.03");
}

#[test]
fn row_without_city_is_skipped() {
    let r = row(None, &[&["1.53", "+0.02"], &["1.61", "+0.01"], &["1.45", "-0.03"]]);
    assert!(extract_row(&r).is_none());
    let resp = assemble(None, &vec![r]);
    assert!(resp.prices.is_empty());
}

#[test]
fn row_with_few_prices_is_skipped() {
    let cells: [&[&str]; 3] = [&["1.53", "+0.02"], &["1.61", "+0.01"], &["1.45", "-0.03"]];
    for n in 0..3 {
        let r = row(Some("Calgary*"), &cells[..n]);
        assert!(extract_row(&r).is_none());
        let resp = assemble(None, &vec![r]);
        assert!(resp.lookup("Calgary").is_none());
        assert!(resp.prices.is_empty());
    }
}

#[test]
fn row_with_malformed_cell_is_skipped() {
    let r = row(Some("Toronto†"), &[&["1.53"], &["1.61", "+0.01"], &["1.45", "-0.03"]]);
    assert!(extract_row(&r).is_none());
    let r2 = row(Some("Toronto†"), &[&["1.53", "+0.02"], &["1.61", "+0.01"], &["1.45"]]);
    let resp = assemble(None, &vec![r, r2]);
    assert!(resp.lookup("Toronto").is_none());
    assert!(resp.prices.is_empty());
}

#[test]
fn last_row_wins() {
    let first = toronto_row();
    let second = row(Some("Toronto*"), &[&["1.70", "+0.10"], &["1.80", "+0.20"], &["1.90", "+0.30"]]);
    let table = build_table(&vec![first, second]);
    let p = table.get("Toronto").unwrap();
    assert_price(&p.regular, "1.70", "+0.10");
    assert_price(&p.premium, "1.80", "+0.20");
    assert_price(&p.diesel, "1.90", "+0.30");
}

#[test]
fn date_falls_back_to_na() {
    let resp = assemble(None, &vec![]);
    assert_eq!(resp.date_info, "N/A");
    let resp = assemble(Some("Oct 19".to_string()), &vec![]);
    assert_eq!(resp.date_info, "Oct 19");
}

#[test]
fn end_to_end_rows_scenario() {
    let resp = assemble(Some("Oct 19".to_string()), &vec![toronto_row()]);
    let p = resp.lookup("Toronto").unwrap();
    assert_price(&p.regular, "1.53", "+0.02");
    assert_price(&p.premium, "1.61", "+0.01");
    assert_price(&p.diesel, "1.45", "-0.03");
    assert!(resp.lookup("Toronto†").is_none());
    assert!(resp.lookup("toronto").is_none());
}

#[test]
fn table_insert_and_get() {
    let mut t = PriceTable::new();
    assert!(t.is_empty());
    assert!(t.get("Ottawa").is_none());
    t.insert("Ottawa".to_string(), OilPrice::new_default());
    t.insert("Halifax".to_string(), OilPrice::new_default());
    t.insert("Ottawa".to_string(), OilPrice::new(
        Price::new("1.1".to_string(), "0".to_string()),
        Price::new_default(),
        Price::new_default(),
    ));
    assert!(!t.is_empty());
    assert_price(&t.get("Ottawa").unwrap().regular, "1.1", "0");
    assert_price(&t.get("Halifax").unwrap().regular, "", "");
    assert!(t.get("Calgary").is_none());
}

#[test]
fn extract_end_to_end_from_markup() {
    let text = page(
        Some("Gas prices for Sunday"),
        &[("Toronto†", [("1.53", "+0.02"), ("1.61", "+0.01"), ("1.45", "-0.03")])],
    );
    let resp: Resp = extract(&text);
    assert_eq!(resp.date_info, "Gas prices for Sunday");
    let p = resp.lookup("Toronto").unwrap();
    assert_price(&p.regular, "1.53", "+0.02");
    assert_price(&p.premium, "1.61", "+0.01");
    assert_price(&p.diesel, "1.45", "-0.03");
}

#[test]
fn extract_without_date_label() {
    let text = page(None, &[("Calgary*", [("1.30", "n/c"), ("1.50", "n/c"), ("1.40", "+0.01")])]);
    let resp = extract(&text);
    assert_eq!(resp.date_info, "N/A");
    assert_price(&resp.lookup("Calgary").unwrap().diesel, "1.40", "+0.01");
}

#[test]
fn extract_is_deterministic() {
    let text = page(
        Some("today"),
        &[
            ("Toronto†", [("1.53", "+0.02"), ("1.61", "+0.01"), ("1.45", "-0.03")]),
            ("Calgary*", [("1.30", "n/c"), ("1.50", "n/c"), ("1.40", "+0.01")]),
        ],
    );
    let a = extract(&text);
    let b = extract(&text);
    assert_eq!(a.date_info, b.date_info);
    for city in ["Toronto", "Calgary", "Ottawa"] {
        match (a.lookup(city), b.lookup(city)) {
            (Some(x), Some(y)) => assert_eq!(x.render(), y.render()),
            (None, None) => {}
            _ => panic!("lookups differ for {}", city),
        }
    }
}

#[test]
fn extract_skips_rows_without_city_or_prices() {
    let text = "<html><body><table>\
        <tr class=\"city\"><td class=\"gwgp-price\">1.53<span>+0.02</span></td>\
        <td class=\"gwgp-price\">1.61<span>+0.01</span></td><td class=\"gwgp-price\">1.45<span>-0.03</span></td></tr>\
        <tr class=\"city\"><td class=\"gwgp-cityname\">Regina*</td><td class=\"gwgp-price\">1.53<span>+0.02</span></td></tr>\
        <tr class=\"city\"><td class=\"gwgp-cityname\">Ottawa*</td><td class=\"gwgp-price\">1.53</td>\
        <td class=\"gwgp-price\">1.61<span>+0.01</span></td><td class=\"gwgp-price\">1.45<span>-0.03</span></td></tr>\
        </table></body></html>";
    let resp = extract(text);
    assert!(resp.prices.is_empty());
    assert!(resp.lookup("Regina").is_none());
    assert!(resp.lookup("Ottawa").is_none());
}


#[test]
fn extract_reads_text_of_nested_markup() {
    let text = "<html><body><div class=\"price-date\"><span class=\"a\" id=\"b\">Prices &amp; changes</span> for today</div><table>\
        <tr class=\"city\"><td class=\"gwgp-cityname\"><a href=\"x\" title=\"y\">Halifax</a>*</td>\
        <td class=\"gwgp-price\">1.53<span>+0.02</span></td><td class=\"gwgp-price\">1.61<span>+0.01</span></td>\
        <td class=\"gwgp-price\">1.45<span>-0.03</span></td></tr></table></body></html>";
    let resp = extract(text);
    assert_eq!(resp.date_info, "Prices & changes for today");
    let p = resp.lookup("Halifax").unwrap();
    assert_price(&p.regular, "1.53", "+0.02");
    assert_price(&p.diesel, "1.45", "-0.03");
}

#[test]
fn city_key_trims_unicode_white_space() {
    assert_eq!(city_key("\u{3000}Victoria*\u{a0}"), "Victoria");
    assert_eq!(city_key("\u{2028} Kelowna† \u{85}"), "Kelowna");
}
