use vstd::prelude::*;
use vstd::string::*;

verus! {

/// The mathematical content of a [`Price`].
pub struct PriceView {
    pub value: Seq<char>,
    pub change: Seq<char>,
}

/// The mathematical content of an [`OilPrice`].
pub struct OilPriceView {
    pub regular: PriceView,
    pub premium: PriceView,
    pub diesel: PriceView,
}

/// The price that stands in every field before it is filled.
pub open spec fn empty_price() -> PriceView {
    PriceView { value: Seq::empty(), change: Seq::empty() }
}

/// One fuel-category quote: the displayed price and its change, both as text.
#[derive(Debug, Clone)]
pub struct Price {
    pub value: String,
    pub change: String,
}

impl View for Price {
    type V = PriceView;

    open spec fn view(&self) -> PriceView {
        PriceView { value: self.value@, change: self.change@ }
    }
}

/// One city's quotes for the three fuel categories.
#[derive(Debug, Clone)]
pub struct OilPrice {
    pub regular: Price,
    pub premium: Price,
    pub diesel: Price,
}

impl View for OilPrice {
    type V = OilPriceView;

    open spec fn view(&self) -> OilPriceView {
        OilPriceView { regular: self.regular@, premium: self.premium@, diesel: self.diesel@ }
    }
}

/// The text of a price line: `" 💲<value>  🔄<change>"`.
pub open spec fn price_text(p: PriceView) -> Seq<char> {
    " 💲"@ + p.value + "  🔄"@ + p.change
}

/// The three labelled price lines of a city, one per fuel category.
pub open spec fn oil_price_text(o: OilPriceView) -> Seq<char> {
    "⛽ **R**:     "@ + price_text(o.regular) + "\n🚗 **P**:     "@ + price_text(o.premium)
        + "\n🚚 **D**:     "@ + price_text(o.diesel)
}

impl Price {
    /// A price whose value and change are both empty.
    pub fn new_default() -> (r: Price)
        ensures
            r@ == empty_price(),
    {
        Price { value: String::new(), change: String::new() }
    }

    pub fn new(value: String, change: String) -> (r: Price)
        ensures
            r.value == value,
            r.change == change,
    {
        Price { value, change }
    }

    /// The display text of this price.
    pub fn render(&self) -> (r: String)
        ensures
            r@ == price_text(self@),
    {
        let mut r = String::from_str(" 💲");
        r.append(self.value.as_str());
        r.append("  🔄");
        r.append(self.change.as_str());
        r
    }
}

impl OilPrice {
    /// A record whose three prices are all empty.
    pub fn new_default() -> (r: OilPrice)
        ensures
            r@ == (OilPriceView { regular: empty_price(), premium: empty_price(), diesel: empty_price() }),
    {
        OilPrice { regular: Price::new_default(), premium: Price::new_default(), diesel: Price::new_default() }
    }

    pub fn new(regular: Price, premium: Price, diesel: Price) -> (r: OilPrice)
        ensures
            r.regular == regular,
            r.premium == premium,
            r.diesel == diesel,
    {
        OilPrice { regular, premium, diesel }
    }

    /// The display text of this record: one labelled line per fuel category.
    pub fn render(&self) -> (r: String)
        ensures
            r@ == oil_price_text(self@),
    {
        let mut r = String::from_str("⛽ **R**:     ");
        r.append(self.regular.render().as_str());
        r.append("\n🚗 **P**:     ");
        r.append(self.premium.render().as_str());
        r.append("\n🚚 **D**:     ");
        r.append(self.diesel.render().as_str());
        r
    }
}

} // verus!
