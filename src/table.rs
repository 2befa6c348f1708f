use vstd::prelude::*;
use vstd::string::*;
use crate::price::{OilPrice, OilPriceView};

verus! {

/// The mapping that a sequence of `(city, record)` entries denotes when they
/// are entered in order: a later entry for a city replaces an earlier one.
pub open spec fn map_of(entries: Seq<(Seq<char>, OilPriceView)>) -> Map<Seq<char>, OilPriceView>
    decreases entries.len(),
{
    if entries.len() == 0 {
        Map::empty()
    } else {
        let last = entries.last();
        map_of(entries.drop_last()).insert(last.0, last.1)
    }
}

/// Keys that no entry from index `from` on carries.
pub open spec fn absent_from(entries: Seq<(Seq<char>, OilPriceView)>, key: Seq<char>, from: int) -> bool {
    forall|j: int| from <= j < entries.len() ==> #[trigger] entries[j].0 != key
}

/// The record of the last entry for `key` is what the mapping holds for it;
/// a key no entry carries is not in the mapping.
proof fn lemma_map_of_lookup(entries: Seq<(Seq<char>, OilPriceView)>, key: Seq<char>, i: int)
    requires
        -1 <= i < entries.len(),
        i >= 0 ==> entries[i].0 == key,
        absent_from(entries, key, i + 1),
    ensures
        i >= 0 ==> map_of(entries).contains_key(key) && map_of(entries)[key] == entries[i].1,
        i < 0 ==> !map_of(entries).contains_key(key),
    decreases entries.len(),
{
    if entries.len() > 0 && i < entries.len() - 1 {
        lemma_map_of_lookup(entries.drop_last(), key, i);
    }
}

/// A city-keyed table of price records, kept as the entries in the order in
/// which they were entered.
#[derive(Debug, Clone)]
pub struct PriceTable {
    entries: Vec<(String, OilPrice)>,
}

impl View for PriceTable {
    type V = Map<Seq<char>, OilPriceView>;

    open spec fn view(&self) -> Map<Seq<char>, OilPriceView> {
        map_of(self.entry_views())
    }
}

impl PriceTable {
    /// The entries as mathematical values, in the order in which they were entered.
    pub closed spec fn entry_views(&self) -> Seq<(Seq<char>, OilPriceView)> {
        self.entries@.map_values(|e: (String, OilPrice)| (e.0@, e.1@))
    }

    /// An empty table.
    pub fn new() -> (r: PriceTable)
        ensures
            r@ == Map::<Seq<char>, OilPriceView>::empty(),
    {
        let r = PriceTable { entries: Vec::new() };
        assert(r.entry_views().len() == 0);
        r
    }

    /// Enters a record for a city; it replaces any record the city had.
    pub fn insert(&mut self, city: String, price: OilPrice)
        ensures
            final(self)@ == old(self)@.insert(city@, price@),
    {
        self.entries.push((city, price));
        assert(self.entry_views().drop_last() =~= old(self).entry_views());
    }

    /// The record held for `city`, if any.
    pub fn get(&self, city: &str) -> (r: Option<&OilPrice>)
        ensures
            match r {
                Some(p) => self@.contains_key(city@) && self@[city@] == p@,
                None => !self@.contains_key(city@),
            },
    {
        let key = String::from_str(city);
        let mut i: usize = self.entries.len();
        while i > 0
            invariant
                i <= self.entries@.len(),
                key@ == city@,
                absent_from(self.entry_views(), city@, i as int),
            decreases i,
        {
            i = i - 1;
            assert(self.entry_views()[i as int].0 == self.entries@[i as int].0@);
            if self.entries[i].0 == key {
                proof {
                    lemma_map_of_lookup(self.entry_views(), city@, i as int);
                }
                return Some(&self.entries[i].1);
            }
        }
        proof {
            lemma_map_of_lookup(self.entry_views(), city@, -1);
        }
        None
    }

    /// Whether the table holds no record.
    pub fn is_empty(&self) -> (r: bool)
        ensures
            r == (self@ == Map::<Seq<char>, OilPriceView>::empty()),
    {
        proof {
            if self.entries@.len() > 0 {
                let e = self.entry_views();
                assert(map_of(e).contains_key(e.last().0));
            }
        }
        self.entries.len() == 0
    }
}

} // verus!
