use vstd::prelude::*;
use std::collections::HashMap;
use crate::price::Price;

verus! {

broadcast use vstd::std_specs::hash::group_hash_axioms;

/// The aggregate price state of one product. Times are seconds since the
/// Unix epoch.
#[derive(Clone, Copy, Debug, PartialEq, Eq, Structural)]
pub struct Product {
    pub product_id: i32,
    pub current_price: Price,
    pub highest_price: Price,
    pub lowest_price: Price,
    pub last_updated: i64,
}

/// One row of a product's price history.
#[derive(Clone, Copy, Debug, PartialEq, Eq, Structural)]
pub struct PriceObservation {
    pub product_id: i32,
    pub price: Price,
    pub recorded_at: i64,
}

impl Product {
    /// The lowest price is at most the current one, which is at most the
    /// highest one.
    pub open spec fn bounds_hold(&self) -> bool {
        self.lowest_price.hundredths <= self.current_price.hundredths
            <= self.highest_price.hundredths
    }

    /// A product seen for the first time: all three prices are the first one.
    pub open spec fn seeded(product_id: i32, price: Price, recorded_at: i64) -> Product {
        Product {
            product_id,
            current_price: price,
            highest_price: price,
            lowest_price: price,
            last_updated: recorded_at,
        }
    }

    /// The product after one more observed price: the current price and the
    /// time always change, each extreme only when the price goes past it.
    pub open spec fn observed(self, price: Price, recorded_at: i64) -> Product {
        Product {
            product_id: self.product_id,
            current_price: price,
            highest_price: if price.hundredths > self.highest_price.hundredths {
                price
            } else {
                self.highest_price
            },
            lowest_price: if price.hundredths < self.lowest_price.hundredths {
                price
            } else {
                self.lowest_price
            },
            last_updated: recorded_at,
        }
    }

    pub fn first_observation(product_id: i32, price: Price, recorded_at: i64) -> (r: Product)
        ensures
            r == Product::seeded(product_id, price, recorded_at),
            r.bounds_hold(),
    {
        Product {
            product_id,
            current_price: price,
            highest_price: price,
            lowest_price: price,
            last_updated: recorded_at,
        }
    }

    pub fn observe(&self, price: Price, recorded_at: i64) -> (r: Product)
        ensures
            r == self.observed(price, recorded_at),
            self.bounds_hold() ==> r.bounds_hold(),
    {
        let highest_price = if price.hundredths > self.highest_price.hundredths {
            price
        } else {
            self.highest_price
        };
        let lowest_price = if price.hundredths < self.lowest_price.hundredths {
            price
        } else {
            self.lowest_price
        };
        Product {
            product_id: self.product_id,
            current_price: price,
            highest_price,
            lowest_price,
            last_updated: recorded_at,
        }
    }
}

/// The aggregate of `product_id` in `products`, if there is one.
pub open spec fn lookup(products: Map<i32, Product>, product_id: i32) -> Option<Product> {
    if products.contains_key(product_id) {
        Some(products[product_id])
    } else {
        None
    }
}

/// The aggregates after `price` was observed for `product_id` at `recorded_at`.
pub open spec fn upserted(products: Map<i32, Product>, product_id: i32, price: Price, recorded_at: i64) -> Map<i32, Product> {
    products.insert(
        product_id,
        match lookup(products, product_id) {
            Some(p) => p.observed(price, recorded_at),
            None => Product::seeded(product_id, price, recorded_at),
        },
    )
}

/// Every aggregate is filed under its own product and keeps its bounds.
pub open spec fn aggregates_valid(products: Map<i32, Product>) -> bool {
    forall|id: i32| #[trigger]
        products.contains_key(id) ==> products[id].product_id == id && products[id].bounds_hold()
}

/// The aggregates after each of `observations` was recorded, in order.
pub open spec fn replay(products: Map<i32, Product>, observations: Seq<PriceObservation>) -> Map<i32, Product>
    decreases observations.len(),
{
    if observations.len() == 0 {
        products
    } else {
        let o = observations.last();
        upserted(replay(products, observations.drop_last()), o.product_id, o.price, o.recorded_at)
    }
}

/// The (time, price) rows of `product_id` in `history`, in the order recorded.
pub open spec fn history_of(history: Seq<PriceObservation>, product_id: i32) -> Seq<(i64, Price)>
    decreases history.len(),
{
    if history.len() == 0 {
        Seq::empty()
    } else if history.last().product_id == product_id {
        history_of(history.drop_last(), product_id).push(
            (history.last().recorded_at, history.last().price),
        )
    } else {
        history_of(history.drop_last(), product_id)
    }
}

/// The rows are ordered newest first.
pub open spec fn newest_first(rows: Seq<(i64, Price)>) -> bool {
    forall|i: int, j: int| 0 <= i < j < rows.len() ==> rows[i].0 >= rows[j].0
}

/// The price store: the aggregate state of each product and the
/// append-only price history.
pub struct PriceStore {
    products: HashMap<i32, Product>,
    history: Vec<PriceObservation>,
}

impl PriceStore {
    /// The aggregate of each product, by product id.
    pub closed spec fn aggregates(&self) -> Map<i32, Product> {
        self.products@
    }

    /// Every observation recorded, oldest first.
    pub closed spec fn history(&self) -> Seq<PriceObservation> {
        self.history@
    }

    pub open spec fn well_formed(&self) -> bool {
        aggregates_valid(self.aggregates())
    }

    pub fn new() -> (r: PriceStore)
        ensures
            r.aggregates() == Map::<i32, Product>::empty(),
            r.history() == Seq::<PriceObservation>::empty(),
            r.well_formed(),
    {
        PriceStore { products: HashMap::new(), history: Vec::new() }
    }

    /// Records `price` for `product_id` at `recorded_at`: one history row is
    /// appended, and the product's aggregate is created from the price or
    /// updated with it.
    pub fn upsert_observation(&mut self, product_id: i32, price: Price, recorded_at: i64)
        requires
            old(self).well_formed(),
        ensures
            final(self).history() == old(self).history().push(
                PriceObservation { product_id, price, recorded_at },
            ),
            final(self).aggregates() == upserted(old(self).aggregates(), product_id, price, recorded_at),
            final(self).well_formed(),
    {
        self.history.push(PriceObservation { product_id, price, recorded_at });
        let updated = match self.products.get(&product_id) {
            Some(p) => p.observe(price, recorded_at),
            None => Product::first_observation(product_id, price, recorded_at),
        };
        self.products.insert(product_id, updated);
        proof {
            lemma_upsert_keeps_aggregates_valid(old(self).aggregates(), product_id, price, recorded_at);
        }
    }

    /// Creates the aggregate of `product_id` from its first price, unless it
    /// has one; the history is not touched.
    pub fn seed_if_absent(&mut self, product_id: i32, price: Price, recorded_at: i64)
        requires
            old(self).well_formed(),
        ensures
            final(self).well_formed(),
            final(self).history() == old(self).history(),
            final(self).aggregates() == if old(self).aggregates().contains_key(product_id) {
                old(self).aggregates()
            } else {
                old(self).aggregates().insert(product_id, Product::seeded(product_id, price, recorded_at))
            },
    {
        if !self.products.contains_key(&product_id) {
            self.products.insert(product_id, Product::first_observation(product_id, price, recorded_at));
        }
    }

    /// The aggregate state of `product_id`, if it was ever observed.
    pub fn get_aggregate(&self, product_id: i32) -> (r: Option<Product>)
        ensures
            r == lookup(self.aggregates(), product_id),
    {
        match self.products.get(&product_id) {
            Some(p) => Some(*p),
            None => None,
        }
    }
    /// The price history of `product_id` as (time, price) rows, newest first.
    pub fn get_history(&self, product_id: i32) -> (r: Vec<(i64, Price)>)
        ensures
            r@.to_multiset() == history_of(self.history(), product_id).to_multiset(),
            newest_first(r@),
    {
        let mut out: Vec<(i64, Price)> = Vec::new();
        let mut i: usize = 0;
        while i < self.history.len()
            invariant
                i <= self.history@.len(),
                out@.to_multiset() == history_of(self.history@.take(i as int), product_id).to_multiset(),
                newest_first(out@),
            decreases self.history@.len() - i,
        {
            let o = self.history[i];
            let ghost before = out@;
            let ghost prev = self.history@.take(i as int);
            let ghost next = self.history@.take(i as int + 1);
            assert(next.drop_last() =~= prev);
            assert(next.last() == o);
            if o.product_id == product_id {
                let row = (o.recorded_at, o.price);
                let pos = insert_position(&out, o.recorded_at);
                out.insert(pos, row);
                proof {
                    broadcast use vstd::seq_lib::group_to_multiset_ensures;

                    lemma_insert_to_multiset(before, pos as int, row);
                    assert(history_of(next, product_id) == history_of(prev, product_id).push(row));
                }
            }
            i += 1;
        }
        assert(self.history@.take(self.history@.len() as int) =~= self.history@);
        out
    }
}

/// Where a row recorded at `t` goes in `rows` to keep them newest first,
/// after the rows recorded at the same time.
fn insert_position(rows: &Vec<(i64, Price)>, t: i64) -> (p: usize)
    requires
        newest_first(rows@),
    ensures
        p <= rows@.len(),
        forall|j: int| 0 <= j < p ==> rows@[j].0 >= t,
        forall|j: int| p <= j < rows@.len() ==> rows@[j].0 < t,
{
    let mut p: usize = 0;
    while p < rows.len() && rows[p].0 >= t
        invariant
            p <= rows@.len(),
            newest_first(rows@),
            forall|j: int| 0 <= j < p ==> rows@[j].0 >= t,
        decreases rows@.len() - p,
    {
        p += 1;
    }
    p
}

proof fn lemma_insert_to_multiset<A>(s: Seq<A>, i: int, x: A)
    requires
        0 <= i <= s.len(),
    ensures
        s.insert(i, x).to_multiset() == s.to_multiset().insert(x),
{
    broadcast use vstd::seq_lib::group_to_multiset_ensures;

    let t = s.insert(i, x);
    assert(t.remove(i) =~= s);
    assert(t[i] == x);
    assert(t.to_multiset().count(x) > 0) by {
        assert(t.contains(x));
    }
    assert(t.to_multiset() =~= s.to_multiset().insert(x));
}

/// Recording an observation keeps every product's lowest price at most its
/// current price, and its current price at most its highest price.
pub proof fn lemma_upsert_keeps_aggregates_valid(
    products: Map<i32, Product>,
    product_id: i32,
    price: Price,
    recorded_at: i64,
)
    requires
        aggregates_valid(products),
    ensures
        aggregates_valid(upserted(products, product_id, price, recorded_at)),
{
}

} // verus!
