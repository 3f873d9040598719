use vstd::prelude::*;
use crate::price::{FetchError, Price};
use crate::store::{PriceObservation, PriceStore, replay, upserted};
use crate::subscription::SubscriptionStore;

verus! {

/// The outcome of fetching one product's price.
pub type ScrapeResult = (i32, Result<Price, FetchError>);

/// Some subscription in `store` is for `product_id`.
pub open spec fn is_subscribed(store: SubscriptionStore, product_id: i32) -> bool {
    exists|i: int| 0 <= i < store.subscriptions().len() && #[trigger] store.subscriptions()[i].product_id == product_id
}

/// The observations that the successful fetches of `results` make at `now`,
/// in order; failed fetches make none.
pub open spec fn successful_observations(results: Seq<ScrapeResult>, now: i64) -> Seq<PriceObservation>
    decreases results.len(),
{
    if results.len() == 0 {
        Seq::empty()
    } else {
        let rest = successful_observations(results.drop_last(), now);
        match results.last().1 {
            Ok(price) => rest.push(PriceObservation { product_id: results.last().0, price, recorded_at: now }),
            Err(_) => rest,
        }
    }
}

/// The products to scrape in a cycle: each product that some subscription
/// names, once.
pub fn products_to_scrape(subs: &SubscriptionStore) -> (r: Vec<i32>)
    ensures
        r@.no_duplicates(),
        forall|id: i32| r@.contains(id) <==> is_subscribed(*subs, id),
{
    let all = subs.subscriptions_ref();
    let mut out: Vec<i32> = Vec::new();
    let mut i: usize = 0;
    while i < all.len()
        invariant
            all@ == subs.subscriptions(),
            i <= all@.len(),
            out@.no_duplicates(),
            forall|id: i32| out@.contains(id) <==> exists|j: int| 0 <= j < i && #[trigger] all@[j].product_id == id,
        decreases all@.len() - i,
    {
        let id = all[i].product_id;
        let ghost before = out@;
        let mut seen = false;
        let mut k: usize = 0;
        while k < out.len()
            invariant
                out@ == before,
                k <= out@.len(),
                seen == exists|m: int| 0 <= m < k && out@[m] == id,
            decreases out@.len() - k,
        {
            if out[k] == id {
                seen = true;
            }
            k += 1;
        }
        assert(seen == before.contains(id));
        if !seen {
            out.push(id);
            assert forall|x: i32| out@.contains(x) <==> (before.contains(x) || x == id) by {
                if x == id {
                    assert(out@[before.len() as int] == id);
                }
                if before.contains(x) {
                    let m = choose|m: int| 0 <= m < before.len() && before[m] == x;
                    assert(out@[m] == x);
                }
                if out@.contains(x) && x != id {
                    let m = choose|m: int| 0 <= m < out@.len() && out@[m] == x;
                    assert(before[m] == x);
                }
            }
        }
        assert forall|x: i32| out@.contains(x) <==> exists|j: int| 0 <= j < i + 1 && #[trigger] all@[j].product_id == x by {
            assert(before.contains(x) <==> exists|j: int| 0 <= j < i && #[trigger] all@[j].product_id == x);
            assert(out@.contains(x) <==> (before.contains(x) || x == id));
            if x == id {
                assert(all@[i as int].product_id == x);
            }
            if before.contains(x) {
                let j = choose|j: int| 0 <= j < i && #[trigger] all@[j].product_id == x;
                assert(0 <= j < i + 1 && all@[j].product_id == x);
            }
            if exists|j: int| 0 <= j < i + 1 && #[trigger] all@[j].product_id == x {
                let j = choose|j: int| 0 <= j < i + 1 && #[trigger] all@[j].product_id == x;
                if j < i {
                    assert(before.contains(x));
                }
            }
        }
        i += 1;
    }
    out
}

/// Records the outcome of fetching `result.0`'s price at `now`: a price is
/// recorded in the store, a fetch error leaves the store as it was.
pub fn record_scrape(prices: &mut PriceStore, result: ScrapeResult, now: i64)
    requires
        old(prices).well_formed(),
    ensures
        final(prices).well_formed(),
        match result.1 {
            Ok(price) => {
                &&& final(prices).history() == old(prices).history().push(
                    PriceObservation { product_id: result.0, price, recorded_at: now },
                )
                &&& final(prices).aggregates() == upserted(old(prices).aggregates(), result.0, price, now)
            },
            Err(_) => {
                &&& final(prices).history() == old(prices).history()
                &&& final(prices).aggregates() == old(prices).aggregates()
            },
        },
{
    match result.1 {
        Ok(price) => prices.upsert_observation(result.0, price, now),
        Err(_) => {},
    }
}

/// Records the outcomes of a whole cycle's fetches at `now`, in order: each
/// price is recorded, and a failed fetch skips only its own product.
pub fn apply_scrape_results(prices: &mut PriceStore, results: &Vec<ScrapeResult>, now: i64)
    requires
        old(prices).well_formed(),
    ensures
        final(prices).well_formed(),
        final(prices).history() == old(prices).history() + successful_observations(results@, now),
        final(prices).aggregates() == replay(old(prices).aggregates(), successful_observations(results@, now)),
{
    let mut i: usize = 0;
    while i < results.len()
        invariant
            i <= results@.len(),
            prices.well_formed(),
            prices.history() == old(prices).history() + successful_observations(results@.take(i as int), now),
            prices.aggregates() == replay(old(prices).aggregates(), successful_observations(results@.take(i as int), now)),
        decreases results@.len() - i,
    {
        let ghost prev = results@.take(i as int);
        let ghost next = results@.take(i as int + 1);
        assert(next.drop_last() =~= prev);
        assert(next.last() == results@[i as int]);
        let r = results[i];
        record_scrape(prices, r, now);
        proof {
            let obs = successful_observations(next, now);
            if r.1 is Ok {
                assert(obs.drop_last() == successful_observations(prev, now));
                assert(old(prices).history() + obs =~= (old(prices).history()
                    + successful_observations(prev, now)).push(obs.last()));
            }
        }
        i += 1;
    }
    assert(results@.take(results@.len() as int) =~= results@);
}

} // verus!
