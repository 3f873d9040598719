use vstd::prelude::*;
use crate::evaluate::{is_notifiable, notifiable};
use crate::scrape::{ScrapeResult, successful_observations};
use crate::store::{PriceObservation, Product, aggregates_valid, history_of, replay, upserted};
use crate::subscription::{Subscription, is_due_at};

verus! {

/// The highest price among `observations` (0 for none).
pub open spec fn max_observed(observations: Seq<PriceObservation>) -> u64
    decreases observations.len(),
{
    if observations.len() == 0 {
        0
    } else {
        let rest = max_observed(observations.drop_last());
        let p = observations.last().price.hundredths;
        if observations.len() == 1 || p > rest {
            p
        } else {
            rest
        }
    }
}

/// The lowest price among `observations` (0 for none).
pub open spec fn min_observed(observations: Seq<PriceObservation>) -> u64
    decreases observations.len(),
{
    if observations.len() == 0 {
        0
    } else {
        let rest = min_observed(observations.drop_last());
        let p = observations.last().price.hundredths;
        if observations.len() == 1 || p < rest {
            p
        } else {
            rest
        }
    }
}

/// Observing a product's current price again leaves its highest and lowest
/// prices as they were, and adds exactly one row to its history.
pub proof fn lemma_repeated_price_is_idempotent(
    products: Map<i32, Product>,
    history: Seq<PriceObservation>,
    product_id: i32,
    recorded_at: i64,
)
    requires
        aggregates_valid(products),
        products.contains_key(product_id),
    ensures
        ({
            let p = products[product_id];
            let q = upserted(products, product_id, p.current_price, recorded_at)[product_id];
            &&& q.highest_price == p.highest_price
            &&& q.lowest_price == p.lowest_price
            &&& q.current_price == p.current_price
        }),
        ({
            let p = products[product_id];
            let after = history.push(
                PriceObservation { product_id, price: p.current_price, recorded_at },
            );
            &&& after.len() == history.len() + 1
            &&& history_of(after, product_id) == history_of(history, product_id).push(
                (recorded_at, p.current_price),
            )
        }),
{
    let p = products[product_id];
    let after = history.push(PriceObservation { product_id, price: p.current_price, recorded_at });
    assert(after.drop_last() =~= history);
}

/// After a sequence of prices is observed for a product that had none, its
/// highest price is the maximum of the sequence, its lowest price the
/// minimum, and its current price the last one; the first price seeds all
/// three.
pub proof fn lemma_extremes_track_observations(
    products: Map<i32, Product>,
    product_id: i32,
    observations: Seq<PriceObservation>,
)
    requires
        !products.contains_key(product_id),
        observations.len() > 0,
        forall|i: int| 0 <= i < observations.len() ==> #[trigger] observations[i].product_id == product_id,
    ensures
        ({
            let q = replay(products, observations)[product_id];
            &&& replay(products, observations).contains_key(product_id)
            &&& q.highest_price.hundredths == max_observed(observations)
            &&& q.lowest_price.hundredths == min_observed(observations)
            &&& q.current_price == observations.last().price
            &&& q.product_id == product_id
        }),
    decreases observations.len(),
{
    let rest = observations.drop_last();
    if rest.len() == 0 {
        assert(replay(products, rest) == products);
    } else {
        assert forall|i: int| 0 <= i < rest.len() implies #[trigger] rest[i].product_id == product_id by {
            assert(rest[i] == observations[i]);
        }
        lemma_extremes_track_observations(products, product_id, rest);
    }
}

/// Recording observations never drops a product's aggregate, and gives one
/// to each product observed.
pub proof fn lemma_replay_keeps_products(
    products: Map<i32, Product>,
    observations: Seq<PriceObservation>,
)
    ensures
        forall|id: i32| products.contains_key(id) ==> #[trigger] replay(products, observations).contains_key(id),
        forall|k: int| 0 <= k < observations.len() ==> replay(products, observations).contains_key(
            #[trigger] observations[k].product_id,
        ),
    decreases observations.len(),
{
    if observations.len() > 0 {
        let rest = observations.drop_last();
        lemma_replay_keeps_products(products, rest);
        assert forall|id: i32| products.contains_key(id) implies #[trigger] replay(products, observations).contains_key(id) by {
            assert(replay(products, rest).contains_key(id));
        }
        assert forall|k: int| 0 <= k < observations.len() implies replay(products, observations).contains_key(
            #[trigger] observations[k].product_id,
        ) by {
            if k < rest.len() {
                assert(rest[k] == observations[k]);
            }
        }
    }
}

/// A subscription whose last notification is one second short of its
/// interval ago is not notified; one notified a whole interval ago, or
/// earlier, is due.
pub proof fn lemma_throttle_boundary(interval_hours: u32, now: i64, last_notified: i64)
    ensures
        last_notified == now - (interval_hours * 3600 - 1) ==> !is_due_at(last_notified, interval_hours, now),
        last_notified <= now - interval_hours * 3600 ==> is_due_at(last_notified, interval_hours, now),
{
}

/// When a delivery fails the subscriptions stay as they were, so at any
/// later cycle, whatever prices were recorded in between, the same
/// subscription is due again and the evaluator notifies it again.
pub proof fn lemma_failed_delivery_is_retried(
    subs: Seq<Subscription>,
    i: int,
    products: Map<i32, Product>,
    observations: Seq<PriceObservation>,
    now: i64,
    later: i64,
)
    requires
        0 <= i < subs.len(),
        is_notifiable(subs[i], products, now),
        now <= later,
    ensures
        is_notifiable(subs[i], replay(products, observations), later),
        notifiable(subs, replay(products, observations), later).contains(subs[i]),
    decreases subs.len(),
{
    lemma_replay_keeps_products(products, observations);
    let later_products = replay(products, observations);
    assert(later_products.contains_key(subs[i].product_id));
    if i == subs.len() - 1 {
        let n = notifiable(subs, later_products, later);
        assert(n.last() == subs[i]);
        assert(n.contains(subs[i]));
    } else {
        let rest = subs.drop_last();
        assert(rest[i] == subs[i]);
        lemma_failed_delivery_is_retried(rest, i, products, observations, now, later);
        let m = notifiable(rest, later_products, later);
        let j = choose|j: int| 0 <= j < m.len() && m[j] == subs[i];
        let n = notifiable(subs, later_products, later);
        if is_notifiable(subs.last(), later_products, later) {
            assert(n[j] == subs[i]);
        }
        assert(n.contains(subs[i]));
    }
}

/// A failed fetch for one product does not keep the cycle from recording
/// another: every successful fetch of the cycle is recorded as an
/// observation, and its product has an aggregate afterwards.
pub proof fn lemma_fetch_errors_are_isolated(
    products: Map<i32, Product>,
    results: Seq<ScrapeResult>,
    now: i64,
    j: int,
)
    requires
        0 <= j < results.len(),
        results[j].1 is Ok,
    ensures
        successful_observations(results, now).contains(
            PriceObservation { product_id: results[j].0, price: results[j].1->Ok_0, recorded_at: now },
        ),
        replay(products, successful_observations(results, now)).contains_key(results[j].0),
    decreases results.len(),
{
    let o = PriceObservation { product_id: results[j].0, price: results[j].1->Ok_0, recorded_at: now };
    let obs = successful_observations(results, now);
    if j == results.len() - 1 {
        assert(obs.last() == o);
    } else {
        let rest = results.drop_last();
        assert(rest[j] == results[j]);
        lemma_fetch_errors_are_isolated(products, rest, now, j);
        let prev = successful_observations(rest, now);
        let k = choose|k: int| 0 <= k < prev.len() && prev[k] == o;
        if results.last().1 is Ok {
            assert(obs[k] == o);
        }
        assert(obs.contains(o));
    }
    let k = choose|k: int| 0 <= k < obs.len() && obs[k] == o;
    lemma_replay_keeps_products(products, obs);
    assert(replay(products, obs).contains_key(obs[k].product_id));
}

} // verus!
