use vstd::prelude::*;
use crate::price::Price;
use crate::store::{PriceObservation, PriceStore, Product, history_of, lookup, newest_first};
use crate::subscription::{Subscription, SubscriptionStore, notified};

verus! {

/// What one notification carries: the product's prices and its history.
#[derive(Debug)]
pub struct NotificationPayload {
    pub preference_id: i32,
    pub recipient: String,
    pub product_id: i32,
    pub current_price: Price,
    pub highest_price: Price,
    pub lowest_price: Price,
    /// (time, price) rows, newest first.
    pub history: Vec<(i64, Price)>,
}

/// What the evaluator decides for one subscription in one cycle.
#[derive(Debug)]
pub enum Decision {
    /// Its interval has not passed since it was last notified.
    NotDue,
    /// It is due, but its product has not been scraped yet.
    AwaitingFirstScrape,
    /// It is due: this notification is to be delivered.
    Notify(NotificationPayload),
}

/// `n` is the notification for `sub` about `product`, whose history is in `history`.
pub open spec fn payload_for(
    n: NotificationPayload,
    sub: Subscription,
    product: Product,
    history: Seq<PriceObservation>,
) -> bool {
    &&& n.preference_id == sub.preference_id
    &&& n.recipient@ == sub.email@
    &&& n.product_id == product.product_id
    &&& n.current_price == product.current_price
    &&& n.highest_price == product.highest_price
    &&& n.lowest_price == product.lowest_price
    &&& n.history@.to_multiset() == history_of(history, sub.product_id).to_multiset()
    &&& newest_first(n.history@)
}

/// `sub` is to be notified in a cycle at `now`: it is due and its product has
/// an aggregate.
pub open spec fn is_notifiable(sub: Subscription, products: Map<i32, Product>, now: i64) -> bool {
    sub.due(now) && products.contains_key(sub.product_id)
}

/// The subscriptions of `subs` that a cycle at `now` notifies, in order.
pub open spec fn notifiable(subs: Seq<Subscription>, products: Map<i32, Product>, now: i64) -> Seq<Subscription>
    decreases subs.len(),
{
    if subs.len() == 0 {
        Seq::empty()
    } else if is_notifiable(subs.last(), products, now) {
        notifiable(subs.drop_last(), products, now).push(subs.last())
    } else {
        notifiable(subs.drop_last(), products, now)
    }
}

/// Decides what to do for `sub` in a cycle at `now`: nothing when its
/// interval has not passed, nothing yet when its product has no aggregate,
/// and else a notification with the product's prices and history.
pub fn evaluate(sub: &Subscription, prices: &PriceStore, now: i64) -> (r: Decision)
    ensures
        match r {
            Decision::NotDue => !sub.due(now),
            Decision::AwaitingFirstScrape => sub.due(now) && lookup(prices.aggregates(), sub.product_id) is None,
            Decision::Notify(n) => sub.due(now) && match lookup(prices.aggregates(), sub.product_id) {
                Some(p) => payload_for(n, *sub, p, prices.history()),
                None => false,
            },
        },
{
    if !sub.is_due(now) {
        return Decision::NotDue;
    }
    match prices.get_aggregate(sub.product_id) {
        None => Decision::AwaitingFirstScrape,
        Some(p) => Decision::Notify(
            NotificationPayload {
                preference_id: sub.preference_id,
                recipient: sub.email.clone(),
                product_id: p.product_id,
                current_price: p.current_price,
                highest_price: p.highest_price,
                lowest_price: p.lowest_price,
                history: prices.get_history(sub.product_id),
            },
        ),
    }
}

/// The notifications of a cycle at `now`: one for each subscription that is
/// due and whose product has an aggregate, in the order of the subscriptions.
pub fn due_notifications(subs: &SubscriptionStore, prices: &PriceStore, now: i64) -> (r: Vec<NotificationPayload>)
    ensures
        r@.len() == notifiable(subs.subscriptions(), prices.aggregates(), now).len(),
        forall|i: int| 0 <= i < r@.len() ==> {
            let s = notifiable(subs.subscriptions(), prices.aggregates(), now)[i];
            payload_for(#[trigger] r@[i], s, prices.aggregates()[s.product_id], prices.history())
        },
{
    let all = subs.subscriptions_ref();
    let mut out: Vec<NotificationPayload> = Vec::new();
    let mut i: usize = 0;
    while i < all.len()
        invariant
            all@ == subs.subscriptions(),
            i <= all@.len(),
            out@.len() == notifiable(all@.take(i as int), prices.aggregates(), now).len(),
            forall|k: int| 0 <= k < out@.len() ==> {
                let s = notifiable(all@.take(i as int), prices.aggregates(), now)[k];
                payload_for(#[trigger] out@[k], s, prices.aggregates()[s.product_id], prices.history())
            },
        decreases all@.len() - i,
    {
        let ghost prev = all@.take(i as int);
        let ghost next = all@.take(i as int + 1);
        assert(next.drop_last() =~= prev);
        assert(next.last() == all@[i as int]);
        match evaluate(&all[i], prices, now) {
            Decision::Notify(n) => {
                out.push(n);
            },
            _ => {},
        }
        i += 1;
    }
    assert(all@.take(all@.len() as int) =~= all@);
    out
}

/// Records the outcome of one delivery: only a delivered notification moves
/// the subscription's last-notified time to `now`; after a failure the
/// subscription is left as it was, so that the next cycle retries it.
pub fn record_delivery(subs: &mut SubscriptionStore, preference_id: i32, delivered: bool, now: i64)
    requires
        old(subs).well_formed(),
    ensures
        final(subs).well_formed(),
        delivered ==> notified(old(subs).subscriptions(), final(subs).subscriptions(), preference_id, now),
        !delivered ==> final(subs).subscriptions() == old(subs).subscriptions(),
{
    if delivered {
        subs.update_last_notified(preference_id, now);
    }
}

} // verus!
