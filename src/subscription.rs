use vstd::prelude::*;
use crate::price::{FetchError, Price};
use crate::store::{PriceStore, Product};

verus! {

/// The seconds in an hour.
pub const SECONDS_PER_HOUR: i64 = 3600;

/// The interval, in hours, of a subscription that names none.
pub const DEFAULT_INTERVAL_HOURS: u32 = 24;

/// A recipient's notification preference for one product. Times are seconds
/// since the Unix epoch.
///
/// `price_threshold` (zero: no threshold), `notify_on_lowest` and
/// `notify_on_highest` are kept and carried along; no rule gates delivery on
/// them, only the interval does.
#[derive(Debug)]
pub struct Subscription {
    pub preference_id: i32,
    pub product_id: i32,
    pub email: String,
    pub interval_hours: u32,
    pub price_threshold: Price,
    pub notify_on_lowest: bool,
    pub notify_on_highest: bool,
    pub last_notified: i64,
    pub created_at: i64,
    pub updated_at: i64,
}

/// At least `interval_hours` have passed between `last_notified` and `now`.
pub open spec fn is_due_at(last_notified: i64, interval_hours: u32, now: i64) -> bool {
    now - last_notified >= interval_hours * SECONDS_PER_HOUR
}

impl Subscription {
    pub open spec fn due(&self, now: i64) -> bool {
        is_due_at(self.last_notified, self.interval_hours, now)
    }

    /// Whether the subscription may be notified in a cycle running at `now`:
    /// its whole interval has passed since it was last notified.
    pub fn is_due(&self, now: i64) -> (r: bool)
        ensures
            r == self.due(now),
    {
        let hours = self.interval_hours as i128;
        assert(hours * 3600 <= u32::MAX as i128 * 3600) by (nonlinear_arith)
            requires
                0 <= hours <= u32::MAX,
        ;
        (now as i128) - (self.last_notified as i128) >= hours * (SECONDS_PER_HOUR as i128)
    }
}

/// Why a subscription was not added.
#[derive(Clone, Copy, Debug, PartialEq, Eq, Structural)]
pub enum SubscriptionError {
    /// The recipient already has a subscription for the product.
    AlreadySubscribed,
    /// No preference id is left to give out.
    IdsExhausted,
    /// The product's first price could not be fetched.
    FirstPriceUnavailable(FetchError),
}

/// What a recipient asks for; the absent fields take their defaults.
#[derive(Debug)]
pub struct SubscriptionRequest {
    pub product_id: i32,
    pub email: String,
    pub interval_hours: Option<u32>,
    pub price_threshold: Option<Price>,
    pub notify_on_lowest: Option<bool>,
}

/// Some subscription in `subs` is `email`'s for `product_id`.
pub open spec fn has_subscription(subs: Seq<Subscription>, product_id: i32, email: Seq<char>) -> bool {
    exists|i: int| 0 <= i < subs.len() && #[trigger] subs[i].product_id == product_id && subs[i].email@ == email
}

/// `s` is the subscription that `request` makes, with id `preference_id`, at `now`.
pub open spec fn made_from(s: Subscription, request: SubscriptionRequest, preference_id: i32, now: i64) -> bool {
    &&& s.preference_id == preference_id
    &&& s.product_id == request.product_id
    &&& s.email@ == request.email@
    &&& s.interval_hours == match request.interval_hours {
        Some(h) => h,
        None => DEFAULT_INTERVAL_HOURS,
    }
    &&& s.price_threshold == match request.price_threshold {
        Some(p) => p,
        None => Price { hundredths: 0 },
    }
    &&& s.notify_on_lowest == match request.notify_on_lowest {
        Some(b) => b,
        None => false,
    }
    &&& !s.notify_on_highest
    &&& s.last_notified == now
    &&& s.created_at == now
    &&& s.updated_at == now
}

/// `after` is `before` with the last-notified time of the subscription
/// `preference_id` set to `now`.
pub open spec fn notified(before: Seq<Subscription>, after: Seq<Subscription>, preference_id: i32, now: i64) -> bool {
    &&& after.len() == before.len()
    &&& forall|i: int| 0 <= i < before.len() ==> {
        let (a, b) = (#[trigger] after[i], before[i]);
        &&& a.preference_id == b.preference_id
        &&& a.product_id == b.product_id
        &&& a.email@ == b.email@
        &&& a.interval_hours == b.interval_hours
        &&& a.price_threshold == b.price_threshold
        &&& a.notify_on_lowest == b.notify_on_lowest
        &&& a.notify_on_highest == b.notify_on_highest
        &&& a.created_at == b.created_at
        &&& a.updated_at == b.updated_at
        &&& a.last_notified == if b.preference_id == preference_id {
            now
        } else {
            b.last_notified
        }
    }
}

/// The subscription store: the notification preferences, at most one per
/// recipient and product, each with its own id.
pub struct SubscriptionStore {
    subs: Vec<Subscription>,
    next_id: i32,
}

impl SubscriptionStore {
    /// The subscriptions, in the order they were added.
    pub closed spec fn subscriptions(&self) -> Seq<Subscription> {
        self.subs@
    }

    /// A fresh preference id can still be given out.
    pub closed spec fn ids_left(&self) -> bool {
        self.next_id < i32::MAX
    }

    pub closed spec fn well_formed(&self) -> bool {
        &&& self.next_id >= 1
        &&& forall|i: int| 0 <= i < self.subs@.len() ==> 1 <= #[trigger] self.subs@[i].preference_id < self.next_id
        &&& forall|i: int, j: int| 0 <= i < j < self.subs@.len() ==> {
            &&& #[trigger] self.subs@[i].preference_id != #[trigger] self.subs@[j].preference_id
            &&& (self.subs@[i].product_id != self.subs@[j].product_id || self.subs@[i].email@ != self.subs@[j].email@)
        }
    }

    pub fn new() -> (r: SubscriptionStore)
        ensures
            r.subscriptions() == Seq::<Subscription>::empty(),
            r.well_formed(),
            r.ids_left(),
    {
        SubscriptionStore { subs: Vec::new(), next_id: 1 }
    }

    pub fn subscriptions_ref(&self) -> (r: &Vec<Subscription>)
        ensures
            r@ == self.subscriptions(),
    {
        &self.subs
    }

    /// Whether `email` already has a subscription for `product_id`.
    pub fn contains(&self, product_id: i32, email: &String) -> (r: bool)
        ensures
            r == has_subscription(self.subscriptions(), product_id, email@),
    {
        let mut i: usize = 0;
        while i < self.subs.len()
            invariant
                i <= self.subs@.len(),
                forall|j: int| 0 <= j < i ==> !(#[trigger] self.subs@[j].product_id == product_id && self.subs@[j].email@ == email@),
            decreases self.subs@.len() - i,
        {
            if self.subs[i].product_id == product_id && self.subs[i].email == *email {
                return true;
            }
            i += 1;
        }
        false
    }

    /// Adds the subscription that `request` makes at `now`, under a fresh
    /// preference id, unless the recipient already has one for the product.
    pub fn add(&mut self, request: SubscriptionRequest, now: i64) -> (r: Result<i32, SubscriptionError>)
        requires
            old(self).well_formed(),
        ensures
            final(self).well_formed(),
            has_subscription(old(self).subscriptions(), request.product_id, request.email@) <==> r
                == Err::<i32, SubscriptionError>(SubscriptionError::AlreadySubscribed),
            match r {
                Ok(id) => {
                    &&& !has_subscription(old(self).subscriptions(), request.product_id, request.email@)
                    &&& final(self).subscriptions().len() == old(self).subscriptions().len() + 1
                    &&& final(self).subscriptions().drop_last() == old(self).subscriptions()
                    &&& made_from(final(self).subscriptions().last(), request, id, now)
                    &&& forall|i: int| 0 <= i < old(self).subscriptions().len() ==> #[trigger] old(self).subscriptions()[i].preference_id != id
                },
                Err(_) => final(self).subscriptions() == old(self).subscriptions(),
            },
            !has_subscription(old(self).subscriptions(), request.product_id, request.email@) ==> (
            r == Err::<i32, SubscriptionError>(SubscriptionError::IdsExhausted) <==> !old(self).ids_left()),
            !has_subscription(old(self).subscriptions(), request.product_id, request.email@)
                && old(self).ids_left() ==> r is Ok,
            match r {
                Ok(id) => final(self).ids_left() <==> id + 1 < i32::MAX,
                Err(_) => final(self).ids_left() == old(self).ids_left(),
            },
    {
        if self.contains(request.product_id, &request.email) {
            return Err(SubscriptionError::AlreadySubscribed);
        }
        if self.next_id == i32::MAX {
            return Err(SubscriptionError::IdsExhausted);
        }
        let id = self.next_id;
        let sub = Subscription {
            preference_id: id,
            product_id: request.product_id,
            email: request.email,
            interval_hours: match request.interval_hours {
                Some(h) => h,
                None => DEFAULT_INTERVAL_HOURS,
            },
            price_threshold: match request.price_threshold {
                Some(p) => p,
                None => Price { hundredths: 0 },
            },
            notify_on_lowest: match request.notify_on_lowest {
                Some(b) => b,
                None => false,
            },
            notify_on_highest: false,
            last_notified: now,
            created_at: now,
            updated_at: now,
        };
        self.subs.push(sub);
        self.next_id = id + 1;
        assert(self.subs@.drop_last() =~= old(self).subs@);
        Ok(id)
    }

    /// Sets the last-notified time of the subscription `preference_id` to `now`.
    pub fn update_last_notified(&mut self, preference_id: i32, now: i64)
        requires
            old(self).well_formed(),
        ensures
            final(self).well_formed(),
            notified(old(self).subscriptions(), final(self).subscriptions(), preference_id, now),
    {
        let mut i: usize = 0;
        while i < self.subs.len()
            invariant
                i <= self.subs@.len(),
                self.next_id == old(self).next_id,
                self.subs@.len() == old(self).subs@.len(),
                forall|j: int| i <= j < self.subs@.len() ==> #[trigger] self.subs@[j] == old(self).subs@[j],
                forall|j: int| 0 <= j < i ==> {
                    let (a, b) = (#[trigger] self.subs@[j], old(self).subs@[j]);
                    &&& a.preference_id == b.preference_id
                    &&& a.product_id == b.product_id
                    &&& a.email@ == b.email@
                    &&& a.interval_hours == b.interval_hours
                    &&& a.price_threshold == b.price_threshold
                    &&& a.notify_on_lowest == b.notify_on_lowest
                    &&& a.notify_on_highest == b.notify_on_highest
                    &&& a.created_at == b.created_at
                    &&& a.updated_at == b.updated_at
                    &&& a.last_notified == if b.preference_id == preference_id {
                        now
                    } else {
                        b.last_notified
                    }
                },
            decreases self.subs@.len() - i,
        {
            if self.subs[i].preference_id == preference_id {
                self.subs[i].last_notified = now;
            }
            i += 1;
        }
    }
}

/// Takes a recipient's subscription as one unit, once the product's first
/// price was fetched with outcome `first_price`. When that fetch failed,
/// nothing is created. Otherwise the product's aggregate is created from the
/// price if it has none, and the subscription is added; when the
/// subscription cannot be added, neither store changes.
pub fn subscribe(
    subs: &mut SubscriptionStore,
    prices: &mut PriceStore,
    request: SubscriptionRequest,
    first_price: Result<Price, FetchError>,
    now: i64,
) -> (r: Result<i32, SubscriptionError>)
    requires
        old(subs).well_formed(),
        old(prices).well_formed(),
    ensures
        final(subs).well_formed(),
        final(prices).well_formed(),
        final(prices).history() == old(prices).history(),
        first_price is Ok && !has_subscription(old(subs).subscriptions(), request.product_id, request.email@)
            && old(subs).ids_left() ==> r is Ok,
        match r {
            Ok(id) => final(subs).ids_left() <==> id + 1 < i32::MAX,
            Err(_) => final(subs).ids_left() == old(subs).ids_left(),
        },
        match first_price {
            Err(e) => r == Err::<i32, SubscriptionError>(SubscriptionError::FirstPriceUnavailable(e)),
            Ok(_) => {
                &&& has_subscription(old(subs).subscriptions(), request.product_id, request.email@)
                    <==> r == Err::<i32, SubscriptionError>(SubscriptionError::AlreadySubscribed)
                &&& !has_subscription(old(subs).subscriptions(), request.product_id, request.email@)
                    ==> (r == Err::<i32, SubscriptionError>(SubscriptionError::IdsExhausted)
                    <==> !old(subs).ids_left())
            },
        },
        match r {
            Ok(id) => {
                &&& final(subs).subscriptions().drop_last() == old(subs).subscriptions()
                &&& final(subs).subscriptions().len() == old(subs).subscriptions().len() + 1
                &&& made_from(final(subs).subscriptions().last(), request, id, now)
                &&& match first_price {
                    Ok(p) => final(prices).aggregates() == if old(prices).aggregates().contains_key(
                        request.product_id,
                    ) {
                        old(prices).aggregates()
                    } else {
                        old(prices).aggregates().insert(
                            request.product_id,
                            Product::seeded(request.product_id, p, now),
                        )
                    },
                    Err(_) => false,
                }
            },
            Err(_) => {
                &&& final(subs).subscriptions() == old(subs).subscriptions()
                &&& final(prices).aggregates() == old(prices).aggregates()
            },
        },
{
    let price = match first_price {
        Ok(p) => p,
        Err(e) => return Err(SubscriptionError::FirstPriceUnavailable(e)),
    };
    let product_id = request.product_id;
    let r = subs.add(request, now);
    if r.is_ok() {
        prices.seed_if_absent(product_id, price, now);
    }
    r
}

} // verus!
