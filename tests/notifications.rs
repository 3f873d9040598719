use pricewatch::evaluate::{due_notifications, evaluate, record_delivery, Decision};
use pricewatch::price::{FetchError, Price};
use pricewatch::store::PriceStore;
use pricewatch::subscription::{
    subscribe, SubscriptionError, SubscriptionRequest, SubscriptionStore, DEFAULT_INTERVAL_HOURS,
};

const HOUR: i64 = 3600;
const NOW: i64 = 1_700_000_000;

fn p(h: u64) -> Price {
    Price { hundredths: h }
}

fn request(product_id: i32, email: &str, interval_hours: Option<u32>) -> SubscriptionRequest {
    SubscriptionRequest {
        product_id,
        email: email.to_string(),
        interval_hours,
        price_threshold: None,
        notify_on_lowest: None,
    }
}

#[test]
fn due_subscription_is_notified_once_then_throttled() {
    let mut subs = SubscriptionStore::new();
    let mut prices = PriceStore::new();
    let id = subscribe(&mut subs, &mut prices, request(1, "a@x.com", Some(24)), Ok(p(10000)), NOW - 25 * HOUR)
        .unwrap();
    prices.upsert_observation(1, p(9000), NOW - HOUR);

    let batch = due_notifications(&subs, &prices, NOW);
    assert_eq!(batch.len(), 1);
    let n = &batch[0];
    assert_eq!(n.preference_id, id);
    assert_eq!(n.recipient, "a@x.com");
    assert_eq!(n.product_id, 1);
    assert_eq!(n.current_price, p(9000));
    assert_eq!(n.highest_price, p(10000));
    assert_eq!(n.lowest_price, p(9000));
    assert_eq!(n.history, vec![(NOW - HOUR, p(9000))]);

    record_delivery(&mut subs, id, true, NOW);
    assert_eq!(subs.subscriptions_ref()[0].last_notified, NOW);
    assert_eq!(due_notifications(&subs, &prices, NOW + HOUR).len(), 0);
}

#[test]
fn throttle_boundary_is_exact() {
    let mut subs = SubscriptionStore::new();
    subs.add(request(1, "a@x.com", Some(24)), NOW - (24 * HOUR - 1)).unwrap();
    subs.add(request(2, "b@x.com", Some(24)), NOW - 24 * HOUR).unwrap();
    subs.add(request(3, "c@x.com", Some(24)), NOW - 48 * HOUR).unwrap();
    let all = subs.subscriptions_ref();
    assert!(!all[0].is_due(NOW));
    assert!(all[1].is_due(NOW));
    assert!(all[2].is_due(NOW));
}

#[test]
fn failed_delivery_is_retried_next_cycle() {
    let mut subs = SubscriptionStore::new();
    let mut prices = PriceStore::new();
    let id = subscribe(&mut subs, &mut prices, request(1, "a@x.com", Some(1)), Ok(p(500)), NOW - 2 * HOUR)
        .unwrap();
    assert_eq!(due_notifications(&subs, &prices, NOW).len(), 1);
    record_delivery(&mut subs, id, false, NOW);
    assert_eq!(subs.subscriptions_ref()[0].last_notified, NOW - 2 * HOUR);
    let retry = due_notifications(&subs, &prices, NOW + HOUR);
    assert_eq!(retry.len(), 1);
    assert_eq!(retry[0].preference_id, id);
}

#[test]
fn delivery_updates_only_its_own_subscription() {
    let mut subs = SubscriptionStore::new();
    let a = subs.add(request(1, "a@x.com", None), 0).unwrap();
    let b = subs.add(request(1, "b@x.com", None), 0).unwrap();
    record_delivery(&mut subs, b, true, 99 * HOUR);
    let all = subs.subscriptions_ref();
    assert_eq!(all[0].preference_id, a);
    assert_eq!(all[0].last_notified, 0);
    assert_eq!(all[1].last_notified, 99 * HOUR);
}

#[test]
fn evaluation_distinguishes_the_three_outcomes() {
    let mut subs = SubscriptionStore::new();
    let prices_empty = PriceStore::new();
    subs.add(request(8, "a@x.com", Some(2)), NOW - 3 * HOUR).unwrap();
    subs.add(request(8, "b@x.com", Some(5)), NOW - 3 * HOUR).unwrap();
    let all = subs.subscriptions_ref();
    assert!(matches!(evaluate(&all[1], &prices_empty, NOW), Decision::NotDue));
    assert!(matches!(evaluate(&all[0], &prices_empty, NOW), Decision::AwaitingFirstScrape));
    let mut prices = PriceStore::new();
    prices.upsert_observation(8, p(4200), NOW - HOUR);
    match evaluate(&all[0], &prices, NOW) {
        Decision::Notify(n) => {
            assert_eq!(n.recipient, "a@x.com");
            assert_eq!(n.current_price, p(4200));
        }
        _ => panic!("expected a notification"),
    }
    assert_eq!(due_notifications(&subs, &prices_empty, NOW).len(), 0);
}

#[test]
fn subscribing_twice_is_refused_and_changes_nothing() {
    let mut subs = SubscriptionStore::new();
    let mut prices = PriceStore::new();
    subscribe(&mut subs, &mut prices, request(3, "a@x.com", None), Ok(p(100)), 5).unwrap();
    let again = subscribe(&mut subs, &mut prices, request(3, "a@x.com", Some(1)), Ok(p(999)), 6);
    assert_eq!(again, Err(SubscriptionError::AlreadySubscribed));
    assert_eq!(subs.subscriptions_ref().len(), 1);
    assert_eq!(prices.get_aggregate(3).unwrap().current_price, p(100));
    assert!(subs.contains(3, &"a@x.com".to_string()));
    assert!(!subs.contains(3, &"b@x.com".to_string()));
}

#[test]
fn subscription_takes_defaults() {
    let mut subs = SubscriptionStore::new();
    let mut prices = PriceStore::new();
    let first = subscribe(&mut subs, &mut prices, request(3, "a@x.com", None), Ok(p(100)), 5).unwrap();
    let second = subscribe(&mut subs, &mut prices, request(4, "a@x.com", None), Ok(p(200)), 6).unwrap();
    assert_ne!(first, second);
    let s = &subs.subscriptions_ref()[0];
    assert_eq!(s.interval_hours, DEFAULT_INTERVAL_HOURS);
    assert_eq!(s.interval_hours, 24);
    assert_eq!(s.price_threshold, p(0));
    assert!(!s.notify_on_lowest);
    assert!(!s.notify_on_highest);
    assert_eq!((s.last_notified, s.created_at, s.updated_at), (5, 5, 5));
    assert_eq!(prices.get_history(3).len(), 0);
    assert_eq!(prices.get_aggregate(4).unwrap().lowest_price, p(200));
}

#[test]
fn subscription_keeps_requested_settings() {
    let mut subs = SubscriptionStore::new();
    let req = SubscriptionRequest {
        product_id: 11,
        email: "z@x.com".to_string(),
        interval_hours: Some(6),
        price_threshold: Some(p(150000)),
        notify_on_lowest: Some(true),
    };
    subs.add(req, 42).unwrap();
    let s = &subs.subscriptions_ref()[0];
    assert_eq!(s.interval_hours, 6);
    assert_eq!(s.price_threshold, p(150000));
    assert!(s.notify_on_lowest);
    assert_eq!(s.email, "z@x.com");
}

#[test]
fn failed_first_fetch_creates_nothing() {
    let mut subs = SubscriptionStore::new();
    let mut prices = PriceStore::new();
    let r = subscribe(&mut subs, &mut prices, request(3, "a@x.com", None), Err(FetchError::PageLoad), 5);
    assert_eq!(r, Err(SubscriptionError::FirstPriceUnavailable(FetchError::PageLoad)));
    assert_eq!(subs.subscriptions_ref().len(), 0);
    assert_eq!(prices.get_aggregate(3), None);
    let ok = subscribe(&mut subs, &mut prices, request(3, "a@x.com", None), Ok(p(100)), 6);
    assert!(ok.is_ok());
}
