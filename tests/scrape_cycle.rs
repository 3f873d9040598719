use pricewatch::price::{FetchError, Price};
use pricewatch::scrape::{apply_scrape_results, products_to_scrape, record_scrape};
use pricewatch::store::PriceStore;
use pricewatch::subscription::{SubscriptionRequest, SubscriptionStore};

fn p(h: u64) -> Price {
    Price { hundredths: h }
}

fn request(product_id: i32, email: &str) -> SubscriptionRequest {
    SubscriptionRequest {
        product_id,
        email: email.to_string(),
        interval_hours: None,
        price_threshold: None,
        notify_on_lowest: None,
    }
}

#[test]
fn fetch_error_for_one_product_does_not_stop_another() {
    let mut prices = PriceStore::new();
    let results = vec![(1, Err(FetchError::PageLoad)), (2, Ok(p(2500))), (3, Err(FetchError::PriceMissing))];
    apply_scrape_results(&mut prices, &results, 100);
    assert_eq!(prices.get_aggregate(1), None);
    assert_eq!(prices.get_aggregate(2).unwrap().current_price, p(2500));
    assert_eq!(prices.get_history(2), vec![(100, p(2500))]);
    assert_eq!(prices.get_aggregate(3), None);
}

#[test]
fn record_scrape_skips_errors() {
    let mut prices = PriceStore::new();
    record_scrape(&mut prices, (5, Ok(p(10))), 1);
    record_scrape(&mut prices, (5, Err(FetchError::PriceUnparsable)), 2);
    assert_eq!(prices.get_history(5), vec![(1, p(10))]);
    assert_eq!(prices.get_aggregate(5).unwrap().last_updated, 1);
}

#[test]
fn each_subscribed_product_is_scraped_once() {
    let mut subs = SubscriptionStore::new();
    subs.add(request(7, "a@x.com"), 0).unwrap();
    subs.add(request(9, "a@x.com"), 0).unwrap();
    subs.add(request(7, "b@x.com"), 0).unwrap();
    let mut ids = products_to_scrape(&subs);
    ids.sort();
    assert_eq!(ids, vec![7, 9]);
    assert_eq!(products_to_scrape(&SubscriptionStore::new()), Vec::<i32>::new());
}

#[test]
fn repeated_cycles_accumulate_history() {
    let mut prices = PriceStore::new();
    apply_scrape_results(&mut prices, &vec![(1, Ok(p(100)))], 10);
    apply_scrape_results(&mut prices, &vec![(1, Ok(p(90)))], 20);
    let a = prices.get_aggregate(1).unwrap();
    assert_eq!((a.current_price, a.highest_price, a.lowest_price), (p(90), p(100), p(90)));
    assert_eq!(prices.get_history(1).len(), 2);
}
