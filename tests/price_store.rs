use pricewatch::price::Price;
use pricewatch::store::{Product, PriceStore};

fn p(h: u64) -> Price {
    Price { hundredths: h }
}

#[test]
fn first_scrape_creates_product_and_second_updates_it() {
    let mut store = PriceStore::new();
    assert_eq!(store.get_aggregate(1), None);
    store.upsert_observation(1, p(10000), 1_000);
    let a = store.get_aggregate(1).unwrap();
    assert_eq!(a.current_price, p(10000));
    assert_eq!(a.highest_price, p(10000));
    assert_eq!(a.lowest_price, p(10000));
    assert_eq!(a.last_updated, 1_000);
    assert_eq!(store.get_history(1).len(), 1);

    store.upsert_observation(1, p(9000), 4_600);
    let a = store.get_aggregate(1).unwrap();
    assert_eq!(a.current_price, p(9000));
    assert_eq!(a.highest_price, p(10000));
    assert_eq!(a.lowest_price, p(9000));
    assert_eq!(a.last_updated, 4_600);
    assert_eq!(store.get_history(1), vec![(4_600, p(9000)), (1_000, p(10000))]);
}

#[test]
fn repeating_current_price_keeps_extremes_and_adds_a_row() {
    let mut store = PriceStore::new();
    store.upsert_observation(7, p(500), 10);
    store.upsert_observation(7, p(900), 20);
    store.upsert_observation(7, p(700), 30);
    let before = store.get_aggregate(7).unwrap();
    let rows = store.get_history(7).len();
    store.upsert_observation(7, before.current_price, 40);
    let after = store.get_aggregate(7).unwrap();
    assert_eq!(after.highest_price, before.highest_price);
    assert_eq!(after.lowest_price, before.lowest_price);
    assert_eq!(after.current_price, before.current_price);
    assert_eq!(store.get_history(7).len(), rows + 1);
}

#[test]
fn extremes_are_max_and_min_of_all_prices() {
    let prices = [350u64, 120, 999, 400, 120, 800];
    let mut store = PriceStore::new();
    for (i, h) in prices.iter().enumerate() {
        store.upsert_observation(3, p(*h), i as i64);
        let a = store.get_aggregate(3).unwrap();
        assert!(a.lowest_price.hundredths <= a.current_price.hundredths);
        assert!(a.current_price.hundredths <= a.highest_price.hundredths);
    }
    let a = store.get_aggregate(3).unwrap();
    assert_eq!(a.highest_price, p(999));
    assert_eq!(a.lowest_price, p(120));
    assert_eq!(a.current_price, p(800));
}

#[test]
fn products_are_kept_apart() {
    let mut store = PriceStore::new();
    store.upsert_observation(1, p(100), 1);
    store.upsert_observation(2, p(200), 2);
    store.upsert_observation(1, p(50), 3);
    assert_eq!(store.get_aggregate(2).unwrap().current_price, p(200));
    assert_eq!(store.get_history(2), vec![(2, p(200))]);
    assert_eq!(store.get_history(1), vec![(3, p(50)), (1, p(100))]);
    assert_eq!(store.get_history(9), vec![]);
}

#[test]
fn history_is_newest_first_whatever_the_insert_order() {
    let mut store = PriceStore::new();
    store.upsert_observation(4, p(1), 300);
    store.upsert_observation(4, p(2), 100);
    store.upsert_observation(4, p(3), 500);
    store.upsert_observation(4, p(4), 200);
    assert_eq!(
        store.get_history(4),
        vec![(500, p(3)), (300, p(1)), (200, p(4)), (100, p(2))]
    );
}

#[test]
fn seeding_touches_only_absent_products() {
    let mut store = PriceStore::new();
    store.seed_if_absent(5, p(700), 10);
    assert_eq!(
        store.get_aggregate(5),
        Some(Product {
            product_id: 5,
            current_price: p(700),
            highest_price: p(700),
            lowest_price: p(700),
            last_updated: 10,
        })
    );
    assert_eq!(store.get_history(5).len(), 0);
    store.seed_if_absent(5, p(100), 20);
    assert_eq!(store.get_aggregate(5).unwrap().current_price, p(700));
}

#[test]
fn product_observe_moves_only_passed_extremes() {
    let first = Product::first_observation(9, p(500), 1);
    let up = first.observe(p(800), 2);
    assert_eq!((up.lowest_price, up.current_price, up.highest_price), (p(500), p(800), p(800)));
    let down = up.observe(p(100), 3);
    assert_eq!((down.lowest_price, down.current_price, down.highest_price), (p(100), p(100), p(800)));
    let mid = down.observe(p(300), 4);
    assert_eq!((mid.lowest_price, mid.current_price, mid.highest_price), (p(100), p(300), p(800)));
    assert_eq!(mid.last_updated, 4);
    assert_eq!(mid.product_id, 9);
}
