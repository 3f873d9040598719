use pricewatch::fetch::{extract_price, pacing_delay_ms, price_of_element_text, MAX_PACING_MS, MIN_PACING_MS};
use pricewatch::price::{parse_price, FetchError, Price};

fn hundredths(n: u64) -> Result<Price, FetchError> {
    Ok(Price { hundredths: n })
}

#[test]
fn parses_price_with_currency_and_grouping() {
    assert_eq!(parse_price("MRP₹1,299"), hundredths(129900));
    assert_eq!(parse_price("₹1,299"), hundredths(129900));
    assert_eq!(parse_price("  ₹ 2,49,999 "), hundredths(24999900));
    assert_eq!(parse_price("MRP ₹ 799"), hundredths(79900));
    assert_eq!(parse_price("\n  ₹1,099\t"), hundredths(109900));
}

#[test]
fn parses_fractional_prices() {
    assert_eq!(parse_price("₹12.5"), hundredths(1250));
    assert_eq!(parse_price("₹12.34"), hundredths(1234));
    assert_eq!(parse_price("100.00"), hundredths(10000));
}

#[test]
fn zero_is_a_price() {
    assert_eq!(parse_price("₹0"), hundredths(0));
}

#[test]
fn rejects_text_without_a_number() {
    assert_eq!(parse_price(""), Err(FetchError::PriceUnparsable));
    assert_eq!(parse_price("Sold out"), Err(FetchError::PriceUnparsable));
    assert_eq!(parse_price("₹."), Err(FetchError::PriceUnparsable));
}

#[test]
fn rejects_malformed_numbers() {
    assert_eq!(parse_price("1.234"), Err(FetchError::PriceUnparsable));
    assert_eq!(parse_price("1..2"), Err(FetchError::PriceUnparsable));
    assert_eq!(parse_price(".50"), Err(FetchError::PriceUnparsable));
    assert_eq!(parse_price("12."), Err(FetchError::PriceUnparsable));
}

#[test]
fn rejects_prices_too_large_to_hold() {
    assert_eq!(parse_price("184467440737095516"), hundredths(18446744073709551600));
    assert_eq!(parse_price("184467440737095517"), Err(FetchError::PriceUnparsable));
    assert_eq!(parse_price("99999999999999999999999"), Err(FetchError::PriceUnparsable));
    assert_eq!(parse_price("184467440737095516.15"), hundredths(u64::MAX));
    assert_eq!(parse_price("184467440737095516.16"), Err(FetchError::PriceUnparsable));
}

#[test]
fn extracts_price_from_page() {
    let html = "<html><body><h1>Shirt</h1><p class=\"pdp-price\">₹5</p>\
                <span class=\"pdp-price\"><strong>₹1,499</strong></span></body></html>";
    assert_eq!(extract_price(html), hundredths(149900));
}

#[test]
fn extracts_first_matching_element() {
    let html = "<span class=\"pdp-price\">MRP₹799</span><span class=\"pdp-price\">₹999</span>";
    assert_eq!(extract_price(html), hundredths(79900));
}

#[test]
fn missing_price_element_is_an_error() {
    let html = "<html><body><span class=\"other\">₹1,499</span></body></html>";
    assert_eq!(extract_price(html), Err(FetchError::PriceMissing));
    assert_eq!(price_of_element_text(None), Err(FetchError::PriceMissing));
}

#[test]
fn unreadable_price_element_is_an_error() {
    let html = "<span class=\"pdp-price\">Price on request</span>";
    assert_eq!(extract_price(html), Err(FetchError::PriceUnparsable));
}

#[test]
fn pacing_delay_stays_in_range() {
    for _ in 0..200 {
        let d = pacing_delay_ms();
        assert!(d >= MIN_PACING_MS && d < MAX_PACING_MS);
        assert!(d >= 2000 && d < 5000);
    }
}

#[test]
fn rejects_stray_characters_inside_the_number() {
    assert_eq!(parse_price("1x2"), Err(FetchError::PriceUnparsable));
    assert_eq!(parse_price("₹12 34"), Err(FetchError::PriceUnparsable));
    assert_eq!(parse_price("Rs. 100"), Err(FetchError::PriceUnparsable));
    assert_eq!(parse_price("MRP"), Err(FetchError::PriceUnparsable));
    assert_eq!(parse_price("₹1,299MRP"), Err(FetchError::PriceUnparsable));
}

#[test]
fn rejects_two_prices_in_one_element() {
    assert_eq!(parse_price("₹1,299 ₹2,499"), Err(FetchError::PriceUnparsable));
    assert_eq!(parse_price("₹1,299 (40% off)"), Err(FetchError::PriceUnparsable));
    let html = "<span class=\"pdp-price\"><s>MRP₹2,499</s> ₹1,299</span>";
    assert_eq!(extract_price(html), Err(FetchError::PriceUnparsable));
    assert_eq!(extract_price("<span class=\"pdp-price\">1x2</span>"), Err(FetchError::PriceUnparsable));
}

#[test]
fn trims_unicode_white_space() {
    assert_eq!(parse_price("\u{2009}₹1,299\u{202F}"), hundredths(129900));
    assert_eq!(parse_price("MRP\u{00A0}₹\u{3000}450.5"), hundredths(45050));
}
