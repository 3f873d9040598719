use vstd::prelude::*;
use std::collections::HashMap;
use serde_json::Value;
use crate::evaluate::NotificationPayload;
use crate::price::Price;
use crate::text::{decimal, format_price, price_text};

verus! {

/// The UTC date and time, to the minute, `secs` seconds after the Unix epoch,
/// written `YYYY-MM-DD HH:MM`; none when the time is out of chrono's range.
pub uninterp spec fn utc_minute_text(secs: i64) -> Option<Seq<char>>;

/// Relies on chrono: `DateTime::from_timestamp(secs, 0)` (none when out of
/// range) and its `format("%Y-%m-%d %H:%M")`.
#[verifier::external_body]
fn format_utc_minute(secs: i64) -> (r: Option<String>)
    ensures
        match r {
            Some(t) => utc_minute_text(secs) == Some(t@),
            None => utc_minute_text(secs) == None::<Seq<char>>,
        },
{
    chrono::DateTime::from_timestamp(secs, 0).map(|t| t.format("%Y-%m-%d %H:%M").to_string())
}

/// One row of the price history as a message shows it.
#[derive(Debug)]
pub struct HistoryRow {
    pub date: String,
    pub price: String,
}

/// The values that the message template is filled with.
#[derive(Debug)]
pub struct MessageFields {
    pub product_name: String,
    pub current_price: String,
    pub highest_price: String,
    pub lowest_price: String,
    /// Newest first, as in the notification.
    pub price_history: Vec<HistoryRow>,
}

/// The date column of a history row (empty for a time out of range).
pub open spec fn date_text(secs: i64) -> Seq<char> {
    match utc_minute_text(secs) {
        Some(t) => t,
        None => Seq::empty(),
    }
}

/// `f` shows the notification `n`.
pub open spec fn fields_show(f: MessageFields, n: NotificationPayload) -> bool {
    &&& f.product_name@ == decimal_signed(n.product_id)
    &&& f.current_price@ == price_text(n.current_price)
    &&& f.highest_price@ == price_text(n.highest_price)
    &&& f.lowest_price@ == price_text(n.lowest_price)
    &&& f.price_history@.len() == n.history@.len()
    &&& forall|i: int| 0 <= i < n.history@.len() ==> {
        &&& (#[trigger] f.price_history@[i]).date@ == date_text(n.history@[i].0)
        &&& f.price_history@[i].price@ == price_text(n.history@[i].1)
    }
}

/// `n` written in decimal, with a minus sign when negative.
pub open spec fn decimal_signed(n: i32) -> Seq<char> {
    if n < 0 {
        "-"@ + decimal((-n) as nat)
    } else {
        decimal(n as nat)
    }
}

fn format_id(n: i32) -> (r: String)
    ensures
        r@ == decimal_signed(n),
{
    let mut s = String::new();
    if n < 0 {
        s.append("-");
        crate::text::append_decimal(&mut s, (-(n as i64)) as u64);
    } else {
        crate::text::append_decimal(&mut s, n as u64);
    }
    assert(s@ =~= decimal_signed(n));
    s
}

/// The history row for a price recorded at `secs`.
pub fn history_row(secs: i64, price: Price) -> (r: HistoryRow)
    ensures
        r.date@ == date_text(secs),
        r.price@ == price_text(price),
{
    let date = match format_utc_minute(secs) {
        Some(t) => t,
        None => String::new(),
    };
    HistoryRow { date, price: format_price(price) }
}

/// The values a notification's message shows: the product, its three prices
/// and its history rows, newest first.
pub fn message_fields(n: &NotificationPayload) -> (r: MessageFields)
    ensures
        fields_show(r, *n),
{
    let mut rows: Vec<HistoryRow> = Vec::new();
    let mut i: usize = 0;
    while i < n.history.len()
        invariant
            i <= n.history@.len(),
            rows@.len() == i,
            forall|k: int| 0 <= k < i ==> {
                &&& (#[trigger] rows@[k]).date@ == date_text(n.history@[k].0)
                &&& rows@[k].price@ == price_text(n.history@[k].1)
            },
        decreases n.history@.len() - i,
    {
        let (t, p) = n.history[i];
        rows.push(history_row(t, p));
        i += 1;
    }
    MessageFields {
        product_name: format_id(n.product_id),
        current_price: format_price(n.current_price),
        highest_price: format_price(n.highest_price),
        lowest_price: format_price(n.lowest_price),
        price_history: rows,
    }
}

/// The template of a price notification's message body (Handlebars).
pub const MESSAGE_TEMPLATE: &'static str = r#"<!DOCTYPE html>
<html>
<head>
<style>
.container { max-width: 600px; margin: auto; font-family: Arial, sans-serif; }
.price-card { padding: 15px; border: 1px solid #ddd; border-radius: 8px; margin: 10px 0; }
.current { background-color: #e3f2fd; }
.history-item { padding: 10px; border-bottom: 1px solid #eee; }
.price { font-weight: bold; color: #2196f3; }
.highlight { color: #f44336; }
</style>
</head>
<body>
<div class="container">
<h2>Price Information for {{product_name}}</h2>
<div class="price-card current">
<h3>Current Price: <span class="price">₹{{current_price}}</span></h3>
<p>Highest Recorded: ₹{{highest_price}}</p>
<p>Lowest Recorded: ₹{{lowest_price}}</p>
</div>
<h3>Price History</h3>
{{#each price_history}}
<div class="history-item">
<span>{{this.date}}</span>
<span class="price">₹{{this.price}}</span>
</div>
{{/each}}
</div>
</body>
</html>"#;

/// The text that `template` renders to when filled with the product name,
/// the three prices and the (date, price) history rows; none when the
/// template does not render.
pub uninterp spec fn rendered_message(
    template: Seq<char>,
    product_name: Seq<char>,
    current_price: Seq<char>,
    highest_price: Seq<char>,
    lowest_price: Seq<char>,
    rows: Seq<(Seq<char>, Seq<char>)>,
) -> Option<Seq<char>>;

/// The (date, price) columns of `rows`.
pub open spec fn row_texts(rows: Seq<HistoryRow>) -> Seq<(Seq<char>, Seq<char>)> {
    rows.map_values(|r: HistoryRow| (r.date@, r.price@))
}

/// Relies on handlebars: `Handlebars::new().render_template(template, data)`,
/// with the fields as JSON strings and the rows as an array of
/// `{date, price}` objects (serde_json).
#[verifier::external_body]
fn render_fields(template: &str, f: &MessageFields) -> (r: Option<String>)
    ensures
        match r {
            Some(t) => rendered_message(template@, f.product_name@, f.current_price@, f.highest_price@, f.lowest_price@, row_texts(f.price_history@)) == Some(t@),
            None => rendered_message(template@, f.product_name@, f.current_price@, f.highest_price@, f.lowest_price@, row_texts(f.price_history@)) == None::<Seq<char>>,
        },
{
    let rows: Vec<HashMap<&str, &str>> = f.price_history.iter()
        .map(|r| HashMap::from([("date", r.date.as_str()), ("price", r.price.as_str())]))
        .collect();
    let data = HashMap::from([
        ("product_name", Value::from(f.product_name.as_str())),
        ("current_price", Value::from(f.current_price.as_str())),
        ("highest_price", Value::from(f.highest_price.as_str())),
        ("lowest_price", Value::from(f.lowest_price.as_str())),
        ("price_history", serde_json::to_value(rows).ok()?),
    ]);
    handlebars::Handlebars::new().render_template(template, &data).ok()
}

/// The history rows of `n` as a message shows them, newest first.
pub open spec fn message_rows(n: NotificationPayload) -> Seq<(Seq<char>, Seq<char>)> {
    n.history@.map_values(|h: (i64, Price)| (date_text(h.0), price_text(h.1)))
}

/// The message body of the notification `n`: the message template filled
/// with the product, its three prices and its history; none when the
/// template does not render.
pub fn message_body(n: &NotificationPayload) -> (r: Option<String>)
    ensures
        match r {
            Some(t) => rendered_message(MESSAGE_TEMPLATE@, decimal_signed(n.product_id), price_text(n.current_price), price_text(n.highest_price), price_text(n.lowest_price), message_rows(*n)) == Some(t@),
            None => rendered_message(MESSAGE_TEMPLATE@, decimal_signed(n.product_id), price_text(n.current_price), price_text(n.highest_price), price_text(n.lowest_price), message_rows(*n)) == None::<Seq<char>>,
        },
{
    let f = message_fields(n);
    assert(row_texts(f.price_history@) =~= message_rows(*n));
    render_fields(MESSAGE_TEMPLATE, &f)
}

} // verus!
