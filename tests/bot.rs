use pricewatch::commands::welcome_message::{self, WELCOME_MESSAGE};
use pricewatch::commands::{cargocut, moderate, myntra, serverstats, vote, youtube, OptionKind};
use pricewatch::config::{ConfigError, EmailConfig};
use pricewatch::evaluate::NotificationPayload;
use pricewatch::notify::{history_row, message_body, message_fields};
use pricewatch::price::Price;
use pricewatch::spam::SpamChecker;
use pricewatch::text::format_price;
use pricewatch::violations::{ModAction, ViolationThresholds, ViolationsTracker};

#[test]
fn warn_mentions_user_and_reason() {
    assert_eq!(
        moderate::warn(Some(123456789012345678), Some("spamming links")),
        "**Warning** issued to <@123456789012345678> **for: spamming links**"
    );
    assert_eq!(moderate::warn(Some(0), Some("x")), "**Warning** issued to <@0> **for: x**");
}

#[test]
fn warn_without_user_or_reason_asks_for_them() {
    assert_eq!(moderate::warn(None, Some("x")), "Please provide a valid user and reason");
    assert_eq!(moderate::warn(Some(5), None), "Please provide a valid user and reason");
}

#[test]
fn commands_register_their_options() {
    let add = myntra::register_add();
    assert_eq!(add.name, "myntra");
    assert_eq!(add.options.len(), 5);
    assert_eq!(add.options[0].name, "productid");
    assert!(add.options[0].required);
    assert_eq!(add.options[4].kind, OptionKind::Boolean);
    assert!(!add.options[4].required);

    let mute = moderate::register_mute();
    assert_eq!(mute.options[1].kind, OptionKind::Integer);
    assert_eq!(moderate::register_ban().options[1].name, "days");
    assert_eq!(moderate::register_warn().options[0].kind, OptionKind::User);
    assert_eq!(cargocut::register_cut().options.len(), 3);
    assert_eq!(vote::register().options.len(), 6);
    assert_eq!(serverstats::register().name, "serverstats");
    assert_eq!(youtube::register_youtube().name, "utubemp3");
    let welcome = welcome_message::register();
    assert!(welcome.admin_only);
    assert!(!add.admin_only);
}

#[test]
fn welcome_message_is_returned_whole() {
    let text = welcome_message::run();
    assert_eq!(text, WELCOME_MESSAGE);
    assert!(text.starts_with("**Welcome to the Community! 👋**"));
    assert!(text.ends_with("*Click a reaction once to get the role. Click again to remove it.*"));
}

#[test]
fn violations_escalate_through_thresholds() {
    let t = ViolationThresholds::default();
    let mut tracker = ViolationsTracker::new();
    assert_eq!(tracker.get_violation_count(1), 0);
    assert_eq!(tracker.get_appropriate_action(1, &t), ModAction::Warn);
    tracker.increment_violations(1);
    assert_eq!(tracker.get_appropriate_action(1, &t), ModAction::Warn);
    tracker.increment_violations(1);
    assert_eq!(tracker.get_violation_count(1), 2);
    assert_eq!(tracker.get_appropriate_action(1, &t), ModAction::Mute(60));
    for _ in 0..3 {
        tracker.increment_violations(1);
    }
    assert_eq!(tracker.get_appropriate_action(1, &t), ModAction::Mute(3600));
    tracker.increment_violations(1);
    tracker.increment_violations(1);
    assert_eq!(tracker.get_violation_count(1), 7);
    assert_eq!(tracker.get_appropriate_action(1, &t), ModAction::Ban);
    assert_eq!(tracker.get_violation_count(2), 0);
}

#[test]
fn default_thresholds() {
    let t = ViolationThresholds::default();
    assert_eq!((t.short_mute_min, t.long_mute_min, t.ban_min), (2, 5, 7));
    assert_eq!((t.short_mute_secs, t.long_mute_secs), (60, 3600));
}

#[test]
fn email_config_needs_all_three_settings() {
    let s = |v: &str| Some(v.to_string());
    assert_eq!(EmailConfig::init(None, s("u"), s("p")).unwrap_err(), ConfigError::MissingHost);
    assert_eq!(EmailConfig::init(s("h"), None, None).unwrap_err(), ConfigError::MissingUsername);
    assert_eq!(EmailConfig::init(s("h"), s("u"), None).unwrap_err(), ConfigError::MissingPassword);
    let c = EmailConfig::init(s("smtp.example.com"), s("user"), s("SECRET-REDACTED")).unwrap();
    assert_eq!(c.smtp_host(), "smtp.example.com");
    assert_eq!(c.smtp_username(), "user");
    assert_eq!(c.smtp_password(), "SECRET-REDACTED");
}

#[test]
fn prices_are_written_with_two_decimals() {
    assert_eq!(format_price(Price { hundredths: 129900 }), "1299.00");
    assert_eq!(format_price(Price { hundredths: 5 }), "0.05");
    assert_eq!(format_price(Price { hundredths: 1250 }), "12.50");
    assert_eq!(format_price(Price { hundredths: u64::MAX }), "184467440737095516.15");
}

#[test]
fn message_fields_show_the_notification() {
    let n = NotificationPayload {
        preference_id: 1,
        recipient: "a@x.com".to_string(),
        product_id: 12345,
        current_price: Price { hundredths: 9000 },
        highest_price: Price { hundredths: 10000 },
        lowest_price: Price { hundredths: 9000 },
        history: vec![(1_700_000_000, Price { hundredths: 9000 }), (0, Price { hundredths: 10000 })],
    };
    let f = message_fields(&n);
    assert_eq!(f.product_name, "12345");
    assert_eq!(f.current_price, "90.00");
    assert_eq!(f.highest_price, "100.00");
    assert_eq!(f.lowest_price, "90.00");
    assert_eq!(f.price_history.len(), 2);
    assert_eq!(f.price_history[0].date, "2023-11-14 22:13");
    assert_eq!(f.price_history[0].price, "90.00");
    assert_eq!(f.price_history[1].date, "1970-01-01 00:00");
}

#[test]
fn history_row_of_time_out_of_range_has_no_date() {
    let r = history_row(i64::MAX, Price { hundredths: 1 });
    assert_eq!(r.date, "");
    assert_eq!(r.price, "0.01");
}

#[test]
fn bursts_of_more_than_five_messages_are_spam() {
    let mut checker = SpamChecker::new();
    for i in 0..5u64 {
        assert!(!checker.is_spam(42, 1_000 + i * 100));
    }
    assert!(checker.is_spam(42, 1_600));
    assert!(checker.is_spam(42, 6_000));
    assert!(!checker.is_spam(7, 6_000));
    assert!(!checker.is_spam(42, 6_001));
    assert!(!checker.is_spam(42, 6_002));
}

#[test]
fn message_body_fills_the_template() {
    let n = NotificationPayload {
        preference_id: 1,
        recipient: "a@x.com".to_string(),
        product_id: 777,
        current_price: Price { hundredths: 129900 },
        highest_price: Price { hundredths: 249900 },
        lowest_price: Price { hundredths: 99900 },
        history: vec![(1_700_000_000, Price { hundredths: 129900 }), (0, Price { hundredths: 249900 })],
    };
    let body = message_body(&n).unwrap();
    assert!(body.contains("<h2>Price Information for 777</h2>"));
    assert!(body.contains("Current Price: <span class=\"price\">₹1299.00</span>"));
    assert!(body.contains("Highest Recorded: ₹2499.00"));
    assert!(body.contains("Lowest Recorded: ₹999.00"));
    assert!(!body.contains("{{"));
    let newest = body.find("2023-11-14 22:13").unwrap();
    let oldest = body.find("1970-01-01 00:00").unwrap();
    assert!(newest < oldest);
}
