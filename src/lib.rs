//! Price tracking and notification pipeline: reading prices off product
//! pages, the price store's aggregate rules, the scrape cycle, the
//! subscription store and the notification evaluator; plus the chat bot's
//! command descriptions and moderation counters.

pub mod price;
pub mod fetch;
pub mod store;
pub mod subscription;
pub mod scrape;
pub mod evaluate;
pub mod text;
pub mod notify;
pub mod config;
pub mod laws;
pub mod commands;
pub mod violations;
pub mod spam;
