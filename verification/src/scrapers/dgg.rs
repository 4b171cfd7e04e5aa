//! Chats of the Destiny.gg kind.

pub mod events;
pub mod scraper;
pub mod user;
