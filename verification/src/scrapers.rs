//! The live sources: Twitch chat and chats of the Destiny.gg kind.

pub mod dgg;
pub mod twitch;
