//! Rows of the persistent store, as plain values.

use vstd::prelude::*;
use crate::permissions::{ChannelId, MessageId, UserId};

verus! {

/// Where an emote was used.
#[derive(Clone, Copy, Debug, PartialEq, Eq, Structural, Hash)]
pub enum EmoteUsageType {
    Message,
    Reaction,
}

/// How far a starboard candidate has come.
#[derive(Clone, Copy, Debug, PartialEq, Eq, Structural)]
pub enum StarboardStatus {
    InReview,
    Accepted,
    Denied,
}

/// A message on the starboard, or waiting for it.
#[derive(Debug)]
pub struct StarboardMessage {
    pub id: i32,
    pub user_id: UserId,
    pub username: String,
    pub avatar_url: Option<String>,
    pub content: String,
    pub channel_id: ChannelId,
    pub message_id: MessageId,
    pub attachment_urls: Vec<String>,
    pub star_count: i16,
    pub starboard_status: StarboardStatus,
    pub starboard_message_id: MessageId,
    pub starboard_message_channel: ChannelId,
    pub reply_message_id: Option<MessageId>,
    pub reply_username: Option<String>,
    pub reply_user_id: Option<UserId>,
    pub forwarded: bool,
}

/// The keys under which a logged message is stored.
#[derive(Clone, Copy, Debug, PartialEq, Eq, Structural)]
pub struct MessageData {
    pub id: i64,
    pub channel_id: i32,
    pub guild_id: Option<i32>,
    pub user_id: i32,
}

} // verus!
