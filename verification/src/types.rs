//! Plain data objects for the domain entities carried by gateway events.

use vstd::prelude::*;

verus! {

/// Type used for IDs.
pub type Snowflake = String;

/// Represents a message sent in a channel.
#[derive(Debug, PartialEq)]
pub struct Message {
    /// Message ID
    pub id: Snowflake,
    /// ID of the origin channel
    pub channel_id: Snowflake,
    /// Author of the message
    pub author: User,
    /// Text content of the message
    pub content: String,
    /// Creation time, as the server rendered it
    pub timestamp: String,
    /// Last edit time, if any
    pub edited_timestamp: Option<String>,
    /// Whether this is a TTS message
    pub tts: bool,
    /// Whether this message mentions everyone
    pub mention_everyone: bool,
    /// Users specifically mentioned in the message
    pub mentions: Vec<User>,
    /// Roles specifically mentioned in this message
    pub mention_roles: Vec<Snowflake>,
}

/// Data about a user.
#[derive(Debug, PartialEq)]
pub struct User {
    /// User ID
    pub id: Snowflake,
    /// Username, not unique
    pub username: String,
    /// 4-digit tag
    pub discriminator: String,
    /// Avatar hash
    pub avatar: Option<String>,
}

} // verus!
