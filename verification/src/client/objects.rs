//! Plain data objects for further domain entities returned by the API.

use vstd::prelude::*;

verus! {

/// Type used for IDs.
pub type Snowflake = String;

/// Represents a message sent in a channel, as the message-listing API
/// returns it.
#[derive(Debug, PartialEq)]
pub struct Message {
    /// Message ID
    pub id: Snowflake,
    /// ID of the origin channel
    pub channel_id: Snowflake,
    /// Text content of the message
    pub content: String,
    /// Creation time, as the server rendered it
    pub timestamp: String,
    /// Last edit time, if any
    pub edited_timestamp: Option<String>,
    /// Whether this is a TTS message
    pub tts: bool,
    /// Whether this message mentions everyone
    pub mention_everyone: bool,
    /// Roles specifically mentioned in this message
    pub mention_roles: Vec<Snowflake>,
    /// Sender-chosen nonce, if any
    pub nonce: Option<Snowflake>,
    /// Whether this message is pinned
    pub pinned: bool,
    /// The webhook that sent this message, if any
    pub webhook_id: Option<String>,
    /// The message's type tag
    pub message_type: u8,
}

/// Represents a channel.
#[derive(Debug, PartialEq)]
pub struct Channel {
    /// Channel ID
    pub id: Snowflake,
    /// The channel's type tag
    pub channel_type: u8,
    /// Owning guild, if any
    pub guild_id: Option<Snowflake>,
    /// Sorting position
    pub position: u16,
    /// Channel name
    pub name: String,
    /// Channel topic, if any
    pub topic: Option<String>,
    /// Whether the channel is marked as not safe for work
    pub nsfw: bool,
    /// ID of the last message sent, if any
    pub last_message_id: Option<Snowflake>,
    /// Bitrate, for voice channels
    pub bitrate: Option<u32>,
    /// User limit, for voice channels
    pub user_limit: Option<u32>,
    /// Icon hash, if any
    pub icon: Option<String>,
    /// Owner, for group channels
    pub owner_id: Option<Snowflake>,
    /// Application that created the channel, if any
    pub application_id: Option<Snowflake>,
    /// Parent category, if any
    pub parent_id: Option<Snowflake>,
    /// Time of the last pin, if any
    pub last_pin_timestamp: Option<String>,
}

/// Represents an activity shown in a presence.
#[derive(Debug, PartialEq)]
pub struct Activity {
    /// Activity name
    pub name: String,
    /// The activity's type tag
    pub activity_type: u8,
    /// Stream URL, if any
    pub url: Option<String>,
}

/// Represents a guild.
#[derive(Debug, PartialEq)]
pub struct Guild {
    /// Guild ID
    pub id: Snowflake,
    /// Guild name
    pub name: String,
    /// Icon hash, if any
    pub icon: Option<String>,
    /// Splash hash, if any
    pub splash: Option<String>,
    /// Whether the current user owns the guild
    pub owner: bool,
    /// ID of the owning user
    pub owner_id: Snowflake,
    /// Permissions of the current user, if sent
    pub permissions: Option<u64>,
    /// Voice region
    pub region: String,
    /// AFK channel, if any
    pub afk_channel_id: Option<Snowflake>,
    /// AFK timeout in seconds
    pub afk_timeout: u64,
    /// Whether the guild embed is enabled, if sent
    pub embed_enabled: Option<bool>,
    /// Channel of the guild embed, if any
    pub embed_channel_id: Option<Snowflake>,
    /// Verification level tag
    pub verification_level: u8,
    /// Default notification level tag
    pub default_message_notifications: u8,
    /// Explicit content filter level tag
    pub explicit_content_filter: u8,
    /// Enabled guild features
    pub features: Vec<String>,
    /// Multi-factor authentication level tag
    pub mfa_level: u8,
    /// Application that created the guild, if any
    pub application_id: Option<Snowflake>,
    /// Whether the widget is enabled, if sent
    pub widget_enabled: Option<bool>,
    /// Widget channel, if any
    pub widget_channel_id: Option<Snowflake>,
    /// Channel for system messages, if any
    pub system_channel_id: Option<Snowflake>,
    /// When the current user joined
    pub joined_at: String,
    /// Whether the guild counts as large
    pub large: bool,
    /// Whether the guild is unavailable
    pub unavailable: bool,
    /// Total member count
    pub member_count: u64,
    /// The guild's channels
    pub channels: Vec<Channel>,
}

} // verus!
