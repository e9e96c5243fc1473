//! Client library for a real-time event gateway: endpoint discovery over
//! HTTP, the Hello/Identify handshake, heartbeat keep-alives, sequence
//! tracking for session resumption, envelope decoding and dispatch, and
//! transparent reconnection, exposed as a restartable sequence of events.

pub mod builder;
pub mod client;
pub mod codec;
pub mod embed;
pub mod error;
pub mod events;
pub mod json;
pub mod text;
pub mod types;

pub use builder::EmbedBuilder;
pub use builder::MessageBuilder;
pub use client::GatewayConnection;
pub use client::ListAnchor;
pub use error::Error;
pub use events::Event;
pub use types::Message;
pub use types::Snowflake;
pub use types::User;
