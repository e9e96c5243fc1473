//! Events and related objects.

use crate::types::{Snowflake, User};
use vstd::prelude::*;

verus! {

/// Known events that may be received.
#[derive(Debug, PartialEq)]
pub enum Event {
    /// Connection established
    Ready(ReadyData),
    /// Message received
    MessageCreate(crate::types::Message),
}

/// Object contained in [`Event::Ready`].
#[derive(Debug, PartialEq)]
pub struct ReadyData {
    /// Authenticated user info
    pub user: Myself,
}

/// Data about the current user.
#[derive(Debug, PartialEq)]
pub struct Myself {
    /// User ID
    pub id: Snowflake,
    /// Username, not unique
    pub username: String,
    /// 4-digit tag
    pub discriminator: String,
    /// Avatar hash
    pub avatar: Option<String>,
    /// Whether this is a bot account
    pub bot: bool,
    /// Whether the account has MFA enabled
    pub mfa_enabled: bool,
    /// Whether the email address on this account has been verified
    pub verified: bool,
    /// Email address
    pub email: Option<String>,
}

impl From<Myself> for User {
    /// The general-user part of the authenticated user's data.
    fn from(m: Myself) -> (r: User) {
        User { id: m.id, username: m.username, discriminator: m.discriminator, avatar: m.avatar }
    }
}

impl vstd::std_specs::convert::FromSpecImpl<Myself> for User {
    open spec fn obeys_from_spec() -> bool {
        true
    }

    open spec fn from_spec(m: Myself) -> User {
        User { id: m.id, username: m.username, discriminator: m.discriminator, avatar: m.avatar }
    }
}

} // verus!
