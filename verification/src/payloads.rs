//! What callers hand in: the bodies of create and update requests.

use crate::structures::Message;
use vstd::prelude::*;

verus! {

/// A signup: the token of the new channel and its password in clear.
#[derive(Debug, PartialEq, Eq)]
pub struct PostChannel {
    pub name: String,
    pub password: String,
}

/// The definition of a command.
#[derive(Debug, PartialEq, Eq)]
pub struct PostCommand {
    pub response: Vec<Message>,
    pub services: Vec<String>,
    pub role: String,
}

/// The text of a quote.
#[derive(Debug, PartialEq, Eq)]
pub struct PostQuote {
    pub response: Vec<Message>,
}

/// New tokens for a service.
#[derive(Debug, PartialEq, Eq)]
pub struct PostServiceAuth {
    pub refresh: Option<String>,
    pub expiration: Option<String>,
    pub access: String,
}

/// The address of a social link.
#[derive(Debug, PartialEq, Eq)]
pub struct PostSocial {
    pub url: String,
}

/// A login attempt.
#[derive(Debug, PartialEq, Eq)]
pub struct PostLogin {
    pub username: String,
    pub password: String,
}

/// The new state of a command.
#[derive(Clone, Copy, Debug, PartialEq, Eq, Structural)]
pub struct UpdateState {
    pub state: bool,
}

} // verus!
