//! The client's error type.

use vstd::prelude::*;

verus! {

/// What can go wrong in the client; each variant carries a message.
#[derive(Clone, Debug, PartialEq, Eq)]
pub enum DiscordError {
    /// The API answered with an error, or could not be reached.
    ApiError(String),
    /// A response could not be read or understood.
    ParseError(String),
    /// The bot token cannot be sent in a header.
    InvalidToken(String),
    /// The HTTP client could not be built.
    HttpClientError(String),
    /// The async runtime could not be started.
    RuntimeError(String),
}

} // verus!
