//! What the API client computes around its HTTP calls: endpoint URLs, the
//! authorization header, request bodies, and the gateway URL fallback.

use vstd::prelude::*;

use reqwest::header::{HeaderValue, InvalidHeaderValue};

use crate::errors::DiscordError;
use crate::format::{decimal, decimal_string};

verus! {

/// API version used for Discord API endpoints.
pub const API_VERSION: u8 = 10;

/// Base URL of the Discord API.
pub const API_BASE_URL: &'static str = "https://discord.com/api";

/// The URL of an API endpoint: the base URL, `/v` and the API version, then
/// the endpoint's path.
pub open spec fn api_url_text(path: Seq<char>) -> Seq<char> {
    API_BASE_URL@ + "/v"@ + decimal(API_VERSION as nat) + path
}

/// The URL of the API endpoint at `path`.
pub fn api_url(path: &str) -> (u: String)
    ensures
        u@ == api_url_text(path@),
{
    let mut u = API_BASE_URL.to_owned();
    u.append("/v");
    let v = decimal_string(API_VERSION as u64);
    u.append(v.as_str());
    u.append(path);
    u
}

/// The URL that posts a message to a channel.
pub fn send_message_url(channel_id: &str) -> (u: String)
    ensures
        u@ == api_url_text("/channels/"@ + channel_id@ + "/messages"@),
{
    let mut p = "/channels/".to_owned();
    p.append(channel_id);
    p.append("/messages");
    api_url(p.as_str())
}

/// The URL of a channel.
pub fn channel_url(channel_id: &str) -> (u: String)
    ensures
        u@ == api_url_text("/channels/"@ + channel_id@),
{
    let mut p = "/channels/".to_owned();
    p.append(channel_id);
    api_url(p.as_str())
}

/// The URL of the current bot user.
pub fn current_user_url() -> (u: String)
    ensures
        u@ == api_url_text("/users/@me"@),
{
    api_url("/users/@me")
}

/// The URL of the guilds of the current bot user.
pub fn current_user_guilds_url() -> (u: String)
    ensures
        u@ == api_url_text("/users/@me/guilds"@),
{
    api_url("/users/@me/guilds")
}

/// The URL of the bot gateway endpoint, which also recommends shards.
pub fn gateway_bot_url() -> (u: String)
    ensures
        u@ == api_url_text("/gateway/bot"@),
{
    api_url("/gateway/bot")
}

/// The URL of the plain gateway endpoint.
pub fn gateway_url() -> (u: String)
    ensures
        u@ == api_url_text("/gateway"@),
{
    api_url("/gateway")
}

// ------------------------------------------------------------ authorization

/// `http::header::HeaderValue`, carried through verified code as an opaque value.
#[verifier::external_type_specification]
#[verifier::external_body]
pub struct ExHeaderValue(HeaderValue);

/// `http::header::InvalidHeaderValue`, carried through verified code as an opaque value.
#[verifier::external_type_specification]
#[verifier::external_body]
pub struct ExInvalidHeaderValue(InvalidHeaderValue);

/// Whether a character may stand in a header value: a tab, or any character
/// from space on other than DEL (every byte of a multi-byte character is
/// 128 or more, which headers accept).
pub open spec fn header_char(c: char) -> bool {
    (c as u32 >= 32 && c as u32 != 127) || c as u32 == 9
}

/// Whether every character of `s` may stand in a header value.
pub open spec fn header_text(s: Seq<char>) -> bool {
    forall|i: int| 0 <= i < s.len() ==> header_char(#[trigger] s[i])
}

/// The bytes a header value holds.
pub uninterp spec fn header_value_bytes(v: HeaderValue) -> Seq<u8>;

/// Calls `HeaderValue::from_str`; claims it succeeds exactly when every
/// character may stand in a header value, as the crate's byte check
/// (`b >= 32 && b != 127 || b == b'\t'` on each UTF-8 byte) decides, and
/// that the value then holds exactly the UTF-8 bytes of `s`, which the crate
/// copies unchanged.
#[verifier::external_body]
fn header_value(s: &str) -> (r: Result<HeaderValue, InvalidHeaderValue>)
    ensures
        r is Ok <==> header_text(s@),
        r matches Ok(v) ==> header_value_bytes(v) == vstd::utf8::encode_utf8(s@),
{
    HeaderValue::from_str(s)
}

/// Displays an `InvalidHeaderValue` with `to_string`; claims the text is the
/// crate's fixed message `failed to parse header value`.
#[verifier::external_body]
fn invalid_header_text(e: &InvalidHeaderValue) -> (s: String)
    ensures
        s@ == "failed to parse header value"@,
{
    e.to_string()
}

/// The authorization header text of a bot token.
pub open spec fn bot_authorization_text(token: Seq<char>) -> Seq<char> {
    "Bot "@ + token
}

/// The `Authorization` header value for a bot token: `Bot <token>`. It fails
/// with `InvalidToken` exactly when the token holds a character a header
/// value cannot (a control character other than tab, or DEL).
pub fn authorization_header(token: &str) -> (r: Result<HeaderValue, DiscordError>)
    ensures
        r is Ok <==> header_text(bot_authorization_text(token@)),
        r matches Ok(v) ==> header_value_bytes(v) == vstd::utf8::encode_utf8(
            bot_authorization_text(token@),
        ),
        r matches Err(e) ==> (e matches DiscordError::InvalidToken(m) && m@
            == "failed to parse header value"@),
{
    let mut text = "Bot ".to_owned();
    text.append(token);
    match header_value(text.as_str()) {
        Ok(v) => Ok(v),
        Err(e) => Err(DiscordError::InvalidToken(invalid_header_text(&e))),
    }
}

// ----------------------------------------------------------- message bodies

/// A lower-case hexadecimal digit.
pub open spec fn hex_digit(d: nat) -> char {
    if d < 10 {
        (d + 48) as char
    } else {
        (d + 87) as char
    }
}

/// How one character stands inside a JSON string literal: quote and
/// backslash escaped with a backslash, backspace, tab, line feed, form feed
/// and carriage return as `\b \t \n \f \r`, other characters below 0x20 as
/// `\u00XX` in lower-case hex, and every other character as itself.
pub open spec fn json_char_escape(c: char) -> Seq<char> {
    if c == '"' {
        seq!['\\', '"']
    } else if c == '\\' {
        seq!['\\', '\\']
    } else if c as u32 == 8 {
        seq!['\\', 'b']
    } else if c as u32 == 9 {
        seq!['\\', 't']
    } else if c as u32 == 10 {
        seq!['\\', 'n']
    } else if c as u32 == 12 {
        seq!['\\', 'f']
    } else if c as u32 == 13 {
        seq!['\\', 'r']
    } else if (c as u32) < 32 {
        seq!['\\', 'u', '0', '0', hex_digit((c as u32 / 16) as nat), hex_digit((c as u32 % 16) as nat)]
    } else {
        seq![c]
    }
}

/// The characters of `s`, each escaped for a JSON string literal.
pub open spec fn json_escaped(s: Seq<char>) -> Seq<char>
    decreases s.len(),
{
    if s.len() == 0 {
        Seq::empty()
    } else {
        json_escaped(s.drop_last()) + json_char_escape(s.last())
    }
}

/// `s` as a JSON string literal: quoted, with its characters escaped.
pub open spec fn json_string_literal(s: Seq<char>) -> Seq<char> {
    seq!['"'] + json_escaped(s) + seq!['"']
}

/// Calls `serde_json::to_string` on a string slice; claims the result is the
/// JSON string literal of its characters, escaped as serde_json's escape
/// table does. Serialising a string cannot fail.
#[verifier::external_body]
fn json_string(s: &str) -> (r: String)
    ensures
        r@ == json_string_literal(s@),
{
    match serde_json::to_string(s) {
        Ok(text) => text,
        Err(_) => String::new(),
    }
}

/// The text of a message-creation body around the JSON literal of its content.
pub open spec fn message_payload_text(literal: Seq<char>) -> Seq<char> {
    "{\"content\":"@ + literal + "}"@
}

/// The body that creates a message, given the content as a JSON string
/// literal: `{"content":<literal>}`, UTF-8 encoded.
pub fn payload_with_literal(literal: &str) -> (b: Vec<u8>)
    ensures
        b@ == vstd::utf8::encode_utf8(message_payload_text(literal@)),
{
    let mut text = "{\"content\":".to_owned();
    text.append(literal);
    text.append("}");
    text.as_str().as_bytes_vec()
}

/// The JSON body that creates a message with the given content.
pub fn message_payload(content: &str) -> (b: Vec<u8>)
    ensures
        b@ == vstd::utf8::encode_utf8(message_payload_text(json_string_literal(content@))),
{
    let literal = json_string(content);
    payload_with_literal(literal.as_str())
}

// ------------------------------------------------------------------ gateway

/// What the gateway endpoints answer.
#[derive(Clone, Debug, PartialEq, Eq)]
pub struct GatewayData {
    /// The websocket URL, when the answer holds one.
    pub url: Option<String>,
}

/// The next step of finding the gateway URL.
#[derive(Clone, Debug, PartialEq, Eq)]
pub enum GatewayStep {
    /// The URL is known.
    Found(String),
    /// Finding the URL failed.
    Failed(DiscordError),
    /// Ask the plain gateway endpoint.
    TryFallback,
}

/// After asking the bot gateway endpoint: a successful answer decides (its
/// URL, or a parse error when it holds none); a failed request falls back
/// to the plain endpoint.
pub fn after_bot_gateway(answer: Result<GatewayData, DiscordError>) -> (s: GatewayStep)
    ensures
        match answer {
            Ok(d) => match d.url {
                Some(u) => s == GatewayStep::Found(u),
                None => s matches GatewayStep::Failed(DiscordError::ParseError(m)) && m@
                    == "Gateway URL not found in /gateway/bot response"@,
            },
            Err(_) => s == GatewayStep::TryFallback,
        },
{
    match answer {
        Ok(d) => match d.url {
            Some(u) => GatewayStep::Found(u),
            None => GatewayStep::Failed(
                DiscordError::ParseError("Gateway URL not found in /gateway/bot response".to_owned()),
            ),
        },
        Err(_) => GatewayStep::TryFallback,
    }
}

/// After asking the plain gateway endpoint: its URL, a parse error when the
/// answer holds none, or the request's own error.
pub fn after_fallback_gateway(answer: Result<GatewayData, DiscordError>) -> (r: Result<
    String,
    DiscordError,
>)
    ensures
        match answer {
            Ok(d) => match d.url {
                Some(u) => r == Ok::<String, DiscordError>(u),
                None => r matches Err(DiscordError::ParseError(m)) && m@
                    == "Gateway URL not found in response"@,
            },
            Err(e) => r == Err::<String, DiscordError>(e),
        },
{
    match answer {
        Ok(d) => match d.url {
            Some(u) => Ok(u),
            None => Err(DiscordError::ParseError("Gateway URL not found in response".to_owned())),
        },
        Err(e) => Err(e),
    }
}

} // verus!
