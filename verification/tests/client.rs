use rustcord::client::{
    after_bot_gateway, after_fallback_gateway, api_url, authorization_header, channel_url,
    current_user_guilds_url, current_user_url, gateway_bot_url, gateway_url, message_payload,
    payload_with_literal, send_message_url, GatewayData, GatewayStep, API_BASE_URL, API_VERSION,
};
use rustcord::errors::DiscordError;
use rustcord::format::{bool_str, decimal_string};

#[test]
fn constants() {
    assert_eq!(API_VERSION, 10);
    assert_eq!(API_BASE_URL, "https://discord.com/api");
}

#[test]
fn endpoint_urls() {
    assert_eq!(api_url("/x"), "https://discord.com/api/v10/x");
    assert_eq!(send_message_url("123"), "https://discord.com/api/v10/channels/123/messages");
    assert_eq!(channel_url("9"), "https://discord.com/api/v10/channels/9");
    assert_eq!(current_user_url(), "https://discord.com/api/v10/users/@me");
    assert_eq!(current_user_guilds_url(), "https://discord.com/api/v10/users/@me/guilds");
    assert_eq!(gateway_bot_url(), "https://discord.com/api/v10/gateway/bot");
    assert_eq!(gateway_url(), "https://discord.com/api/v10/gateway");
}

#[test]
fn message_payload_escapes_content() {
    let body = message_payload("hi \"you\"\n\\ é");
    assert_eq!(String::from_utf8(body).unwrap(), "{\"content\":\"hi \\\"you\\\"\\n\\\\ é\"}");
    assert_eq!(message_payload(""), b"{\"content\":\"\"}".to_vec());
    assert_eq!(payload_with_literal("\"x\""), b"{\"content\":\"x\"}".to_vec());
}

#[test]
fn payload_matches_serde_json() {
    let content = "tab\tand\u{1}ctl";
    let mut body = serde_json::Map::new();
    body.insert("content".to_string(), serde_json::Value::String(content.to_string()));
    let expected = serde_json::to_vec(&serde_json::Value::Object(body)).unwrap();
    assert_eq!(message_payload(content), expected);
}

#[test]
fn authorization_values() {
    assert!(authorization_header("abc.DEF-123").is_ok());
    assert!(authorization_header("with\ttab").is_ok());
    assert_eq!(
        authorization_header("bad\ntoken").unwrap_err(),
        DiscordError::InvalidToken("failed to parse header value".to_string())
    );
    assert!(authorization_header("del\u{7f}").is_err());
    assert!(authorization_header("ünïcode").is_ok());
    assert_eq!(authorization_header("abc").unwrap().to_str().unwrap(), "Bot abc");
}

#[test]
fn gateway_from_bot_endpoint() {
    assert_eq!(
        after_bot_gateway(Ok(GatewayData { url: Some("wss://g".into()) })),
        GatewayStep::Found("wss://g".into())
    );
    assert_eq!(
        after_bot_gateway(Ok(GatewayData { url: None })),
        GatewayStep::Failed(DiscordError::ParseError(
            "Gateway URL not found in /gateway/bot response".into()
        ))
    );
    assert_eq!(after_bot_gateway(Err(DiscordError::ApiError("x".into()))), GatewayStep::TryFallback);
}

#[test]
fn gateway_fallback() {
    assert_eq!(after_fallback_gateway(Ok(GatewayData { url: Some("wss://f".into()) })), Ok("wss://f".into()));
    assert_eq!(
        after_fallback_gateway(Ok(GatewayData { url: None })),
        Err(DiscordError::ParseError("Gateway URL not found in response".into()))
    );
    assert_eq!(
        after_fallback_gateway(Err(DiscordError::ApiError("down".into()))),
        Err(DiscordError::ApiError("down".into()))
    );
}

#[test]
fn text_forms() {
    assert_eq!(decimal_string(0), "0");
    assert_eq!(decimal_string(10), "10");
    assert_eq!(decimal_string(u64::MAX), u64::MAX.to_string());
    assert_eq!(bool_str(true), "true");
    assert_eq!(bool_str(false), "false");
}

#[test]
fn decimal_text_parses_back() {
    for n in [0u64, 7, 10, 255, 1_000_000, u64::MAX] {
        assert_eq!(rustcord::numeric::parse_u64(&decimal_string(n)), Some(n));
    }
}

#[test]
fn authorization_header_bytes() {
    assert_eq!(authorization_header("tök en").unwrap().as_bytes(), "Bot tök en".as_bytes());
}

#[test]
fn control_characters_refused() {
    for bad in ["a\rb", "\0", "x\u{1b}", "\u{7f}"] {
        assert_eq!(
            authorization_header(bad).unwrap_err(),
            DiscordError::InvalidToken("failed to parse header value".to_string())
        );
    }
}
