use rustcord::method::HttpMethod;
use rustcord::numeric::parse_u64;
use rustcord::route::{normalize_route, path_without_query, route_key};

#[test]
fn keeps_channel_subresource() {
    assert_eq!(normalize_route(HttpMethod::Get, "/channels/123/messages"), "GET /channels/123/messages");
}

#[test]
fn keeps_literal_after_channel_id() {
    assert_eq!(normalize_route(HttpMethod::Get, "/channels/123/foo"), "GET /channels/123/foo");
}

#[test]
fn replaces_message_id() {
    assert_eq!(
        normalize_route(HttpMethod::Get, "/channels/1/messages/2/reactions"),
        "GET /channels/1/messages/:message_id/reactions"
    );
    assert_eq!(
        normalize_route(HttpMethod::Post, "/channels/1/messages/2/crosspost"),
        "POST /channels/1/messages/:message_id/crosspost"
    );
    assert_eq!(
        normalize_route(HttpMethod::Post, "/channels/1/messages/bulk-delete"),
        "POST /channels/1/messages/bulk-delete"
    );
    assert_eq!(normalize_route(HttpMethod::Get, "/channels/1/messages/"), "GET /channels/1/messages/");
}

#[test]
fn guild_and_webhook_pieces() {
    assert_eq!(normalize_route(HttpMethod::Get, "/guilds/9/members/"), "GET /guilds/9/members/");
    assert_eq!(normalize_route(HttpMethod::Get, "/guilds/9/widget"), "GET /guilds/9/widget");
    assert_eq!(normalize_route(HttpMethod::Post, "/webhooks/1/tok/slack"), "POST /webhooks/1/tok/slack");
    assert_eq!(normalize_route(HttpMethod::Post, "/webhooks/1/github"), "POST /webhooks/1/github");
}

#[test]
fn empty_and_root_paths() {
    assert_eq!(normalize_route(HttpMethod::Get, ""), "GET /");
    assert_eq!(normalize_route(HttpMethod::Get, "/"), "GET //");
    assert_eq!(normalize_route(HttpMethod::Patch, "a//b"), "PATCH /a/b");
}

#[test]
fn message_ids_share_route() {
    assert_eq!(
        normalize_route(HttpMethod::Get, "/channels/7/messages/111/reactions"),
        normalize_route(HttpMethod::Get, "/channels/7/messages/222/reactions")
    );
    assert_ne!(
        normalize_route(HttpMethod::Get, "/channels/7/messages"),
        normalize_route(HttpMethod::Get, "/channels/8/messages")
    );
}

#[test]
fn trailing_slash_adds_one_slash() {
    let plain = normalize_route(HttpMethod::Get, "/users/@me");
    let slashed = normalize_route(HttpMethod::Get, "/users/@me/");
    assert_eq!(format!("{}/", plain), slashed);
}

#[test]
fn query_is_dropped() {
    assert_eq!(path_without_query("/a/b?x=1?y"), "/a/b");
    assert_eq!(path_without_query("/a/b"), "/a/b");
    assert_eq!(path_without_query("?q"), "");
    assert_eq!(
        route_key(HttpMethod::Get, "/channels/5/messages/9?limit=10"),
        "GET /channels/5/messages/:message_id"
    );
    assert_eq!(
        route_key(HttpMethod::Get, "https://discord.com/api/v10/channels/5?x=1"),
        "GET /https:/discord.com/api/v10/channels/5"
    );
}

#[test]
fn method_names() {
    assert_eq!(HttpMethod::Get.as_str(), "GET");
    assert_eq!(HttpMethod::Options.as_str(), "OPTIONS");
    assert!(HttpMethod::Get.is_get());
    assert!(!HttpMethod::Post.is_get());
}

#[test]
fn parses_header_numbers() {
    assert_eq!(parse_u64("42"), Some(42));
    assert_eq!(parse_u64("+7"), Some(7));
    assert_eq!(parse_u64("007"), Some(7));
    assert_eq!(parse_u64("18446744073709551615"), Some(u64::MAX));
    assert_eq!(parse_u64("18446744073709551616"), None);
    assert_eq!(parse_u64("99999999999999999999x"), None);
    assert_eq!(parse_u64(""), None);
    assert_eq!(parse_u64("+"), None);
    assert_eq!(parse_u64("-1"), None);
    assert_eq!(parse_u64("1a"), None);
    assert_eq!(parse_u64(" 1"), None);
}

#[test]
fn parse_agrees_with_std() {
    for s in ["0", "12", "+3", "-0", "", "+", "4294967296", "18446744073709551616", "9x", "٣"] {
        assert_eq!(parse_u64(s), s.parse::<u64>().ok(), "{s}");
    }
}

fn after_method(r: &str) -> String {
    r.splitn(2, ' ').nth(1).unwrap().to_string()
}

fn segs(s: &str) -> Vec<&str> {
    s.split('/').filter(|p| !p.is_empty()).collect()
}

#[test]
fn normalized_routes_are_stable() {
    for path in [
        "/channels/1/messages/2/reactions",
        "/guilds/9/widget/",
        "messages/3/foo",
        "/",
        "/webhooks/1/tok/slack",
        "/channels/1/messages/messages/x",
    ] {
        let r = normalize_route(HttpMethod::Get, path);
        assert_eq!(normalize_route(HttpMethod::Get, &after_method(&r)), r, "{path}");
    }
}

#[test]
fn route_shape_and_pieces() {
    for path in ["/channels/1/messages/2/reactions", "/guilds/9/widget/", "a//b", "x"] {
        let r = normalize_route(HttpMethod::Put, path);
        assert!(r.starts_with("PUT /"));
        assert_eq!(r.ends_with('/'), path.ends_with('/'));
        let q = after_method(&r);
        let (a, b) = (segs(&q), segs(path));
        assert_eq!(a.len(), b.len());
        for (x, y) in a.iter().zip(b.iter()) {
            assert!(x == y || *x == ":message_id");
        }
    }
}

#[test]
fn major_ids_keep_their_place() {
    let r = normalize_route(HttpMethod::Get, "/guilds/12345/roles");
    assert_eq!(segs(&after_method(&r))[1], "12345");
    let r = normalize_route(HttpMethod::Get, "/channels/777/pins/3");
    assert_eq!(segs(&after_method(&r))[1], "777");
}
