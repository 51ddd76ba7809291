use rustcord::json::{Json, JsonNumber};
use rustcord::models::{Channel, Guild, Message, User, VoiceServerInfo, VoiceState};

fn s(x: &str) -> Json {
    Json::String(x.to_string())
}

fn obj(members: Vec<(&str, Json)>) -> Json {
    Json::Object(members.into_iter().map(|(k, v)| (k.to_string(), v)).collect())
}

fn voice_state() -> VoiceState {
    VoiceState::new(
        "u1".to_string(),
        "s1".to_string(),
        Some("g1".to_string()),
        None,
        true,
        false,
        false,
        true,
        false,
        false,
        true,
    )
}

#[test]
fn voice_state_new_and_text() {
    let v = voice_state();
    assert_eq!(v.user_id, "u1");
    assert_eq!(v.guild_id, Some("g1".to_string()));
    assert!(v.deaf && !v.mute && v.self_mute && v.suppress);
    assert_eq!(v.__str__(), "<VoiceState user_id=u1 channel_id=None>");
    assert_eq!(v.__repr__(), "VoiceState(user_id='u1', session_id='s1', channel_id=None, guild_id='g1')");
    let mut w = v.clone();
    w.channel_id = Some("c9".to_string());
    assert_eq!(w.__str__(), "<VoiceState user_id=u1 channel_id=c9>");
}

#[test]
fn voice_state_from_object_with_defaults() {
    let v = VoiceState::from_json(obj(vec![
        ("user_id", s("42")),
        ("session_id", Json::Number(JsonNumber::PosInt(5))),
        ("guild_id", Json::Null),
        ("channel_id", s("c")),
        ("deaf", Json::Bool(true)),
        ("mute", s("yes")),
        ("unknown", Json::Bool(true)),
    ]));
    assert_eq!(v.user_id, "42");
    assert_eq!(v.session_id, "");
    assert_eq!(v.guild_id, None);
    assert_eq!(v.channel_id, Some("c".to_string()));
    assert!(v.deaf);
    assert!(!v.mute);
    assert!(!v.self_video);
}

#[test]
fn voice_state_from_array_by_position() {
    let v = VoiceState::from_json(Json::Array(vec![s("g"), Json::Null, s("u"), s("sess"), Json::Bool(true)]));
    assert_eq!(v.guild_id, Some("g".to_string()));
    assert_eq!(v.channel_id, None);
    assert_eq!(v.user_id, "u");
    assert_eq!(v.session_id, "sess");
    assert!(v.deaf);
    assert!(!v.suppress);
}

#[test]
fn voice_server_info() {
    let v = VoiceServerInfo::new("t".to_string(), "g".to_string(), "e".to_string());
    assert_eq!(v.__str__(), "<VoiceServerInfo guild_id=g endpoint=e>");
    assert_eq!(v.__repr__(), "VoiceServerInfo(token='t', guild_id='g', endpoint='e')");
    let d = VoiceServerInfo::from_json(obj(vec![("token", s("tok")), ("endpoint", s("ep"))]));
    assert_eq!(d, VoiceServerInfo::new("tok".to_string(), "".to_string(), "ep".to_string()));
}

#[test]
fn message_text_and_json() {
    let m = Message::new("1".into(), "2".into(), "hi".into(), "3".into(), "bob".into());
    assert_eq!(m.__str__(), "<Message id=1 content=hi>");
    assert_eq!(
        m.__repr__(),
        "Message(id='1', channel_id='2', content='hi', author_id='3', author_username='bob')"
    );
    let d = Message::from_json(obj(vec![
        ("id", s("10")),
        ("channel_id", s("20")),
        ("content", s("hello")),
        ("author", obj(vec![("id", s("30")), ("username", s("ann"))])),
    ]));
    assert_eq!(d, Message::new("10".into(), "20".into(), "hello".into(), "30".into(), "ann".into()));
}

#[test]
fn message_from_odd_json() {
    let d = Message::from_json(obj(vec![("id", Json::Number(JsonNumber::PosInt(1))), ("author", s("x"))]));
    assert_eq!(d, Message::new("".into(), "".into(), "".into(), "".into(), "".into()));
    let a = Message::from_json(Json::Array(vec![s("1"), s("2")]));
    assert_eq!(a.id, "");
    let n = Message::from_json(Json::Null);
    assert_eq!(n.content, "");
}

#[test]
fn first_member_wins() {
    let d = Message::from_json(obj(vec![("id", s("a")), ("id", s("b"))]));
    assert_eq!(d.id, "a");
}

#[test]
fn user_text_and_json() {
    let u = User::new("1".into(), "amy".into(), "0001".into(), true);
    assert_eq!(u.__str__(), "<User id=1 username=amy>");
    assert_eq!(u.__repr__(), "User(id='1', username='amy', discriminator='0001', bot=true)");
    let d = User::from_json(obj(vec![("id", s("9")), ("username", s("zed")), ("bot", Json::Bool(false))]));
    assert_eq!(d, User::new("9".into(), "zed".into(), "".into(), false));
    assert_eq!(User::try_from_json(Json::Bool(true)), None);
    assert_eq!(User::try_from_json(Json::Array(vec![Json::Null, Json::Null, Json::Null, Json::Null, Json::Null])), None);
    assert_eq!(
        User::try_from_json(Json::Array(vec![s("1"), s("n"), s("d"), Json::Bool(true)])),
        Some(User::new("1".into(), "n".into(), "d".into(), true))
    );
}

#[test]
fn channel_text_and_json() {
    let c = Channel::new("5".into(), "general".into(), 0, None);
    assert_eq!(c.__str__(), "<Channel id=5 name=general>");
    assert_eq!(c.__repr__(), "Channel(id='5', name='general', channel_type=0, guild_id=None)");
    let c2 = Channel::new("5".into(), "voice".into(), 255, Some("7".into()));
    assert_eq!(c2.__repr__(), "Channel(id='5', name='voice', channel_type=255, guild_id='7')");
    let d = Channel::from_json(obj(vec![
        ("id", s("1")),
        ("name", s("n")),
        ("channel_type", Json::Number(JsonNumber::PosInt(13))),
        ("guild_id", s("g")),
    ]));
    assert_eq!(d, Channel::new("1".into(), "n".into(), 13, Some("g".into())));
    let big = Channel::from_json(obj(vec![("channel_type", Json::Number(JsonNumber::PosInt(256)))]));
    assert_eq!(big.channel_type, 0);
    let neg = Channel::from_json(obj(vec![("channel_type", Json::Number(JsonNumber::NegInt(-1)))]));
    assert_eq!(neg.channel_type, 0);
    let frac = Channel::from_json(obj(vec![("channel_type", Json::Number(JsonNumber::Float))]));
    assert_eq!(frac.channel_type, 0);
    assert_eq!(Channel::try_from_json(s("x")), None);
}

#[test]
fn guild_text_and_json() {
    let g = Guild::new("1".into(), "Home".into(), "2".into());
    assert_eq!(g.__str__(), "<Guild id=1 name=Home>");
    assert_eq!(g.__repr__(), "Guild(id='1', name='Home', owner_id='2')");
    let d = Guild::from_json(obj(vec![("id", s("3")), ("name", s("Club")), ("owner_id", s("4"))]));
    assert_eq!(d, Guild::new("3".into(), "Club".into(), "4".into()));
    assert_eq!(Guild::try_from_json(Json::Null), None);
    assert_eq!(Guild::try_from_json(obj(vec![])), Some(Guild::new("".into(), "".into(), "".into())));
}

#[test]
fn guild_lists() {
    let list = Guild::list_from_json(Json::Array(vec![
        obj(vec![("id", s("1")), ("name", s("a"))]),
        Json::Array(vec![s("2"), s("b"), s("3")]),
    ]));
    assert_eq!(
        list,
        Some(vec![Guild::new("1".into(), "a".into(), "".into()), Guild::new("2".into(), "b".into(), "3".into())])
    );
    assert_eq!(Guild::list_from_json(Json::Array(vec![])), Some(vec![]));
    assert_eq!(Guild::list_from_json(Json::Array(vec![obj(vec![]), Json::Null])), None);
    assert_eq!(Guild::list_from_json(obj(vec![])), None);
}
