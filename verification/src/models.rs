//! The Discord objects the client hands out: construction, decoding from
//! JSON, and their `str`/`repr` text forms.

use vstd::prelude::*;

use crate::format::{
    bool_str, bool_text, decimal, decimal_string, push_quoted_or_none, push_text_or_none,
    quoted_or_none, text_or_none_word,
};
use crate::json::{
    byte_or_zero, decode_byte, decode_flag, decode_opt_text, decode_text, decodes_as_struct,
    field_slot, field_slot_of, flag_or_false, get, get_member, is_struct_like, opt_text,
    text_or_empty, text_or_none, Json,
};

verus! {

// ---------------------------------------------------------------- VoiceState

/// Voice state of a user in a guild.
#[derive(Clone, Debug, PartialEq, Eq)]
pub struct VoiceState {
    pub guild_id: Option<String>,
    pub channel_id: Option<String>,
    pub user_id: String,
    pub session_id: String,
    pub deaf: bool,
    pub mute: bool,
    pub self_deaf: bool,
    pub self_mute: bool,
    pub self_stream: bool,
    pub self_video: bool,
    pub suppress: bool,
}

impl VoiceState {
    /// A voice state with the given fields.
    pub fn new(
        user_id: String,
        session_id: String,
        guild_id: Option<String>,
        channel_id: Option<String>,
        deaf: bool,
        mute: bool,
        self_deaf: bool,
        self_mute: bool,
        self_stream: bool,
        self_video: bool,
        suppress: bool,
    ) -> (v: Self)
        ensures
            v == (VoiceState {
                guild_id,
                channel_id,
                user_id,
                session_id,
                deaf,
                mute,
                self_deaf,
                self_mute,
                self_stream,
                self_video,
                suppress,
            }),
    {
        VoiceState {
            guild_id,
            channel_id,
            user_id,
            session_id,
            deaf,
            mute,
            self_deaf,
            self_mute,
            self_stream,
            self_video,
            suppress,
        }
    }

    /// `<VoiceState user_id=.. channel_id=..>`, the channel shown as `None`
    /// when there is none.
    pub fn __str__(&self) -> (s: String)
        ensures
            s@ == "<VoiceState user_id="@ + self.user_id@ + " channel_id="@ + text_or_none_word(
                opt_text(self.channel_id),
            ) + ">"@,
    {
        let mut s = "<VoiceState user_id=".to_owned();
        s.append(self.user_id.as_str());
        s.append(" channel_id=");
        push_text_or_none(&mut s, &self.channel_id);
        s.append(">");
        s
    }

    /// `VoiceState(user_id='..', session_id='..', channel_id=.., guild_id=..)`,
    /// optional ids quoted, or `None`.
    pub fn __repr__(&self) -> (s: String)
        ensures
            s@ == "VoiceState(user_id='"@ + self.user_id@ + "', session_id='"@ + self.session_id@
                + "', channel_id="@ + quoted_or_none(opt_text(self.channel_id)) + ", guild_id="@
                + quoted_or_none(opt_text(self.guild_id)) + ")"@,
    {
        let mut s = "VoiceState(user_id='".to_owned();
        s.append(self.user_id.as_str());
        s.append("', session_id='");
        s.append(self.session_id.as_str());
        s.append("', channel_id=");
        push_quoted_or_none(&mut s, &self.channel_id);
        s.append(", guild_id=");
        push_quoted_or_none(&mut s, &self.guild_id);
        s.append(")");
        s
    }

    /// Decodes a voice state from an object (members by field name) or an
    /// array (fields by position); a field that is missing or of the wrong
    /// type takes its default.
    pub fn from_json(data: Json) -> (v: Self)
        requires
            decodes_as_struct(data, 11),
        ensures
            opt_text(v.guild_id) == text_or_none(field_slot(data, "guild_id"@, 0)),
            opt_text(v.channel_id) == text_or_none(field_slot(data, "channel_id"@, 1)),
            v.user_id@ == text_or_empty(field_slot(data, "user_id"@, 2)),
            v.session_id@ == text_or_empty(field_slot(data, "session_id"@, 3)),
            v.deaf == flag_or_false(field_slot(data, "deaf"@, 4)),
            v.mute == flag_or_false(field_slot(data, "mute"@, 5)),
            v.self_deaf == flag_or_false(field_slot(data, "self_deaf"@, 6)),
            v.self_mute == flag_or_false(field_slot(data, "self_mute"@, 7)),
            v.self_stream == flag_or_false(field_slot(data, "self_stream"@, 8)),
            v.self_video == flag_or_false(field_slot(data, "self_video"@, 9)),
            v.suppress == flag_or_false(field_slot(data, "suppress"@, 10)),
    {
        VoiceState {
            guild_id: decode_opt_text(field_slot_of(&data, "guild_id", 0)),
            channel_id: decode_opt_text(field_slot_of(&data, "channel_id", 1)),
            user_id: decode_text(field_slot_of(&data, "user_id", 2)),
            session_id: decode_text(field_slot_of(&data, "session_id", 3)),
            deaf: decode_flag(field_slot_of(&data, "deaf", 4)),
            mute: decode_flag(field_slot_of(&data, "mute", 5)),
            self_deaf: decode_flag(field_slot_of(&data, "self_deaf", 6)),
            self_mute: decode_flag(field_slot_of(&data, "self_mute", 7)),
            self_stream: decode_flag(field_slot_of(&data, "self_stream", 8)),
            self_video: decode_flag(field_slot_of(&data, "self_video", 9)),
            suppress: decode_flag(field_slot_of(&data, "suppress", 10)),
        }
    }
}

// ----------------------------------------------------------- VoiceServerInfo

/// The voice server a guild's voice connection uses.
#[derive(Clone, Debug, PartialEq, Eq)]
pub struct VoiceServerInfo {
    pub token: String,
    pub guild_id: String,
    pub endpoint: String,
}

impl VoiceServerInfo {
    /// Voice server information with the given fields.
    pub fn new(token: String, guild_id: String, endpoint: String) -> (v: Self)
        ensures
            v == (VoiceServerInfo { token, guild_id, endpoint }),
    {
        VoiceServerInfo { token, guild_id, endpoint }
    }

    /// `<VoiceServerInfo guild_id=.. endpoint=..>`.
    pub fn __str__(&self) -> (s: String)
        ensures
            s@ == "<VoiceServerInfo guild_id="@ + self.guild_id@ + " endpoint="@ + self.endpoint@
                + ">"@,
    {
        let mut s = "<VoiceServerInfo guild_id=".to_owned();
        s.append(self.guild_id.as_str());
        s.append(" endpoint=");
        s.append(self.endpoint.as_str());
        s.append(">");
        s
    }

    /// `VoiceServerInfo(token='..', guild_id='..', endpoint='..')`.
    pub fn __repr__(&self) -> (s: String)
        ensures
            s@ == "VoiceServerInfo(token='"@ + self.token@ + "', guild_id='"@ + self.guild_id@
                + "', endpoint='"@ + self.endpoint@ + "')"@,
    {
        let mut s = "VoiceServerInfo(token='".to_owned();
        s.append(self.token.as_str());
        s.append("', guild_id='");
        s.append(self.guild_id.as_str());
        s.append("', endpoint='");
        s.append(self.endpoint.as_str());
        s.append("')");
        s
    }

    /// Decodes voice server information leniently, as [`VoiceState::from_json`] does.
    pub fn from_json(data: Json) -> (v: Self)
        requires
            decodes_as_struct(data, 3),
        ensures
            v.token@ == text_or_empty(field_slot(data, "token"@, 0)),
            v.guild_id@ == text_or_empty(field_slot(data, "guild_id"@, 1)),
            v.endpoint@ == text_or_empty(field_slot(data, "endpoint"@, 2)),
    {
        VoiceServerInfo {
            token: decode_text(field_slot_of(&data, "token", 0)),
            guild_id: decode_text(field_slot_of(&data, "guild_id", 1)),
            endpoint: decode_text(field_slot_of(&data, "endpoint", 2)),
        }
    }
}

// ------------------------------------------------------------------- Message

/// A message in a channel, with its author flattened into two fields.
#[derive(Clone, Debug, PartialEq, Eq)]
pub struct Message {
    pub id: String,
    pub channel_id: String,
    pub content: String,
    pub author_id: String,
    pub author_username: String,
}

/// `value[key]` as text, or empty when it is missing or not a string.
pub open spec fn text_member(value: Json, key: Seq<char>) -> Seq<char> {
    text_or_empty(get(value, key))
}

/// `value[outer][inner]` as text, or empty when it is missing or not a string.
pub open spec fn nested_text_member(value: Json, outer: Seq<char>, inner: Seq<char>) -> Seq<char> {
    match get(value, outer) {
        Some(o) => text_or_empty(get(o, inner)),
        None => Seq::empty(),
    }
}

fn text_at(value: &Json, key: &str) -> (s: String)
    ensures
        s@ == text_member(*value, key@),
{
    decode_text(get_member(value, key))
}

fn nested_text_at(value: &Json, outer: &str, inner: &str) -> (s: String)
    ensures
        s@ == nested_text_member(*value, outer@, inner@),
{
    match get_member(value, outer) {
        Some(o) => decode_text(get_member(o, inner)),
        None => String::new(),
    }
}

impl Message {
    /// A message with the given fields.
    pub fn new(
        id: String,
        channel_id: String,
        content: String,
        author_id: String,
        author_username: String,
    ) -> (m: Self)
        ensures
            m == (Message { id, channel_id, content, author_id, author_username }),
    {
        Message { id, channel_id, content, author_id, author_username }
    }

    /// `<Message id=.. content=..>`.
    pub fn __str__(&self) -> (s: String)
        ensures
            s@ == "<Message id="@ + self.id@ + " content="@ + self.content@ + ">"@,
    {
        let mut s = "<Message id=".to_owned();
        s.append(self.id.as_str());
        s.append(" content=");
        s.append(self.content.as_str());
        s.append(">");
        s
    }

    /// `Message(id='..', channel_id='..', content='..', author_id='..', author_username='..')`.
    pub fn __repr__(&self) -> (s: String)
        ensures
            s@ == "Message(id='"@ + self.id@ + "', channel_id='"@ + self.channel_id@
                + "', content='"@ + self.content@ + "', author_id='"@ + self.author_id@
                + "', author_username='"@ + self.author_username@ + "')"@,
    {
        let mut s = "Message(id='".to_owned();
        s.append(self.id.as_str());
        s.append("', channel_id='");
        s.append(self.channel_id.as_str());
        s.append("', content='");
        s.append(self.content.as_str());
        s.append("', author_id='");
        s.append(self.author_id.as_str());
        s.append("', author_username='");
        s.append(self.author_username.as_str());
        s.append("')");
        s
    }

    /// Reads a message from a message object: `id`, `channel_id`, `content`,
    /// and the author's `id` and `username` from the `author` object. Any
    /// of them that is missing or not a string reads as empty.
    pub fn from_json(data: Json) -> (m: Self)
        ensures
            m.id@ == text_member(data, "id"@),
            m.channel_id@ == text_member(data, "channel_id"@),
            m.content@ == text_member(data, "content"@),
            m.author_id@ == nested_text_member(data, "author"@, "id"@),
            m.author_username@ == nested_text_member(data, "author"@, "username"@),
    {
        Message {
            id: text_at(&data, "id"),
            channel_id: text_at(&data, "channel_id"),
            content: text_at(&data, "content"),
            author_id: nested_text_at(&data, "author", "id"),
            author_username: nested_text_at(&data, "author", "username"),
        }
    }
}

// ---------------------------------------------------------------------- User

/// A Discord user.
#[derive(Clone, Debug, PartialEq, Eq)]
pub struct User {
    pub id: String,
    pub username: String,
    pub discriminator: String,
    pub bot: bool,
}

impl User {
    /// A user with the given fields.
    pub fn new(id: String, username: String, discriminator: String, bot: bool) -> (u: Self)
        ensures
            u == (User { id, username, discriminator, bot }),
    {
        User { id, username, discriminator, bot }
    }

    /// `<User id=.. username=..>`.
    pub fn __str__(&self) -> (s: String)
        ensures
            s@ == "<User id="@ + self.id@ + " username="@ + self.username@ + ">"@,
    {
        let mut s = "<User id=".to_owned();
        s.append(self.id.as_str());
        s.append(" username=");
        s.append(self.username.as_str());
        s.append(">");
        s
    }

    /// `User(id='..', username='..', discriminator='..', bot=true|false)`.
    pub fn __repr__(&self) -> (s: String)
        ensures
            s@ == "User(id='"@ + self.id@ + "', username='"@ + self.username@
                + "', discriminator='"@ + self.discriminator@ + "', bot="@ + bool_text(self.bot)
                + ")"@,
    {
        let mut s = "User(id='".to_owned();
        s.append(self.id.as_str());
        s.append("', username='");
        s.append(self.username.as_str());
        s.append("', discriminator='");
        s.append(self.discriminator.as_str());
        s.append("', bot=");
        s.append(bool_str(self.bot));
        s.append(")");
        s
    }

    /// Decodes a user leniently, as [`VoiceState::from_json`] does.
    pub fn from_json(data: Json) -> (u: Self)
        requires
            decodes_as_struct(data, 4),
        ensures
            u.id@ == text_or_empty(field_slot(data, "id"@, 0)),
            u.username@ == text_or_empty(field_slot(data, "username"@, 1)),
            u.discriminator@ == text_or_empty(field_slot(data, "discriminator"@, 2)),
            u.bot == flag_or_false(field_slot(data, "bot"@, 3)),
    {
        User {
            id: decode_text(field_slot_of(&data, "id", 0)),
            username: decode_text(field_slot_of(&data, "username", 1)),
            discriminator: decode_text(field_slot_of(&data, "discriminator", 2)),
            bot: decode_flag(field_slot_of(&data, "bot", 3)),
        }
    }

    /// Decodes a user, or `None` when `data` is neither an object nor an
    /// array of at most four elements.
    pub fn try_from_json(data: Json) -> (u: Option<Self>)
        ensures
            match u {
                Some(u) => decodes_as_struct(data, 4) && u.id@ == text_or_empty(
                    field_slot(data, "id"@, 0),
                ) && u.username@ == text_or_empty(field_slot(data, "username"@, 1))
                    && u.discriminator@ == text_or_empty(field_slot(data, "discriminator"@, 2))
                    && u.bot == flag_or_false(field_slot(data, "bot"@, 3)),
                None => !decodes_as_struct(data, 4),
            },
    {
        if is_struct_like(&data, 4) {
            Some(User::from_json(data))
        } else {
            None
        }
    }
}

// ------------------------------------------------------------------- Channel

/// A Discord channel.
#[derive(Clone, Debug, PartialEq, Eq)]
pub struct Channel {
    pub id: String,
    pub name: String,
    pub channel_type: u8,
    pub guild_id: Option<String>,
}

impl Channel {
    /// A channel with the given fields.
    pub fn new(id: String, name: String, channel_type: u8, guild_id: Option<String>) -> (c: Self)
        ensures
            c == (Channel { id, name, channel_type, guild_id }),
    {
        Channel { id, name, channel_type, guild_id }
    }

    /// `<Channel id=.. name=..>`.
    pub fn __str__(&self) -> (s: String)
        ensures
            s@ == "<Channel id="@ + self.id@ + " name="@ + self.name@ + ">"@,
    {
        let mut s = "<Channel id=".to_owned();
        s.append(self.id.as_str());
        s.append(" name=");
        s.append(self.name.as_str());
        s.append(">");
        s
    }

    /// `Channel(id='..', name='..', channel_type=N, guild_id='..'|None)`.
    pub fn __repr__(&self) -> (s: String)
        ensures
            s@ == "Channel(id='"@ + self.id@ + "', name='"@ + self.name@ + "', channel_type="@
                + decimal(self.channel_type as nat) + ", guild_id="@ + quoted_or_none(
                opt_text(self.guild_id),
            ) + ")"@,
    {
        let mut s = "Channel(id='".to_owned();
        s.append(self.id.as_str());
        s.append("', name='");
        s.append(self.name.as_str());
        s.append("', channel_type=");
        let n = decimal_string(self.channel_type as u64);
        s.append(n.as_str());
        s.append(", guild_id=");
        push_quoted_or_none(&mut s, &self.guild_id);
        s.append(")");
        s
    }

    /// Decodes a channel leniently, as [`VoiceState::from_json`] does; the
    /// type reads as 0 unless it is an integer from 0 to 255.
    pub fn from_json(data: Json) -> (c: Self)
        requires
            decodes_as_struct(data, 4),
        ensures
            c.id@ == text_or_empty(field_slot(data, "id"@, 0)),
            c.name@ == text_or_empty(field_slot(data, "name"@, 1)),
            c.channel_type == byte_or_zero(field_slot(data, "channel_type"@, 2)),
            opt_text(c.guild_id) == text_or_none(field_slot(data, "guild_id"@, 3)),
    {
        Channel {
            id: decode_text(field_slot_of(&data, "id", 0)),
            name: decode_text(field_slot_of(&data, "name", 1)),
            channel_type: decode_byte(field_slot_of(&data, "channel_type", 2)),
            guild_id: decode_opt_text(field_slot_of(&data, "guild_id", 3)),
        }
    }

    /// Decodes a channel, or `None` when `data` is neither an object nor an
    /// array of at most four elements.
    pub fn try_from_json(data: Json) -> (c: Option<Self>)
        ensures
            match c {
                Some(c) => decodes_as_struct(data, 4) && c.id@ == text_or_empty(
                    field_slot(data, "id"@, 0),
                ) && c.name@ == text_or_empty(field_slot(data, "name"@, 1)) && c.channel_type
                    == byte_or_zero(field_slot(data, "channel_type"@, 2)) && opt_text(c.guild_id)
                    == text_or_none(field_slot(data, "guild_id"@, 3)),
                None => !decodes_as_struct(data, 4),
            },
    {
        if is_struct_like(&data, 4) {
            Some(Channel::from_json(data))
        } else {
            None
        }
    }
}

// --------------------------------------------------------------------- Guild

/// A Discord guild (server).
#[derive(Clone, Debug, PartialEq, Eq)]
pub struct Guild {
    pub id: String,
    pub name: String,
    pub owner_id: String,
}

/// Whether `g` holds the fields decoded from `data`.
pub open spec fn decoded_guild(g: Guild, data: Json) -> bool {
    &&& g.id@ == text_or_empty(field_slot(data, "id"@, 0))
    &&& g.name@ == text_or_empty(field_slot(data, "name"@, 1))
    &&& g.owner_id@ == text_or_empty(field_slot(data, "owner_id"@, 2))
}

impl Guild {
    /// A guild with the given fields.
    pub fn new(id: String, name: String, owner_id: String) -> (g: Self)
        ensures
            g == (Guild { id, name, owner_id }),
    {
        Guild { id, name, owner_id }
    }

    /// `<Guild id=.. name=..>`.
    pub fn __str__(&self) -> (s: String)
        ensures
            s@ == "<Guild id="@ + self.id@ + " name="@ + self.name@ + ">"@,
    {
        let mut s = "<Guild id=".to_owned();
        s.append(self.id.as_str());
        s.append(" name=");
        s.append(self.name.as_str());
        s.append(">");
        s
    }

    /// `Guild(id='..', name='..', owner_id='..')`.
    pub fn __repr__(&self) -> (s: String)
        ensures
            s@ == "Guild(id='"@ + self.id@ + "', name='"@ + self.name@ + "', owner_id='"@
                + self.owner_id@ + "')"@,
    {
        let mut s = "Guild(id='".to_owned();
        s.append(self.id.as_str());
        s.append("', name='");
        s.append(self.name.as_str());
        s.append("', owner_id='");
        s.append(self.owner_id.as_str());
        s.append("')");
        s
    }

    /// Decodes a guild leniently, as [`VoiceState::from_json`] does.
    pub fn from_json(data: Json) -> (g: Self)
        requires
            decodes_as_struct(data, 3),
        ensures
            g.id@ == text_or_empty(field_slot(data, "id"@, 0)),
            g.name@ == text_or_empty(field_slot(data, "name"@, 1)),
            g.owner_id@ == text_or_empty(field_slot(data, "owner_id"@, 2)),
    {
        Guild::decode(&data)
    }

    fn decode(data: &Json) -> (g: Self)
        ensures
            decoded_guild(g, *data),
    {
        Guild {
            id: decode_text(field_slot_of(data, "id", 0)),
            name: decode_text(field_slot_of(data, "name", 1)),
            owner_id: decode_text(field_slot_of(data, "owner_id", 2)),
        }
    }

    /// Decodes a list of guilds: `None` unless `data` is an array whose every
    /// element decodes as a guild, else the guilds in order.
    #[verifier::loop_isolation(false)]
    pub fn list_from_json(data: Json) -> (r: Option<Vec<Self>>)
        ensures
            match data {
                Json::Array(items) => match r {
                    Some(gs) => gs@.len() == items@.len() && forall|k: int|
                        0 <= k < items@.len() ==> #[trigger] decodes_as_struct(items@[k], 3)
                            && decoded_guild(gs@[k], items@[k]),
                    None => exists|k: int|
                        0 <= k < items@.len() && !#[trigger] decodes_as_struct(items@[k], 3),
                },
                _ => r is None,
            },
    {
        match data {
            Json::Array(items) => {
                let mut gs: Vec<Guild> = Vec::new();
                let mut i: usize = 0;
                while i < items.len()
                    invariant
                        i <= items@.len(),
                        gs@.len() == i,
                        forall|k: int| 0 <= k < i ==> decodes_as_struct(#[trigger] items@[k], 3),
                        forall|k: int| 0 <= k < i ==> decoded_guild(#[trigger] gs@[k], items@[k]),
                    decreases items@.len() - i,
                {
                    if !is_struct_like(&items[i], 3) {
                        assert(!decodes_as_struct(items@[i as int], 3));
                        return None;
                    }
                    let g = Guild::decode(&items[i]);
                    gs.push(g);
                    i = i + 1;
                }
                Some(gs)
            },
            _ => None,
        }
    }

    /// Decodes a guild, or `None` when `data` is neither an object nor an
    /// array of at most three elements.
    pub fn try_from_json(data: Json) -> (g: Option<Self>)
        ensures
            match g {
                Some(g) => decodes_as_struct(data, 3) && g.id@ == text_or_empty(
                    field_slot(data, "id"@, 0),
                ) && g.name@ == text_or_empty(field_slot(data, "name"@, 1)) && g.owner_id@
                    == text_or_empty(field_slot(data, "owner_id"@, 2)),
                None => !decodes_as_struct(data, 3),
            },
    {
        if is_struct_like(&data, 3) {
            Some(Guild::from_json(data))
        } else {
            None
        }
    }
}

} // verus!
