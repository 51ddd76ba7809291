//! Voice connections and the audio player's playback state machine.

use vstd::prelude::*;

use crate::format::{bool_str, bool_text};

verus! {

// ----------------------------------------------------------- VoiceConnection

/// A connection to a guild's voice channel.
#[derive(Clone, Debug, PartialEq, Eq)]
pub struct VoiceConnection {
    pub guild_id: String,
    pub channel_id: String,
    pub session_id: String,
    pub token: String,
    pub endpoint: String,
    pub connected: bool,
    pub self_mute: bool,
    pub self_deaf: bool,
}

impl VoiceConnection {
    /// A connection that is not connected yet.
    pub fn new(
        guild_id: String,
        channel_id: String,
        session_id: String,
        token: String,
        endpoint: String,
        self_mute: bool,
        self_deaf: bool,
    ) -> (c: Self)
        ensures
            c == (VoiceConnection {
                guild_id,
                channel_id,
                session_id,
                token,
                endpoint,
                connected: false,
                self_mute,
                self_deaf,
            }),
    {
        VoiceConnection {
            guild_id,
            channel_id,
            session_id,
            token,
            endpoint,
            connected: false,
            self_mute,
            self_deaf,
        }
    }

    /// `<VoiceConnection guild_id=.. channel_id=.. connected=..>`.
    pub fn __str__(&self) -> (s: String)
        ensures
            s@ == "<VoiceConnection guild_id="@ + self.guild_id@ + " channel_id="@
                + self.channel_id@ + " connected="@ + bool_text(self.connected) + ">"@,
    {
        let mut s = "<VoiceConnection guild_id=".to_owned();
        s.append(self.guild_id.as_str());
        s.append(" channel_id=");
        s.append(self.channel_id.as_str());
        s.append(" connected=");
        s.append(bool_str(self.connected));
        s.append(">");
        s
    }

    /// `VoiceConnection(guild_id='..', channel_id='..', connected=..)`.
    pub fn __repr__(&self) -> (s: String)
        ensures
            s@ == "VoiceConnection(guild_id='"@ + self.guild_id@ + "', channel_id='"@
                + self.channel_id@ + "', connected="@ + bool_text(self.connected) + ")"@,
    {
        let mut s = "VoiceConnection(guild_id='".to_owned();
        s.append(self.guild_id.as_str());
        s.append("', channel_id='");
        s.append(self.channel_id.as_str());
        s.append("', connected=");
        s.append(bool_str(self.connected));
        s.append(")");
        s
    }

    /// Marks the connection as connected; nothing else changes.
    pub fn connect(&mut self)
        ensures
            *final(self) == (VoiceConnection { connected: true, ..*old(self) }),
    {
        self.connected = true;
    }

    /// Marks the connection as disconnected; nothing else changes.
    pub fn disconnect(&mut self)
        ensures
            *final(self) == (VoiceConnection { connected: false, ..*old(self) }),
    {
        self.connected = false;
    }

    /// Sets whether the bot mutes itself; nothing else changes.
    pub fn set_self_mute(&mut self, mute: bool)
        ensures
            *final(self) == (VoiceConnection { self_mute: mute, ..*old(self) }),
    {
        self.self_mute = mute;
    }

    /// Sets whether the bot deafens itself; nothing else changes.
    pub fn set_self_deaf(&mut self, deaf: bool)
        ensures
            *final(self) == (VoiceConnection { self_deaf: deaf, ..*old(self) }),
    {
        self.self_deaf = deaf;
    }
}

// --------------------------------------------------------------- AudioPlayer

/// The playback state of an audio player.
pub ghost struct Playback {
    /// The voice connection the player sends to, once attached.
    pub connection: Option<VoiceConnection>,
    /// Whether a track has been started and not stopped.
    pub playing: bool,
    /// Whether the started track is paused.
    pub paused: bool,
}

/// A player that is neither attached nor playing.
pub open spec fn idle_playback() -> Playback {
    Playback { connection: None, playing: false, paused: false }
}

/// The state after attaching `c`: the player now sends to `c`.
pub open spec fn attached_to(s: Playback, c: VoiceConnection) -> Playback {
    Playback { connection: Some(c), ..s }
}

/// Whether a track can start: the player is attached to a connected connection.
pub open spec fn can_play(s: Playback) -> bool {
    s.connection matches Some(c) && c.connected
}

/// The state after a request to play a file.
pub open spec fn after_play(s: Playback) -> Playback {
    if can_play(s) {
        Playback { playing: true, paused: false, ..s }
    } else {
        s
    }
}

/// The state after stopping: nothing plays, nothing is paused.
pub open spec fn after_stop(s: Playback) -> Playback {
    Playback { playing: false, paused: false, ..s }
}

/// The state after a pause request: a started track pauses.
pub open spec fn after_pause(s: Playback) -> Playback {
    if s.playing {
        Playback { paused: true, ..s }
    } else {
        s
    }
}

/// The state after a resume request: a paused track resumes.
pub open spec fn after_resume(s: Playback) -> Playback {
    if s.playing && s.paused {
        Playback { paused: false, ..s }
    } else {
        s
    }
}

/// Whether audio is being sent now.
pub open spec fn sounding(s: Playback) -> bool {
    s.playing && !s.paused
}

/// Whether a started track is paused.
pub open spec fn holding(s: Playback) -> bool {
    s.playing && s.paused
}

/// Plays audio into an attached voice connection.
pub struct AudioPlayer {
    connection: Option<VoiceConnection>,
    playing: bool,
    paused: bool,
}

impl View for AudioPlayer {
    type V = Playback;

    closed spec fn view(&self) -> Playback {
        Playback { connection: self.connection, playing: self.playing, paused: self.paused }
    }
}

impl AudioPlayer {
    /// A player that is neither attached nor playing.
    pub fn new() -> (p: Self)
        ensures
            p@ == idle_playback(),
    {
        AudioPlayer { connection: None, playing: false, paused: false }
    }

    /// Attaches the player to a voice connection, replacing any earlier one.
    pub fn attach(&mut self, connection: VoiceConnection)
        ensures
            final(self)@ == attached_to(old(self)@, connection),
    {
        self.connection = Some(connection);
    }

    /// Starts playing a file: succeeds, and starts unpaused, exactly when the
    /// player is attached to a connected connection; otherwise nothing changes.
    pub fn play_file(&mut self, _file_path: String) -> (started: bool)
        ensures
            started == can_play(old(self)@),
            final(self)@ == after_play(old(self)@),
    {
        match &self.connection {
            None => {
                return false;
            },
            Some(conn) => {
                if !conn.connected {
                    return false;
                }
            },
        }
        self.playing = true;
        self.paused = false;
        true
    }

    /// Stops playback.
    pub fn stop(&mut self)
        ensures
            final(self)@ == after_stop(old(self)@),
    {
        self.playing = false;
        self.paused = false;
    }

    /// Pauses playback, when something plays.
    pub fn pause(&mut self)
        ensures
            final(self)@ == after_pause(old(self)@),
    {
        if self.playing {
            self.paused = true;
        }
    }

    /// Resumes paused playback.
    pub fn resume(&mut self)
        ensures
            final(self)@ == after_resume(old(self)@),
    {
        if self.playing && self.paused {
            self.paused = false;
        }
    }

    /// Whether audio is being sent now: started and not paused.
    pub fn is_playing(&self) -> (b: bool)
        ensures
            b == sounding(self@),
    {
        self.playing && !self.paused
    }

    /// Whether a started track is paused.
    pub fn is_paused(&self) -> (b: bool)
        ensures
            b == holding(self@),
    {
        self.playing && self.paused
    }

    /// `<AudioPlayer playing=.. paused=..`, the start of the player's text form.
    pub fn playback_text(&self) -> (s: String)
        ensures
            s@ == "<AudioPlayer playing="@ + bool_text(self@.playing) + " paused="@ + bool_text(
                self@.paused,
            ),
    {
        let mut s = "<AudioPlayer playing=".to_owned();
        s.append(bool_str(self.playing));
        s.append(" paused=");
        s.append(bool_str(self.paused));
        s
    }
}

} // verus!
