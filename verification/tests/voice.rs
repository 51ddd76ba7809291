use rustcord::voice::{AudioPlayer, VoiceConnection};

fn conn() -> VoiceConnection {
    VoiceConnection::new("g".into(), "c".into(), "s".into(), "t".into(), "e".into(), false, true)
}

#[test]
fn connection_lifecycle() {
    let mut c = conn();
    assert!(!c.connected);
    assert!(c.self_deaf && !c.self_mute);
    assert_eq!(c.__str__(), "<VoiceConnection guild_id=g channel_id=c connected=false>");
    let before = c.clone();
    c.connect();
    assert!(c.connected);
    assert_eq!(c.__repr__(), "VoiceConnection(guild_id='g', channel_id='c', connected=true)");
    c.disconnect();
    assert_eq!(c, before);
    c.set_self_mute(true);
    c.set_self_deaf(false);
    assert!(c.self_mute && !c.self_deaf);
}

#[test]
fn player_needs_connected_connection() {
    let mut p = AudioPlayer::new();
    assert!(!p.play_file("a.mp3".into()));
    let c = conn();
    p.attach(c.clone());
    assert!(!p.play_file("a.mp3".into()));
    assert!(!p.is_playing());
    let mut c2 = c;
    c2.connect();
    p.attach(c2);
    assert!(p.play_file("a.mp3".into()));
    assert!(p.is_playing());
    assert!(!p.is_paused());
}

#[test]
fn pause_resume_stop() {
    let mut p = AudioPlayer::new();
    p.pause();
    assert!(!p.is_paused());
    let mut c = conn();
    c.connect();
    p.attach(c);
    p.play_file("x".into());
    p.pause();
    assert!(p.is_paused() && !p.is_playing());
    assert_eq!(p.playback_text(), "<AudioPlayer playing=true paused=true");
    p.resume();
    assert!(p.is_playing() && !p.is_paused());
    p.pause();
    p.stop();
    assert!(!p.is_playing() && !p.is_paused());
    assert_eq!(p.playback_text(), "<AudioPlayer playing=false paused=false");
    p.resume();
    assert!(!p.is_playing());
}

#[test]
fn replaying_unpauses() {
    let mut p = AudioPlayer::new();
    let mut c = conn();
    c.connect();
    p.attach(c);
    p.play_file("x".into());
    p.pause();
    assert!(p.play_file("y".into()));
    assert!(p.is_playing());
}
