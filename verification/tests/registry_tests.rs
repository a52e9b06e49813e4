use voicebot::registry::SessionRegistry;
use voicebot::session::{PlayMode, Track};

fn track(uri: &str) -> Track {
    Track { source_uri: uri.to_string(), title: None, duration_secs: None }
}

#[test]
fn first_touch_creates_a_fresh_disconnected_session() {
    let mut reg = SessionRegistry::new();
    let i = reg.get_or_create(5);
    assert_eq!(reg.sessions.len(), 1);
    assert_eq!(reg.sessions[i].guild_id, 5);
    assert_eq!(reg.sessions[i].connection, None);
    assert_eq!(reg.sessions[i].queue.len(), 0);
    assert_eq!(reg.sessions[i].mode, PlayMode::Stopped);
}

#[test]
fn second_touch_finds_the_same_session() {
    let mut reg = SessionRegistry::new();
    let i = reg.get_or_create(5);
    reg.session_mut(i).on_connected(7);
    let j = reg.get_or_create(5);
    assert_eq!(i, j);
    assert_eq!(reg.sessions.len(), 1);
    assert_eq!(reg.sessions[j].connection, Some(7));
}

#[test]
fn find_reports_only_known_guilds() {
    let mut reg = SessionRegistry::new();
    assert_eq!(reg.find(5), None);
    let i = reg.get_or_create(5);
    assert_eq!(reg.find(5), Some(i));
    assert_eq!(reg.find(6), None);
}

#[test]
fn guilds_get_separate_sessions() {
    let mut reg = SessionRegistry::new();
    let a = reg.get_or_create(5);
    let b = reg.get_or_create(6);
    assert_ne!(a, b);
    assert_eq!(reg.sessions.len(), 2);
    assert_eq!(reg.sessions[a].guild_id, 5);
    assert_eq!(reg.sessions[b].guild_id, 6);
}

#[test]
fn one_guilds_commands_leave_other_guilds_untouched() {
    let mut reg = SessionRegistry::new();
    let a = reg.get_or_create(5);
    let b = reg.get_or_create(6);
    {
        let s = reg.session_mut(a);
        s.on_connected(7);
        s.enqueue_track(track("https://example.com/a"));
    }
    {
        let s = reg.session_mut(b);
        s.on_connected(8);
        s.enqueue_track(track("https://example.com/b"));
        assert_eq!(s.leave(), Ok(()));
    }
    assert_eq!(reg.sessions[a].connection, Some(7));
    assert_eq!(reg.sessions[a].queue.len(), 1);
    assert_eq!(reg.sessions[a].queue[0].source_uri, "https://example.com/a");
    assert_eq!(reg.sessions[b].connection, None);
    assert_eq!(reg.sessions[b].queue.len(), 0);
}
