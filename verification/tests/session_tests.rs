use voicebot::session::{
    has_http_prefix, validate_play_args, CurrentReport, GuildSession, PlayMode, SkipReport, Track,
};
use voicebot::CommandError;

fn track(uri: &str, title: &str) -> Track {
    Track {
        source_uri: uri.to_string(),
        title: Some(title.to_string()),
        duration_secs: Some(180),
    }
}

#[test]
fn play_from_disconnected_connects_and_plays_the_track() {
    let mut s = GuildSession::new(1);
    assert_eq!(s.connection, None);
    let target = s.play_connect_target(Some(7)).unwrap();
    assert_eq!(target, Some(7));
    s.on_connected(7);
    let pos = s.enqueue_track(track("https://example.com/a", "a"));
    assert_eq!(pos, 1);
    assert_eq!(s.connection, Some(7));
    assert_eq!(s.mode, PlayMode::Playing);
    assert_eq!(s.queue.len(), 1);
    assert_eq!(s.queue[0].source_uri, "https://example.com/a");
}

#[test]
fn play_twice_keeps_fifo_order() {
    let mut s = GuildSession::new(1);
    s.on_connected(7);
    assert_eq!(s.enqueue_track(track("https://example.com/a", "a")), 1);
    assert_eq!(s.enqueue_track(track("https://example.com/b", "b")), 2);
    assert_eq!(s.queue.len(), 2);
    assert_eq!(s.queue[0].source_uri, "https://example.com/a");
    assert_eq!(s.queue[1].source_uri, "https://example.com/b");
    assert_eq!(s.mode, PlayMode::Playing);
}

#[test]
fn enqueue_does_not_disturb_a_paused_head() {
    let mut s = GuildSession::new(1);
    s.on_connected(7);
    s.enqueue_track(track("https://example.com/a", "a"));
    s.set_play_mode(PlayMode::Paused);
    s.enqueue_track(track("https://example.com/b", "b"));
    assert_eq!(s.mode, PlayMode::Paused);
    assert_eq!(s.queue.len(), 2);
}

#[test]
fn skip_nothing_playing_is_a_no_op() {
    let mut s = GuildSession::new(1);
    s.on_connected(7);
    s.enqueue_track(track("https://example.com/a", "a"));
    s.set_play_mode(PlayMode::Paused);
    let before_len = s.queue.len();
    let before_conn = s.connection;
    assert_eq!(s.skip(), SkipReport::NothingPlaying);
    assert_eq!(s.queue.len(), before_len);
    assert_eq!(s.connection, before_conn);
    assert_eq!(s.mode, PlayMode::Paused);
}

#[test]
fn skip_on_empty_queue_is_a_no_op() {
    let mut s = GuildSession::new(1);
    s.on_connected(7);
    assert_eq!(s.skip(), SkipReport::NothingPlaying);
    assert_eq!(s.connection, Some(7));
    assert_eq!(s.queue.len(), 0);
}

#[test]
fn skip_when_disconnected_reports_not_in_channel() {
    let mut s = GuildSession::new(1);
    assert_eq!(s.skip(), SkipReport::NotInChannel);
}

#[test]
fn skip_advances_to_the_next_track() {
    let mut s = GuildSession::new(1);
    s.on_connected(7);
    s.enqueue_track(track("https://example.com/a", "a"));
    s.enqueue_track(track("https://example.com/b", "b"));
    assert_eq!(s.skip(), SkipReport::Skipped(1));
    assert_eq!(s.queue.len(), 1);
    assert_eq!(s.queue[0].source_uri, "https://example.com/b");
    assert_eq!(s.mode, PlayMode::Playing);
}

#[test]
fn skip_last_track_leaves_an_idle_queue() {
    let mut s = GuildSession::new(1);
    s.on_connected(7);
    s.enqueue_track(track("https://example.com/a", "a"));
    assert_eq!(s.skip(), SkipReport::Skipped(0));
    assert_eq!(s.queue.len(), 0);
    assert_eq!(s.mode, PlayMode::Stopped);
}

#[test]
fn leave_then_current_reports_no_source() {
    let mut s = GuildSession::new(1);
    s.on_connected(7);
    s.enqueue_track(track("https://example.com/a", "a"));
    assert_eq!(s.leave(), Ok(()));
    assert_eq!(s.connection, None);
    assert_eq!(s.queue.len(), 0);
    assert!(matches!(s.current(), CurrentReport::NotInChannel));
}

#[test]
fn second_leave_reports_no_active_session() {
    let mut s = GuildSession::new(1);
    s.on_connected(7);
    assert_eq!(s.leave(), Ok(()));
    assert_eq!(s.leave(), Err(CommandError::NoActiveSession));
}

#[test]
fn stop_clears_the_queue_but_keeps_the_connection() {
    let mut s = GuildSession::new(1);
    s.on_connected(7);
    s.enqueue_track(track("https://example.com/a", "a"));
    assert_eq!(s.stop(), Ok(()));
    assert_eq!(s.connection, Some(7));
    assert_eq!(s.queue.len(), 0);
    assert_eq!(s.mode, PlayMode::Stopped);
    assert!(matches!(s.current(), CurrentReport::NoCurrentSource));
}

#[test]
fn stop_when_disconnected_reports_no_active_session() {
    let mut s = GuildSession::new(1);
    assert_eq!(s.stop(), Err(CommandError::NoActiveSession));
}

#[test]
fn current_reports_the_head_metadata() {
    let mut s = GuildSession::new(1);
    s.on_connected(7);
    s.enqueue_track(track("https://example.com/a", "first"));
    s.enqueue_track(track("https://example.com/b", "second"));
    match s.current() {
        CurrentReport::Current(t) => {
            assert_eq!(t.source_uri, "https://example.com/a");
            assert_eq!(t.title.as_deref(), Some("first"));
            assert_eq!(t.duration_secs, Some(180));
        }
        _ => panic!("expected a current track"),
    }
}

#[test]
fn join_without_a_voice_channel_changes_nothing() {
    let s = GuildSession::new(1);
    assert_eq!(s.join_target(None), Err(CommandError::NotInVoiceChannel));
    assert_eq!(s.connection, None);
    assert_eq!(s.queue.len(), 0);
}

#[test]
fn join_targets_the_requesters_channel() {
    let s = GuildSession::new(1);
    assert_eq!(s.join_target(Some(42)), Ok(42));
}

#[test]
fn play_without_a_voice_channel_is_refused() {
    let s = GuildSession::new(1);
    assert_eq!(s.play_connect_target(None), Err(CommandError::NotInVoiceChannel));
}

#[test]
fn play_on_a_connected_session_reuses_the_connection() {
    let mut s = GuildSession::new(1);
    s.on_connected(7);
    assert_eq!(s.play_connect_target(Some(9)), Ok(None));
}

#[test]
fn validate_play_args_accepts_one_http_url() {
    let url = vec!["https://example.com/v".to_string()];
    assert_eq!(validate_play_args(&url), Ok("https://example.com/v".to_string()));
}

#[test]
fn validate_play_args_rejects_wrong_counts_and_schemes() {
    assert_eq!(
        validate_play_args(&Vec::new()),
        Err(CommandError::InvalidArgument)
    );
    assert_eq!(
        validate_play_args(&vec!["https://a".to_string(), "https://b".to_string()]),
        Err(CommandError::InvalidArgument)
    );
    assert_eq!(
        validate_play_args(&vec!["ftp://example.com".to_string()]),
        Err(CommandError::InvalidArgument)
    );
}

#[test]
fn play_request_checks_preconditions_in_order() {
    let s = GuildSession::new(1);
    // A malformed argument wins over a missing voice channel.
    assert_eq!(
        s.play_request(&vec!["nope".to_string()], None),
        Err(CommandError::InvalidArgument)
    );
    assert_eq!(
        s.play_request(&vec!["https://a".to_string()], None),
        Err(CommandError::NotInVoiceChannel)
    );
    assert_eq!(
        s.play_request(&vec!["https://a".to_string()], Some(7)),
        Ok(("https://a".to_string(), Some(7)))
    );
    let mut c = GuildSession::new(2);
    c.on_connected(9);
    assert_eq!(
        c.play_request(&vec!["https://a".to_string()], Some(7)),
        Ok(("https://a".to_string(), None))
    );
}

#[test]
fn http_prefix_check() {
    assert!(has_http_prefix("http://a"));
    assert!(has_http_prefix("https://a"));
    assert!(has_http_prefix("http"));
    assert!(!has_http_prefix("htt"));
    assert!(!has_http_prefix("file:///x"));
}
