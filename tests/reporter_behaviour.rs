use shikenmatrix::connection::{
    normalize_endpoint, websocket_url, ConnectionState, HANDSHAKE_TIMEOUT_MS, IDLE_RECHECK_MS,
    RECONNECT_COOLDOWN_MS, RECONNECT_INTERVAL_MS,
};
use shikenmatrix::protocol::{frames_for, InboundFrame, ReporterMessage, ServerMessage, WireFrame};
use shikenmatrix::reporter::{Action, Reporter, ReporterConfig};
use shikenmatrix::snapshot::{MediaMetadata, PlaybackState, WindowInfo};

fn config(enabled: bool, url: &str, token: &str) -> ReporterConfig {
    ReporterConfig { enabled, ws_url: url.to_string(), token: token.to_string() }
}

fn window(title: &str, process: &str, pid: i32) -> WindowInfo {
    WindowInfo {
        title: title.to_string(),
        icon_data: None,
        process_name: process.to_string(),
        pid,
        app_id: None,
    }
}

fn metadata(title: &str, content_id: Option<&str>) -> MediaMetadata {
    MediaMetadata {
        bundle_identifier: Some("com.example.player".to_string()),
        title: Some(title.to_string()),
        artist: Some("Artist".to_string()),
        album: Some("Album".to_string()),
        duration_ms: 180_000,
        artwork_data: None,
        artwork_mime_type: None,
        content_item_identifier: content_id.map(|c| c.to_string()),
    }
}

fn state(elapsed_ms: u64) -> PlaybackState {
    PlaybackState { playing: true, playback_rate: 100, elapsed_ms }
}

fn drain(r: &mut Reporter) -> Vec<ReporterMessage> {
    let mut out = Vec::new();
    while let Some(m) = r.next_outbound() {
        out.push(m);
    }
    out
}

fn ack(content_id: &str, url: &str) -> ServerMessage {
    ServerMessage {
        msg_type: "artwork_uploaded".to_string(),
        content_item_identifier: Some(content_id.to_string()),
        artwork_url: Some(url.to_string()),
    }
}

#[test]
fn same_window_twice_queues_once() {
    let mut r = Reporter::new(config(true, "wss://c.example/ws", "t"));
    let w = window("Editor", "editor.exe", 100);
    assert!(r.send_window_info(&w));
    assert!(!r.send_window_info(&w));
    assert_eq!(drain(&mut r).len(), 1);
}

#[test]
fn each_relevant_window_field_is_detected() {
    let mut r = Reporter::new(config(true, "wss://c.example/ws", "t"));
    let base = window("Editor", "editor.exe", 100);
    assert!(r.send_window_info(&base));

    let mut w = base.clone();
    w.title = "Editor - file.rs".to_string();
    assert!(r.send_window_info(&w));

    let mut w2 = w.clone();
    w2.process_name = "editor2.exe".to_string();
    assert!(r.send_window_info(&w2));

    let mut w3 = w2.clone();
    w3.pid = 101;
    assert!(r.send_window_info(&w3));

    let mut w4 = w3.clone();
    w4.app_id = Some("com.example.editor".to_string());
    assert!(r.send_window_info(&w4));

    assert_eq!(drain(&mut r).len(), 5);
}

#[test]
fn icon_change_alone_is_ignored() {
    let mut r = Reporter::new(config(true, "wss://c.example/ws", "t"));
    let base = window("Editor", "editor.exe", 100);
    assert!(r.send_window_info(&base));
    let mut w = base.clone();
    w.icon_data = Some(vec![1, 2, 3]);
    assert!(!r.send_window_info(&w));
    assert_eq!(drain(&mut r).len(), 1);
}

#[test]
fn window_message_leaves_icon_out_and_keeps_fields() {
    let mut r = Reporter::new(config(true, "wss://c.example/ws", "t"));
    let mut w = window("Editor", "editor.exe", 100);
    w.app_id = Some("com.example.editor".to_string());
    w.icon_data = Some(vec![9]);
    r.send_window_info(&w);
    match drain(&mut r).pop() {
        Some(ReporterMessage::WindowInfo(d)) => {
            assert_eq!(d.title, "Editor");
            assert_eq!(d.process_name, "editor.exe");
            assert_eq!(d.pid, 100);
            assert_eq!(d.app_id.as_deref(), Some("com.example.editor"));
            assert!(d.icon_url.is_none());
        }
        other => panic!("unexpected {:?}", other),
    }
}

#[test]
fn elapsed_time_within_a_second_is_not_resent() {
    let mut r = Reporter::new(config(true, "wss://c.example/ws", "t"));
    let m = metadata("Song", None);
    assert!(r.send_media_playback(&m, &state(1_200)));
    assert!(!r.send_media_playback(&m, &state(1_800)));
    assert!(!r.send_media_playback(&m, &state(1_999)));
    assert_eq!(drain(&mut r).len(), 1);
}

#[test]
fn elapsed_time_beyond_a_second_is_resent() {
    let mut r = Reporter::new(config(true, "wss://c.example/ws", "t"));
    let m = metadata("Song", None);
    assert!(r.send_media_playback(&m, &state(1_200)));
    assert!(r.send_media_playback(&m, &state(2_300)));
    assert_eq!(drain(&mut r).len(), 2);
}

#[test]
fn elapsed_time_crossing_a_second_boundary_is_resent() {
    let mut r = Reporter::new(config(true, "wss://c.example/ws", "t"));
    let m = metadata("Song", None);
    assert!(r.send_media_playback(&m, &state(1_900)));
    assert!(r.send_media_playback(&m, &state(2_100)));
}

#[test]
fn media_rate_and_play_state_changes_are_resent() {
    let mut r = Reporter::new(config(true, "wss://c.example/ws", "t"));
    let m = metadata("Song", None);
    assert!(r.send_media_playback(&m, &state(0)));
    let paused = PlaybackState { playing: false, playback_rate: 0, elapsed_ms: 0 };
    assert!(r.send_media_playback(&m, &paused));
    let fast = PlaybackState { playing: false, playback_rate: 150, elapsed_ms: 0 };
    assert!(r.send_media_playback(&m, &fast));
    assert!(r.send_media_playback(&metadata("Other", None), &fast));
}

#[test]
fn upload_once_after_acknowledgement() {
    let mut r = Reporter::new(config(true, "wss://c.example/ws", "t"));
    assert!(r.upload_artwork("c1".to_string(), vec![1, 2, 3], "image/png".to_string()));
    assert!(r.handle_inbound(InboundFrame::Text(Some(ack("c1", "https://cdn.example/c1.png")))));
    assert!(!r.upload_artwork("c1".to_string(), vec![1, 2, 3], "image/png".to_string()));
    let frames: Vec<WireFrame> = drain(&mut r).into_iter().flat_map(frames_for).collect();
    let binaries = frames.iter().filter(|f| matches!(f, WireFrame::Binary(_))).count();
    assert_eq!(binaries, 1);
    assert_eq!(frames.len(), 2);
}

#[test]
fn upload_twice_before_acknowledgement_queues_both() {
    let mut r = Reporter::new(config(true, "wss://c.example/ws", "t"));
    assert!(r.upload_artwork("c1".to_string(), vec![1], "image/png".to_string()));
    assert!(r.upload_artwork("c1".to_string(), vec![1], "image/png".to_string()));
    assert_eq!(drain(&mut r).len(), 2);
}

#[test]
fn acknowledged_url_is_attached_to_media() {
    let mut r = Reporter::new(config(true, "wss://c.example/ws", "t"));
    r.handle_server_message(ack("c1", "https://cdn.example/c1.png"));
    assert!(r.artwork_cached(&"c1".to_string()));
    r.send_media_playback(&metadata("Song", Some("c1")), &state(0));
    match drain(&mut r).pop() {
        Some(ReporterMessage::MediaPlayback(md, st)) => {
            assert_eq!(md.artwork_url.as_deref(), Some("https://cdn.example/c1.png"));
            assert_eq!(md.content_item_identifier.as_deref(), Some("c1"));
            assert_eq!(md.duration_ms, 180_000);
            assert!(st.playing);
        }
        other => panic!("unexpected {:?}", other),
    }
}

#[test]
fn other_server_messages_leave_the_cache_alone() {
    let mut r = Reporter::new(config(true, "wss://c.example/ws", "t"));
    r.handle_server_message(ServerMessage {
        msg_type: "hello".to_string(),
        content_item_identifier: Some("c1".to_string()),
        artwork_url: Some("u".to_string()),
    });
    r.handle_server_message(ServerMessage {
        msg_type: "artwork_uploaded".to_string(),
        content_item_identifier: Some("c2".to_string()),
        artwork_url: None,
    });
    assert!(!r.artwork_cached(&"c1".to_string()));
    assert!(!r.artwork_cached(&"c2".to_string()));
}

#[test]
fn later_acknowledgement_replaces_url() {
    let mut r = Reporter::new(config(true, "wss://c.example/ws", "t"));
    r.handle_server_message(ack("c1", "u1"));
    r.handle_server_message(ack("c1", "u2"));
    r.send_media_playback(&metadata("Song", Some("c1")), &state(0));
    match drain(&mut r).pop() {
        Some(ReporterMessage::MediaPlayback(md, _)) => {
            assert_eq!(md.artwork_url.as_deref(), Some("u2"))
        }
        other => panic!("unexpected {:?}", other),
    }
}

#[test]
fn inbound_close_and_error_end_the_connection() {
    let mut r = Reporter::new(config(true, "wss://c.example/ws", "t"));
    assert!(!r.handle_inbound(InboundFrame::Close));
    assert!(!r.handle_inbound(InboundFrame::Error));
    assert!(r.handle_inbound(InboundFrame::Other));
    assert!(r.handle_inbound(InboundFrame::Text(None)));
}

#[test]
fn five_failures_then_cooldown_and_reset() {
    let mut r = Reporter::new(config(true, "wss://c.example/ws", "t"));
    let mut waits = Vec::new();
    for _ in 0..5 {
        match r.begin_cycle() {
            Action::Connect { .. } => {}
            _ => panic!("expected a connection attempt"),
        }
        match r.handshake_finished(false) {
            Action::Sleep(ms) => waits.push(ms),
            _ => panic!("expected a wait"),
        }
    }
    assert_eq!(
        waits,
        vec![
            RECONNECT_INTERVAL_MS,
            RECONNECT_INTERVAL_MS,
            RECONNECT_INTERVAL_MS,
            RECONNECT_INTERVAL_MS,
            RECONNECT_COOLDOWN_MS
        ]
    );
    assert_eq!(waits, vec![3000, 3000, 3000, 3000, 30000]);
    match r.handshake_finished(false) {
        Action::Sleep(ms) => assert_eq!(ms, 3000),
        _ => panic!("expected a wait"),
    }
}

#[test]
fn success_resets_the_counter() {
    let mut r = Reporter::new(config(true, "wss://c.example/ws", "t"));
    for _ in 0..4 {
        r.handshake_finished(false);
    }
    assert!(matches!(r.handshake_finished(true), Action::Serve));
    assert!(r.is_connected());
    assert_eq!(r.connection_lost(), 3000);
    assert!(!r.is_connected());
    for _ in 0..3 {
        assert!(matches!(r.handshake_finished(false), Action::Sleep(3000)));
    }
    assert!(matches!(r.handshake_finished(false), Action::Sleep(30000)));
}

#[test]
fn disabled_config_idles() {
    let mut r = Reporter::new(config(false, "wss://c.example/ws", "t"));
    assert!(matches!(r.begin_cycle(), Action::Sleep(IDLE_RECHECK_MS)));
    assert!(matches!(r.begin_cycle(), Action::Sleep(5000)));
    assert!(!r.is_connected());
}

#[test]
fn invalid_endpoint_idles_without_counting() {
    let mut r = Reporter::new(config(true, "not a url", "t"));
    assert!(matches!(r.begin_cycle(), Action::Sleep(5000)));
    r.update_config(config(true, "wss://c.example/ws", "t"));
    assert!(matches!(r.begin_cycle(), Action::Connect { .. }));
    assert!(matches!(r.handshake_finished(false), Action::Sleep(3000)));
}

#[test]
fn connected_flag_follows_the_connection() {
    let mut r = Reporter::new(config(true, "wss://c.example/ws", "t"));
    assert!(!r.is_connected());
    r.begin_cycle();
    assert!(!r.is_connected());
    r.handshake_finished(true);
    assert!(r.is_connected());
    r.connection_lost();
    assert!(!r.is_connected());
}

#[test]
fn queue_is_first_in_first_out() {
    let mut r = Reporter::new(config(true, "wss://c.example/ws", "t"));
    r.send_window_info(&window("A", "a", 1));
    r.send_media_playback(&metadata("B", None), &state(0));
    r.send_window_info(&window("C", "c", 3));
    r.upload_artwork("D".to_string(), vec![4], "image/jpeg".to_string());
    let out = drain(&mut r);
    assert_eq!(out.len(), 4);
    assert!(matches!(&out[0], ReporterMessage::WindowInfo(d) if d.title == "A"));
    assert!(matches!(&out[1], ReporterMessage::MediaPlayback(m, _) if m.title.as_deref() == Some("B")));
    assert!(matches!(&out[2], ReporterMessage::WindowInfo(d) if d.title == "C"));
    assert!(matches!(&out[3], ReporterMessage::UploadArtwork { content_item_identifier, .. } if content_item_identifier == "D"));
    assert!(r.next_outbound().is_none());
}

#[test]
fn upload_goes_out_as_meta_then_binary() {
    let frames = frames_for(ReporterMessage::UploadArtwork {
        content_item_identifier: "c1".to_string(),
        artwork_data: vec![7, 8],
        mime_type: "image/png".to_string(),
    });
    assert_eq!(frames.len(), 2);
    match (&frames[0], &frames[1]) {
        (WireFrame::UploadArtworkMeta(meta), WireFrame::Binary(bytes)) => {
            assert_eq!(meta.content_item_identifier, "c1");
            assert_eq!(meta.mime_type, "image/png");
            assert_eq!(bytes, &vec![7, 8]);
        }
        other => panic!("unexpected {:?}", other),
    }
}

#[test]
fn stopped_reporter_refuses_messages() {
    let mut r = Reporter::new(config(true, "wss://c.example/ws", "t"));
    r.send_window_info(&window("A", "a", 1));
    r.stop();
    assert!(r.next_outbound().is_none());
    assert!(!r.send_window_info(&window("B", "b", 2)));
    assert!(!r.upload_artwork("c".to_string(), vec![1], "image/png".to_string()));
    assert!(r.next_outbound().is_none());
}

#[test]
fn end_to_end_window_scenario() {
    let mut r = Reporter::new(config(true, "wss://collector.example/ws", "t1"));
    match r.begin_cycle() {
        Action::Connect { url, timeout_ms } => {
            assert_eq!(url, "wss://collector.example/ws?token=t1");
            assert_eq!(timeout_ms, HANDSHAKE_TIMEOUT_MS);
            assert_eq!(timeout_ms, 15000);
        }
        _ => panic!("expected a connection attempt"),
    }
    assert!(matches!(r.handshake_finished(true), Action::Serve));
    r.send_window_info(&window("Editor", "editor.exe", 100));
    r.send_window_info(&window("Editor", "editor.exe", 100));
    r.send_window_info(&window("Browser", "browser.exe", 200));
    let frames: Vec<WireFrame> = drain(&mut r).into_iter().flat_map(frames_for).collect();
    assert_eq!(frames.len(), 2);
    match (&frames[0], &frames[1]) {
        (WireFrame::WindowInfo(a), WireFrame::WindowInfo(b)) => {
            assert_eq!(a.title, "Editor");
            assert_eq!(a.process_name, "editor.exe");
            assert_eq!(a.pid, 100);
            assert_eq!(b.title, "Browser");
            assert_eq!(b.process_name, "browser.exe");
            assert_eq!(b.pid, 200);
        }
        other => panic!("unexpected {:?}", other),
    }
}

#[test]
fn http_schemes_become_websocket_schemes() {
    assert_eq!(normalize_endpoint("http://h/ws"), "ws://h/ws");
    assert_eq!(normalize_endpoint("https://h/ws"), "wss://h/ws");
    assert_eq!(normalize_endpoint("wss://h/ws"), "wss://h/ws");
    assert_eq!(normalize_endpoint("ftp://h"), "ftp://h");
    assert_eq!(normalize_endpoint("http:/"), "http:/");
    assert_eq!(normalize_endpoint(""), "");
}

#[test]
fn websocket_url_attaches_the_token() {
    assert_eq!(
        websocket_url("https://c.example/ws", "a b&c").as_deref(),
        Some("wss://c.example/ws?token=a+b%26c")
    );
    assert_eq!(
        websocket_url("http://c.example/ws?x=1", "t").as_deref(),
        Some("ws://c.example/ws?x=1&token=t")
    );
    assert_eq!(websocket_url("not a url", "t"), None);
    assert_eq!(websocket_url("", "t"), None);
}

#[test]
fn new_reporter_starts_idle() {
    let r = Reporter::new(config(true, "wss://c.example/ws", "t"));
    assert!(!r.is_connected());
    assert!(r.config().enabled);
    assert_eq!(r.config().token, "t");
    let _ = ConnectionState::Idle;
}

#[test]
fn first_snapshots_are_always_queued() {
    let mut r = Reporter::new(config(true, "wss://c.example/ws", "t"));
    assert!(r.send_window_info(&window("", "", 0)));
    assert!(r.send_media_playback(&metadata("Song", None), &state(0)));
    assert_eq!(drain(&mut r).len(), 2);
}

#[test]
fn reconnecting_keeps_fingerprints() {
    let mut r = Reporter::new(config(true, "wss://c.example/ws", "t"));
    let w = window("Editor", "editor.exe", 100);
    assert!(r.send_window_info(&w));
    r.handshake_finished(true);
    r.connection_lost();
    r.handshake_finished(false);
    assert!(!r.send_window_info(&w));
}
