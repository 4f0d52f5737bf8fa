use std::hash::Hasher;

use shikenmatrix::artwork::ArtworkCache;
use shikenmatrix::config::{config_or_default, save_reporter_config, AppConfig};
use shikenmatrix::fingerprint::{compute_hash, encode_media, encode_window};
use shikenmatrix::media::{apply_reading, is_cache_valid, update_cache_from_info, MediaCache, NowPlayingInfo};
use shikenmatrix::monitor::{MediaOutcome, Monitor, WindowOutcome};
use shikenmatrix::protocol::{MediaMetadataData, PlaybackStateData, ReporterMessage, WindowInfoData};
use shikenmatrix::reporter::{Reporter, ReporterConfig};
use shikenmatrix::snapshot::{MediaMetadata, PlaybackState, WindowInfo};
use shikenmatrix::window::{icon_cache_key, WindowCache};

fn reporter() -> Reporter {
    Reporter::new(ReporterConfig {
        enabled: true,
        ws_url: "wss://c.example/ws".to_string(),
        token: "t".to_string(),
    })
}

fn window(title: &str, pid: i32) -> WindowInfo {
    WindowInfo {
        title: title.to_string(),
        icon_data: None,
        process_name: "p".to_string(),
        pid,
        app_id: None,
    }
}

fn media_with_artwork(artwork: Option<&str>) -> MediaMetadata {
    MediaMetadata {
        bundle_identifier: Some("com.example.player".to_string()),
        title: Some("Song".to_string()),
        artist: None,
        album: Some("Album".to_string()),
        duration_ms: 1000,
        artwork_data: artwork.map(|a| a.to_string()),
        artwork_mime_type: Some("image/png".to_string()),
        content_item_identifier: Some("com.example.player:Song:Album".to_string()),
    }
}

fn playing() -> PlaybackState {
    PlaybackState { playing: true, playback_rate: 100, elapsed_ms: 0 }
}

fn reading(artwork: Option<&str>, album: Option<&str>) -> NowPlayingInfo {
    NowPlayingInfo {
        bundle_identifier: "com.app".to_string(),
        playing: true,
        title: "Song".to_string(),
        artist: Some("Artist".to_string()),
        album: album.map(|a| a.to_string()),
        duration_ms: Some(200_000),
        elapsed_ms: None,
        artwork_mime_type: artwork.map(|_| "image/jpeg".to_string()),
        artwork_data: artwork.map(|a| a.to_string()),
        playback_rate: None,
    }
}

#[test]
fn window_encoding_is_exact() {
    let d = WindowInfoData {
        title: "a".to_string(),
        process_name: "é".to_string(),
        icon_url: None,
        app_id: Some("x".to_string()),
        pid: 258,
    };
    let expected: Vec<u8> = vec![
        1, 0, 0, 0, 0, 0, 0, 0, b'a', //
        2, 0, 0, 0, 0, 0, 0, 0, 0xC3, 0xA9, //
        0, //
        1, 1, 0, 0, 0, 0, 0, 0, 0, b'x', //
        2, 1, 0, 0, 0, 0, 0, 0,
    ];
    assert_eq!(encode_window(&d), expected);
}

#[test]
fn media_encoding_quantizes_elapsed_time() {
    let m = MediaMetadataData {
        bundle_identifier: None,
        title: None,
        artist: None,
        album: None,
        duration_ms: 5,
        artwork_url: None,
        content_item_identifier: None,
    };
    let s = PlaybackStateData { playing: true, playback_rate: -1, elapsed_ms: 2_999 };
    let expected: Vec<u8> = vec![
        0, 0, 0, 0, //
        5, 0, 0, 0, 0, 0, 0, 0, //
        0, 0, //
        1, //
        255, 255, 255, 255, 255, 255, 255, 255, //
        2, 0, 0, 0, 0, 0, 0, 0,
    ];
    assert_eq!(encode_media(&m, &s), expected);
}

#[test]
fn compute_hash_is_the_default_hasher_digest() {
    let bytes = vec![1u8, 2, 3];
    let mut h = std::hash::DefaultHasher::new();
    h.write(&bytes);
    assert_eq!(compute_hash(&bytes), h.finish());
    assert_eq!(compute_hash(&bytes), compute_hash(&vec![1u8, 2, 3]));
    assert_ne!(compute_hash(&bytes), compute_hash(&vec![1u8, 2, 4]));
}

#[test]
fn window_fault_is_reported_once_per_episode() {
    let mut r = reporter();
    let mut m = Monitor::new();
    assert!(matches!(m.observe_window(&mut r, Err("denied".to_string())), WindowOutcome::Warn(e) if e == "denied"));
    assert!(matches!(m.observe_window(&mut r, Err("denied".to_string())), WindowOutcome::Quiet));
    assert!(matches!(m.observe_window(&mut r, Ok(window("A", 1))), WindowOutcome::Changed { queued: true, refused: false }));
    assert!(matches!(m.observe_window(&mut r, Ok(window("A", 1))), WindowOutcome::Unchanged));
    assert!(matches!(m.observe_window(&mut r, Err("again".to_string())), WindowOutcome::Warn(_)));
    assert!(r.next_outbound().is_some());
    assert!(r.next_outbound().is_none());
}

#[test]
fn monitor_offers_changed_windows_only() {
    let mut r = reporter();
    let mut m = Monitor::new();
    m.observe_window(&mut r, Ok(window("A", 1)));
    m.observe_window(&mut r, Ok(window("A", 1)));
    m.observe_window(&mut r, Ok(window("B", 2)));
    let mut n = 0;
    while r.next_outbound().is_some() {
        n += 1;
    }
    assert_eq!(n, 2);
    assert_eq!(m.last_window_info.unwrap().title, "B");
}

#[test]
fn monitor_decodes_and_uploads_new_artwork() {
    let mut r = reporter();
    let mut m = Monitor::new();
    match m.observe_media(&mut r, media_with_artwork(Some("aGVsbG8=")), playing()) {
        MediaOutcome::Changed { artwork, upload_skipped, queued, refused } => {
            assert_eq!(artwork, Some(b"hello".to_vec()));
            assert!(!upload_skipped);
            assert!(queued);
            assert!(!refused);
        }
        MediaOutcome::Unchanged => panic!("expected a change"),
    }
    assert!(matches!(r.next_outbound(), Some(ReporterMessage::MediaPlayback(_, _))));
    match r.next_outbound() {
        Some(ReporterMessage::UploadArtwork { content_item_identifier, artwork_data, mime_type }) => {
            assert_eq!(content_item_identifier, "com.example.player:Song:Album");
            assert_eq!(artwork_data, b"hello".to_vec());
            assert_eq!(mime_type, "image/png");
        }
        other => panic!("unexpected {:?}", other),
    }
    assert!(matches!(
        m.observe_media(&mut r, media_with_artwork(Some("aGVsbG8=")), playing()),
        MediaOutcome::Unchanged
    ));
    assert!(r.next_outbound().is_none());
}

#[test]
fn monitor_skips_undecodable_artwork() {
    let mut r = reporter();
    let mut m = Monitor::new();
    match m.observe_media(&mut r, media_with_artwork(Some("!!not base64!!")), playing()) {
        MediaOutcome::Changed { artwork, upload_skipped, queued, refused } => {
            assert_eq!(artwork, None);
            assert!(upload_skipped);
            assert!(queued);
            assert!(!refused);
        }
        MediaOutcome::Unchanged => panic!("expected a change"),
    }
    assert!(matches!(r.next_outbound(), Some(ReporterMessage::MediaPlayback(_, _))));
    assert!(r.next_outbound().is_none());
}

#[test]
fn monitor_does_not_upload_cached_artwork_or_on_state_change() {
    let mut r = reporter();
    let mut m = Monitor::new();
    m.observe_media(&mut r, media_with_artwork(Some("aGVsbG8=")), playing());
    while r.next_outbound().is_some() {}
    let later = PlaybackState { playing: true, playback_rate: 100, elapsed_ms: 5_000 };
    assert!(matches!(
        m.observe_decoded_media(&mut r, media_with_artwork(Some("aGVsbG8=")), later, Some(b"hello".to_vec())),
        MediaOutcome::Changed { upload_skipped: false, .. }
    ));
    assert!(matches!(r.next_outbound(), Some(ReporterMessage::MediaPlayback(_, _))));
    assert!(r.next_outbound().is_none());
}

#[test]
fn cache_keeps_artwork_for_the_same_content() {
    let mut c = MediaCache::new();
    assert!(!is_cache_valid(&c, 0));
    update_cache_from_info(&reading(Some("QUJD"), Some("Album")), &mut c, 1_000);
    let md = c.metadata.clone().unwrap();
    assert_eq!(md.content_item_identifier.as_deref(), Some("com.app:Song:Album"));
    assert_eq!(md.artwork_data.as_deref(), Some("QUJD"));
    assert_eq!(md.duration_ms, 200_000);
    let st = c.playback_state.clone().unwrap();
    assert_eq!(st.playback_rate, 100);
    assert_eq!(st.elapsed_ms, 0);

    update_cache_from_info(&reading(None, Some("Album")), &mut c, 1_100);
    assert_eq!(c.metadata.clone().unwrap().artwork_data.as_deref(), Some("QUJD"));
    assert_eq!(c.metadata.clone().unwrap().artwork_mime_type.as_deref(), Some("image/jpeg"));

    update_cache_from_info(&reading(None, None), &mut c, 1_200);
    let md = c.metadata.clone().unwrap();
    assert_eq!(md.content_item_identifier.as_deref(), Some("com.app:Song:"));
    assert_eq!(md.artwork_data, None);
    assert_eq!(md.artwork_mime_type, None);
}

#[test]
fn empty_reading_fields_become_absent() {
    let mut c = MediaCache::new();
    let mut info = reading(None, None);
    info.bundle_identifier = String::new();
    info.title = String::new();
    info.playing = false;
    update_cache_from_info(&info, &mut c, 0);
    let md = c.metadata.clone().unwrap();
    assert_eq!(md.bundle_identifier, None);
    assert_eq!(md.title, None);
    assert_eq!(md.content_item_identifier.as_deref(), Some("::"));
    assert_eq!(c.playback_state.unwrap().playback_rate, 0);
}

#[test]
fn cache_freshness_window() {
    let mut c = MediaCache::new();
    apply_reading(&mut c, Some(reading(None, None)), 1_000);
    assert!(is_cache_valid(&c, 1_000));
    assert!(is_cache_valid(&c, 1_199));
    assert!(!is_cache_valid(&c, 1_200));
    assert!(is_cache_valid(&c, 500));
    apply_reading(&mut c, None, 2_000);
    assert!(c.metadata.is_none());
    assert!(c.playback_state.is_none());
    assert!(is_cache_valid(&c, 2_100));
}

#[test]
fn window_cache_hits_same_process_only_while_fresh() {
    let mut c = WindowCache::new();
    assert!(!c.hit(0, 0));
    c.store(window("A", 7), 7, 1_000);
    assert!(c.hit(7, 1_050));
    assert!(!c.hit(7, 1_100));
    assert!(!c.hit(8, 1_050));
}

#[test]
fn icon_key_defaults_to_unknown() {
    assert_eq!(icon_cache_key(&None), "unknown");
    assert_eq!(icon_cache_key(&Some("com.app".to_string())), "com.app");
}

#[test]
fn artwork_cache_lookup() {
    let mut c = ArtworkCache::new();
    assert!(!c.contains(&"a".to_string()));
    c.insert("a".to_string(), "u1".to_string());
    c.insert("b".to_string(), "u2".to_string());
    c.insert("a".to_string(), "u3".to_string());
    assert_eq!(c.get(&"a".to_string()).as_deref(), Some("u3"));
    assert_eq!(c.get(&"b".to_string()).as_deref(), Some("u2"));
    assert_eq!(c.get(&"c".to_string()), None);
}

#[test]
fn config_defaults_and_updates() {
    let d = config_or_default(None);
    assert!(!d.reporter.enabled);
    assert!(d.reporter.ws_url.is_empty());
    assert!(d.reporter.token.is_empty());
    let loaded = AppConfig::default();
    let updated = save_reporter_config(
        loaded,
        &ReporterConfig { enabled: true, ws_url: "wss://h/ws".to_string(), token: "k".to_string() },
    );
    assert!(updated.reporter.enabled);
    assert_eq!(updated.reporter.ws_url, "wss://h/ws");
    assert_eq!(updated.reporter.token, "k");
    let kept = config_or_default(Some(updated.clone()));
    assert_eq!(kept.reporter.ws_url, "wss://h/ws");
    assert!(!ReporterConfig::default().enabled);
}

#[test]
fn monitor_reports_refused_messages_after_stop() {
    let mut r = reporter();
    let mut m = Monitor::new();
    r.stop();
    assert!(matches!(
        m.observe_window(&mut r, Ok(window("A", 1))),
        WindowOutcome::Changed { queued: false, refused: true }
    ));
    assert!(matches!(
        m.observe_media(&mut r, media_with_artwork(None), playing()),
        MediaOutcome::Changed { queued: false, refused: true, .. }
    ));
    assert!(r.next_outbound().is_none());
}
