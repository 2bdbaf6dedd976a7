use now_playing::cider_client::{
    apply_event, apply_events, artwork_url, cider_endpoint, cider_url, CiderArtwork,
    CiderEvent, CiderEventKind, CiderPlaybackData,
};
use now_playing::TrackInfo;

fn item(name: &str, artwork: Option<CiderArtwork>) -> CiderPlaybackData {
    CiderPlaybackData {
        name: Some(name.to_string()),
        artist_name: Some("Artist".to_string()),
        album_name: None,
        artwork,
        duration_seconds: 200,
    }
}

#[test]
fn event_kinds() {
    assert_eq!(
        CiderEventKind::from_event_type("playbackStatus.nowPlayingItemDidChange"),
        CiderEventKind::NowPlayingItemDidChange
    );
    assert_eq!(
        CiderEventKind::from_event_type("playbackStatus.playbackTimeDidChange"),
        CiderEventKind::PlaybackTimeDidChange
    );
    assert_eq!(
        CiderEventKind::from_event_type("playbackStatus.playbackStateDidChange"),
        CiderEventKind::PlaybackStateDidChange
    );
    assert_eq!(CiderEventKind::from_event_type("other"), CiderEventKind::Other);
}

#[test]
fn artwork_url_fills_size() {
    assert_eq!(
        artwork_url("https://img/{w}x{h}bb.jpg", 512, 256),
        "https://img/512x256bb.jpg"
    );
    assert_eq!(artwork_url("plain", 1, 2), "plain");
}

#[test]
fn now_playing_item_sets_metadata() {
    let mut t = TrackInfo::default();
    t.position_seconds = 9;
    let art = CiderArtwork { url: Some("u/{w}/{h}".to_string()), width: None, height: Some(100) };
    let published = apply_event(&mut t, &CiderEvent::NowPlayingItemDidChange(item("Song", Some(art))));
    assert!(published);
    assert_eq!(t.title, "Song");
    assert_eq!(t.artist, "Artist");
    assert_eq!(t.album, "");
    assert_eq!(t.duration_seconds, 200);
    assert_eq!(t.position_seconds, 9);
    assert_eq!(t.artwork_base64, Some("u/512/100".to_string()));
}

#[test]
fn artwork_kept_when_item_has_none() {
    let mut t = TrackInfo::default();
    t.artwork_base64 = Some("old".to_string());
    apply_event(&mut t, &CiderEvent::NowPlayingItemDidChange(item("S", None)));
    assert_eq!(t.artwork_base64, Some("old".to_string()));
    let no_url = CiderArtwork { url: None, width: Some(1), height: Some(1) };
    apply_event(&mut t, &CiderEvent::NowPlayingItemDidChange(item("S", Some(no_url))));
    assert_eq!(t.artwork_base64, Some("old".to_string()));
}

#[test]
fn time_event_updates_times_only() {
    let mut t = TrackInfo::default();
    t.title = "Keep".to_string();
    t.duration_seconds = 50;
    apply_event(&mut t, &CiderEvent::PlaybackTimeDidChange { position_seconds: 12, duration_seconds: None });
    assert_eq!(t.position_seconds, 12);
    assert_eq!(t.duration_seconds, 50);
    assert_eq!(t.title, "Keep");
    apply_event(&mut t, &CiderEvent::PlaybackTimeDidChange { position_seconds: 13, duration_seconds: Some(60) });
    assert_eq!(t.duration_seconds, 60);
}

#[test]
fn state_event() {
    let mut t = TrackInfo::default();
    apply_event(&mut t, &CiderEvent::PlaybackStateDidChange { state: Some("playing".to_string()), attributes: None });
    assert!(t.is_playing);
    apply_event(&mut t, &CiderEvent::PlaybackStateDidChange { state: None, attributes: None });
    assert!(t.is_playing);
    apply_event(&mut t, &CiderEvent::PlaybackStateDidChange { state: Some("paused".to_string()), attributes: Some(item("New", None)) });
    assert!(!t.is_playing);
    assert_eq!(t.title, "New");
}

#[test]
fn ignored_events_change_nothing() {
    let mut t = TrackInfo::default();
    t.title = "x".to_string();
    let before = t.clone();
    assert!(!apply_event(&mut t, &CiderEvent::Ignored));
    assert_eq!(t, before);
}

#[test]
fn event_applied_twice_same_as_once() {
    let e = CiderEvent::PlaybackStateDidChange { state: Some("playing".to_string()), attributes: Some(item("T", None)) };
    let mut once = TrackInfo::default();
    apply_event(&mut once, &e);
    let mut twice = once.clone();
    apply_event(&mut twice, &e);
    assert_eq!(once, twice);
}

#[test]
fn batch_publishes_after_each_handled_event() {
    let mut t = TrackInfo::default();
    let events = vec![
        CiderEvent::NowPlayingItemDidChange(item("A", None)),
        CiderEvent::Ignored,
        CiderEvent::PlaybackTimeDidChange { position_seconds: 3, duration_seconds: None },
    ];
    let published = apply_events(&mut t, &events);
    assert_eq!(published.len(), 2);
    assert_eq!(published[0].title, "A");
    assert_eq!(published[0].position_seconds, 0);
    assert_eq!(published[1].position_seconds, 3);
    assert_eq!(t, published[1]);
}

#[test]
fn endpoint_defaults() {
    let (h, p) = cider_endpoint(None, None);
    assert_eq!(h, "localhost");
    assert_eq!(p, 10767);
    let (h, p) = cider_endpoint(Some("box".to_string()), Some(1));
    assert_eq!(h, "box");
    assert_eq!(p, 1);
    assert_eq!(cider_url("localhost", 10767), "http://localhost:10767");
}
