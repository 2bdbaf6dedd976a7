use now_playing::spotify::{
    authorization_code, find_code, join_artist_names, query_of, spotify_authorization_url,
    track_from_currently_playing,
    PollOutcome, SpotifyAlbum, SpotifyArtist, SpotifyCurrentlyPlaying, SpotifyItem,
};

fn reply(artists: &[&str]) -> SpotifyCurrentlyPlaying {
    SpotifyCurrentlyPlaying {
        is_playing: Some(true),
        progress_ms: Some(61_999),
        item: SpotifyItem {
            name: Some("Track".to_string()),
            duration_ms: Some(180_500),
            album: SpotifyAlbum { name: None },
            artists: artists.iter().map(|a| SpotifyArtist { name: a.to_string() }).collect(),
        },
    }
}

#[test]
fn reply_to_track() {
    let t = track_from_currently_playing(&reply(&["A", "B", "C"]));
    assert_eq!(t.title, "Track");
    assert_eq!(t.artist, "A, B, C");
    assert_eq!(t.album, "");
    assert_eq!(t.duration_seconds, 180);
    assert_eq!(t.position_seconds, 61);
    assert!(t.is_playing);
    assert_eq!(t.artwork_base64, None);
}

#[test]
fn missing_fields_default() {
    let mut r = reply(&[]);
    r.is_playing = None;
    r.progress_ms = None;
    r.item.name = None;
    let t = track_from_currently_playing(&r);
    assert_eq!(t.title, "");
    assert_eq!(t.artist, "");
    assert_eq!(t.position_seconds, 0);
    assert!(!t.is_playing);
}

#[test]
fn huge_durations_wrap_like_as() {
    let mut r = reply(&["x"]);
    r.item.duration_ms = Some(u64::MAX);
    let t = track_from_currently_playing(&r);
    assert_eq!(t.duration_seconds, (u64::MAX / 1000) as u32);
}

#[test]
fn artist_names() {
    let one = vec![SpotifyArtist { name: "Solo".to_string() }];
    assert_eq!(join_artist_names(&one), "Solo");
    assert_eq!(join_artist_names(&vec![]), "");
}

#[test]
fn poll_outcomes() {
    assert_eq!(PollOutcome::for_status(200), PollOutcome::ReadBody);
    assert_eq!(PollOutcome::for_status(204), PollOutcome::ReadBody);
    assert_eq!(PollOutcome::for_status(401), PollOutcome::Unexpected);
    assert_eq!(PollOutcome::for_status(199), PollOutcome::Unexpected);
}

#[test]
fn query_extraction() {
    assert_eq!(query_of("/callback?code=1&state=2"), "code=1&state=2");
    assert_eq!(query_of("/callback"), "");
    assert_eq!(query_of("/a?b?c"), "b");
}

#[test]
fn code_from_redirect() {
    assert_eq!(authorization_code("/callback?state=s&code=abc"), Some("abc".to_string()));
    assert_eq!(authorization_code("/callback?code=a%20b+c"), Some("a b c".to_string()));
    assert_eq!(authorization_code("/callback?code=first&code=second"), Some("first".to_string()));
    assert_eq!(authorization_code("/callback?error=access_denied"), None);
    assert_eq!(authorization_code("/callback"), None);
}

#[test]
fn first_code_pair() {
    let pairs = vec![
        ("x".to_string(), "1".to_string()),
        ("code".to_string(), "2".to_string()),
        ("code".to_string(), "3".to_string()),
    ];
    assert_eq!(find_code(&pairs), Some("2".to_string()));
}

#[test]
fn authorization_url_carries_request() {
    let (url, state) =
        spotify_authorization_url("my id", "http://localhost:8888/callback").unwrap();
    assert!(!state.is_empty());
    assert!(url.starts_with("https://accounts.spotify.com/authorize?response_type=code"));
    assert!(url.contains("client_id=my+id"));
    assert!(url.contains(&format!("state={}", state)));
    assert!(url.contains("redirect_uri=http%3A%2F%2Flocalhost%3A8888%2Fcallback"));
    assert!(url.contains("scope=user-read-currently-playing+user-read-playback-state"));
}

#[test]
fn authorization_url_refuses_bad_redirect() {
    assert_eq!(spotify_authorization_url("id", "not a url"), None);
}
