use now_playing::music_service::launch_plan;
use now_playing::{Config, MusicServiceType, ServiceLaunch, SpotifyConfig, TemplateMode};

#[test]
fn defaults() {
    let c = Config::default();
    assert_eq!(c.service.service_type, MusicServiceType::Cider);
    assert_eq!(c.service.cider.host, "localhost");
    assert_eq!(c.service.cider.port, 10767);
    assert_eq!(c.server.host, "127.0.0.1");
    assert_eq!(c.server.port, 8765);
    assert!(!c.obs.enabled);
    assert_eq!(c.obs.host, "localhost");
    assert_eq!(c.obs.port, 4455);
    assert_eq!(c.obs.password, "");
    assert_eq!(c.obs.scene_name, "Now Playing");
    assert_eq!(c.obs.source_name, "Now Playing");
    assert_eq!(c.widget.width, 360);
    assert_eq!(c.widget.height, 160);
    assert_eq!(c.widget.template, "");
    assert_eq!(c.widget.template_mode, TemplateMode::Default);
    assert_eq!(c.widget.custom_template_path, None);
    let s = c.service.spotify.unwrap();
    assert_eq!(s.redirect_uri, "http://localhost:8888/callback");
    assert_eq!(s.client_id, "");
    assert_eq!(s.token_cache_path, None);
}

#[test]
fn platform_default_player() {
    assert_eq!(MusicServiceType::platform_default(true), MusicServiceType::AppleMusic);
    assert_eq!(MusicServiceType::platform_default(false), MusicServiceType::Cider);
    assert_eq!(MusicServiceType::default(), MusicServiceType::Cider);
    assert_eq!(TemplateMode::default(), TemplateMode::Default);
}

#[test]
fn launch_plans() {
    let mut c = Config::default();
    match launch_plan(&c.service).unwrap() {
        ServiceLaunch::Cider { host, port } => {
            assert_eq!(host, "localhost");
            assert_eq!(port, 10767);
        }
        other => panic!("unexpected {:?}", other),
    }
    c.service.service_type = MusicServiceType::AppleMusic;
    assert!(matches!(launch_plan(&c.service), Ok(ServiceLaunch::AppleMusic)));
    c.service.service_type = MusicServiceType::Spotify;
    c.service.spotify = Some(SpotifyConfig { client_id: "id".to_string(), ..SpotifyConfig::default() });
    match launch_plan(&c.service).unwrap() {
        ServiceLaunch::Spotify { client_id, redirect_uri, .. } => {
            assert_eq!(client_id, "id");
            assert_eq!(redirect_uri, "http://localhost:8888/callback");
        }
        other => panic!("unexpected {:?}", other),
    }
    c.service.spotify = None;
    assert_eq!(launch_plan(&c.service).unwrap_err(), "Spotify not configured");
}

#[test]
fn platform_configs() {
    let mac = Config::for_platform(true);
    assert_eq!(mac.service.service_type, MusicServiceType::AppleMusic);
    assert_eq!(mac.server.port, 8765);
    assert_eq!(mac.obs.scene_name, "Now Playing");
    let other = Config::for_platform(false);
    assert_eq!(other.service.service_type, MusicServiceType::Cider);
    assert_eq!(other.widget.width, 360);
}
