//! The application's settings and their defaults.

use vstd::prelude::*;

verus! {

/// Which player the track state comes from.
#[derive(Clone, Copy, Debug, PartialEq, Eq, Structural)]
pub enum MusicServiceType {
    /// Apple Music through its scripting interface (only on macOS).
    AppleMusic,
    /// The Cider player through its socket API.
    Cider,
    /// Spotify through its web API.
    Spotify,
}

impl MusicServiceType {
    /// The player chosen by default: Apple Music where it can be scripted,
    /// Cider elsewhere.
    pub open spec fn platform_default_spec(apple_music_available: bool) -> MusicServiceType {
        if apple_music_available { MusicServiceType::AppleMusic } else { MusicServiceType::Cider }
    }

    /// The player chosen by default: Apple Music where it can be scripted,
    /// Cider elsewhere.
    pub fn platform_default(apple_music_available: bool) -> (r: MusicServiceType)
        ensures
            r == MusicServiceType::platform_default_spec(apple_music_available),
    {
        if apple_music_available {
            MusicServiceType::AppleMusic
        } else {
            MusicServiceType::Cider
        }
    }
}

impl Default for MusicServiceType {
    /// The default where Apple Music cannot be scripted: Cider.
    fn default() -> (r: Self)
        ensures
            r == MusicServiceType::Cider,
    {
        MusicServiceType::platform_default(false)
    }
}

/// Where Cider's socket server listens.
#[derive(Clone, Debug)]
pub struct CiderConfig {
    pub host: String,
    pub port: u16,
}

/// Spotify application credentials.
#[derive(Clone, Debug)]
pub struct SpotifyConfig {
    /// Spotify OAuth2 Client ID (user-provided)
    pub client_id: String,
    /// Spotify OAuth2 Client Secret (user-provided)
    pub client_secret: String,
    /// Redirect URI registered with Spotify (e.g. http://localhost:8888/callback)
    pub redirect_uri: String,
    /// Optional cached access token file path (app may store tokens here)
    pub token_cache_path: Option<String>,
}

/// The music source and its settings.
#[derive(Clone, Debug)]
pub struct MusicServiceConfig {
    pub service_type: MusicServiceType,
    pub cider: CiderConfig,
    pub spotify: Option<SpotifyConfig>,
}

/// Where the widget's web server listens.
#[derive(Clone, Debug)]
pub struct ServerConfig {
    pub host: String,
    pub port: u16,
}

/// The OBS WebSocket connection and the scene and source to manage.
#[derive(Clone, Debug)]
pub struct ObsConfig {
    pub enabled: bool,
    pub host: String,
    pub port: u16,
    pub password: String,
    pub scene_name: String,
    pub source_name: String,
}

/// Whether the widget uses the bundled template or a file of the user's.
#[derive(Clone, Copy, Debug, PartialEq, Eq, Structural)]
pub enum TemplateMode {
    Default,
    Custom,
}

impl Default for TemplateMode {
    fn default() -> (r: Self)
        ensures
            r == TemplateMode::Default,
    {
        TemplateMode::Default
    }
}

/// The widget's size and template.
#[derive(Clone, Debug)]
pub struct WidgetConfig {
    pub width: u32,
    pub height: u32,
    pub template: String,
    pub template_mode: TemplateMode,
    pub custom_template_path: Option<String>,
}

/// All settings.
#[derive(Clone, Debug)]
pub struct Config {
    pub service: MusicServiceConfig,
    pub server: ServerConfig,
    pub obs: ObsConfig,
    pub widget: WidgetConfig,
}

impl SpotifyConfig {
    /// Whether these are the default Spotify settings: no credentials, the
    /// local callback as redirect, and no token cache.
    pub open spec fn is_default(&self) -> bool {
        &&& self.client_id@.len() == 0
        &&& self.client_secret@.len() == 0
        &&& self.redirect_uri@ == "http://localhost:8888/callback"@
        &&& self.token_cache_path is None
    }
}

impl Default for SpotifyConfig {
    fn default() -> (r: Self)
        ensures
            r.is_default(),
    {
        SpotifyConfig {
            client_id: String::new(),
            client_secret: String::new(),
            redirect_uri: String::from_str("http://localhost:8888/callback"),
            token_cache_path: None,
        }
    }
}

impl Config {
    /// Whether these are the default settings: the platform-independent
    /// default player (Cider) at `localhost:10767`, default Spotify
    /// settings, the server on `127.0.0.1:8765`, OBS disabled at
    /// `localhost:4455` without password and with scene and source
    /// "Now Playing", and a 360 by 160 widget with the bundled template.
    pub open spec fn is_default(&self) -> bool {
        &&& self.service.service_type == MusicServiceType::Cider
        &&& self.has_default_settings()
    }

    /// Whether every setting but the player is at its default (see
    /// `is_default`).
    pub open spec fn has_default_settings(&self) -> bool {
        &&& self.service.cider.host@ == "localhost"@
        &&& self.service.cider.port == 10767
        &&& self.service.spotify matches Some(s) && s.is_default()
        &&& self.server.host@ == "127.0.0.1"@
        &&& self.server.port == 8765
        &&& !self.obs.enabled
        &&& self.obs.host@ == "localhost"@
        &&& self.obs.port == 4455
        &&& self.obs.password@.len() == 0
        &&& self.obs.scene_name@ == "Now Playing"@
        &&& self.obs.source_name@ == "Now Playing"@
        &&& self.widget.width == 360
        &&& self.widget.height == 160
        &&& self.widget.template@.len() == 0
        &&& self.widget.template_mode == TemplateMode::Default
        &&& self.widget.custom_template_path is None
    }
}

impl Config {
    /// The default settings, with the player chosen by default for the
    /// platform (see `MusicServiceType::platform_default`).
    pub fn for_platform(apple_music_available: bool) -> (r: Config)
        ensures
            r.service.service_type == MusicServiceType::platform_default_spec(apple_music_available),
            r.has_default_settings(),
    {
        let mut c = Config::default();
        c.service.service_type = MusicServiceType::platform_default(apple_music_available);
        c
    }
}

impl Default for Config {
    fn default() -> (r: Self)
        ensures
            r.is_default(),
    {
        Config {
            service: MusicServiceConfig {
                service_type: MusicServiceType::default(),
                cider: CiderConfig { host: String::from_str("localhost"), port: 10767 },
                spotify: Some(SpotifyConfig::default()),
            },
            server: ServerConfig { host: String::from_str("127.0.0.1"), port: 8765 },
            obs: ObsConfig {
                enabled: false,
                host: String::from_str("localhost"),
                port: 4455,
                password: String::new(),
                scene_name: String::from_str("Now Playing"),
                source_name: String::from_str("Now Playing"),
            },
            widget: WidgetConfig {
                width: 360,
                height: 160,
                template: String::new(),
                template_mode: TemplateMode::Default,
                custom_template_path: None,
            },
        }
    }
}

} // verus!
