//! Now Playing: the verified core of a music "now playing" widget. It reads
//! the player state that Apple Music, Cider and Spotify report, keeps the
//! track state, renders the widget page, and decides the requests that keep
//! an OBS browser source pointed at the widget.

pub mod apple_music;
pub mod cider_client;
pub mod config;
pub mod music_service;
pub mod obs_client;
pub mod spotify;
pub mod template;
pub mod text;
pub mod webserver;

pub use config::{
    CiderConfig, Config, MusicServiceConfig, MusicServiceType, ObsConfig, ServerConfig,
    SpotifyConfig, TemplateMode, WidgetConfig,
};
pub use music_service::{ServiceLaunch, TrackInfo};
pub use template::TemplateEngine;
pub use webserver::WebServer;
