//! The track record that every music source produces, and its model.

use vstd::prelude::*;

use crate::config::{MusicServiceConfig, MusicServiceType};

verus! {

/// What is known about the track that is playing.
#[derive(Clone, Debug)]
pub struct TrackInfo {
    pub title: String,
    pub artist: String,
    pub album: String,
    pub duration_seconds: u32,
    pub position_seconds: u32,
    pub is_playing: bool,
    pub artwork_base64: Option<String>,
}

/// The mathematical model of a `TrackInfo`: its texts as character sequences.
pub struct TrackModel {
    pub title: Seq<char>,
    pub artist: Seq<char>,
    pub album: Seq<char>,
    pub duration_seconds: u32,
    pub position_seconds: u32,
    pub is_playing: bool,
    pub artwork: Option<Seq<char>>,
}

impl View for TrackInfo {
    type V = TrackModel;

    open spec fn view(&self) -> TrackModel {
        TrackModel {
            title: self.title@,
            artist: self.artist@,
            album: self.album@,
            duration_seconds: self.duration_seconds,
            position_seconds: self.position_seconds,
            is_playing: self.is_playing,
            artwork: match self.artwork_base64 {
                Some(a) => Some(a@),
                None => None,
            },
        }
    }
}

/// The model of the empty track: no texts, zero times, not playing, no artwork.
pub open spec fn empty_track() -> TrackModel {
    TrackModel {
        title: Seq::empty(),
        artist: Seq::empty(),
        album: Seq::empty(),
        duration_seconds: 0,
        position_seconds: 0,
        is_playing: false,
        artwork: None,
    }
}

impl Default for TrackInfo {
    fn default() -> (r: Self)
        ensures
            r@ == empty_track(),
    {
        TrackInfo {
            title: String::new(),
            artist: String::new(),
            album: String::new(),
            duration_seconds: 0,
            position_seconds: 0,
            is_playing: false,
            artwork_base64: None,
        }
    }
}

impl PartialEq for TrackInfo {
    fn eq(&self, other: &Self) -> (r: bool) {
        let same_artwork = match (&self.artwork_base64, &other.artwork_base64) {
            (Some(a), Some(b)) => String::eq(a, b),
            (None, None) => true,
            _ => false,
        };
        String::eq(&self.title, &other.title) && String::eq(&self.artist, &other.artist)
            && String::eq(&self.album, &other.album) && self.duration_seconds == other.duration_seconds && self.position_seconds
            == other.position_seconds && self.is_playing == other.is_playing && same_artwork
    }
}

impl vstd::std_specs::cmp::PartialEqSpecImpl for TrackInfo {
    open spec fn obeys_eq_spec() -> bool {
        true
    }

    open spec fn eq_spec(&self, other: &Self) -> bool {
        self@ == other@
    }
}

impl TrackInfo {
    /// An independent copy of the record.
    pub fn snapshot(&self) -> (r: TrackInfo)
        ensures
            r@ == self@,
    {
        TrackInfo {
            title: self.title.clone(),
            artist: self.artist.clone(),
            album: self.album.clone(),
            duration_seconds: self.duration_seconds,
            position_seconds: self.position_seconds,
            is_playing: self.is_playing,
            artwork_base64: match &self.artwork_base64 {
                Some(a) => Some(a.clone()),
                None => None,
            },
        }
    }

    /// Whether two records describe the same track state, field by field.
    pub fn same_as(&self, other: &TrackInfo) -> (r: bool)
        ensures
            r == (self@ == other@),
    {
        self.eq(other)
    }
}

/// How the configured music source is to be started.
#[derive(Clone, Debug)]
pub enum ServiceLaunch {
    /// Poll Apple Music through its scripting interface.
    AppleMusic,
    /// Connect to Cider's socket server.
    Cider { host: String, port: u16 },
    /// Authorize with Spotify and poll its web API.
    Spotify { client_id: String, client_secret: String, redirect_uri: String },
}

/// How the configured music source is to be started, or why it cannot be:
/// Spotify needs its settings.
pub fn launch_plan(service: &MusicServiceConfig) -> (r: Result<ServiceLaunch, String>)
    ensures
        match service.service_type {
            MusicServiceType::AppleMusic => r matches Ok(ServiceLaunch::AppleMusic),
            MusicServiceType::Cider => r matches Ok(ServiceLaunch::Cider { host, port })
                && host@ == service.cider.host@ && port == service.cider.port,
            MusicServiceType::Spotify => match service.spotify {
                Some(s) => r matches Ok(ServiceLaunch::Spotify { client_id, client_secret, redirect_uri })
                    && client_id@ == s.client_id@ && client_secret@ == s.client_secret@
                    && redirect_uri@ == s.redirect_uri@,
                None => r matches Err(m) && m@ == "Spotify not configured"@,
            },
        },
{
    match service.service_type {
        MusicServiceType::AppleMusic => Ok(ServiceLaunch::AppleMusic),
        MusicServiceType::Cider => Ok(
            ServiceLaunch::Cider { host: service.cider.host.clone(), port: service.cider.port },
        ),
        MusicServiceType::Spotify => match &service.spotify {
            Some(s) => Ok(
                ServiceLaunch::Spotify {
                    client_id: s.client_id.clone(),
                    client_secret: s.client_secret.clone(),
                    redirect_uri: s.redirect_uri.clone(),
                },
            ),
            None => Err(String::from_str("Spotify not configured")),
        },
    }
}

} // verus!
