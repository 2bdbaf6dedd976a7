//! Spotify: reading the authorization code from the OAuth redirect, and
//! turning the "currently playing" reply into the track state.

use vstd::prelude::*;

use crate::music_service::{TrackInfo, TrackModel};
use crate::text::{append_str, chars_of, split_chars, split_on, str_equals, string_from_chars};

verus! {

/// An artist of the playing item.
#[derive(Clone, Debug)]
pub struct SpotifyArtist {
    pub name: String,
}

/// The album of the playing item.
#[derive(Clone, Debug)]
pub struct SpotifyAlbum {
    pub name: Option<String>,
}

/// The playing item.
#[derive(Clone, Debug)]
pub struct SpotifyItem {
    pub name: Option<String>,
    pub duration_ms: Option<u64>,
    pub album: SpotifyAlbum,
    pub artists: Vec<SpotifyArtist>,
}

/// The reply of the "currently playing" endpoint.
#[derive(Clone, Debug)]
pub struct SpotifyCurrentlyPlaying {
    pub is_playing: Option<bool>,
    pub progress_ms: Option<u64>,
    pub item: SpotifyItem,
}

/// What to do with the reply to a poll, by its HTTP status.
#[derive(Clone, Copy, Debug, PartialEq, Eq, Structural)]
pub enum PollOutcome {
    /// A success status (200 to 299): the body describes what is playing.
    ReadBody,
    /// Any other status: reported, and nothing is updated.
    Unexpected,
}

/// The pieces joined with `sep` between neighbours.
pub open spec fn joined(parts: Seq<Seq<char>>, sep: Seq<char>) -> Seq<char>
    decreases parts.len(),
{
    if parts.len() == 0 {
        Seq::empty()
    } else if parts.len() == 1 {
        parts[0]
    } else {
        joined(parts.drop_last(), sep) + sep + parts.last()
    }
}

/// The artists' names, in order.
pub open spec fn artist_names(artists: Seq<SpotifyArtist>) -> Seq<Seq<char>> {
    artists.map_values(|a: SpotifyArtist| a.name@)
}

/// Whole seconds of a millisecond count (zero when absent), cut to `u32`
/// as an `as` conversion does.
pub open spec fn whole_seconds(ms: Option<u64>) -> u32 {
    (match ms {
        Some(m) => m,
        None => 0u64,
    } / 1000) as u32
}

/// The track that a "currently playing" reply describes.
pub open spec fn currently_playing_track(sp: SpotifyCurrentlyPlaying) -> TrackModel {
    TrackModel {
        title: match sp.item.name {
            Some(n) => n@,
            None => Seq::empty(),
        },
        artist: joined(artist_names(sp.item.artists@), ", "@),
        album: match sp.item.album.name {
            Some(n) => n@,
            None => Seq::empty(),
        },
        duration_seconds: whole_seconds(sp.item.duration_ms),
        position_seconds: whole_seconds(sp.progress_ms),
        is_playing: match sp.is_playing {
            Some(b) => b,
            None => false,
        },
        artwork: None,
    }
}

/// Whether a track shows a reply's item: its name and its album's name
/// (each empty only when absent), duration and progress in whole seconds,
/// and whether it plays (not playing when absent); no artwork.
pub open spec fn shows_reply(t: TrackModel, sp: SpotifyCurrentlyPlaying) -> bool {
    &&& t.title == (match sp.item.name {
        Some(n) => n@,
        None => Seq::<char>::empty(),
    })
    &&& t.album == (match sp.item.album.name {
        Some(n) => n@,
        None => Seq::<char>::empty(),
    })
    &&& (sp.item.duration_ms matches Some(ms) ==> t.duration_seconds == (ms / 1000) as u32)
    &&& (sp.item.duration_ms is None ==> t.duration_seconds == 0)
    &&& (sp.progress_ms matches Some(ms) ==> t.position_seconds == (ms / 1000) as u32)
    &&& (sp.progress_ms is None ==> t.position_seconds == 0)
    &&& t.is_playing == (sp.is_playing == Some(true))
    &&& t.artwork is None
}

/// The track of a reply shows the reply's item (see `shows_reply`), and a
/// single artist's name is the artist text as it is.
pub proof fn lemma_reply_fields(sp: SpotifyCurrentlyPlaying)
    ensures
        shows_reply(currently_playing_track(sp), sp),
        sp.item.artists@.len() == 1 ==> currently_playing_track(sp).artist == sp.item.artists@[0].name@,
        sp.item.artists@.len() == 0 ==> currently_playing_track(sp).artist.len() == 0,
        sp.item.artists@.len() == 2 ==> currently_playing_track(sp).artist == sp.item.artists@[0].name@
            + ", "@ + sp.item.artists@[1].name@,
{
    let names = artist_names(sp.item.artists@);
    if names.len() == 2 {
        assert(names.drop_last().len() == 1);
        assert(names.drop_last()[0] == names[0]);
        assert(joined(names.drop_last(), ", "@) == names[0]);
    }
}

/// The artists' names joined with `", "`.
pub fn join_artist_names(artists: &Vec<SpotifyArtist>) -> (r: String)
    ensures
        r@ == joined(artist_names(artists@), ", "@),
{
    let mut out: Vec<char> = Vec::new();
    let ghost names = artist_names(artists@);
    assert(names.take(0) =~= Seq::<Seq<char>>::empty());
    for i in 0..artists.len()
        invariant
            names == artist_names(artists@),
            names.len() == artists@.len(),
            out@ == joined(names.take(i as int), ", "@),
    {
        assert(names[i as int] == artists@[i as int].name@);
        assert(names.take(i + 1).drop_last() =~= names.take(i as int));
        assert(names.take(i + 1).last() == names[i as int]);
        if i != 0 {
            append_str(&mut out, ", ");
        } else {
            assert(names.take(1) =~= seq![names[0]]);
            assert(out@ =~= Seq::<char>::empty());
            assert(out@ + names[0] =~= names[0]);
        }
        append_str(&mut out, artists[i].name.as_str());
    }
    assert(names.take(artists.len() as int) =~= names);
    string_from_chars(&out)
}

fn whole_seconds_of(ms: Option<u64>) -> (r: u32)
    ensures
        r == whole_seconds(ms),
{
    let m = match ms {
        Some(m) => m,
        None => 0,
    };
    (m / 1000) as u32
}

/// The track state that a "currently playing" reply describes: the item's
/// name, its artists joined with `", "`, the album's name (each empty when
/// absent), duration and progress in whole seconds, and whether it plays.
pub fn track_from_currently_playing(sp: &SpotifyCurrentlyPlaying) -> (t: TrackInfo)
    ensures
        t@ == currently_playing_track(*sp),
        shows_reply(t@, *sp),
{
    proof {
        lemma_reply_fields(*sp);
    }
    let title = match &sp.item.name {
        Some(n) => n.clone(),
        None => String::new(),
    };
    let album = match &sp.item.album.name {
        Some(n) => n.clone(),
        None => String::new(),
    };
    TrackInfo {
        title,
        artist: join_artist_names(&sp.item.artists),
        album,
        duration_seconds: whole_seconds_of(sp.item.duration_ms),
        position_seconds: whole_seconds_of(sp.progress_ms),
        is_playing: match sp.is_playing {
            Some(b) => b,
            None => false,
        },
        artwork_base64: None,
    }
}

impl PollOutcome {
    /// What to do with a reply of this HTTP status.
    pub fn for_status(status: u16) -> (r: PollOutcome)
        ensures
            r == (if 200 <= status <= 299 { PollOutcome::ReadBody } else { PollOutcome::Unexpected }),
    {
        if 200 <= status && status <= 299 {
            PollOutcome::ReadBody
        } else {
            PollOutcome::Unexpected
        }
    }
}

/// Whether an OAuth client accepts the authorization endpoint and the
/// redirect URI, as URLs (`AuthUrl::new` and `RedirectUrl::new` both parse).
pub uninterp spec fn urls_accepted(auth_endpoint: Seq<char>, redirect_uri: Seq<char>) -> bool;

/// The authorization URL that an OAuth client builds: the endpoint with the
/// query `response_type=code`, the client id, the CSRF state, the redirect
/// URI and the space-joined scopes, form-encoded.
pub uninterp spec fn authorize_url_text(
    auth_endpoint: Seq<char>,
    client_id: Seq<char>,
    redirect_uri: Seq<char>,
    scopes: Seq<Seq<char>>,
    state: Seq<char>,
) -> Seq<char>;

/// `oauth2`'s authorization request: `AuthUrl::new` and `RedirectUrl::new`
/// (`None` when either does not parse), then `BasicClient::new(..)
/// .set_redirect_uri(..).authorize_url(CsrfToken::new_random)
/// .add_scopes(..).url()`. Returns the URL and the CSRF state. The state is
/// random, so nothing is stated of it; the URL is named `authorize_url_text`
/// over the arguments and that state.
#[verifier::external_body]
fn authorize_url(auth_endpoint: &str, client_id: &str, redirect_uri: &str, scopes: &Vec<String>) -> (r: Option<
    (String, String),
>)
    ensures
        r is Some <==> urls_accepted(auth_endpoint@, redirect_uri@),
        r matches Some(p) ==> p.0@ == authorize_url_text(
            auth_endpoint@,
            client_id@,
            redirect_uri@,
            scopes@.map_values(|s: String| s@),
            p.1@,
        ),
{
    let auth = oauth2::AuthUrl::new(auth_endpoint.to_string()).ok()?;
    let redirect = oauth2::RedirectUrl::new(redirect_uri.to_string()).ok()?;
    let client = oauth2::basic::BasicClient::new(oauth2::ClientId::new(client_id.to_string()), None, auth, None)
        .set_redirect_uri(redirect);
    let (url, state) = client
        .authorize_url(oauth2::CsrfToken::new_random)
        .add_scopes(scopes.iter().map(|s| oauth2::Scope::new(s.clone())))
        .url();
    Some((url.to_string(), state.secret().clone()))
}

/// Spotify's authorization endpoint.
pub open spec fn spotify_auth_endpoint() -> Seq<char> {
    "https://accounts.spotify.com/authorize"@
}

/// The scopes asked of Spotify: reading what is playing and the playback
/// state.
pub open spec fn spotify_scopes() -> Seq<Seq<char>> {
    seq!["user-read-currently-playing"@, "user-read-playback-state"@]
}

/// The URL that sends the user to authorize the app with Spotify, and the
/// CSRF state it carries; `None` when the redirect URI is not a URL.
pub fn spotify_authorization_url(client_id: &str, redirect_uri: &str) -> (r: Option<(String, String)>)
    ensures
        r is Some <==> urls_accepted(spotify_auth_endpoint(), redirect_uri@),
        r matches Some(p) ==> p.0@ == authorize_url_text(
            spotify_auth_endpoint(),
            client_id@,
            redirect_uri@,
            spotify_scopes(),
            p.1@,
        ),
{
    let mut scopes: Vec<String> = Vec::new();
    scopes.push(String::from_str("user-read-currently-playing"));
    scopes.push(String::from_str("user-read-playback-state"));
    assert(scopes@.map_values(|s: String| s@) =~= spotify_scopes());
    authorize_url("https://accounts.spotify.com/authorize", client_id, redirect_uri, &scopes)
}

/// The query of a request target: the text after the first `?` up to the
/// next `?`, or empty when there is no `?`.
pub open spec fn query_text(target: Seq<char>) -> Seq<char> {
    let parts = split_on(target, '?');
    if parts.len() >= 2 {
        parts[1]
    } else {
        Seq::empty()
    }
}

/// The query of a request target (see `query_text`).
pub fn query_of(target: &str) -> (r: String)
    ensures
        r@ == query_text(target@),
{
    let chars = chars_of(target);
    let parts = split_chars(&chars, '?');
    assert(parts@.map_values(|p: Vec<char>| p@).len() == parts@.len());
    if parts.len() >= 2 {
        assert(parts@.map_values(|p: Vec<char>| p@)[1] == parts@[1]@);
        string_from_chars(&parts[1])
    } else {
        String::new()
    }
}

/// The name/value pairs of an `application/x-www-form-urlencoded` text,
/// percent-decoded, in order.
pub uninterp spec fn form_pairs(query: Seq<char>) -> Seq<(Seq<char>, Seq<char>)>;

/// `url::form_urlencoded::parse` on the text's bytes, every pair taken as
/// owned strings. The result is named `form_pairs`; nothing more is stated
/// of the decoding.
#[verifier::external_body]
fn parse_form(query: &str) -> (r: Vec<(String, String)>)
    ensures
        r@.map_values(|p: (String, String)| (p.0@, p.1@)) == form_pairs(query@),
{
    url::form_urlencoded::parse(query.as_bytes()).into_owned().collect()
}

/// The value of the first pair named `code`, if any.
pub open spec fn code_param(pairs: Seq<(Seq<char>, Seq<char>)>) -> Option<Seq<char>>
    decreases pairs.len(),
{
    if pairs.len() == 0 {
        None
    } else if pairs[0].0 == "code"@ {
        Some(pairs[0].1)
    } else {
        code_param(pairs.drop_first())
    }
}

/// The value of the first pair named `code` (see `code_param`).
pub fn find_code(pairs: &Vec<(String, String)>) -> (r: Option<String>)
    ensures
        (match r {
            Some(v) => Some(v@),
            None => None,
        }) == code_param(pairs@.map_values(|p: (String, String)| (p.0@, p.1@))),
{
    let ghost all = pairs@.map_values(|p: (String, String)| (p.0@, p.1@));
    assert(all.skip(0) =~= all);
    for i in 0..pairs.len()
        invariant
            all == pairs@.map_values(|p: (String, String)| (p.0@, p.1@)),
            code_param(all) == code_param(all.skip(i as int)),
    {
        let ghost rest = all.skip(i as int);
        assert(rest[0] == (pairs@[i as int].0@, pairs@[i as int].1@));
        assert(rest.drop_first() =~= all.skip(i + 1));
        if str_equals(pairs[i].0.as_str(), "code") {
            return Some(pairs[i].1.clone());
        }
    }
    assert(all.skip(pairs.len() as int) =~= Seq::<(Seq<char>, Seq<char>)>::empty());
    None
}

/// The authorization code that Spotify's redirect carries in the query of
/// the request target, if any.
pub fn authorization_code(target: &str) -> (r: Option<String>)
    ensures
        (match r {
            Some(v) => Some(v@),
            None => None,
        }) == code_param(form_pairs(query_text(target@))),
{
    let query = query_of(target);
    let pairs = parse_form(query.as_str());
    find_code(&pairs)
}

} // verus!
