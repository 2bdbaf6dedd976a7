//! The Cider player's playback events and how they update the track state.
//!
//! Cider reports playback over a socket as events of three kinds: a new
//! item, a new playback time, and a new playback state. The payloads are
//! decoded elsewhere; times arrive here already converted to whole seconds.

use vstd::prelude::*;

use crate::music_service::{TrackInfo, TrackModel};
use crate::text::{
    all_digits, append_str, decimal, decimal_string, free_of, is_digit, lemma_decimal,
    lemma_replaced_plain_prefix, replace_str, replaced, str_equals, string_from_chars,
};

verus! {

/// Artwork as Cider describes it: a URL template with `{w}` and `{h}`
/// placeholders, and the size to fill in.
#[derive(Clone, Debug)]
pub struct CiderArtwork {
    pub url: Option<String>,
    pub width: Option<u32>,
    pub height: Option<u32>,
}

/// The attributes of a playing item.
#[derive(Clone, Debug)]
pub struct CiderPlaybackData {
    pub name: Option<String>,
    pub artist_name: Option<String>,
    pub album_name: Option<String>,
    pub artwork: Option<CiderArtwork>,
    /// The item's duration in whole seconds (zero when Cider gave none).
    pub duration_seconds: u32,
}

/// The kinds of event that Cider sends, by their `type` field.
#[derive(Clone, Copy, Debug, PartialEq, Eq, Structural)]
pub enum CiderEventKind {
    NowPlayingItemDidChange,
    PlaybackTimeDidChange,
    PlaybackStateDidChange,
    Other,
}

/// One playback event, with its payload decoded.
#[derive(Clone, Debug)]
pub enum CiderEvent {
    /// A new item is playing.
    NowPlayingItemDidChange(CiderPlaybackData),
    /// The playback time moved; the duration comes along when Cider sends it.
    PlaybackTimeDidChange { position_seconds: u32, duration_seconds: Option<u32> },
    /// The playback state changed, possibly with the item's attributes.
    PlaybackStateDidChange { state: Option<String>, attributes: Option<CiderPlaybackData> },
    /// An event of another kind, or one whose payload could not be decoded.
    Ignored,
}

/// The `type` field of each event kind.
pub open spec fn event_kind_of(t: Seq<char>) -> CiderEventKind {
    if t == "playbackStatus.nowPlayingItemDidChange"@ {
        CiderEventKind::NowPlayingItemDidChange
    } else if t == "playbackStatus.playbackTimeDidChange"@ {
        CiderEventKind::PlaybackTimeDidChange
    } else if t == "playbackStatus.playbackStateDidChange"@ {
        CiderEventKind::PlaybackStateDidChange
    } else {
        CiderEventKind::Other
    }
}

impl CiderEventKind {
    /// The kind that an event's `type` field names.
    pub fn from_event_type(t: &str) -> (k: CiderEventKind)
        ensures
            k == event_kind_of(t@),
    {
        if str_equals(t, "playbackStatus.nowPlayingItemDidChange") {
            CiderEventKind::NowPlayingItemDidChange
        } else if str_equals(t, "playbackStatus.playbackTimeDidChange") {
            CiderEventKind::PlaybackTimeDidChange
        } else if str_equals(t, "playbackStatus.playbackStateDidChange") {
            CiderEventKind::PlaybackStateDidChange
        } else {
            CiderEventKind::Other
        }
    }
}

/// The text of an optional string, empty when absent.
pub open spec fn text_or_empty(o: Option<String>) -> Seq<char> {
    match o {
        Some(s) => s@,
        None => Seq::empty(),
    }
}

/// An artwork side length, 512 when Cider gave none.
pub open spec fn side_or_default(o: Option<u32>) -> u32 {
    match o {
        Some(v) => v,
        None => 512,
    }
}

/// The artwork URL template with `{w}` replaced by the width, then `{h}`
/// by the height.
pub open spec fn artwork_url_text(template: Seq<char>, width: u32, height: u32) -> Seq<char> {
    replaced(replaced(template, "{w}"@, decimal(width as nat)), "{h}"@, decimal(height as nat))
}

/// The track after taking over an item's attributes: title, artist and
/// album (empty when absent), duration, and the artwork URL when there is
/// one (otherwise the artwork stays as it was).
pub open spec fn with_playback_data(t: TrackModel, d: CiderPlaybackData) -> TrackModel {
    TrackModel {
        title: text_or_empty(d.name),
        artist: text_or_empty(d.artist_name),
        album: text_or_empty(d.album_name),
        duration_seconds: d.duration_seconds,
        artwork: match d.artwork {
            Some(a) => match a.url {
                Some(u) => Some(artwork_url_text(u@, side_or_default(a.width), side_or_default(a.height))),
                None => t.artwork,
            },
            None => t.artwork,
        },
        ..t
    }
}

/// The track after one event.
pub open spec fn after_event(t: TrackModel, e: CiderEvent) -> TrackModel {
    match e {
        CiderEvent::NowPlayingItemDidChange(d) => with_playback_data(t, d),
        CiderEvent::PlaybackTimeDidChange { position_seconds, duration_seconds } => TrackModel {
            position_seconds: position_seconds,
            duration_seconds: match duration_seconds {
                Some(d) => d,
                None => t.duration_seconds,
            },
            ..t
        },
        CiderEvent::PlaybackStateDidChange { state, attributes } => {
            let t1 = match state {
                Some(s) => TrackModel { is_playing: s@ == "playing"@, ..t },
                None => t,
            };
            match attributes {
                Some(d) => with_playback_data(t1, d),
                None => t1,
            }
        },
        CiderEvent::Ignored => t,
    }
}

/// The track after a run of events, applied in order.
pub open spec fn after_events(t: TrackModel, evs: Seq<CiderEvent>) -> TrackModel
    decreases evs.len(),
{
    if evs.len() == 0 {
        t
    } else {
        after_event(after_events(t, evs.drop_last()), evs.last())
    }
}

/// The states published while a run of events is applied: one after each
/// event that is not ignored.
pub open spec fn published_states(t: TrackModel, evs: Seq<CiderEvent>) -> Seq<TrackModel>
    decreases evs.len(),
{
    if evs.len() == 0 {
        Seq::empty()
    } else {
        let before = published_states(t, evs.drop_last());
        if evs.last() is Ignored {
            before
        } else {
            before.push(after_events(t, evs))
        }
    }
}

fn text_of(o: &Option<String>) -> (s: String)
    ensures
        s@ == text_or_empty(*o),
{
    match o {
        Some(s) => s.clone(),
        None => String::new(),
    }
}

/// The artwork URL for a template and a size (see `artwork_url_text`).
pub fn artwork_url(template: &str, width: u32, height: u32) -> (r: String)
    ensures
        r@ == artwork_url_text(template@, width, height),
{
    proof {
        reveal_strlit("{w}");
        reveal_strlit("{h}");
    }
    let w = decimal_string(width as u64);
    let h = decimal_string(height as u64);
    let first = replace_str(template, "{w}", w.as_str());
    replace_str(first.as_str(), "{h}", h.as_str())
}

fn apply_playback_data(track: &mut TrackInfo, d: &CiderPlaybackData)
    ensures
        final(track)@ == with_playback_data(old(track)@, *d),
{
    track.title = text_of(&d.name);
    track.artist = text_of(&d.artist_name);
    track.album = text_of(&d.album_name);
    track.duration_seconds = d.duration_seconds;
    match &d.artwork {
        Some(a) => match &a.url {
            Some(u) => {
                let width = match a.width {
                    Some(w) => w,
                    None => 512,
                };
                let height = match a.height {
                    Some(h) => h,
                    None => 512,
                };
                track.artwork_base64 = Some(artwork_url(u.as_str(), width, height));
            },
            None => {},
        },
        None => {},
    }
}

/// Applies one event to the track state. Returns whether the new state is
/// to be published: for every event but an ignored one.
pub fn apply_event(track: &mut TrackInfo, event: &CiderEvent) -> (published: bool)
    ensures
        final(track)@ == after_event(old(track)@, *event),
        published == !(*event is Ignored),
        *event matches CiderEvent::NowPlayingItemDidChange(d) ==> takes_item(final(track)@, d),
        *event matches CiderEvent::PlaybackStateDidChange { attributes: Some(d), .. } ==> takes_item(
            final(track)@,
            d,
        ),
{
    proof {
        lemma_item_events_take_the_item(old(track)@, *event);
    }
    match event {
        CiderEvent::NowPlayingItemDidChange(d) => {
            apply_playback_data(track, d);
            true
        },
        CiderEvent::PlaybackTimeDidChange { position_seconds, duration_seconds } => {
            track.position_seconds = *position_seconds;
            match duration_seconds {
                Some(d) => {
                    track.duration_seconds = *d;
                },
                None => {},
            }
            true
        },
        CiderEvent::PlaybackStateDidChange { state, attributes } => {
            match state {
                Some(s) => {
                    track.is_playing = str_equals(s.as_str(), "playing");
                },
                None => {},
            }
            match attributes {
                Some(d) => apply_playback_data(track, d),
                None => {},
            }
            true
        },
        CiderEvent::Ignored => false,
    }
}

/// Applies a batch of events in order, and returns the states to publish,
/// one after each event that is not ignored.
pub fn apply_events(track: &mut TrackInfo, events: &Vec<CiderEvent>) -> (published: Vec<TrackInfo>)
    ensures
        final(track)@ == after_events(old(track)@, events@),
        published@.map_values(|t: TrackInfo| t@) == published_states(old(track)@, events@),
{
    let ghost start = track@;
    let mut published: Vec<TrackInfo> = Vec::new();
    assert(events@.take(0) =~= Seq::<CiderEvent>::empty());
    for i in 0..events.len()
        invariant
            track@ == after_events(start, events@.take(i as int)),
            published@.map_values(|t: TrackInfo| t@) == published_states(start, events@.take(i as int)),
    {
        let ghost before = published@.map_values(|t: TrackInfo| t@);
        assert(events@.take(i + 1).drop_last() =~= events@.take(i as int));
        assert(events@.take(i + 1).last() == events@[i as int]);
        if apply_event(track, &events[i]) {
            let snap = track.snapshot();
            published.push(snap);
            assert(published@.map_values(|t: TrackInfo| t@) =~= before.push(track@));
        }
    }
    assert(events@.take(events.len() as int) =~= events@);
    published
}

/// Digits hold no `{`.
proof fn lemma_decimal_free_of_brace(n: nat)
    ensures
        free_of(decimal(n), '{'),
{
    lemma_decimal(n);
    let d = decimal(n);
    assert forall|i: int| 0 <= i < d.len() implies d[i] != '{' by {
        assert(is_digit(d[i]));
    }
}

proof fn lemma_free_concat(a: Seq<char>, b: Seq<char>, c: char)
    requires
        free_of(a, c),
        free_of(b, c),
    ensures
        free_of(a + b, c),
{
    assert forall|i: int| 0 <= i < (a + b).len() implies (a + b)[i] != c by {
        if i < a.len() {
            assert((a + b)[i] == a[i]);
        } else {
            assert((a + b)[i] == b[i - a.len()]);
        }
    }
}

/// Replacing a marker in text whose only `{` starts that marker: the
/// text before and after stays, the replacement stands between.
proof fn lemma_replace_single_marker(a: Seq<char>, marker: Seq<char>, c: Seq<char>, rep: Seq<char>)
    requires
        marker.len() == 3,
        marker[0] == '{',
        marker[1] != '{',
        marker[2] != '{',
        free_of(a, '{'),
        free_of(c, '{'),
    ensures
        replaced(a + marker + c, marker, rep) == a + rep + c,
{
    lemma_replaced_plain_prefix(a, marker + c, marker, rep);
    assert(a + marker + c =~= a + (marker + c));
    let m = marker + c;
    assert(m.take(3) =~= marker);
    assert(m.skip(3) =~= c);
    lemma_replaced_plain_prefix(c, Seq::<char>::empty(), marker, rep);
    assert(c + Seq::<char>::empty() =~= c);
    assert(replaced(Seq::<char>::empty(), marker, rep) == Seq::<char>::empty());
    assert(a + (rep + c) =~= a + rep + c);
}

/// Replacing a marker in text where no other `{` occurs, and where the text
/// has a different marker: nothing changes.
proof fn lemma_replace_other_marker(a: Seq<char>, other: Seq<char>, c: Seq<char>, marker: Seq<char>, rep: Seq<char>)
    requires
        marker.len() == 3,
        other.len() == 3,
        marker[0] == '{',
        other[0] == '{',
        other[1] != '{',
        other[2] != '{',
        other != marker,
        free_of(a, '{'),
        free_of(c, '{'),
    ensures
        replaced(a + other + c, marker, rep) == a + other + c,
{
    lemma_replaced_plain_prefix(a, other + c, marker, rep);
    assert(a + other + c =~= a + (other + c));
    let m = other + c;
    assert(m.take(3) =~= other);
    assert(m[0] == '{');
    let t = m.drop_first();
    assert(free_of(t, '{')) by {
        assert forall|i: int| 0 <= i < t.len() implies t[i] != '{' by {
            assert(t[i] == m[i + 1]);
            if i + 1 < 3 {
                assert(m[i + 1] == other[i + 1]);
            } else {
                assert(m[i + 1] == c[i + 1 - 3]);
            }
        }
    }
    lemma_replaced_plain_prefix(t, Seq::<char>::empty(), marker, rep);
    assert(t + Seq::<char>::empty() =~= t);
    assert(replaced(Seq::<char>::empty(), marker, rep) == Seq::<char>::empty());
    assert(seq![m[0]] + t =~= m);
}

/// An artwork URL template `{a}{w}{b}{h}{c}`, where `a`, `b` and `c` hold
/// no `{`, becomes `a`, the width in decimal, `b`, the height in decimal,
/// `c`: the width fills `{w}` and the height fills `{h}`.
pub proof fn lemma_artwork_url_fills_size(a: Seq<char>, b: Seq<char>, c: Seq<char>, width: u32, height: u32)
    requires
        free_of(a, '{'),
        free_of(b, '{'),
        free_of(c, '{'),
    ensures
        artwork_url_text(a + "{w}"@ + b + "{h}"@ + c, width, height) == a + decimal(width as nat) + b
            + decimal(height as nat) + c,
{
    reveal_strlit("{w}");
    reveal_strlit("{h}");
    let w = "{w}"@;
    let h = "{h}"@;
    let dw = decimal(width as nat);
    let dh = decimal(height as nat);
    lemma_decimal_free_of_brace(width as nat);
    lemma_decimal_free_of_brace(height as nat);
    // The width fills `{w}`; the `{h}` marker after it stays.
    let tail = b + h + c;
    assert(h[1] == 'h' && w[1] == 'w');
    assert(h != w);
    lemma_replace_other_marker(b, h, c, w, dw);
    lemma_replaced_plain_prefix(a, w + tail, w, dw);
    assert(a + w + b + h + c =~= a + (w + tail));
    assert((w + tail).take(3) =~= w);
    assert((w + tail).skip(3) =~= tail);
    assert(b + h + c =~= tail);
    let first = a + dw + tail;
    assert(replaced(a + w + b + h + c, w, dw) =~= first);
    // Then the height fills `{h}`.
    lemma_free_concat(a, dw, '{');
    lemma_free_concat(a + dw, b, '{');
    lemma_replace_single_marker(a + dw + b, h, c, dh);
    assert(first =~= a + dw + b + h + c);
    assert(a + dw + b + dh + c =~= a + dw + b + dh + c);
}

/// Whether a track shows an item: the item's name, artist and album (each
/// empty when the item gives none) and its duration.
pub open spec fn takes_item(t: TrackModel, d: CiderPlaybackData) -> bool {
    &&& t.title == (match d.name {
        Some(n) => n@,
        None => Seq::<char>::empty(),
    })
    &&& t.artist == (match d.artist_name {
        Some(n) => n@,
        None => Seq::<char>::empty(),
    })
    &&& t.album == (match d.album_name {
        Some(n) => n@,
        None => Seq::<char>::empty(),
    })
    &&& t.duration_seconds == d.duration_seconds
}

/// After a new-item event, or a state event that carries the item's
/// attributes, the track shows that item, whatever it showed before; the
/// position is left as it was, and a state event sets the playing flag from
/// its state when it has one.
pub proof fn lemma_item_events_take_the_item(t: TrackModel, e: CiderEvent)
    ensures
        e matches CiderEvent::NowPlayingItemDidChange(d) ==> takes_item(after_event(t, e), d)
            && after_event(t, e).position_seconds == t.position_seconds && after_event(t, e).is_playing
            == t.is_playing,
        e matches CiderEvent::PlaybackStateDidChange { state, attributes: Some(d) } ==> takes_item(
            after_event(t, e),
            d,
        ) && after_event(t, e).position_seconds == t.position_seconds,
        e matches CiderEvent::PlaybackStateDidChange { state: Some(s), .. } ==> after_event(t, e).is_playing
            == (s@ == "playing"@),
        e matches CiderEvent::PlaybackStateDidChange { state, attributes: None } ==> after_event(t, e).title
            == t.title && after_event(t, e).album == t.album && after_event(t, e).artist == t.artist,
{
}

/// An event applied a second time changes nothing more: every event
/// overwrites the fields it carries.
pub proof fn lemma_event_idempotent(t: TrackModel, e: CiderEvent)
    ensures
        after_event(after_event(t, e), e) == after_event(t, e),
{
}

/// After a batch of events, the last state published is the current state;
/// nothing is published exactly when every event was ignored.
pub proof fn lemma_last_published_is_current(t: TrackModel, evs: Seq<CiderEvent>)
    ensures
        published_states(t, evs).len() > 0 ==> published_states(t, evs).last() == after_events(t, evs),
        published_states(t, evs).len() == 0 <==> (forall|i: int| 0 <= i < evs.len() ==> #[trigger] evs[i] is Ignored),
    decreases evs.len(),
{
    if evs.len() > 0 {
        let init = evs.drop_last();
        lemma_last_published_is_current(t, init);
        assert forall|i: int| 0 <= i < init.len() implies #[trigger] init[i] == evs[i] by {}
        if evs.last() is Ignored {
            assert(after_events(t, evs) == after_events(t, init));
            if published_states(t, evs).len() == 0 {
                assert forall|i: int| 0 <= i < evs.len() implies #[trigger] evs[i] is Ignored by {
                    if i < init.len() {
                        assert(init[i] is Ignored);
                    }
                }
            } else {
                let j = choose|j: int| 0 <= j < init.len() && !(#[trigger] init[j] is Ignored);
                assert(!(evs[j] is Ignored));
            }
        } else {
            assert(!(evs[evs.len() - 1] is Ignored));
        }
    }
}

/// A playback-time event leaves the title, artist, album, artwork and
/// playing flag as they were.
pub proof fn lemma_time_event_keeps_item(t: TrackModel, position: u32, duration: Option<u32>)
    ensures
        ({
            let u = after_event(
                t,
                CiderEvent::PlaybackTimeDidChange { position_seconds: position, duration_seconds: duration },
            );
            &&& u.title == t.title
            &&& u.artist == t.artist
            &&& u.album == t.album
            &&& u.artwork == t.artwork
            &&& u.is_playing == t.is_playing
            &&& u.position_seconds == position
            &&& u.duration_seconds == (match duration {
                Some(d) => d,
                None => t.duration_seconds,
            })
        }),
{
}

/// The host and port to reach Cider at: those configured, else
/// `localhost` and port 10767.
pub fn cider_endpoint(host: Option<String>, port: Option<u16>) -> (r: (String, u16))
    ensures
        r.0@ == (match host {
            Some(h) => h@,
            None => "localhost"@,
        }),
        r.1 == (match port {
            Some(p) => p,
            None => 10767u16,
        }),
{
    let h = match host {
        Some(h) => h,
        None => String::from_str("localhost"),
    };
    let p = match port {
        Some(p) => p,
        None => 10767,
    };
    (h, p)
}

/// The address of Cider's socket server: `http://{host}:{port}`.
pub fn cider_url(host: &str, port: u16) -> (r: String)
    ensures
        r@ == "http://"@ + host@ + ":"@ + decimal(port as nat),
{
    let mut out: Vec<char> = Vec::new();
    append_str(&mut out, "http://");
    append_str(&mut out, host);
    append_str(&mut out, ":");
    let p = decimal_string(port as u64);
    append_str(&mut out, p.as_str());
    string_from_chars(&out)
}

} // verus!
