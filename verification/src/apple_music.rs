//! Reading the player state that the Apple Music script reports.
//!
//! The script prints six tab-separated fields: title, artist, album,
//! duration in whole seconds, position in whole seconds, and whether the
//! player is playing. Artwork is exported separately and embedded as a data
//! URI.

use vstd::prelude::*;

pub use crate::music_service::TrackInfo;
use crate::music_service::{TrackModel, empty_track};
use crate::text::{
    append_chars, append_str, chars_of, decimal, decimal_chars, free_of, is_digit, join_with,
    lemma_decimal, lemma_parse_decimal, lemma_split_join, parse_u32, parsed_u32, same_chars,
    split_chars, split_on, str_equals, string_from_chars, trim_str, trimmed,
};

verus! {

/// A number field of the script output: its value, or zero when the field
/// is not a valid `u32`.
pub open spec fn number_field(f: Seq<char>) -> u32 {
    match parsed_u32(f) {
        Some(v) => v,
        None => 0,
    }
}

/// The playing field of the script output: `"true"` and `"playing"` mean
/// playing; `"false"` and anything else mean not playing.
pub open spec fn playing_field(f: Seq<char>) -> bool {
    f == "true"@ || f == "playing"@
}

/// The error text for output with fewer than six fields.
pub open spec fn field_count_message(count: nat, s: Seq<char>) -> Seq<char> {
    "Unexpected field count "@ + decimal(count) + " in '"@ + s + "'"@
}

/// The track that the script output describes, or the error text.
pub open spec fn parsed_tab_output(s: Seq<char>) -> Result<TrackModel, Seq<char>> {
    let parts = split_on(s, '\t');
    if parts.len() < 6 {
        Err(field_count_message(parts.len(), s))
    } else {
        Ok(
            TrackModel {
                title: parts[0],
                artist: parts[1],
                album: parts[2],
                duration_seconds: number_field(parts[3]),
                position_seconds: number_field(parts[4]),
                is_playing: playing_field(parts[5]),
                artwork: None,
            },
        )
    }
}

/// A parse result, with the track and the error text taken by their models.
pub open spec fn result_view(r: Result<TrackInfo, String>) -> Result<TrackModel, Seq<char>> {
    match r {
        Ok(t) => Ok(t@),
        Err(e) => Err(e@),
    }
}

/// The value of a number field, or zero.
fn number_or_zero(f: &Vec<char>) -> (v: u32)
    ensures
        v == number_field(f@),
{
    match parse_u32(f) {
        Some(v) => v,
        None => 0,
    }
}

/// Parses the tab-separated script output into a track. Fields beyond the
/// sixth are ignored; a number field that is not a valid `u32` reads as zero.
pub fn parse_tab_output(s: &str) -> (r: Result<TrackInfo, String>)
    ensures
        result_view(r) == parsed_tab_output(s@),
{
    let chars = chars_of(s);
    let parts = split_chars(&chars, '\t');
    let ghost model = split_on(s@, '\t');
    assert(parts@.len() == model.len());
    assert(forall|i: int| 0 <= i < parts@.len() ==> #[trigger] parts@[i]@ == model[i]) by {
        assert forall|i: int| 0 <= i < parts@.len() implies #[trigger] parts@[i]@ == model[i] by {
            assert(parts@.map_values(|p: Vec<char>| p@)[i] == parts@[i]@);
        }
    }
    if parts.len() < 6 {
        let mut msg: Vec<char> = Vec::new();
        append_str(&mut msg, "Unexpected field count ");
        let count = decimal_chars(parts.len() as u64);
        append_chars(&mut msg, &count);
        append_str(&mut msg, " in '");
        append_chars(&mut msg, &chars);
        append_str(&mut msg, "'");
        return Err(string_from_chars(&msg));
    }
    let title = string_from_chars(&parts[0]);
    let artist = string_from_chars(&parts[1]);
    let album = string_from_chars(&parts[2]);
    let duration_seconds = number_or_zero(&parts[3]);
    let position_seconds = number_or_zero(&parts[4]);
    let flag = &parts[5];
    let true_text = chars_of("true");
    let playing_text = chars_of("playing");
    let is_playing = same_chars(flag, &true_text) || same_chars(flag, &playing_text);
    Ok(
        TrackInfo {
            title,
            artist,
            album,
            duration_seconds,
            position_seconds,
            is_playing,
            artwork_base64: None,
        },
    )
}

/// What the script's raw standard output says: no track when the output is
/// blank (the player is not running), else the parsed fields.
pub fn track_from_script_output(stdout: &str) -> (r: Result<TrackInfo, String>)
    ensures
        result_view(r) == (if trimmed(stdout@).len() == 0 {
            Ok(empty_track())
        } else {
            parsed_tab_output(trimmed(stdout@))
        }),
{
    let t = trim_str(stdout);
    if t.as_str().is_empty() {
        return Ok(TrackInfo::default());
    }
    parse_tab_output(t.as_str())
}

/// Whether artwork is to be fetched for a track: only when it has a title.
pub fn wants_artwork(track: &TrackInfo) -> (r: bool)
    ensures
        r == (track.title@.len() > 0),
{
    !track.title.as_str().is_empty()
}

/// Whether the artwork export script reported success.
pub fn artwork_export_succeeded(output: &str) -> (r: bool)
    ensures
        r == (trimmed(output@) == "success"@),
{
    let t = trim_str(output);
    str_equals(t.as_str(), "success")
}

/// The character of a six-bit value in the standard Base64 alphabet
/// (RFC 4648): `A`-`Z`, `a`-`z`, `0`-`9`, `+`, `/`.
pub open spec fn base64_digit(v: int) -> char {
    if v < 26 {
        (65 + v) as char
    } else if v < 52 {
        (97 + v - 26) as char
    } else if v < 62 {
        (48 + v - 52) as char
    } else if v == 62 {
        '+'
    } else {
        '/'
    }
}

/// The standard Base64 encoding of the bytes, with `=` padding: each group
/// of three bytes, read as a 24-bit number, gives four characters of six
/// bits each, most significant first; a last group of one or two bytes is
/// filled with zero bits and padded to four characters with `=`.
pub open spec fn base64_standard(b: Seq<u8>) -> Seq<char>
    decreases b.len(),
{
    if b.len() == 0 {
        Seq::empty()
    } else if b.len() == 1 {
        let n = b[0] as int;
        seq![base64_digit(n / 4), base64_digit((n % 4) * 16), '=', '=']
    } else if b.len() == 2 {
        let n = (b[0] as int) * 256 + (b[1] as int);
        seq![base64_digit(n / 1024), base64_digit((n / 16) % 64), base64_digit((n % 16) * 4), '=']
    } else {
        let n = (b[0] as int) * 65536 + (b[1] as int) * 256 + (b[2] as int);
        seq![
            base64_digit(n / 262144),
            base64_digit((n / 4096) % 64),
            base64_digit((n / 64) % 64),
            base64_digit(n % 64),
        ] + base64_standard(b.skip(3))
    }
}

/// `base64::Engine::encode` with `general_purpose::STANDARD`: the standard
/// alphabet with padding, as `base64_standard` states it. The call panics
/// when the encoded length (four characters per started group of three
/// bytes) overflows `usize`, which `requires` leaves out.
#[verifier::external_body]
fn encode_base64(bytes: &[u8]) -> (r: String)
    requires
        (bytes@.len() + 2) / 3 * 4 <= usize::MAX,
    ensures
        r@ == base64_standard(bytes@),
{
    base64::Engine::encode(&base64::engine::general_purpose::STANDARD, bytes)
}

/// The data URI under which exported JPEG artwork is served.
pub fn artwork_data_uri(image: &[u8]) -> (r: String)
    requires
        (image@.len() + 2) / 3 * 4 <= usize::MAX,
    ensures
        r@ == "data:image/jpeg;base64,"@ + base64_standard(image@),
{
    let encoded = encode_base64(image);
    let mut out: Vec<char> = Vec::new();
    append_str(&mut out, "data:image/jpeg;base64,");
    append_str(&mut out, encoded.as_str());
    string_from_chars(&out)
}

/// Whether a freshly read state differs from the last one published, so
/// that it must be published.
pub fn track_changed(info: &TrackInfo, last: &TrackInfo) -> (r: bool)
    ensures
        r == (info@ != last@),
{
    !info.same_as(last)
}

/// The state to publish after a poll: the track read, when reading
/// succeeded and it differs from the last state published; nothing after a
/// failed read or an unchanged track.
pub fn poll_step(last: &TrackInfo, result: &Result<TrackInfo, String>) -> (send: Option<TrackInfo>)
    ensures
        match result {
            Ok(t) => if t@ != last@ {
                send matches Some(s) && s@ == t@
            } else {
                send is None
            },
            Err(_) => send is None,
        },
{
    match result {
        Ok(t) => {
            if track_changed(t, last) {
                Some(t.snapshot())
            } else {
                None
            }
        },
        Err(_) => None,
    }
}

/// Six tab-free fields joined by tabs read as: the first three texts as
/// title, artist and album; the next two as the numbers they spell (zero
/// when not a `u32`); and playing exactly when the last is `true` or
/// `playing`.
pub proof fn lemma_tab_output_fields(
    title: Seq<char>,
    artist: Seq<char>,
    album: Seq<char>,
    duration: Seq<char>,
    position: Seq<char>,
    flag: Seq<char>,
)
    requires
        free_of(title, '\t'),
        free_of(artist, '\t'),
        free_of(album, '\t'),
        free_of(duration, '\t'),
        free_of(position, '\t'),
        free_of(flag, '\t'),
    ensures
        ({
            let r = parsed_tab_output(join_with(seq![title, artist, album, duration, position, flag], '\t'));
            &&& r is Ok
            &&& r->Ok_0.title == title
            &&& r->Ok_0.artist == artist
            &&& r->Ok_0.album == album
            &&& r->Ok_0.duration_seconds == (match parsed_u32(duration) {
                Some(v) => v,
                None => 0u32,
            })
            &&& r->Ok_0.position_seconds == (match parsed_u32(position) {
                Some(v) => v,
                None => 0u32,
            })
            &&& r->Ok_0.is_playing == (flag == "true"@ || flag == "playing"@)
            &&& r->Ok_0.artwork is None
        }),
{
    let parts = seq![title, artist, album, duration, position, flag];
    assert forall|k: int| 0 <= k < parts.len() implies free_of(#[trigger] parts[k], '\t') by {}
    lemma_split_join(parts, '\t');
}

/// Fewer than six tab-separated fields are an error that gives their count.
pub proof fn lemma_tab_output_too_few_fields(parts: Seq<Seq<char>>)
    requires
        1 <= parts.len() < 6,
        forall|i: int| 0 <= i < parts.len() ==> free_of(#[trigger] parts[i], '\t'),
    ensures
        parsed_tab_output(join_with(parts, '\t')) == Err::<TrackModel, Seq<char>>(
            field_count_message(parts.len(), join_with(parts, '\t')),
        ),
{
    lemma_split_join(parts, '\t');
}

/// Output in the script's format, parsed, gives back the fields it was
/// made of: three texts without tabs, two decimal numbers and the playing
/// flag, joined by tabs.
pub proof fn lemma_tab_output_round_trip(
    title: Seq<char>,
    artist: Seq<char>,
    album: Seq<char>,
    duration: u32,
    position: u32,
    playing: bool,
)
    requires
        free_of(title, '\t'),
        free_of(artist, '\t'),
        free_of(album, '\t'),
    ensures
        parsed_tab_output(
            join_with(
                seq![
                    title,
                    artist,
                    album,
                    decimal(duration as nat),
                    decimal(position as nat),
                    if playing { "true"@ } else { "false"@ },
                ],
                '\t',
            ),
        ) == Ok::<TrackModel, Seq<char>>(
            TrackModel {
                title,
                artist,
                album,
                duration_seconds: duration,
                position_seconds: position,
                is_playing: playing,
                artwork: None,
            },
        ),
{
    reveal_strlit("true");
    reveal_strlit("false");
    reveal_strlit("playing");
    let flag = if playing { "true"@ } else { "false"@ };
    let parts = seq![title, artist, album, decimal(duration as nat), decimal(position as nat), flag];
    lemma_decimal(duration as nat);
    lemma_decimal(position as nat);
    lemma_parse_decimal(duration);
    lemma_parse_decimal(position);
    assert forall|k: int| 0 <= k < parts.len() implies free_of(#[trigger] parts[k], '\t') by {
        if k == 3 || k == 4 {
            let d = parts[k];
            assert forall|i: int| 0 <= i < d.len() implies d[i] != '\t' by {
                assert(is_digit(d[i]));
            }
        }
    }
    lemma_split_join(parts, '\t');
    assert(split_on(join_with(parts, '\t'), '\t') == parts);
    assert("false"@ != "true"@);
    assert("false"@[0] == 'f' && "playing"@[0] == 'p');
    assert("false"@ != "playing"@);
}

} // verus!
