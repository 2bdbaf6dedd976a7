use now_playing::apple_music::{
    artwork_data_uri, artwork_export_succeeded, parse_tab_output, poll_step, track_changed,
    track_from_script_output, wants_artwork,
};
use now_playing::TrackInfo;

#[test]
fn parse_ok() {
    let input = "Song\tArtist\tAlbum\t123\t5\ttrue\t";
    let ti = parse_tab_output(input).unwrap();
    assert_eq!(ti.title, "Song");
    assert!(ti.is_playing);
    assert_eq!(ti.duration_seconds, 123);
    assert_eq!(ti.position_seconds, 5);
}

#[test]
fn parse_bad() {
    let bad = "only\tthree\tfields";
    assert!(parse_tab_output(bad).is_err());
}

#[test]
fn parse_bad_message_names_count_and_text() {
    let err = parse_tab_output("only\tthree\tfields").unwrap_err();
    assert_eq!(err, "Unexpected field count 3 in 'only\tthree\tfields'");
    let err = parse_tab_output("").unwrap_err();
    assert_eq!(err, "Unexpected field count 1 in ''");
}

#[test]
fn parse_all_fields() {
    let ti = parse_tab_output("A Song\tThe Band\tThe Album\t245\t17\tfalse").unwrap();
    assert_eq!(ti.title, "A Song");
    assert_eq!(ti.artist, "The Band");
    assert_eq!(ti.album, "The Album");
    assert_eq!(ti.duration_seconds, 245);
    assert_eq!(ti.position_seconds, 17);
    assert!(!ti.is_playing);
    assert_eq!(ti.artwork_base64, None);
}

#[test]
fn parse_playing_flag_variants() {
    let playing = parse_tab_output("a\tb\tc\t1\t2\tplaying").unwrap();
    assert!(playing.is_playing);
    let other = parse_tab_output("a\tb\tc\t1\t2\tpaused").unwrap();
    assert!(!other.is_playing);
    let upper = parse_tab_output("a\tb\tc\t1\t2\tTrue").unwrap();
    assert!(!upper.is_playing);
}

#[test]
fn parse_bad_numbers_read_as_zero() {
    let ti = parse_tab_output("a\tb\tc\t12.5\t-3\ttrue").unwrap();
    assert_eq!(ti.duration_seconds, 0);
    assert_eq!(ti.position_seconds, 0);
    let ti = parse_tab_output("a\tb\tc\t4294967296\t+7\ttrue").unwrap();
    assert_eq!(ti.duration_seconds, 0);
    assert_eq!(ti.position_seconds, 7);
    let ti = parse_tab_output("a\tb\tc\t4294967295\t007\ttrue").unwrap();
    assert_eq!(ti.duration_seconds, 4294967295);
    assert_eq!(ti.position_seconds, 7);
}

#[test]
fn parse_empty_fields_and_extra_fields() {
    let ti = parse_tab_output("\t\t\t\t\t\textra\tmore").unwrap();
    assert_eq!(ti.title, "");
    assert_eq!(ti.duration_seconds, 0);
    assert!(!ti.is_playing);
}

#[test]
fn round_trip_of_script_format() {
    let line = format!("{}\t{}\t{}\t{}\t{}\t{}", "Title", "Artist", "Album", 300u32, 42u32, true);
    let ti = parse_tab_output(&line).unwrap();
    assert_eq!(ti.title, "Title");
    assert_eq!(ti.artist, "Artist");
    assert_eq!(ti.album, "Album");
    assert_eq!(ti.duration_seconds, 300);
    assert_eq!(ti.position_seconds, 42);
    assert!(ti.is_playing);
}

#[test]
fn script_output_is_trimmed() {
    let ti = track_from_script_output("  Song\tArtist\tAlbum\t10\t3\ttrue\n").unwrap();
    assert_eq!(ti.title, "Song");
    assert!(ti.is_playing);
    let blank = track_from_script_output(" \n\t ").unwrap();
    assert_eq!(blank, TrackInfo::default());
    assert!(track_from_script_output("\nonly\n").is_err());
}

#[test]
fn artwork_only_for_titled_tracks() {
    let mut t = TrackInfo::default();
    assert!(!wants_artwork(&t));
    t.title = "x".to_string();
    assert!(wants_artwork(&t));
}

#[test]
fn artwork_export_status() {
    assert!(artwork_export_succeeded("success\n"));
    assert!(!artwork_export_succeeded("no_artwork"));
    assert!(!artwork_export_succeeded("error: failed"));
}

#[test]
fn artwork_data_uri_encodes_base64() {
    assert_eq!(artwork_data_uri(b"hi"), "data:image/jpeg;base64,aGk=");
    assert_eq!(artwork_data_uri(b""), "data:image/jpeg;base64,");
    assert_eq!(artwork_data_uri(&[0xff, 0xd8, 0xff]), "data:image/jpeg;base64,/9j/");
}

#[test]
fn changes_are_detected() {
    let a = TrackInfo::default();
    let mut b = TrackInfo::default();
    assert!(!track_changed(&a, &b));
    b.position_seconds = 1;
    assert!(track_changed(&b, &a));
    let mut c = TrackInfo::default();
    c.artwork_base64 = Some(String::new());
    assert!(track_changed(&c, &a));
}

#[test]
fn empty_track_output_loses_leading_tabs() {
    // The script's output when no track is current: three empty texts, then
    // the numbers and the flag. Trimming removes the leading tabs.
    let err = track_from_script_output("\t\t\t0\t0\tfalse\n").unwrap_err();
    assert_eq!(err, "Unexpected field count 3 in '0\t0\tfalse'");
}

#[test]
fn poll_sends_only_changes() {
    let last = TrackInfo::default();
    assert_eq!(poll_step(&last, &Ok(TrackInfo::default())), None);
    assert_eq!(poll_step(&last, &Err("osascript failed".to_string())), None);
    let mut t = TrackInfo::default();
    t.title = "New".to_string();
    assert_eq!(poll_step(&last, &Ok(t.clone())), Some(t));
}
