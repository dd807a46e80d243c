use stream_recorder::info::{KostaRadioSegmentInfo, ParseError};
use stream_recorder::kind::SuggestedSegmentContentKind;
use stream_recorder::segment::{Segment, Span};

const MUSIC: &str = r#"title="Song Title",artist="The Band",url="song_spot=\"M\" MediaBaseId=\"1234567\" itunesTrackId=\"0\" amgTrackId=\"-1\" amgArtistId=\"0\" TAID=\"0\" TPID=\"0\" cartcutId=\"0\" amgArtworkURL=\"http://image.example.com/cover.jpg\" length=\"00:03:25\" unsID=\"-1\" spotInstanceId=\"-1\"""#;

const TALK: &str = r#"title="Morning Show",artist="Station",url="song_spot=\"T\" MediaBaseId=\"0\" itunesTrackId=\"0\" amgTrackId=\"0\" amgArtistId=\"0\" TAID=\"0\" TPID=\"0\" cartcutId=\"0\" amgArtworkURL=\"\" length=\"00:00:00\" unsID=\"0\" spotInstanceId=\"-1\"""#;

const ADVERTISEMENT: &str = r#"title="Spot",artist="Sponsor",url="song_spot=\"F\" MediaBaseId=\"0\" itunesTrackId=\"0\" amgTrackId=\"-1\" amgArtistId=\"0\" TAID=\"0\" TPID=\"0\" cartcutId=\"0\" amgArtworkURL=\"null\" length=\"00:02:03\" unsID=\"-1\" spotInstanceId=\"688d6785-f34c-35a8-3255-1a9dd167fbd2\"""#;

fn with_field(key: &str, value: &str) -> String {
    MUSIC.replace(
        &format!("{key}=\\\"{}\\\"", field_of(MUSIC, key)),
        &format!("{key}=\\\"{value}\\\""),
    )
}

fn field_of(text: &str, key: &str) -> String {
    let start = text.find(&format!("{key}=\\\"")).unwrap() + key.len() + 3;
    let end = start + text[start..].find("\\\"").unwrap();
    text[start..end].to_string()
}

fn groups_of(fields: [&str; 15]) -> Vec<Option<String>> {
    fields.iter().map(|field| Some(field.to_string())).collect()
}

fn music_groups() -> [&'static str; 15] {
    [
        "whole", "Song Title", "The Band", "M", "1234567", "0", "-1", "0", "0", "0", "0",
        "http://image.example.com/cover.jpg", "00:03:25", "-1", "-1",
    ]
}

#[test]
fn reads_every_field_of_a_song() {
    let info = KostaRadioSegmentInfo::try_from(MUSIC).unwrap();
    assert_eq!(
        info,
        KostaRadioSegmentInfo {
            title: "Song Title".to_string(),
            artist: "The Band".to_string(),
            song_spot: 'M',
            media_base_id: 1234567,
            itunes_track_id: 0,
            amg_track_id: -1,
            amg_artist_id: 0,
            ta_id: 0,
            tp_id: 0,
            cartcut_id: 0,
            amg_artwork_url: Some("http://image.example.com/cover.jpg".to_string()),
            length: 205,
            uns_id: -1,
            spot_instance_id: None,
        }
    );
    assert_eq!(info.suggested_content_kind(), SuggestedSegmentContentKind::Music);
}

#[test]
fn reads_talk() {
    let info = KostaRadioSegmentInfo::try_from(TALK).unwrap();
    assert_eq!(info.song_spot, 'T');
    assert_eq!(info.amg_artwork_url, None);
    assert_eq!(info.length, 0);
    assert_eq!(info.spot_instance_id, None);
    assert_eq!(info.suggested_content_kind(), SuggestedSegmentContentKind::Talk);
}

#[test]
fn reads_an_advertisement() {
    let info = KostaRadioSegmentInfo::try_from(ADVERTISEMENT).unwrap();
    assert_eq!(info.song_spot, 'F');
    assert_eq!(info.amg_track_id, -1);
    assert_eq!(info.amg_artwork_url, None);
    assert_eq!(info.length, 123);
    assert_eq!(info.spot_instance_id, Some(0x688d6785_f34c_35a8_3255_1a9dd167fbd2));
    assert_eq!(info.suggested_content_kind(), SuggestedSegmentContentKind::Advertisement);
}

#[test]
fn an_offset_may_come_first() {
    let text = format!("offset=0,{MUSIC}");
    assert_eq!(
        KostaRadioSegmentInfo::try_from(&text),
        KostaRadioSegmentInfo::try_from(MUSIC)
    );
}

#[test]
fn text_around_the_match_is_ignored() {
    let text = format!("something before {MUSIC} and after");
    assert_eq!(
        KostaRadioSegmentInfo::try_from(&text),
        KostaRadioSegmentInfo::try_from(MUSIC)
    );
}

#[test]
fn the_six_identifiers_land_in_their_fields() {
    let text = r#"title="t",artist="a",url="song_spot=\"M\" MediaBaseId=\"1\" itunesTrackId=\"2\" amgTrackId=\"3\" amgArtistId=\"4\" TAID=\"5\" TPID=\"6\" cartcutId=\"7\" amgArtworkURL=\"\" length=\"01:02:03\" unsID=\"8\" spotInstanceId=\"x\"""#;
    let info = KostaRadioSegmentInfo::try_from(text).unwrap();
    assert_eq!(info.media_base_id, 1);
    assert_eq!(info.itunes_track_id, 2);
    assert_eq!(info.amg_track_id, 3);
    assert_eq!(info.amg_artist_id, 4);
    assert_eq!(info.ta_id, 5);
    assert_eq!(info.tp_id, 6);
    assert_eq!(info.cartcut_id, 7);
    assert_eq!(info.uns_id, 8);
    assert_eq!(info.length, 3723);
}

#[test]
fn a_text_without_the_form_of_the_grammar_does_not_match() {
    assert_eq!(KostaRadioSegmentInfo::try_from(""), Err(ParseError::NoMatch));
    assert_eq!(KostaRadioSegmentInfo::try_from("offset=0,adContext=''"), Err(ParseError::NoMatch));
    assert_eq!(KostaRadioSegmentInfo::try_from(&MUSIC[..MUSIC.len() - 1]), Err(ParseError::NoMatch));
    assert_eq!(
        KostaRadioSegmentInfo::try_from(&MUSIC.replace("TAID", "TaId")),
        Err(ParseError::NoMatch)
    );
}

#[test]
fn an_empty_title_or_artist_does_not_match() {
    assert_eq!(
        KostaRadioSegmentInfo::try_from(&MUSIC.replace("Song Title", "")),
        Err(ParseError::NoMatch)
    );
    assert_eq!(
        KostaRadioSegmentInfo::try_from(&MUSIC.replace("The Band", "")),
        Err(ParseError::NoMatch)
    );
}

#[test]
fn a_spot_code_of_two_characters_does_not_match() {
    assert_eq!(KostaRadioSegmentInfo::try_from(&with_field("song_spot", "MM")), Err(ParseError::NoMatch));
    assert_eq!(KostaRadioSegmentInfo::try_from(&with_field("song_spot", "")), Err(ParseError::NoMatch));
}

#[test]
fn an_identifier_out_of_range_is_an_error() {
    for key in
        ["MediaBaseId", "itunesTrackId", "amgTrackId", "amgArtistId", "TAID", "TPID", "cartcutId", "unsID"]
    {
        assert_eq!(
            KostaRadioSegmentInfo::try_from(&with_field(key, "9223372036854775808")),
            Err(ParseError::Integer),
            "{key}"
        );
        assert_eq!(
            KostaRadioSegmentInfo::try_from(&with_field(key, "-9223372036854775808"))
                .map(|_| ()),
            Ok(()),
            "{key}"
        );
    }
}

#[test]
fn an_identifier_in_other_digits_is_an_error() {
    assert_eq!(
        KostaRadioSegmentInfo::try_from(&with_field("TAID", "٣")),
        Err(ParseError::Integer)
    );
}

#[test]
fn a_length_that_is_no_time_of_day_is_an_error() {
    for length in ["24:00:00", "00:60:00", "00:00:61", "99:99:99", "٠٠:٠٠:٠٠"] {
        assert_eq!(
            KostaRadioSegmentInfo::try_from(&with_field("length", length)),
            Err(ParseError::Length),
            "{length}"
        );
    }
}

#[test]
fn a_length_is_counted_in_seconds_from_midnight() {
    for (length, seconds) in [
        ("00:00:00", 0u64),
        ("00:00:01", 1),
        ("00:01:30", 90),
        ("00:01:31", 91),
        ("01:00:00", 3600),
        ("23:59:59", 86399),
        ("23:59:60", 86400),
        ("00:00:60", 60),
    ] {
        let info = KostaRadioSegmentInfo::try_from(&with_field("length", length)).unwrap();
        assert_eq!(info.length, seconds, "{length}");
    }
}

#[test]
fn a_length_of_another_form_does_not_match() {
    assert_eq!(
        KostaRadioSegmentInfo::try_from(&with_field("length", "0:03:25")),
        Err(ParseError::NoMatch)
    );
    assert_eq!(
        KostaRadioSegmentInfo::try_from(&with_field("length", "03:25")),
        Err(ParseError::NoMatch)
    );
}

#[test]
fn the_first_bad_field_decides_the_error() {
    let text = with_field("length", "24:00:00").replace("cartcutId=\\\"0\\\"", "cartcutId=\\\"99999999999999999999\\\"");
    assert_eq!(KostaRadioSegmentInfo::try_from(&text), Err(ParseError::Integer));
    let text = with_field("length", "24:00:00").replace("unsID=\\\"-1\\\"", "unsID=\\\"99999999999999999999\\\"");
    assert_eq!(KostaRadioSegmentInfo::try_from(&text), Err(ParseError::Length));
}

#[test]
fn artwork_that_is_no_url_is_absent() {
    for artwork in ["", "null", "cover.jpg", "//image.example.com/cover.jpg"] {
        let info = KostaRadioSegmentInfo::try_from(&with_field("amgArtworkURL", artwork)).unwrap();
        assert_eq!(info.amg_artwork_url, None, "{artwork}");
    }
}

#[test]
fn artwork_is_kept_in_normal_form() {
    let info = KostaRadioSegmentInfo::try_from(&with_field(
        "amgArtworkURL",
        "HTTP://Image.Example.COM/a b.jpg",
    ))
    .unwrap();
    assert_eq!(info.amg_artwork_url, Some("http://image.example.com/a%20b.jpg".to_string()));
}

#[test]
fn an_instance_identifier_that_is_no_uuid_is_absent() {
    for instance in ["-1", "0", "688d6785", "688d6785-f34c-35a8-3255-1a9dd167fbdz"] {
        let info = KostaRadioSegmentInfo::try_from(&with_field("spotInstanceId", instance)).unwrap();
        assert_eq!(info.spot_instance_id, None, "{instance}");
    }
}

#[test]
fn an_instance_identifier_is_read_in_every_form_of_a_uuid() {
    let bits = Some(0x688d6785_f34c_35a8_3255_1a9dd167fbd2u128);
    for instance in [
        "688d6785-f34c-35a8-3255-1a9dd167fbd2",
        "688D6785-F34C-35A8-3255-1A9DD167FBD2",
        "688d6785f34c35a832551a9dd167fbd2",
        "{688d6785-f34c-35a8-3255-1a9dd167fbd2}",
        "urn:uuid:688d6785-f34c-35a8-3255-1a9dd167fbd2",
    ] {
        let info = KostaRadioSegmentInfo::try_from(&with_field("spotInstanceId", instance)).unwrap();
        assert_eq!(info.spot_instance_id, bits, "{instance}");
    }
}

#[test]
fn the_title_is_the_shortest_that_fits() {
    let text = MUSIC.replace("Song Title", r#"A "quoted" word"#);
    let info = KostaRadioSegmentInfo::try_from(&text).unwrap();
    assert_eq!(info.title, r#"A "quoted" word"#);
    assert_eq!(info.artist, "The Band");
}

#[test]
fn from_captures_reads_the_groups() {
    let info = KostaRadioSegmentInfo::from_captures(&groups_of(music_groups())).unwrap();
    assert_eq!(Ok(info), KostaRadioSegmentInfo::try_from(MUSIC));
}

#[test]
fn from_captures_wants_fifteen_groups() {
    let mut groups = groups_of(music_groups());
    groups.pop();
    assert_eq!(KostaRadioSegmentInfo::from_captures(&groups), Err(ParseError::NoMatch));
    let mut groups = groups_of(music_groups());
    groups.push(Some("more".to_string()));
    assert_eq!(KostaRadioSegmentInfo::from_captures(&groups), Err(ParseError::NoMatch));
    assert_eq!(KostaRadioSegmentInfo::from_captures(&Vec::new()), Err(ParseError::NoMatch));
}

#[test]
fn from_captures_wants_every_group_to_be_there() {
    for missing in 0..15 {
        let mut groups = groups_of(music_groups());
        groups[missing] = None;
        assert_eq!(
            KostaRadioSegmentInfo::from_captures(&groups),
            Err(ParseError::NoMatch),
            "{missing}"
        );
    }
}

#[test]
fn from_captures_refuses_an_empty_spot_code() {
    let mut fields = music_groups();
    fields[3] = "";
    assert_eq!(KostaRadioSegmentInfo::from_captures(&groups_of(fields)), Err(ParseError::SongSpot));
}

#[test]
fn from_captures_takes_the_first_character_of_the_spot_code() {
    let mut fields = music_groups();
    fields[3] = "FM";
    let info = KostaRadioSegmentInfo::from_captures(&groups_of(fields)).unwrap();
    assert_eq!(info.song_spot, 'F');
}

#[test]
fn from_captures_reports_errors_in_the_order_of_the_fields() {
    let mut fields = music_groups();
    fields[3] = "";
    fields[4] = "x";
    fields[12] = "x";
    assert_eq!(KostaRadioSegmentInfo::from_captures(&groups_of(fields)), Err(ParseError::SongSpot));
    fields[3] = "M";
    assert_eq!(KostaRadioSegmentInfo::from_captures(&groups_of(fields)), Err(ParseError::Integer));
    fields[4] = "1";
    fields[13] = "x";
    assert_eq!(KostaRadioSegmentInfo::from_captures(&groups_of(fields)), Err(ParseError::Length));
    fields[12] = "00:00:00";
    assert_eq!(KostaRadioSegmentInfo::from_captures(&groups_of(fields)), Err(ParseError::Integer));
    fields[13] = "1";
    assert!(KostaRadioSegmentInfo::from_captures(&groups_of(fields)).is_ok());
}

#[test]
fn from_captures_refuses_a_length_with_spaces() {
    let mut fields = music_groups();
    fields[12] = " 0:03:25";
    assert_eq!(KostaRadioSegmentInfo::from_captures(&groups_of(fields)), Err(ParseError::Length));
}

#[test]
fn a_segment_without_a_title_has_no_metadata() {
    let segment = Segment::new(1, Span::new(10, 0), None, "https://example.com/1.aac".to_string());
    assert_eq!(KostaRadioSegmentInfo::from_segment(&segment), Err(ParseError::NoTitle));
}

#[test]
fn a_segment_has_the_metadata_of_its_title() {
    let segment = Segment::new(1, Span::new(10, 0), Some(MUSIC.to_string()), "https://example.com/1.aac".to_string());
    assert_eq!(
        KostaRadioSegmentInfo::from_segment(&segment),
        KostaRadioSegmentInfo::try_from(MUSIC)
    );
    let segment = Segment::new(1, Span::new(10, 0), Some("x".to_string()), "https://example.com/1.aac".to_string());
    assert_eq!(KostaRadioSegmentInfo::from_segment(&segment), Err(ParseError::NoMatch));
}
