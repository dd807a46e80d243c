use stream_recorder::records::{
    AudioData, AudioFormat, MatchData, Metadata, QueryResult, RowError, Timestamp, TrackInfo,
};
use stream_recorder::kind::AudioKind;

const ID: u128 = 0x688d6785_f34c_35a8_3255_1a9dd167fbd2;

#[test]
fn the_format_has_a_tag() {
    assert_eq!(AudioFormat::Aac.tag(), "aac");
}

#[test]
fn the_tag_names_the_format() {
    assert_eq!(AudioFormat::from_tag("aac"), Some(AudioFormat::Aac));
    assert_eq!(AudioFormat::from_tag(AudioFormat::Aac.tag()), Some(AudioFormat::Aac));
}

#[test]
fn another_tag_names_no_format() {
    for tag in ["", "AAC", "aac ", " aac", "mp3", "aacc"] {
        assert_eq!(AudioFormat::from_tag(tag), None, "{tag}");
    }
}

#[test]
fn a_recording_holds_what_it_was_made_of() {
    let data = AudioData::new(ID, AudioFormat::Aac, b"1234567890".to_vec());
    assert_eq!(data.id, ID);
    assert_eq!(data.format, AudioFormat::Aac);
    assert_eq!(data.bytes, b"1234567890".to_vec());
}

#[test]
fn the_identifier_is_written_with_hyphens() {
    let data = AudioData::new(ID, AudioFormat::Aac, Vec::new());
    assert_eq!(data.id_text(), "688d6785-f34c-35a8-3255-1a9dd167fbd2");
    let zero = AudioData::new(0, AudioFormat::Aac, Vec::new());
    assert_eq!(zero.id_text(), "00000000-0000-0000-0000-000000000000");
    let all = AudioData::new(u128::MAX, AudioFormat::Aac, Vec::new());
    assert_eq!(all.id_text(), "ffffffff-ffff-ffff-ffff-ffffffffffff");
}

#[test]
fn a_row_reads_back_as_the_recording_it_was_written_from() {
    let data = AudioData::new(ID, AudioFormat::Aac, b"1234567890".to_vec());
    let result =
        AudioData::from_row(&data.id_text(), data.format.tag(), data.bytes.clone()).unwrap();
    assert_eq!(result.id, data.id);
    assert_eq!(result.format, data.format);
    assert_eq!(result.bytes, data.bytes);
}

#[test]
fn every_kind_of_bytes_reads_back() {
    let all: Vec<u8> = (0..=255u8).collect();
    for bytes in [Vec::new(), vec![0u8], vec![0u8; 1000], all] {
        for id in [0u128, 1, ID, u128::MAX] {
            let data = AudioData::new(id, AudioFormat::Aac, bytes.clone());
            let row = AudioData::from_row(&data.id_text(), data.format.tag(), data.bytes.clone());
            assert_eq!(row, Ok(data));
        }
    }
}

#[test]
fn a_row_with_a_bad_identifier_is_refused() {
    assert_eq!(AudioData::from_row("", "aac", Vec::new()), Err(RowError::Id));
    assert_eq!(AudioData::from_row("not-a-uuid", "aac", vec![1]), Err(RowError::Id));
    assert_eq!(
        AudioData::from_row("688d6785-f34c-35a8-3255-1a9dd167fbd", "aac", vec![1]),
        Err(RowError::Id)
    );
}

#[test]
fn a_row_with_a_bad_format_is_refused() {
    assert_eq!(
        AudioData::from_row("688d6785-f34c-35a8-3255-1a9dd167fbd2", "mp3", vec![1]),
        Err(RowError::Format)
    );
}

#[test]
fn a_bad_identifier_is_reported_before_a_bad_format() {
    assert_eq!(AudioData::from_row("x", "mp3", vec![1]), Err(RowError::Id));
}

#[test]
fn a_row_reads_the_identifier_in_upper_case_too() {
    let row = AudioData::from_row("688D6785-F34C-35A8-3255-1A9DD167FBD2", "aac", vec![9]);
    assert_eq!(row, Ok(AudioData::new(ID, AudioFormat::Aac, vec![9])));
}

#[test]
fn records_hold_what_they_were_made_of() {
    let at = Timestamp { secs: 10, nanos: 20 };
    let metadata = Metadata::new(ID, at, AudioKind::Talk, "a".to_string(), "t".to_string());
    assert_eq!(metadata.id, ID);
    assert_eq!(metadata.timestamp, at);
    assert_eq!(metadata.kind, AudioKind::Talk);
    assert_eq!(metadata.artist, "a");
    assert_eq!(metadata.title, "t");
    let track = TrackInfo::new(ID, "a".to_string(), "t".to_string());
    assert_eq!((track.id, track.artist.as_str(), track.title.as_str()), (ID, "a", "t"));
    let entry = MatchData::new(ID, at, 99);
    assert_eq!((entry.id, entry.timestamp, entry.score), (ID, at, 99));
}

#[test]
fn a_recognition_hands_out_its_parts() {
    let found = QueryResult::new(ID, Some("a".to_string()), None, 0.75f64.to_bits());
    assert_eq!(found.id(), ID);
    assert_eq!(found.artist(), &Some("a".to_string()));
    assert_eq!(found.title(), &None);
    assert_eq!(f64::from_bits(found.score()), 0.75);
}

#[test]
fn a_log_entry_carries_identifier_and_similarity() {
    let found = QueryResult::new(ID, None, None, 0.5f64.to_bits());
    let at = Timestamp { secs: 3, nanos: 4 };
    assert_eq!(MatchData::at(&found, at), MatchData::new(ID, at, 0.5f64.to_bits()));
    let entry = MatchData::from(&found);
    assert_eq!(entry.id, ID);
    assert_eq!(f64::from_bits(entry.score), 0.5);
    assert!(entry.timestamp.secs > 1_600_000_000);
}

#[test]
fn test() {
    let data = AudioData::new(
        uuid::Uuid::new_v4().as_u128(),
        AudioFormat::Aac,
        b"1234567890".as_ref().into(),
    );
    let result =
        AudioData::from_row(&data.id_text(), data.format.tag(), data.bytes.clone()).unwrap();
    assert_eq!(result.id, data.id);
    assert_eq!(result.format, data.format);
    assert_eq!(result.bytes, data.bytes);
}
