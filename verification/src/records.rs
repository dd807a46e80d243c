//! The values that the recorder keeps: audio, its description, and the log
//! of recognitions.

use vstd::prelude::*;

use crate::kind::AudioKind;
use crate::outside::{format_uuid, now, parse_uuid, uuid_parsed, uuid_text};
use crate::text::same_text;

verus! {

/// A moment in time: whole seconds since the Unix epoch in UTC, and the
/// nanoseconds within that second.
#[derive(Debug, Copy, Clone, PartialEq, Eq, Structural)]
pub struct Timestamp {
    pub secs: i64,
    pub nanos: u32,
}

/// The encoding of stored audio.
#[derive(Debug, Copy, Clone, PartialEq, Eq, Structural)]
pub enum AudioFormat {
    Aac,
}

/// One recording: created once for audio that was not known before.
#[derive(Debug, Clone, PartialEq, Eq)]
pub struct AudioData {
    /// The bits of the UUID under which the recording is kept.
    pub id: u128,
    pub format: AudioFormat,
    pub bytes: Vec<u8>,
}

/// A recording as a mathematical value.
pub struct AudioRecord {
    pub id: u128,
    pub format: AudioFormat,
    pub bytes: Seq<u8>,
}

/// What describes a recording; it shares the recording's identifier.
#[derive(Debug, Clone, PartialEq, Eq)]
pub struct Metadata {
    pub id: u128,
    pub timestamp: Timestamp,
    pub kind: AudioKind,
    pub artist: String,
    pub title: String,
}

/// A description as a mathematical value.
pub struct MetadataRecord {
    pub id: u128,
    pub timestamp: Timestamp,
    pub kind: AudioKind,
    pub artist: Seq<char>,
    pub title: Seq<char>,
}

/// One entry of the log of recognitions.
#[derive(Debug, Copy, Clone, PartialEq, Eq, Structural)]
pub struct MatchData {
    /// The identifier of the recording that was recognised.
    pub id: u128,
    pub timestamp: Timestamp,
    /// The similarity that the fingerprint service reported, as the bits of
    /// its number.
    pub score: u64,
}

/// What the fingerprint service is told of a new track.
#[derive(Debug, Clone, PartialEq, Eq)]
pub struct TrackInfo {
    pub id: u128,
    pub artist: String,
    pub title: String,
}

/// A track as a mathematical value.
pub struct TrackRecord {
    pub id: u128,
    pub artist: Seq<char>,
    pub title: Seq<char>,
}

/// One recognition that the fingerprint service reports for a query.
#[derive(Debug, Clone, PartialEq, Eq)]
pub struct QueryResult {
    pub id: u128,
    pub artist: Option<String>,
    pub title: Option<String>,
    /// The similarity, as the bits of its number.
    pub score: u64,
}

/// Why a stored row is no recording.
#[derive(Debug, Copy, Clone, PartialEq, Eq, Structural)]
pub enum RowError {
    /// The identifier is no UUID.
    Id,
    /// The format tag names no format.
    Format,
}

impl AudioFormat {
    /// The tag under which the format is stored.
    pub open spec fn spec_tag(self) -> Seq<char> {
        match self {
            AudioFormat::Aac => "aac"@,
        }
    }

    /// The format that a stored tag names.
    pub open spec fn spec_from_tag(tag: Seq<char>) -> Option<AudioFormat> {
        if tag == "aac"@ {
            Some(AudioFormat::Aac)
        } else {
            None
        }
    }

    /// The tag under which the format is stored: `aac`.
    pub fn tag(&self) -> (tag: &'static str)
        ensures
            tag@ == self.spec_tag(),
            Self::spec_from_tag(tag@) == Some(*self),
    {
        match self {
            AudioFormat::Aac => "aac",
        }
    }

    /// The format that a stored tag names, if it names one.
    pub fn from_tag(tag: &str) -> (format: Option<AudioFormat>)
        ensures
            format == Self::spec_from_tag(tag@),
    {
        if same_text(tag, "aac") {
            Some(AudioFormat::Aac)
        } else {
            None
        }
    }
}

impl DeepView for AudioData {
    type V = AudioRecord;

    open spec fn deep_view(&self) -> AudioRecord {
        AudioRecord { id: self.id, format: self.format, bytes: self.bytes@ }
    }
}

impl DeepView for Metadata {
    type V = MetadataRecord;

    open spec fn deep_view(&self) -> MetadataRecord {
        MetadataRecord {
            id: self.id,
            timestamp: self.timestamp,
            kind: self.kind,
            artist: self.artist@,
            title: self.title@,
        }
    }
}

impl DeepView for TrackInfo {
    type V = TrackRecord;

    open spec fn deep_view(&self) -> TrackRecord {
        TrackRecord { id: self.id, artist: self.artist@, title: self.title@ }
    }
}

/// The recording that a stored row holds: the identifier is read first,
/// then the format tag.
pub open spec fn row_record(id: Seq<char>, format: Seq<char>, bytes: Seq<u8>) -> Result<
    AudioRecord,
    RowError,
> {
    if uuid_parsed(id) is None {
        Err(RowError::Id)
    } else if AudioFormat::spec_from_tag(format) is None {
        Err(RowError::Format)
    } else {
        Ok(
            AudioRecord {
                id: uuid_parsed(id)->0,
                format: AudioFormat::spec_from_tag(format)->0,
                bytes,
            },
        )
    }
}

impl AudioData {
    /// A recording of the given bytes under the given identifier.
    pub fn new(id: u128, format: AudioFormat, bytes: Vec<u8>) -> (data: AudioData)
        ensures
            data.id == id,
            data.format == format,
            data.bytes == bytes,
    {
        AudioData { id, format, bytes }
    }

    /// The identifier as the text under which the recording is stored.
    /// A row that holds this text, the tag of the format and the bytes
    /// reads back as this very recording.
    pub fn id_text(&self) -> (text: String)
        ensures
            text@ == uuid_text(self.id),
            row_record(text@, self.format.spec_tag(), self.bytes@) == Ok::<
                AudioRecord,
                RowError,
            >(self.deep_view()),
    {
        format_uuid(self.id)
    }

    /// Reads a recording back from a stored row.
    pub fn from_row(id: &str, format: &str, bytes: Vec<u8>) -> (result: Result<
        AudioData,
        RowError,
    >)
        ensures
            match result {
                Ok(data) => row_record(id@, format@, bytes@) == Ok::<AudioRecord, RowError>(
                    data.deep_view(),
                ),
                Err(error) => row_record(id@, format@, bytes@) == Err::<AudioRecord, RowError>(
                    error,
                ),
            },
    {
        let id = match parse_uuid(id) {
            Some(id) => id,
            None => {
                return Err(RowError::Id);
            },
        };
        let format = match AudioFormat::from_tag(format) {
            Some(format) => format,
            None => {
                return Err(RowError::Format);
            },
        };
        Ok(AudioData { id, format, bytes })
    }
}

impl Metadata {
    /// The description of a recording.
    pub fn new(id: u128, timestamp: Timestamp, kind: AudioKind, artist: String, title: String) -> (metadata:
        Metadata)
        ensures
            metadata.id == id,
            metadata.timestamp == timestamp,
            metadata.kind == kind,
            metadata.artist == artist,
            metadata.title == title,
    {
        Metadata { id, timestamp, kind, artist, title }
    }
}

impl TrackInfo {
    /// A track by its identifier, artist and title.
    pub fn new(id: u128, artist: String, title: String) -> (track: TrackInfo)
        ensures
            track.id == id,
            track.artist == artist,
            track.title == title,
    {
        TrackInfo { id, artist, title }
    }
}

impl QueryResult {
    /// A recognition of the recording `id` with the given similarity.
    pub fn new(id: u128, artist: Option<String>, title: Option<String>, score: u64) -> (result:
        QueryResult)
        ensures
            result.id == id,
            result.artist == artist,
            result.title == title,
            result.score == score,
    {
        QueryResult { id, artist, title, score }
    }

    /// The identifier of the recording that was recognised.
    pub fn id(&self) -> (id: u128)
        ensures
            id == self.id,
    {
        self.id
    }

    /// The artist that the service knows the recording by.
    pub fn artist(&self) -> (artist: &Option<String>)
        ensures
            *artist == self.artist,
    {
        &self.artist
    }

    /// The title that the service knows the recording by.
    pub fn title(&self) -> (title: &Option<String>)
        ensures
            *title == self.title,
    {
        &self.title
    }

    /// The similarity that the service reported.
    pub fn score(&self) -> (score: u64)
        ensures
            score == self.score,
    {
        self.score
    }
}

impl MatchData {
    /// An entry of the log.
    pub fn new(id: u128, timestamp: Timestamp, score: u64) -> (entry: MatchData)
        ensures
            entry == (MatchData { id, timestamp, score }),
    {
        MatchData { id, timestamp, score }
    }

    /// The entry that logs the recognition `value` at the moment `at`.
    pub fn at(value: &QueryResult, at: Timestamp) -> (entry: MatchData)
        ensures
            entry == (MatchData { id: value.id, timestamp: at, score: value.score }),
    {
        MatchData::new(value.id(), at, value.score())
    }

    /// The entry that logs the recognition `value` now: it carries the
    /// identifier and the similarity that were reported.
    pub fn from(value: &QueryResult) -> (entry: MatchData)
        ensures
            entry.id == value.id,
            entry.score == value.score,
    {
        MatchData::at(value, now())
    }
}

} // verus!
