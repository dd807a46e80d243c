//! What becomes of a downloaded segment: audio that the fingerprint
//! service does not know is recorded as new, audio that it knows is logged
//! as heard again.

use vstd::prelude::*;

use crate::download::{announced, described, Download, SegmentDownloadInfo};
use crate::outside::{fresh_id, now};
use crate::records::{
    AudioData, AudioFormat, AudioRecord, MatchData, Metadata, MetadataRecord, QueryResult,
    Timestamp, TrackInfo, TrackRecord,
};

verus! {

/// How an attempt to fetch a segment ended.
#[derive(Debug, Clone, PartialEq, Eq)]
pub enum Fetched {
    /// No answer came.
    Failed,
    /// The server answered.
    Answered { status: u16, content_type: Option<String>, bytes: Vec<u8> },
}

/// Why a segment could not be downloaded.
#[derive(Debug, Copy, Clone, PartialEq, Eq, Structural)]
pub enum DownloadError {
    /// No answer came from the server.
    Transport,
    /// The server answered with a status that is no success.
    Status(u16),
    /// The answer does not say what kind of content it holds.
    MissingContentType,
}

/// What is to be done with a downloaded segment.
#[derive(Debug, Clone, PartialEq, Eq)]
pub enum Ingest {
    /// The audio is new: the fingerprint service is told of the track, and
    /// the recording and its description are stored.
    New { track: TrackInfo, audio: AudioData, metadata: Metadata },
    /// The audio is known: every recognition is added to the log.
    Known { entries: Vec<MatchData> },
}

/// A decision on a downloaded segment as a mathematical value.
pub enum Plan {
    New { track: TrackRecord, audio: AudioRecord, metadata: MetadataRecord },
    Known { entries: Seq<MatchData> },
}

impl DeepView for Ingest {
    type V = Plan;

    open spec fn deep_view(&self) -> Plan {
        match self {
            Ingest::New { track, audio, metadata } => Plan::New {
                track: track.deep_view(),
                audio: audio.deep_view(),
                metadata: metadata.deep_view(),
            },
            Ingest::Known { entries } => Plan::Known { entries: entries@ },
        }
    }
}

impl Plan {
    /// The recordings that the plan stores.
    pub open spec fn recordings(self) -> Seq<AudioRecord> {
        match self {
            Plan::New { audio, .. } => seq![audio],
            Plan::Known { .. } => Seq::empty(),
        }
    }

    /// The descriptions that the plan stores.
    pub open spec fn descriptions(self) -> Seq<MetadataRecord> {
        match self {
            Plan::New { metadata, .. } => seq![metadata],
            Plan::Known { .. } => Seq::empty(),
        }
    }

    /// The tracks that the plan inserts into the fingerprint service.
    pub open spec fn insertions(self) -> Seq<TrackRecord> {
        match self {
            Plan::New { track, .. } => seq![track],
            Plan::Known { .. } => Seq::empty(),
        }
    }

    /// The entries that the plan adds to the log of recognitions.
    pub open spec fn log_entries(self) -> Seq<MatchData> {
        match self {
            Plan::New { .. } => Seq::empty(),
            Plan::Known { entries } => entries,
        }
    }
}

/// A status of the success class, 200 to 299.
pub open spec fn is_success(status: u16) -> bool {
    200 <= status <= 299
}

/// The log entries for the recognitions `matches`, all made at the moment
/// `at`: one for each, in their order, with its identifier and similarity.
pub open spec fn logged(matches: Seq<QueryResult>, at: Timestamp) -> Seq<MatchData> {
    matches.map_values(
        |found: QueryResult| MatchData { id: found.id, timestamp: at, score: found.score },
    )
}

/// Each entry carries the identifier and the similarity of the
/// recognition at its place; nothing is said of the moments.
pub open spec fn logs_each(entries: Seq<MatchData>, matches: Seq<QueryResult>) -> bool {
    &&& entries.len() == matches.len()
    &&& forall|i: int|
        0 <= i < entries.len() ==> (#[trigger] entries[i]).id == matches[i].id && entries[i].score
            == matches[i].score
}

/// What is done with the audio `bytes` of `download` when the fingerprint
/// service answers a query for it with `matches`. No match: the audio is
/// new and is recorded under `id`. Any match: nothing new is recorded and
/// each match is logged.
pub open spec fn planned(
    download: Download,
    format: AudioFormat,
    bytes: Seq<u8>,
    matches: Seq<QueryResult>,
    id: u128,
    at: Timestamp,
) -> Plan {
    if matches.len() == 0 {
        Plan::New {
            track: announced(download, id),
            audio: AudioRecord { id, format, bytes },
            metadata: described(download, id, at),
        }
    } else {
        Plan::Known { entries: logged(matches, at) }
    }
}

/// Turns the end of a fetch into the content type and the bytes that were
/// received. Only an answer with a status of success that names its
/// content type is a download.
pub fn download(fetched: Fetched) -> (result: Result<(String, Vec<u8>), DownloadError>)
    ensures
        match fetched {
            Fetched::Failed => result == Err::<(String, Vec<u8>), DownloadError>(
                DownloadError::Transport,
            ),
            Fetched::Answered { status, content_type, bytes } => if !is_success(status) {
                result == Err::<(String, Vec<u8>), DownloadError>(DownloadError::Status(status))
            } else if content_type is None {
                result == Err::<(String, Vec<u8>), DownloadError>(
                    DownloadError::MissingContentType,
                )
            } else {
                result == Ok::<(String, Vec<u8>), DownloadError>((content_type->0, bytes))
            },
        },
{
    match fetched {
        Fetched::Failed => Err(DownloadError::Transport),
        Fetched::Answered { status, content_type, bytes } => {
            if status < 200 || status > 299 {
                return Err(DownloadError::Status(status));
            }
            match content_type {
                Some(named) => Ok((named, bytes)),
                None => Err(DownloadError::MissingContentType),
            }
        },
    }
}

impl Ingest {
    /// Decides what to do with a downloaded segment, given the answer of
    /// the fingerprint service, the identifier to use if the audio is new,
    /// and the moment of the decision.
    pub fn plan_at(
        info: &SegmentDownloadInfo,
        format: AudioFormat,
        bytes: Vec<u8>,
        matches: &Vec<QueryResult>,
        id: u128,
        at: Timestamp,
    ) -> (plan: Ingest)
        ensures
            plan.deep_view() == planned(info.deep_view(), format, bytes@, matches@, id, at),
    {
        if matches.len() == 0 {
            Ingest::New {
                track: info.to_track_info(id),
                audio: AudioData::new(id, format, bytes),
                metadata: info.to_metadata_at(id, at),
            }
        } else {
            let mut entries: Vec<MatchData> = Vec::new();
            let mut i: usize = 0;
            while i < matches.len()
                invariant
                    i <= matches.len(),
                    entries@ == logged(matches@, at).take(i as int),
                decreases matches.len() - i,
            {
                entries.push(MatchData::at(&matches[i], at));
                i += 1;
            }
            assert(logged(matches@, at).take(matches.len() as int) =~= logged(matches@, at));
            Ingest::Known { entries }
        }
    }

    /// Decides what to do with a downloaded segment, given the answer of
    /// the fingerprint service. New audio is recorded under an identifier
    /// drawn for it, at the present moment; for known audio each
    /// recognition is logged at the moment it is looked at.
    pub fn plan(
        info: &SegmentDownloadInfo,
        format: AudioFormat,
        bytes: Vec<u8>,
        matches: &Vec<QueryResult>,
    ) -> (plan: Ingest)
        ensures
            matches.len() == 0 ==> exists|id: u128, at: Timestamp|
                plan.deep_view() == planned(info.deep_view(), format, bytes@, matches@, id, at),
            matches.len() > 0 ==> plan is Known && logs_each(plan->entries@, matches@),
    {
        if matches.len() == 0 {
            let id = fresh_id();
            let at = now();
            Ingest::plan_at(info, format, bytes, matches, id, at)
        } else {
            let mut entries: Vec<MatchData> = Vec::new();
            let mut i: usize = 0;
            while i < matches.len()
                invariant
                    i <= matches.len(),
                    logs_each(entries@, matches@.take(i as int)),
                decreases matches.len() - i,
            {
                entries.push(MatchData::from(&matches[i]));
                i += 1;
            }
            Ingest::Known { entries }
        }
    }
}

/// Audio that the fingerprint service does not know leads to exactly one
/// insertion into the service, one recording and one description, all
/// under the identifier that was drawn, and to no log entry.
pub proof fn lemma_unknown_audio_is_recorded_once(
    download: Download,
    format: AudioFormat,
    bytes: Seq<u8>,
    matches: Seq<QueryResult>,
    id: u128,
    at: Timestamp,
)
    requires
        matches.len() == 0,
    ensures
        ({
            let plan = planned(download, format, bytes, matches, id, at);
            &&& plan.insertions() == seq![announced(download, id)]
            &&& plan.recordings() == seq![AudioRecord { id, format, bytes }]
            &&& plan.descriptions() == seq![described(download, id, at)]
            &&& plan.log_entries().len() == 0
        }),
{
}

/// Audio that the fingerprint service knows leads to no insertion, no
/// recording and no description, and to one log entry for each match, with
/// the identifier and the similarity that the match reports.
pub proof fn lemma_known_audio_is_logged(
    download: Download,
    format: AudioFormat,
    bytes: Seq<u8>,
    matches: Seq<QueryResult>,
    id: u128,
    at: Timestamp,
)
    requires
        matches.len() > 0,
    ensures
        ({
            let plan = planned(download, format, bytes, matches, id, at);
            &&& plan.insertions().len() == 0
            &&& plan.recordings().len() == 0
            &&& plan.descriptions().len() == 0
            &&& plan.log_entries().len() == matches.len()
            &&& logs_each(plan.log_entries(), matches)
        }),
{
}

} // verus!
