//! The segments that are worth fetching: how one is chosen from a listed
//! segment, and what is derived from it once it is chosen.

use vstd::prelude::*;
use vstd::string::StringExecFns;

use crate::filter::{
    accepts, lemma_seen_numbers_change_nothing, lemma_watermark_bounds,
    lemma_watermark_continues, watermark_after, SegmentDownloadFilter, SegmentNumberFilter,
};
use crate::info::{outcome, parsed_segment, KostaRadioSegmentInfo, ParseError, ParsedMetadata};
use crate::kind::{AudioKind, SuggestedSegmentContentKind};
use crate::outside::{
    last_path_segment, now, parse_url, stamp_now, url_last_segment, url_serialization,
    STAMP_FORMAT,
};
use crate::records::{Metadata, MetadataRecord, Timestamp, TrackInfo, TrackRecord};
use crate::segment::{Segment, SegmentView};
use crate::text::{contains, has_substring};

verus! {

/// A segment that is to be fetched, with what is known of its content.
#[derive(Debug, Clone, PartialEq, Eq)]
pub struct SegmentDownloadInfo {
    /// The address of the audio, in normal form.
    pub url: String,
    pub artist: String,
    pub title: String,
    pub kind: SuggestedSegmentContentKind,
}

/// A segment that is to be fetched as a mathematical value.
pub struct Download {
    pub url: Seq<char>,
    pub artist: Seq<char>,
    pub title: Seq<char>,
    pub kind: SuggestedSegmentContentKind,
}

impl DeepView for SegmentDownloadInfo {
    type V = Download;

    open spec fn deep_view(&self) -> Download {
        Download { url: self.url@, artist: self.artist@, title: self.title@, kind: self.kind }
    }
}

/// The text that marks an inserted advertisement in a title that does not
/// follow the grammar.
pub const AD_MARKER: &'static str = "adContext=";

/// What stands for the artist and the title of an inserted advertisement.
pub const AD_PLACEHOLDER: &'static str = "Advertisement";

/// What ends a label where the address has no path to take a name from.
pub const UNKNOWN_FILE: &'static str = "unknown";

/// What is fetched from `url` for a segment with the title text `title`
/// that gave `parsed`. Metadata that was read decides by its rules. A
/// title that could not be read but holds the marker of an inserted
/// advertisement is one, under placeholder names. Anything else is not
/// fetched.
pub open spec fn chosen(
    url: Seq<char>,
    title: Option<Seq<char>>,
    parsed: Result<ParsedMetadata, ParseError>,
) -> Option<Download> {
    match parsed {
        Ok(metadata) => Some(
            Download { url, artist: metadata.artist, title: metadata.title, kind: metadata.kind() },
        ),
        Err(_) => if title is Some && has_substring(title->0, AD_MARKER@) {
            Some(
                Download {
                    url,
                    artist: AD_PLACEHOLDER@,
                    title: AD_PLACEHOLDER@,
                    kind: SuggestedSegmentContentKind::Advertisement,
                },
            )
        } else {
            None
        },
    }
}

/// What is fetched for a listed segment: nothing where its address is no
/// URL, else what its title text decides.
pub open spec fn candidate(segment: SegmentView) -> Option<Download> {
    match url_serialization(segment.uri) {
        Some(url) => chosen(url, segment.title, parsed_segment(segment)),
        None => None,
    }
}

/// The label of a download: the moment, the kind, the artist and the title,
/// joined by underscores, then a dot and the name of the file.
pub open spec fn label_text(download: Download, stamp: Seq<char>, file: Option<Seq<char>>) -> Seq<
    char,
> {
    stamp + "_"@ + download.kind.spec_name() + "_"@ + download.artist + "_"@ + download.title
        + "."@ + (match file {
        Some(name) => name,
        None => UNKNOWN_FILE@,
    })
}

/// The track that a download is announced as under the identifier `id`.
pub open spec fn announced(download: Download, id: u128) -> TrackRecord {
    TrackRecord { id, artist: download.artist, title: download.title }
}

/// The description of a download under the identifier `id`, recorded at
/// the moment `at`: the suggested kind is filed under its own name, an
/// unknown one as unknown.
pub open spec fn described(download: Download, id: u128, at: Timestamp) -> MetadataRecord {
    MetadataRecord {
        id,
        timestamp: at,
        kind: download.kind.audio_kind(),
        artist: download.artist,
        title: download.title,
    }
}

impl SegmentDownloadInfo {
    /// Decides what to fetch from `url` for a segment whose title text
    /// `title` gave `parsed`.
    pub fn decide(
        url: String,
        title: &Option<String>,
        parsed: Result<KostaRadioSegmentInfo, ParseError>,
    ) -> (download: Option<SegmentDownloadInfo>)
        ensures
            download.deep_view() == chosen(url@, title.deep_view(), outcome(parsed)),
    {
        match parsed {
            Ok(info) => {
                let kind = info.suggested_content_kind();
                Some(SegmentDownloadInfo { url, artist: info.artist, title: info.title, kind })
            },
            Err(_) => {
                let marked = match title {
                    Some(text) => contains(text.as_str(), AD_MARKER),
                    None => false,
                };
                if marked {
                    Some(
                        SegmentDownloadInfo {
                            url,
                            artist: AD_PLACEHOLDER.to_owned(),
                            title: AD_PLACEHOLDER.to_owned(),
                            kind: SuggestedSegmentContentKind::Advertisement,
                        },
                    )
                } else {
                    None
                }
            },
        }
    }

    /// Decides what to fetch for a listed segment, if anything.
    pub fn from_segment(segment: &Segment) -> (download: Option<SegmentDownloadInfo>)
        ensures
            download.deep_view() == candidate(segment.deep_view()),
    {
        match parse_url(segment.uri.as_str()) {
            Some(url) => Self::decide(
                url,
                &segment.title,
                KostaRadioSegmentInfo::from_segment(segment),
            ),
            None => None,
        }
    }

    /// The label of this download for the moment written as `stamp`, with
    /// `file` as the name of the file, if the address gives one.
    pub fn label(&self, stamp: &str, file: &Option<String>) -> (label: String)
        ensures
            label@ == label_text(self.deep_view(), stamp@, file.deep_view()),
    {
        let mut label = String::new();
        label.append(stamp);
        label.append("_");
        label.append(self.kind.name());
        label.append("_");
        label.append(self.artist.as_str());
        label.append("_");
        label.append(self.title.as_str());
        label.append(".");
        match file {
            Some(name) => label.append(name.as_str()),
            None => label.append(UNKNOWN_FILE),
        }
        label
    }

    /// The label under which the fingerprint service hears of this
    /// download: the present moment, the kind, the artist, the title, and
    /// the last segment of the path of the address.
    pub fn filename(&self) -> (label: String)
        ensures
            exists|stamp: Seq<char>|
                label@ == label_text(self.deep_view(), stamp, url_last_segment(self.url@)),
    {
        let stamp = stamp_now(STAMP_FORMAT);
        let file = last_path_segment(self.url.as_str());
        self.label(stamp.as_str(), &file)
    }

    /// What the fingerprint service is told of this download as a new track.
    pub fn to_track_info(&self, id: u128) -> (track: TrackInfo)
        ensures
            track.deep_view() == announced(self.deep_view(), id),
    {
        TrackInfo::new(id, self.artist.clone(), self.title.clone())
    }

    /// The description of this download, recorded under `id` at the
    /// moment `at`.
    pub fn to_metadata_at(&self, id: u128, at: Timestamp) -> (metadata: Metadata)
        ensures
            metadata.deep_view() == described(self.deep_view(), id, at),
    {
        Metadata::new(id, at, AudioKind::from(self.kind), self.artist.clone(), self.title.clone())
    }

    /// The description of this download, recorded under `id` now: the
    /// moment is whatever the clock says, the rest is fixed.
    pub fn to_metadata(&self, id: u128) -> (metadata: Metadata)
        ensures
            metadata.deep_view() == described(self.deep_view(), id, metadata.timestamp),
    {
        self.to_metadata_at(id, now())
    }
}

/// The sequence numbers of the listed segments, in the order of the list.
pub open spec fn numbers(segments: Seq<SegmentView>) -> Seq<usize> {
    segments.map_values(|segment: SegmentView| segment.number)
}

/// What is fetched of a list of segments by a filter whose watermark is
/// `start`: the list is walked in order, a segment counts only if the
/// filter lets its number through, and of those that count each one that
/// is a candidate is fetched.
pub open spec fn selected(start: usize, segments: Seq<SegmentView>) -> Seq<Download>
    decreases segments.len(),
{
    if segments.len() == 0 {
        Seq::empty()
    } else if accepts(
        watermark_after(start, numbers(segments.drop_last())),
        segments.last().number,
    ) && candidate(segments.last()) is Some {
        selected(start, segments.drop_last()).push(candidate(segments.last())->0)
    } else {
        selected(start, segments.drop_last())
    }
}

/// Walks the segments of one manifest through the filter and decides for
/// each one that passes what to fetch. The filter sees every segment of
/// the list, so a segment that passes and is then not fetched has used up
/// its number all the same.
pub fn select_downloads(filter: &mut SegmentNumberFilter, segments: &Vec<Segment>) -> (downloads:
    Vec<SegmentDownloadInfo>)
    ensures
        final(filter).last_seen_number == watermark_after(
            old(filter).last_seen_number,
            numbers(segments.deep_view()),
        ),
        downloads.deep_view() == selected(old(filter).last_seen_number, segments.deep_view()),
{
    let ghost start = filter.last_seen_number;
    let ghost listed = segments.deep_view();
    let mut downloads: Vec<SegmentDownloadInfo> = Vec::new();
    let mut i: usize = 0;
    while i < segments.len()
        invariant
            i <= segments.len(),
            listed == segments.deep_view(),
            filter.last_seen_number == watermark_after(start, numbers(listed.take(i as int))),
            downloads.deep_view() == selected(start, listed.take(i as int)),
        decreases segments.len() - i,
    {
        let segment = &segments[i];
        proof {
            let longer = listed.take(i + 1);
            assert(longer.drop_last() =~= listed.take(i as int));
            assert(numbers(longer).drop_last() =~= numbers(listed.take(i as int)));
        }
        if filter.need_download(segment) {
            if let Some(download) = SegmentDownloadInfo::from_segment(segment) {
                downloads.push(download);
            }
        }
        i += 1;
    }
    assert(listed.take(segments.len() as int) =~= listed);
    downloads
}

/// Two manifests worked through one after the other give what the two
/// lists give as one: the filter carries over from cycle to cycle.
pub proof fn lemma_cycles_add_up(start: usize, first: Seq<SegmentView>, second: Seq<SegmentView>)
    ensures
        selected(start, first + second) == selected(start, first) + selected(
            watermark_after(start, numbers(first)),
            second,
        ),
    decreases second.len(),
{
    let carried = watermark_after(start, numbers(first));
    if second.len() > 0 {
        let shorter = second.drop_last();
        lemma_cycles_add_up(start, first, shorter);
        lemma_watermark_continues(start, numbers(first), numbers(shorter));
        assert((first + second).drop_last() =~= first + shorter);
        assert(numbers(first + shorter) =~= numbers(first) + numbers(shorter));
        if accepts(watermark_after(carried, numbers(shorter)), second.last().number) && candidate(
            second.last(),
        ) is Some {
            assert(selected(start, first + second) =~= selected(start, first) + selected(
                carried,
                second,
            ));
        }
    }
}

/// Segments at or below the watermark are not fetched.
pub proof fn lemma_seen_segments_are_skipped(start: usize, segments: Seq<SegmentView>)
    requires
        forall|i: int| 0 <= i < segments.len() ==> (#[trigger] segments[i]).number <= start,
    ensures
        selected(start, segments) == Seq::<Download>::empty(),
    decreases segments.len(),
{
    if segments.len() > 0 {
        let shorter = segments.drop_last();
        lemma_seen_segments_are_skipped(start, shorter);
        lemma_seen_numbers_change_nothing(start, numbers(shorter));
    }
}

/// A manifest that lists the same segments again, in the same or another
/// cycle, leads to no second download of any of them.
pub proof fn lemma_relisted_segments_are_skipped(start: usize, segments: Seq<SegmentView>)
    ensures
        selected(start, segments + segments) == selected(start, segments),
        watermark_after(start, numbers(segments + segments)) == watermark_after(
            start,
            numbers(segments),
        ),
{
    let carried = watermark_after(start, numbers(segments));
    assert forall|i: int| 0 <= i < segments.len() implies (#[trigger] segments[i]).number
        <= carried by {
        lemma_watermark_bounds(start, numbers(segments), i);
    }
    lemma_seen_segments_are_skipped(carried, segments);
    lemma_cycles_add_up(start, segments, segments);
    assert forall|i: int| 0 <= i < numbers(segments).len() implies numbers(segments)[i]
        <= carried by {
        lemma_watermark_bounds(start, numbers(segments), i);
    }
    lemma_seen_numbers_change_nothing(carried, numbers(segments));
    lemma_watermark_continues(start, numbers(segments), numbers(segments));
    assert(numbers(segments + segments) =~= numbers(segments) + numbers(segments));
}

} // verus!
