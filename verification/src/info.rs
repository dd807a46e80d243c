//! The metadata that a segment's title text carries, and the rules that
//! classify a segment by it.

use vstd::prelude::*;

use crate::kind::SuggestedSegmentContentKind;
use crate::outside::{
    captures, clock_seconds, is_clock_text, parse_clock, parse_url, parse_uuid, regex_captures,
    url_serialization, uuid_parsed, CLOCK_FORMAT,
};
use crate::segment::{Segment, SegmentView};
use crate::text::{parse_i64, parsed_i64, to_chars};

verus! {

/// The fields read out of a well-formed title text.
#[derive(Debug, Clone, PartialEq, Eq)]
pub struct KostaRadioSegmentInfo {
    pub title: String,
    pub artist: String,
    /// The spot code, one character.
    pub song_spot: char,
    pub media_base_id: i64,
    pub itunes_track_id: i64,
    pub amg_track_id: i64,
    pub amg_artist_id: i64,
    pub ta_id: i64,
    pub tp_id: i64,
    pub cartcut_id: i64,
    /// The address of the artwork in normal form; absent where the text
    /// gave none that is a URL.
    pub amg_artwork_url: Option<String>,
    /// The playing time in whole seconds.
    pub length: u64,
    pub uns_id: i64,
    /// The bits of the instance identifier; absent where the text gave
    /// none that is a UUID.
    pub spot_instance_id: Option<u128>,
}

/// The metadata of a segment as a mathematical value.
pub struct ParsedMetadata {
    pub title: Seq<char>,
    pub artist: Seq<char>,
    pub song_spot: char,
    pub media_base_id: i64,
    pub itunes_track_id: i64,
    pub amg_track_id: i64,
    pub amg_artist_id: i64,
    pub ta_id: i64,
    pub tp_id: i64,
    pub cartcut_id: i64,
    pub amg_artwork_url: Option<Seq<char>>,
    pub length: u64,
    pub uns_id: i64,
    pub spot_instance_id: Option<u128>,
}

/// Why a title text gave no metadata.
#[derive(Debug, Copy, Clone, PartialEq, Eq, Structural)]
pub enum ParseError {
    /// The segment came without a title text.
    NoTitle,
    /// The text does not have the form of the grammar.
    NoMatch,
    /// The spot code is empty.
    SongSpot,
    /// One of the identifiers is no integer of 64 bits.
    Integer,
    /// The length is no time of day.
    Length,
}

/// Above this many seconds a segment is long enough to be a song.
pub const MUSIC_MIN_SECONDS: u64 = 90;

/// The number of capture groups of the grammar, the whole match included.
pub const GROUPS: usize = 15;

/// The grammar of a title text, as a regular expression: an optional
/// offset, the quoted title, the quoted artist, and a third quoted field
/// of twelve `KEY=\"VALUE\"` pairs separated by spaces.
pub const GRAMMAR: &'static str =
    r#"(?:offset=\d+,)?title="(.+?)",artist="(.+?)",url="song_spot=\\"(\w)\\" MediaBaseId=\\"(-?\d+)\\" itunesTrackId=\\"(-?\d+)\\" amgTrackId=\\"(-?\d+)\\" amgArtistId=\\"(-?\d+)\\" TAID=\\"(-?\d+)\\" TPID=\\"(-?\d+)\\" cartcutId=\\"(-?\d+)\\" amgArtworkURL=\\"(.*?)\\" length=\\"(\d\d:\d\d:\d\d)\\" unsID=\\"(-?\d+)\\" spotInstanceId=\\"(.+?)\\"""#;

impl ParsedMetadata {
    /// The rule for music: the spot code is `M` or `F`, the length is above
    /// ninety seconds, and something identifies a track: a positive
    /// MediaBase, iTunes or TP identifier, a positive pair of AMG
    /// identifiers, or artwork.
    pub open spec fn is_music(self) -> bool {
        &&& self.song_spot == 'M' || self.song_spot == 'F'
        &&& self.length > MUSIC_MIN_SECONDS
        &&& (self.media_base_id > 0 || self.itunes_track_id > 0 || (self.amg_artist_id > 0
            && self.amg_track_id > 0) || self.tp_id > 0 || self.amg_artwork_url is Some)
    }

    /// The rule for talk: the spot code is `T`, every identifier that names
    /// a track is zero, there is neither artwork nor an instance
    /// identifier, and the length is zero.
    pub open spec fn is_talk(self) -> bool {
        &&& self.song_spot == 'T'
        &&& self.media_base_id == 0
        &&& self.itunes_track_id == 0
        &&& self.amg_artist_id == 0
        &&& self.amg_track_id == 0
        &&& self.ta_id == 0
        &&& self.tp_id == 0
        &&& self.amg_artwork_url is None
        &&& self.spot_instance_id is None
        &&& self.length == 0
    }

    /// The rule for an advertisement: the spot code is `F`, the AMG track
    /// identifier is -1, the other identifiers that name a track and the
    /// cartcut identifier are zero, there is no artwork, and there is an
    /// instance identifier.
    pub open spec fn is_advertisement(self) -> bool {
        &&& self.song_spot == 'F'
        &&& self.media_base_id == 0
        &&& self.itunes_track_id == 0
        &&& self.amg_artist_id == 0
        &&& self.amg_track_id == -1
        &&& self.ta_id == 0
        &&& self.tp_id == 0
        &&& self.cartcut_id == 0
        &&& self.amg_artwork_url is None
        &&& self.spot_instance_id is Some
    }

    /// The kind that the rules give: the first of music, talk and
    /// advertisement whose rule holds, and unknown where none does.
    pub open spec fn kind(self) -> SuggestedSegmentContentKind {
        if self.is_music() {
            SuggestedSegmentContentKind::Music
        } else if self.is_talk() {
            SuggestedSegmentContentKind::Talk
        } else if self.is_advertisement() {
            SuggestedSegmentContentKind::Advertisement
        } else {
            SuggestedSegmentContentKind::Unknown
        }
    }
}

impl DeepView for KostaRadioSegmentInfo {
    type V = ParsedMetadata;

    open spec fn deep_view(&self) -> ParsedMetadata {
        ParsedMetadata {
            title: self.title@,
            artist: self.artist@,
            song_spot: self.song_spot,
            media_base_id: self.media_base_id,
            itunes_track_id: self.itunes_track_id,
            amg_track_id: self.amg_track_id,
            amg_artist_id: self.amg_artist_id,
            ta_id: self.ta_id,
            tp_id: self.tp_id,
            cartcut_id: self.cartcut_id,
            amg_artwork_url: self.amg_artwork_url.deep_view(),
            length: self.length,
            uns_id: self.uns_id,
            spot_instance_id: self.spot_instance_id,
        }
    }
}

/// Every group of the grammar is there and took part in the match.
pub open spec fn well_shaped(groups: Seq<Option<Seq<char>>>) -> bool {
    &&& groups.len() == GROUPS
    &&& forall|i: int| 0 <= i < groups.len() ==> (#[trigger] groups[i]) is Some
}

/// The text of group `i`.
pub open spec fn group(groups: Seq<Option<Seq<char>>>, i: int) -> Seq<char> {
    groups[i]->0
}

/// One of the seven identifiers in groups 4 to 10 is no integer.
pub open spec fn bad_identifier(groups: Seq<Option<Seq<char>>>) -> bool {
    exists|i: int| 4 <= i <= 10 && parsed_i64(#[trigger] group(groups, i)) is None
}

/// The metadata that the capture groups of the grammar give, or the first
/// thing that is wrong with them, in the order of the fields.
pub open spec fn decoded(groups: Seq<Option<Seq<char>>>) -> Result<ParsedMetadata, ParseError> {
    if !well_shaped(groups) {
        Err(ParseError::NoMatch)
    } else if group(groups, 3).len() == 0 {
        Err(ParseError::SongSpot)
    } else if bad_identifier(groups) {
        Err(ParseError::Integer)
    } else if !is_clock_text(group(groups, 12)) || clock_seconds(group(groups, 12)) is None {
        Err(ParseError::Length)
    } else if parsed_i64(group(groups, 13)) is None {
        Err(ParseError::Integer)
    } else {
        Ok(
            ParsedMetadata {
                title: group(groups, 1),
                artist: group(groups, 2),
                song_spot: group(groups, 3)[0],
                media_base_id: parsed_i64(group(groups, 4))->0,
                itunes_track_id: parsed_i64(group(groups, 5))->0,
                amg_track_id: parsed_i64(group(groups, 6))->0,
                amg_artist_id: parsed_i64(group(groups, 7))->0,
                ta_id: parsed_i64(group(groups, 8))->0,
                tp_id: parsed_i64(group(groups, 9))->0,
                cartcut_id: parsed_i64(group(groups, 10))->0,
                amg_artwork_url: url_serialization(group(groups, 11)),
                length: clock_seconds(group(groups, 12))->0,
                uns_id: parsed_i64(group(groups, 13))->0,
                spot_instance_id: uuid_parsed(group(groups, 14)),
            },
        )
    }
}

/// The metadata that a title text gives: that of the groups which the
/// grammar captures in it.
pub open spec fn parsed(text: Seq<char>) -> Result<ParsedMetadata, ParseError> {
    match regex_captures(GRAMMAR@, text) {
        Some(groups) => decoded(groups),
        None => Err(ParseError::NoMatch),
    }
}

/// The metadata of a segment: that of its title text.
pub open spec fn parsed_segment(segment: SegmentView) -> Result<ParsedMetadata, ParseError> {
    match segment.title {
        Some(title) => parsed(title),
        None => Err(ParseError::NoTitle),
    }
}

/// A result of parsing as a mathematical value.
pub open spec fn outcome(result: Result<KostaRadioSegmentInfo, ParseError>) -> Result<
    ParsedMetadata,
    ParseError,
> {
    match result {
        Ok(info) => Ok(info.deep_view()),
        Err(error) => Err(error),
    }
}


impl KostaRadioSegmentInfo {
    /// Whether the rule for music holds.
    pub fn is_music(&self) -> (music: bool)
        ensures
            music == self.deep_view().is_music(),
    {
        (self.song_spot == 'M' || self.song_spot == 'F') && self.length > MUSIC_MIN_SECONDS && (
        self.media_base_id > 0 || self.itunes_track_id > 0 || (self.amg_artist_id > 0
            && self.amg_track_id > 0) || self.tp_id > 0 || self.amg_artwork_url.is_some())
    }

    /// Whether the rule for talk holds.
    pub fn is_talk(&self) -> (talk: bool)
        ensures
            talk == self.deep_view().is_talk(),
    {
        self.song_spot == 'T' && self.media_base_id == 0 && self.itunes_track_id == 0
            && self.amg_artist_id == 0 && self.amg_track_id == 0 && self.ta_id == 0 && self.tp_id
            == 0 && self.amg_artwork_url.is_none() && self.spot_instance_id.is_none()
            && self.length == 0
    }

    /// Whether the rule for an advertisement holds.
    pub fn is_advertisment(&self) -> (advertisement: bool)
        ensures
            advertisement == self.deep_view().is_advertisement(),
    {
        self.song_spot == 'F' && self.media_base_id == 0 && self.itunes_track_id == 0
            && self.amg_artist_id == 0 && self.amg_track_id == -1 && self.ta_id == 0 && self.tp_id
            == 0 && self.cartcut_id == 0 && self.amg_artwork_url.is_none()
            && self.spot_instance_id.is_some()
    }

    /// The kind that the rules give to this metadata: music, talk and
    /// advertisement are tried in this order, and the first rule that holds
    /// decides.
    pub fn suggested_content_kind(&self) -> (kind: SuggestedSegmentContentKind)
        ensures
            kind == self.deep_view().kind(),
    {
        if self.is_music() {
            return SuggestedSegmentContentKind::Music;
        }
        if self.is_talk() {
            return SuggestedSegmentContentKind::Talk;
        }
        if self.is_advertisment() {
            return SuggestedSegmentContentKind::Advertisement;
        }
        SuggestedSegmentContentKind::Unknown
    }

    /// Reads the metadata out of the capture groups of the grammar. The
    /// fields are taken in their order, and the first one that cannot be
    /// read decides the error; artwork that is no URL and an instance
    /// identifier that is no UUID are absent, not errors.
    pub fn from_captures(groups: &Vec<Option<String>>) -> (result: Result<
        KostaRadioSegmentInfo,
        ParseError,
    >)
        ensures
            outcome(result) == decoded(groups.deep_view()),
    {
        let ghost model = groups.deep_view();
        if !all_present(groups) {
            return Err(ParseError::NoMatch);
        }
        let spot = to_chars(text_of(groups, 3));
        if spot.len() == 0 {
            return Err(ParseError::SongSpot);
        }
        let mut ids: Vec<i64> = Vec::new();
        let mut i: usize = 4;
        while i <= 10
            invariant
                4 <= i <= 11,
                model == groups.deep_view(),
                well_shaped(model),
                group(model, 3).len() > 0,
                ids.len() == i - 4,
                forall|k: int| 4 <= k < i ==> parsed_i64(#[trigger] group(model, k)) == Some(ids[k - 4]),
            decreases 11 - i,
        {
            match parse_i64(text_of(groups, i)) {
                Some(id) => {
                    ids.push(id);
                },
                None => {
                    return Err(ParseError::Integer);
                },
            }
            i += 1;
        }
        let length = match read_length(text_of(groups, 12)) {
            Some(seconds) => seconds,
            None => {
                return Err(ParseError::Length);
            },
        };
        let uns_id = match parse_i64(text_of(groups, 13)) {
            Some(id) => id,
            None => {
                return Err(ParseError::Integer);
            },
        };
        Ok(
            KostaRadioSegmentInfo {
                title: text_of(groups, 1).to_owned(),
                artist: text_of(groups, 2).to_owned(),
                song_spot: spot[0],
                media_base_id: ids[0],
                itunes_track_id: ids[1],
                amg_track_id: ids[2],
                amg_artist_id: ids[3],
                ta_id: ids[4],
                tp_id: ids[5],
                cartcut_id: ids[6],
                amg_artwork_url: parse_url(text_of(groups, 11)),
                length,
                uns_id,
                spot_instance_id: parse_uuid(text_of(groups, 14)),
            },
        )
    }

    /// Reads the metadata out of a title text: the grammar is matched
    /// against the text, and the groups that it captures are read.
    pub fn try_from(value: &str) -> (result: Result<KostaRadioSegmentInfo, ParseError>)
        ensures
            outcome(result) == parsed(value@),
    {
        match captures(GRAMMAR, value) {
            Some(groups) => Self::from_captures(&groups),
            None => Err(ParseError::NoMatch),
        }
    }

    /// Reads the metadata of a segment out of its title text; a segment
    /// without one has none.
    pub fn from_segment(segment: &Segment) -> (result: Result<KostaRadioSegmentInfo, ParseError>)
        ensures
            outcome(result) == parsed_segment(segment.deep_view()),
    {
        match &segment.title {
            Some(title) => Self::try_from(title.as_str()),
            None => Err(ParseError::NoTitle),
        }
    }
}

/// Whether every group of the grammar is there and took part in the match.
fn all_present(groups: &Vec<Option<String>>) -> (present: bool)
    ensures
        present == well_shaped(groups.deep_view()),
{
    if groups.len() != GROUPS {
        return false;
    }
    let mut i: usize = 0;
    while i < groups.len()
        invariant
            i <= groups.len(),
            groups.len() == GROUPS,
            forall|k: int| 0 <= k < i ==> (#[trigger] groups.deep_view()[k]) is Some,
        decreases groups.len() - i,
    {
        if groups[i].is_none() {
            assert(groups.deep_view()[i as int] is None);
            return false;
        }
        i += 1;
    }
    true
}

/// The text of group `i`.
fn text_of(groups: &Vec<Option<String>>, i: usize) -> (text: &str)
    requires
        well_shaped(groups.deep_view()),
        i < GROUPS,
    ensures
        text@ == group(groups.deep_view(), i as int),
{
    assert(groups.deep_view()[i as int] is Some);
    groups[i].as_ref().unwrap().as_str()
}

/// Reads a length of the form `HH:MM:SS` as whole seconds.
fn read_length(text: &str) -> (length: Option<u64>)
    ensures
        length == if is_clock_text(text@) {
            clock_seconds(text@)
        } else {
            None
        },
{
    let chars = to_chars(text);
    if chars.len() != 8 {
        return None;
    }
    let shaped = is_digit_char(chars[0]) && is_digit_char(chars[1]) && chars[2] == ':'
        && is_digit_char(chars[3]) && is_digit_char(chars[4]) && chars[5] == ':' && is_digit_char(
        chars[6],
    ) && is_digit_char(chars[7]);
    if !shaped {
        return None;
    }
    parse_clock(text, CLOCK_FORMAT)
}

/// Whether `c` is a decimal digit of ASCII.
fn is_digit_char(c: char) -> (digit: bool)
    ensures
        digit == crate::text::is_digit(c),
{
    '0' <= c && c <= '9'
}


/// The fields on which the rule for talk rests are the same in `a` and `b`.
pub open spec fn same_talk_fields(a: ParsedMetadata, b: ParsedMetadata) -> bool {
    &&& a.song_spot == b.song_spot
    &&& a.media_base_id == b.media_base_id
    &&& a.itunes_track_id == b.itunes_track_id
    &&& a.amg_artist_id == b.amg_artist_id
    &&& a.amg_track_id == b.amg_track_id
    &&& a.ta_id == b.ta_id
    &&& a.tp_id == b.tp_id
    &&& a.amg_artwork_url == b.amg_artwork_url
    &&& a.spot_instance_id == b.spot_instance_id
    &&& a.length == b.length
}

/// No metadata meets two of the three rules, whatever its fields hold.
pub proof fn lemma_rules_exclude_each_other(metadata: ParsedMetadata)
    ensures
        !(metadata.is_music() && metadata.is_talk()),
        !(metadata.is_music() && metadata.is_advertisement()),
        !(metadata.is_talk() && metadata.is_advertisement()),
{
}

/// The kind depends on the metadata alone and names the one rule that
/// holds: the order in which the rules are tried decides nothing.
pub proof fn lemma_kind_names_the_rule(metadata: ParsedMetadata)
    ensures
        metadata.kind() == SuggestedSegmentContentKind::Music <==> metadata.is_music(),
        metadata.kind() == SuggestedSegmentContentKind::Talk <==> metadata.is_talk(),
        metadata.kind() == SuggestedSegmentContentKind::Advertisement
            <==> metadata.is_advertisement(),
        metadata.kind() == SuggestedSegmentContentKind::Unknown <==> !metadata.is_music()
            && !metadata.is_talk() && !metadata.is_advertisement(),
{
}

/// Metadata that is classified as talk stops being so as soon as one of
/// the fields on which the rule rests holds another value.
pub proof fn lemma_talk_needs_every_field(talk: ParsedMetadata, changed: ParsedMetadata)
    requires
        talk.kind() == SuggestedSegmentContentKind::Talk,
        !same_talk_fields(talk, changed),
    ensures
        changed.kind() != SuggestedSegmentContentKind::Talk,
{
}

} // verus!
