//! The four-way classification of a segment's content.

use vstd::prelude::*;

use crate::text::same_text;

verus! {

/// What a segment probably holds, judged by the metadata that came with it.
#[derive(Debug, Copy, Clone, PartialEq, Eq, Structural)]
pub enum SuggestedSegmentContentKind {
    Unknown,
    Talk,
    Advertisement,
    Music,
}

/// The kind under which a stored recording is filed.
#[derive(Debug, Copy, Clone, PartialEq, Eq, Structural)]
pub enum AudioKind {
    Unknown,
    Talk,
    Advertisement,
    Music,
}

impl SuggestedSegmentContentKind {
    /// The lower-case word for the kind.
    pub open spec fn spec_name(self) -> Seq<char> {
        match self {
            SuggestedSegmentContentKind::Unknown => "none"@,
            SuggestedSegmentContentKind::Talk => "talk"@,
            SuggestedSegmentContentKind::Advertisement => "advertisement"@,
            SuggestedSegmentContentKind::Music => "music"@,
        }
    }

    /// The kind of stored audio that this suggestion becomes.
    pub open spec fn audio_kind(self) -> AudioKind {
        match self {
            SuggestedSegmentContentKind::Unknown => AudioKind::Unknown,
            SuggestedSegmentContentKind::Talk => AudioKind::Talk,
            SuggestedSegmentContentKind::Advertisement => AudioKind::Advertisement,
            SuggestedSegmentContentKind::Music => AudioKind::Music,
        }
    }

    /// The lower-case word for the kind: `none`, `talk`, `advertisement` or
    /// `music`.
    pub fn name(&self) -> (word: &'static str)
        ensures
            word@ == self.spec_name(),
    {
        match self {
            SuggestedSegmentContentKind::Unknown => "none",
            SuggestedSegmentContentKind::Talk => "talk",
            SuggestedSegmentContentKind::Advertisement => "advertisement",
            SuggestedSegmentContentKind::Music => "music",
        }
    }

    /// The word for the kind as an owned text, as it stands in a label.
    pub fn to_string(&self) -> (word: String)
        ensures
            word@ == self.spec_name(),
    {
        self.name().to_owned()
    }
}

impl AudioKind {
    /// The word under which the kind is stored.
    pub open spec fn spec_tag(self) -> Seq<char> {
        match self {
            AudioKind::Unknown => "unknown"@,
            AudioKind::Talk => "talk"@,
            AudioKind::Advertisement => "advertisement"@,
            AudioKind::Music => "music"@,
        }
    }

    /// The kind that a stored word names.
    pub open spec fn spec_from_tag(tag: Seq<char>) -> Option<AudioKind> {
        if tag == "unknown"@ {
            Some(AudioKind::Unknown)
        } else if tag == "talk"@ {
            Some(AudioKind::Talk)
        } else if tag == "advertisement"@ {
            Some(AudioKind::Advertisement)
        } else if tag == "music"@ {
            Some(AudioKind::Music)
        } else {
            None
        }
    }

    /// The word under which the kind is stored; it names the kind again
    /// when it is read back.
    pub fn tag(&self) -> (tag: &'static str)
        ensures
            tag@ == self.spec_tag(),
            Self::spec_from_tag(tag@) == Some(*self),
    {
        proof {
            reveal_strlit("unknown");
            reveal_strlit("talk");
            reveal_strlit("advertisement");
            reveal_strlit("music");
            assert("unknown"@.len() == 7 && "talk"@.len() == 4);
            assert("advertisement"@.len() == 13 && "music"@.len() == 5);
        }
        match self {
            AudioKind::Unknown => "unknown",
            AudioKind::Talk => "talk",
            AudioKind::Advertisement => "advertisement",
            AudioKind::Music => "music",
        }
    }

    /// The kind that a stored word names, if it names one.
    pub fn from_tag(tag: &str) -> (kind: Option<AudioKind>)
        ensures
            kind == Self::spec_from_tag(tag@),
    {
        if same_text(tag, "unknown") {
            Some(AudioKind::Unknown)
        } else if same_text(tag, "talk") {
            Some(AudioKind::Talk)
        } else if same_text(tag, "advertisement") {
            Some(AudioKind::Advertisement)
        } else if same_text(tag, "music") {
            Some(AudioKind::Music)
        } else {
            None
        }
    }
}

impl vstd::std_specs::convert::FromSpecImpl<SuggestedSegmentContentKind> for AudioKind {
    open spec fn obeys_from_spec() -> bool {
        true
    }

    open spec fn from_spec(kind: SuggestedSegmentContentKind) -> AudioKind {
        kind.audio_kind()
    }
}

impl From<SuggestedSegmentContentKind> for AudioKind {
    /// A suggestion that names no kind is filed as unknown; every other one
    /// keeps its name.
    fn from(kind: SuggestedSegmentContentKind) -> (filed: AudioKind) {
        match kind {
            SuggestedSegmentContentKind::Unknown => AudioKind::Unknown,
            SuggestedSegmentContentKind::Talk => AudioKind::Talk,
            SuggestedSegmentContentKind::Advertisement => AudioKind::Advertisement,
            SuggestedSegmentContentKind::Music => AudioKind::Music,
        }
    }
}

} // verus!
