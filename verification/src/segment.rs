//! One entry of a decoded manifest.

use vstd::prelude::*;

verus! {

/// A length of time: whole seconds, and the nanoseconds beyond them.
#[derive(Debug, Copy, Clone, PartialEq, Eq, Structural)]
pub struct Span {
    pub secs: u64,
    pub nanos: u32,
}

/// A listed chunk of the stream, as the manifest names it.
#[derive(Debug, Clone, PartialEq, Eq)]
pub struct Segment {
    /// The sequence number; it grows along the stream, with gaps.
    pub number: usize,
    /// The playing time that the manifest announces.
    pub duration: Span,
    /// The title text that came with the segment, if any.
    pub title: Option<String>,
    /// Where the audio is to be fetched from, as written in the manifest.
    pub uri: String,
}

/// A segment as a mathematical value.
pub struct SegmentView {
    pub number: usize,
    pub duration: Span,
    pub title: Option<Seq<char>>,
    pub uri: Seq<char>,
}

impl Span {
    /// The length in nanoseconds.
    pub open spec fn nanoseconds(self) -> int {
        self.secs * 1_000_000_000 + self.nanos
    }

    /// A length of `secs` seconds and `nanos` nanoseconds.
    pub fn new(secs: u64, nanos: u32) -> (span: Span)
        ensures
            span == (Span { secs, nanos }),
    {
        Span { secs, nanos }
    }
}

impl DeepView for Segment {
    type V = SegmentView;

    open spec fn deep_view(&self) -> SegmentView {
        SegmentView {
            number: self.number,
            duration: self.duration,
            title: self.title.deep_view(),
            uri: self.uri@,
        }
    }
}

impl Segment {
    /// A segment with the given number, playing time, title and address.
    pub fn new(number: usize, duration: Span, title: Option<String>, uri: String) -> (segment:
        Segment)
        ensures
            segment.number == number,
            segment.duration == duration,
            segment.title == title,
            segment.uri == uri,
    {
        Segment { number, duration, title, uri }
    }

    /// The sequence number.
    pub fn number(&self) -> (number: usize)
        ensures
            number == self.number,
    {
        self.number
    }
}

} // verus!
