//! The filter that accepts each sequence number at most once.

use vstd::prelude::*;

use crate::segment::Segment;

verus! {

/// Remembers the highest sequence number that was let through.
pub struct SegmentNumberFilter {
    pub last_seen_number: usize,
}

/// Something that decides which listed segments are downloaded.
pub trait SegmentDownloadFilter {
    /// Says whether `segment` should be downloaded.
    fn need_download(&mut self, segment: &Segment) -> bool;
}

/// Whether a filter with the given watermark lets `number` through: only
/// a number above the watermark passes.
pub open spec fn accepts(watermark: usize, number: usize) -> bool {
    number > watermark
}

/// The watermark after the filter was asked about `number`: the number
/// itself if it passed, else the watermark as it was.
pub open spec fn advanced(watermark: usize, number: usize) -> usize {
    if accepts(watermark, number) {
        number
    } else {
        watermark
    }
}

/// The watermark of a filter that started at `start` and was then asked
/// about `numbers`, one after the other.
pub open spec fn watermark_after(start: usize, numbers: Seq<usize>) -> usize
    decreases numbers.len(),
{
    if numbers.len() == 0 {
        start
    } else {
        advanced(watermark_after(start, numbers.drop_last()), numbers.last())
    }
}

/// Whether a filter that started at `start` lets the number at position
/// `i` of `numbers` through, having been asked about all those before it.
pub open spec fn lets_through(start: usize, numbers: Seq<usize>, i: int) -> bool {
    accepts(watermark_after(start, numbers.take(i)), numbers[i])
}

impl SegmentNumberFilter {
    /// A filter that has seen nothing: its watermark is zero.
    pub fn new() -> (filter: Self)
        ensures
            filter.last_seen_number == 0,
    {
        Self { last_seen_number: 0 }
    }
}

impl SegmentDownloadFilter for SegmentNumberFilter {
    /// Lets a segment through, and moves the watermark up to its number,
    /// exactly when the number is above the watermark.
    fn need_download(&mut self, segment: &Segment) -> (accepted: bool)
        ensures
            accepted == accepts(old(self).last_seen_number, segment.number),
            final(self).last_seen_number == advanced(old(self).last_seen_number, segment.number),
    {
        let number = segment.number();
        if number <= self.last_seen_number {
            false
        } else {
            self.last_seen_number = number;
            true
        }
    }
}

/// The watermark never falls, and is never below where it started.
pub proof fn lemma_watermark_rises(start: usize, numbers: Seq<usize>, i: int, j: int)
    requires
        0 <= i <= j <= numbers.len(),
    ensures
        start <= watermark_after(start, numbers.take(i)) <= watermark_after(start, numbers.take(j)),
    decreases j - i, i,
{
    if i < j {
        lemma_watermark_rises(start, numbers, i, j - 1);
        assert(numbers.take(j).drop_last() =~= numbers.take(j - 1));
    } else if i > 0 {
        lemma_watermark_rises(start, numbers, i - 1, i - 1);
        assert(numbers.take(i).drop_last() =~= numbers.take(i - 1));
    } else {
    }
}

/// A number that was let through is at or below the watermark from then on.
pub proof fn lemma_watermark_covers(start: usize, numbers: Seq<usize>, i: int, j: int)
    requires
        0 <= i < j <= numbers.len(),
        lets_through(start, numbers, i),
    ensures
        numbers[i] <= watermark_after(start, numbers.take(j)),
{
    lemma_watermark_rises(start, numbers, i + 1, j);
}

/// Whatever the filter is asked, in whatever order and however often: of
/// two numbers that it lets through the later one is the greater, so no
/// number passes twice; and a number at or below one that passed before it
/// is turned away.
pub proof fn lemma_never_twice(start: usize, numbers: Seq<usize>, i: int, j: int)
    requires
        0 <= i < j < numbers.len(),
        lets_through(start, numbers, i),
    ensures
        lets_through(start, numbers, j) ==> numbers[i] < numbers[j],
        numbers[j] <= numbers[i] ==> !lets_through(start, numbers, j),
        numbers[j] <= start ==> !lets_through(start, numbers, j),
{
    lemma_watermark_covers(start, numbers, i, j);
    lemma_watermark_rises(start, numbers, j, j);
}

/// Every number that the filter was asked about is at or below the
/// watermark afterwards, whether it passed or not.
pub proof fn lemma_watermark_bounds(start: usize, numbers: Seq<usize>, i: int)
    requires
        0 <= i < numbers.len(),
    ensures
        numbers[i] <= watermark_after(start, numbers),
{
    lemma_watermark_rises(start, numbers, i + 1, numbers.len() as int);
    assert(numbers.take(numbers.len() as int) =~= numbers);
}

/// A filter that is asked about one list and then about another ends where
/// a filter ends that is asked about the two lists as one.
pub proof fn lemma_watermark_continues(start: usize, first: Seq<usize>, second: Seq<usize>)
    ensures
        watermark_after(start, first + second) == watermark_after(
            watermark_after(start, first),
            second,
        ),
    decreases second.len(),
{
    if second.len() == 0 {
    } else {
        lemma_watermark_continues(start, first, second.drop_last());
        assert((first + second).drop_last() =~= first + second.drop_last());
    }
}

/// Numbers at or below the watermark leave it where it is.
pub proof fn lemma_seen_numbers_change_nothing(start: usize, numbers: Seq<usize>)
    requires
        forall|i: int| 0 <= i < numbers.len() ==> numbers[i] <= start,
    ensures
        watermark_after(start, numbers) == start,
    decreases numbers.len(),
{
    if numbers.len() > 0 {
        let shorter = numbers.drop_last();
        lemma_seen_numbers_change_nothing(start, shorter);
    }
}

} // verus!
