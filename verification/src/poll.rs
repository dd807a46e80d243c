//! The decisions of the polling loop: what an answer to the request for
//! the manifest leads to, and how long to rest between two requests.

use vstd::prelude::*;

use crate::segment::Span;
use crate::text::same_text;

verus! {

/// What follows from the answer to a request for the manifest.
#[derive(Debug, Copy, Clone, PartialEq, Eq, Structural)]
pub enum ManifestAction {
    /// The body is a manifest: its segments are worked through.
    Process,
    /// The body is something else: it is left alone and the manifest is
    /// requested again.
    Ignore,
    /// The request did not succeed: the recorder gives up.
    Fail,
}

/// The content type of a manifest.
pub const MANIFEST_TYPE: &'static str = "application/vnd.apple.mpegurl; charset=UTF-8";

/// What follows from an answer with the given status and content type.
/// Any status but 200 ends the recorder; with 200, only a body of exactly
/// the manifest type is worked through.
pub open spec fn action_for(status: u16, content_type: Option<Seq<char>>) -> ManifestAction {
    if status != 200 {
        ManifestAction::Fail
    } else if content_type == Some(MANIFEST_TYPE@) {
        ManifestAction::Process
    } else {
        ManifestAction::Ignore
    }
}

/// Decides what to do with the answer to a request for the manifest.
pub fn manifest_action(status: u16, content_type: &Option<String>) -> (action: ManifestAction)
    ensures
        action == action_for(status, content_type.deep_view()),
{
    if status != 200 {
        return ManifestAction::Fail;
    }
    match content_type {
        Some(named) => {
            if same_text(named.as_str(), MANIFEST_TYPE) {
                ManifestAction::Process
            } else {
                ManifestAction::Ignore
            }
        },
        None => ManifestAction::Ignore,
    }
}

/// The rest after a cycle: half of the target duration that the manifest
/// announces, rounded down to the nanosecond.
pub fn pause(target: Span) -> (rest: Span)
    ensures
        rest.nanoseconds() == target.nanoseconds() / 2,
        rest.nanos < 1_000_000_000,
{
    let total: u128 = target.secs as u128 * 1_000_000_000 + target.nanos as u128;
    let half: u128 = total / 2;
    Span { secs: (half / 1_000_000_000) as u64, nanos: (half % 1_000_000_000) as u32 }
}

} // verus!
