//! The media session, as this build reaches it: it does not. Every operation
//! says so in the same sentence, so a key bound on another platform reads as
//! unsupported rather than broken.

use vstd::prelude::*;

use super::{NowPlaying, NO_MEDIA_SESSION};
use crate::addon::{is_unavailable, AddonError, Availability};

verus! {

/// Whether a media session can be reached: it cannot.
pub fn availability() -> (r: Availability)
    ensures
        r matches Availability::Unavailable(w) && w@ == NO_MEDIA_SESSION@,
{
    Availability::Unavailable(NO_MEDIA_SESSION.to_owned())
}

/// What is playing, for one application or for whatever is: nothing that
/// can be seen.
pub fn now_playing(target: Option<&str>) -> (r: Option<NowPlaying>)
    ensures
        r is None,
{
    None
}

/// Send one transport action: refused.
pub fn perform(action: &str, target: Option<&str>) -> (r: Result<(), AddonError>)
    ensures
        r matches Err(e) && is_unavailable(e, NO_MEDIA_SESSION@),
{
    Err(AddonError::Unavailable(NO_MEDIA_SESSION.to_owned()))
}

} // verus!
