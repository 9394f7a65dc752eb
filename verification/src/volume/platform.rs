//! The mixer, as this build reaches it: it does not. Every operation says so
//! in the same sentence, so a key bound on another platform reads as
//! unsupported rather than broken.

use vstd::prelude::*;

use super::ONLY_WINDOWS;
use crate::addon::{is_unavailable, AddonError, Availability};

verus! {

/// Whether the mixer can be reached: it cannot.
pub fn availability() -> (r: Availability)
    ensures
        r matches Availability::Unavailable(w) && w@ == ONLY_WINDOWS@,
{
    Availability::Unavailable(ONLY_WINDOWS.to_owned())
}

/// Flip mute for an application or the system: refused.
pub fn toggle_mute(app: Option<&str>) -> (r: Result<(), AddonError>)
    ensures
        r matches Err(e) && is_unavailable(e, ONLY_WINDOWS@),
{
    Err(AddonError::Unavailable(ONLY_WINDOWS.to_owned()))
}

/// Flip the microphone for some applications or for everything: refused.
pub fn toggle_microphone(apps: &[&str]) -> (r: Result<(), AddonError>)
    ensures
        r matches Err(e) && is_unavailable(e, ONLY_WINDOWS@),
{
    Err(AddonError::Unavailable(ONLY_WINDOWS.to_owned()))
}

/// Silence some applications both ways: refused.
pub fn toggle_deafen(apps: &[&str]) -> (r: Result<(), AddonError>)
    ensures
        r matches Err(e) && is_unavailable(e, ONLY_WINDOWS@),
{
    Err(AddonError::Unavailable(ONLY_WINDOWS.to_owned()))
}

} // verus!
