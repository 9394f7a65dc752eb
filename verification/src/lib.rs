//! The Nobble addon SDK, with the media and volume addons built on it.
//!
//! An addon is a separate program that the Nobble daemon starts and speaks
//! to over a line-oriented protocol. [`addon`] is what an addon declares and
//! implements, [`protocol`] is what crosses the process boundary, and [`run`]
//! is the loop body that answers one request from the declaration. [`media`]
//! and [`volume`] are the two addons that ship with it.

pub mod addon;
pub mod media;
pub mod params;
pub mod protocol;
pub mod run;
pub mod text;
pub mod volume;

pub use addon::{
    app_matches, first_match, Addon, AddonAction, AddonChoice, AddonChoices, AddonError,
    AddonParam, AddonSetting, AddonSignal, Availability, Choice, CredentialHandle, Credentials,
    DeviceAction, DeviceKeystroke, Invocation, ParamKind, Permission, Reading, Trigger, FADER_MAX,
};
pub use media::{MediaSession, NowPlaying};
pub use params::{ParamValue, Params};
pub use protocol::{
    protocol, ActionDecl, Answer, Ask, AvailabilityDecl, ChoiceDecl, ChoicesDecl, Description,
    DeviceActionDecl, FailureKind, KeystrokeDecl, ParamDecl, PermissionDecl, ReadingDecl, Reply,
    Request, SettingDecl, SignalDecl, Version,
};
pub use run::respond;
pub use volume::Volume;
