//! What crosses the pipe between the daemon and an addon.
//!
//! One JSON object per line, in both directions. The types here are the
//! messages themselves; turning them into and out of text is done at the
//! edge of the process, beside the pipe.
//!
//! # Two shapes for one declaration, and why that is not two definitions
//!
//! The trait declares actions as `&'static [AddonAction]`, which is pleasant
//! to write and impossible to deserialise. So the types here are owned
//! mirrors — [`ActionDecl`] beside [`AddonAction`](crate::addon::AddonAction),
//! and so on — and the owned one is only ever derived from the borrowed one,
//! by [`describe`](crate::run::describe).
//!
//! # Both directions, and why the addon speaks first only about credentials
//!
//! Almost everything is the daemon asking and the addon answering. The one
//! exception is [`Ask`], which an addon sends *while* answering, when it needs
//! one of its own credentials. That keeps the conversation strictly nested.

use std::collections::BTreeMap;

use vstd::prelude::*;

use crate::params::Params;
use crate::text::{concat, decimal, decimal_string};

verus! {

/// A protocol version.
#[derive(Debug, Clone, Copy, PartialEq, Eq, Structural)]
pub struct Version {
    /// Incompatible when this differs.
    pub major: u16,
    /// Additive; a lower minor on either side is fine.
    pub minor: u16,
}

/// The protocol version this SDK speaks: 1.3.
///
/// Independent of the daemon's version. `major` differing means
/// incompatible, and the daemon refuses rather than loading.
pub open spec fn protocol_spec() -> Version {
    Version { major: 1, minor: 3 }
}

/// The protocol version this SDK speaks.
pub fn protocol() -> (r: Version)
    ensures
        r == protocol_spec(),
{
    Version { major: 1, minor: 3 }
}

/// Whether two versions can talk: only the majors are compared.
pub open spec fn compatible(a: Version, b: Version) -> bool {
    a.major == b.major
}

/// How a version is written: `major.minor`.
pub open spec fn version_text(v: Version) -> Seq<char> {
    decimal(v.major as nat) + "."@ + decimal(v.minor as nat)
}

impl Version {
    /// Whether these two can talk: only the majors are compared.
    pub fn compatible_with(self, other: Version) -> (r: bool)
        ensures
            r == compatible(self, other),
    {
        self.major == other.major
    }

    /// How it is written, `major.minor`.
    pub fn to_string(&self) -> (r: String)
        ensures
            r@ == version_text(*self),
    {
        let major = decimal_string(self.major);
        let minor = decimal_string(self.minor);
        let head = concat(major.as_str(), ".");
        concat(head.as_str(), minor.as_str())
    }
}

/// Compatibility is an equivalence: every version can talk to itself, either
/// side may ask, and two versions that can each talk to a third can talk to
/// each other.
pub proof fn law_compatibility_is_an_equivalence(a: Version, b: Version, c: Version)
    ensures
        compatible(a, a),
        compatible(a, b) == compatible(b, a),
        compatible(a, b) && compatible(b, c) ==> compatible(a, c),
{
}

/// Two versions can talk exactly when their majors are the same: any
/// difference in the major, however small, makes them incompatible.
pub proof fn law_compatible_exactly_when_the_majors_agree(a: Version, b: Version)
    ensures
        compatible(a, b) <==> a.major == b.major,
{
}

/// A minor difference, in either direction, never makes two versions
/// incompatible.
pub proof fn law_minor_never_matters(a: Version, b: Version, minor: u16)
    ensures
        compatible(a, b) == compatible(a, Version { major: b.major, minor }),
{
}

/// What the daemon asks an addon to do.
///
/// Deliberately **not** `#[non_exhaustive]`: a wildcard arm is how a newly
/// added request gets silently ignored.
#[derive(Debug, Clone, PartialEq, Eq)]
pub enum Request {
    /// Version handshake. Always first.
    Hello {
        /// What the daemon speaks.
        version: Version,
    },
    /// Everything static about the addon: what it is and what it offers.
    Describe,
    /// Whether it could act right now.
    Availability,
    /// Whether one action is worth offering at the moment.
    Applies {
        /// Which one.
        action: String,
    },
    /// A sentence for the interface, if it has one.
    Status,
    /// The current options for a live choice source.
    LiveChoices {
        /// Which named source.
        id: String,
    },
    /// Do something.
    Perform {
        /// Which action.
        action: String,
        /// What the binding was configured with.
        params: Params,
        /// The fader position for a continuous action, absent for a press.
        value: Option<u16>,
    },
    /// The inputs bound to one action, in device order.
    BoundInputs {
        /// Which of the addon's actions.
        action: String,
        /// Every input bound to it, already sorted.
        inputs: Vec<String>,
    },
    /// Which of one action's inputs the user is holding right now.
    HeldInputs {
        /// Which of the addon's actions.
        action: String,
        /// The inputs currently held.
        held: Vec<String>,
    },
    /// Take these settings.
    Configure {
        /// By setting id.
        values: BTreeMap<String, String>,
    },
    /// Read every signal it publishes, now.
    ReadSignals,
    /// Stop. The addon should exit; the daemon kills it if it does not.
    Shutdown,
}

/// What an addon says back.
#[derive(Debug, Clone, PartialEq, Eq)]
pub enum Reply {
    /// Answer to [`Request::Hello`].
    Welcome {
        /// What the addon's SDK speaks.
        version: Version,
    },
    /// Answer to [`Request::Describe`].
    Description(Description),
    /// Answer to [`Request::Availability`].
    Availability(AvailabilityDecl),
    /// Answer to [`Request::Applies`]: relevance and capability, one round trip.
    Applies {
        /// Whether it is worth offering.
        applies: bool,
        /// Why this account cannot perform it, if it cannot.
        unavailable: Option<String>,
    },
    /// Answer to [`Request::Status`].
    Status {
        /// The sentence, if there is one.
        status: Option<String>,
    },
    /// Answer to [`Request::LiveChoices`], in the order the addon wants them shown.
    LiveChoices {
        /// The options.
        choices: Vec<ChoiceDecl>,
    },
    /// Answer to [`Request::ReadSignals`].
    Signals(ReadingDecl),
    /// It worked, and there is nothing to say.
    Done,
    /// It did not work.
    Failed {
        /// Which kind, so the daemon need not parse prose.
        kind: FailureKind,
        /// What to tell the user. Already a sentence.
        detail: String,
    },
    /// The addon wants one of its own credentials, mid-request.
    Ask(Ask),
}

/// Why an action failed, in the categories the daemon distinguishes.
#[derive(Debug, Clone, Copy, PartialEq, Eq, Structural)]
pub enum FailureKind {
    /// The addon does not have that action.
    NoSuchAction,
    /// It exists but cannot run now.
    Unavailable,
    /// It tried and it failed.
    Failed,
}

/// A credential request, from the addon to the daemon.
///
/// **There is no addon field, and that is the design**: the daemon knows
/// which addon is asking because it knows which child it is talking to.
#[derive(Debug, Clone, PartialEq, Eq)]
pub enum Ask {
    /// Read one.
    Get {
        /// Which key.
        key: String,
    },
    /// Store one. (On the wire, `set`.)
    Put {
        /// Which key.
        key: String,
        /// What to store.
        value: String,
    },
    /// Forget one.
    Clear {
        /// Which key.
        key: String,
    },
    /// Read one from the addon's own store.
    StoreGet {
        /// Which key.
        key: String,
    },
    /// Write one to the addon's own store.
    StoreSet {
        /// Which key.
        key: String,
        /// What to store.
        value: String,
    },
    /// Forget one from the addon's own store.
    StoreClear {
        /// Which key.
        key: String,
    },
    /// Every key in the addon's own store.
    StoreKeys,
}

/// The daemon's answer to an [`Ask`].
#[derive(Debug, Clone, PartialEq, Eq)]
pub enum Answer {
    /// What was stored, or nothing.
    Value {
        /// Absent means there is none, which is an ordinary state.
        value: Option<String>,
    },
    /// The write or the clear succeeded.
    Stored,
    /// Every key there is.
    Keys {
        /// In whatever order the store keeps them.
        keys: Vec<String>,
    },
    /// It did not.
    Refused {
        /// Why, as a sentence.
        detail: String,
    },
}

/// Everything static about an addon.
#[derive(Debug, Clone, PartialEq, Eq)]
pub struct Description {
    /// Stable identifier, stored in bindings.
    pub id: String,
    /// What to call it.
    pub name: String,
    /// What it integrates, in a sentence.
    pub description: String,
    /// Everything it can be asked to do.
    pub actions: Vec<ActionDecl>,
    /// Everything it *names* that the device does on its own.
    pub device_actions: Vec<DeviceActionDecl>,
    /// Everything it publishes.
    pub signals: Vec<SignalDecl>,
    /// Everything it needs configuring.
    pub settings: Vec<SettingDecl>,
    /// Named lists its parameters draw options from.
    pub choices: Vec<ChoicesDecl>,
    /// Everything it needs to be allowed to do.
    pub permissions: Vec<PermissionDecl>,
}

/// One permission, owned. Tagged by kind with the target as a separate
/// field, so a consumer that does not recognise a kind can still show the
/// reason.
#[derive(Debug, Clone, PartialEq, Eq)]
pub enum PermissionDecl {
    /// Reach a host over the network.
    Network {
        /// The host.
        host: String,
        /// Why.
        reason: String,
    },
    /// Read or write files under a path.
    Files {
        /// The path.
        path: String,
        /// Whether it writes as well as reads.
        write: bool,
        /// Why.
        reason: String,
    },
    /// Start another program.
    Launch {
        /// What it starts.
        program: String,
        /// Why.
        reason: String,
    },
    /// Keep credentials in the OS credential store. The enforced one.
    Credentials {
        /// Why.
        reason: String,
    },
}

/// One action, owned.
#[derive(Debug, Clone, PartialEq, Eq)]
pub struct ActionDecl {
    /// Stable identifier, stored in bindings.
    pub id: String,
    /// What to call it.
    pub name: String,
    /// What it does, in a sentence.
    pub description: String,
    /// What kind of input it expects: `momentary` or `continuous`.
    pub trigger: String,
    /// What it can be configured with.
    pub params: Vec<ParamDecl>,
    /// What a person must do elsewhere first, if anything.
    pub prerequisite: Option<String>,
}

/// One device-resolved action, owned. No trigger and no parameters: a
/// keystroke has neither.
#[derive(Debug, Clone, PartialEq, Eq)]
pub struct DeviceActionDecl {
    /// Stable identifier. Shares one namespace with [`ActionDecl::id`].
    pub id: String,
    /// What to call it.
    pub name: String,
    /// What it does, in a sentence.
    pub description: String,
    /// The default the binding editor starts from.
    pub keystroke: KeystrokeDecl,
    /// The step outside Nobble the user must also take, if any.
    pub prerequisite: Option<String>,
}

/// One keystroke, owned.
#[derive(Debug, Clone, Copy, PartialEq, Eq, Structural)]
pub enum KeystrokeDecl {
    /// A keystroke.
    HidTap {
        /// HID usage code, not a character.
        key: u8,
        /// Held with it.
        ctrl: bool,
        /// Held with it.
        shift: bool,
        /// Held with it.
        alt: bool,
        /// Held with it.
        gui: bool,
    },
    /// A Consumer Control usage — media keys.
    HidConsumer {
        /// The usage.
        usage: u16,
    },
    /// A kind this build has no name for. **Never sent by this SDK**: a
    /// decode state, so that a keystroke from a later version costs one action
    /// rather than the whole description.
    Unknown,
}

/// One parameter, owned.
#[derive(Debug, Clone, PartialEq, Eq)]
pub struct ParamDecl {
    /// Stable identifier.
    pub id: String,
    /// What to call it.
    pub name: String,
    /// What it is for.
    pub description: String,
    /// What it holds, so an interface can offer the right editor.
    pub kind: String,
    /// Whether the action fails without it.
    pub required: bool,
    /// Whether it holds several values rather than one.
    pub multiple: bool,
    /// The id of a [`ChoicesDecl`] this draws its options from.
    pub choices: Option<String>,
}

/// One named list of options, owned.
#[derive(Debug, Clone, PartialEq, Eq)]
pub struct ChoicesDecl {
    /// Stable id within the addon.
    pub id: String,
    /// What the list is.
    pub name: String,
    /// Whether the values must be asked for rather than read from below.
    pub live: bool,
    /// Every value, for a declared source. Empty when live.
    pub values: Vec<ChoiceDecl>,
}

/// One option, owned.
#[derive(Debug, Clone, PartialEq, Eq)]
pub struct ChoiceDecl {
    /// What gets stored.
    pub value: String,
    /// What the user reads.
    pub label: String,
    /// A second line, where the label alone is ambiguous.
    pub detail: String,
}

/// One signal, owned.
#[derive(Debug, Clone, PartialEq, Eq)]
pub struct SignalDecl {
    /// Stable identifier, qualified by the addon id in a condition.
    pub id: String,
    /// What to call it.
    pub name: String,
    /// What it means.
    pub description: String,
}

/// One setting, owned.
#[derive(Debug, Clone, PartialEq, Eq)]
pub struct SettingDecl {
    /// The parameter it is.
    pub param: ParamDecl,
    /// Whether it goes to the credential store rather than the settings file.
    pub secret: bool,
}

/// Whether an addon can act, owned.
#[derive(Debug, Clone, PartialEq, Eq)]
pub enum AvailabilityDecl {
    /// It could act right now.
    Ready,
    /// It could not, and this is why.
    Unavailable {
        /// A sentence for the user.
        detail: String,
    },
}

/// A signal reading, owned.
#[derive(Debug, Clone, PartialEq, Eq)]
pub enum ReadingDecl {
    /// What each signal says, by signal id.
    Values {
        /// By signal id.
        values: Vec<(String, bool)>,
    },
    /// It could not answer, distinguishable from every signal reading false.
    Unavailable {
        /// A sentence for the user.
        detail: String,
    },
}

} // verus!
