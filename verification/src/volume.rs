//! Volume: the system slider, or one application's.
//!
//! # Why a fader and not two keys
//!
//! What a fader gives is *absolute* position — the control ends up where your
//! hand is, rather than wherever a count of key presses left it. A fader
//! bound here is host-resolved, so it stops working when the daemon does.
//!
//! # What is decided here, and what is done elsewhere
//!
//! Everything this addon *decides* is here: which action means what, which
//! applications a key aims at, what state a set of mute controls moves to,
//! and the sentence each failure reads as. Moving a slider is a call into the
//! operating system's mixer, made by the program that hosts the addon, which
//! hands the outcome back to these decisions. Where no mixer is reachable the
//! addon says so, which is what [`Volume`] itself answers.

use vstd::prelude::*;

use crate::addon::{
    param_all_of, param_of, is_no_such_action, is_failed, is_unavailable, Addon, AddonAction,
    AddonError, AddonParam, Availability, DeviceAction, DeviceKeystroke, Invocation, ParamKind,
    Trigger,
};
use crate::params::{str_views, string_views};
use crate::text::{concat, joined, str_eq};

pub mod platform;

verus! {

/// What *Deafen* aims at when nothing is named. Stated in the parameter's
/// description so the interface shows it rather than the user discovering it.
pub const DEAFEN_DEFAULT: &'static str = "discord";

/// What every platform operation answers where there is no mixer to reach.
pub const ONLY_WINDOWS: &'static str = "volume control needs Windows for now";

/// The step a user has to take in Discord, which Nobble cannot take for them.
pub const IN_DISCORD: &'static str = "Set the matching keybind in Discord first: User Settings → Keybinds. Nobble cannot check this for you, so the key will do nothing until you have.";

/// Windows' volume mixer, as an addon.
#[derive(Debug)]
pub struct Volume {
    _private: (),
}

impl Volume {
    /// The addon as it starts: it holds no state of its own.
    pub closed spec fn fresh() -> Volume {
        Volume { _private: () }
    }
}

impl Default for Volume {
    fn default() -> (r: Volume)
        ensures
            r == Volume::fresh(),
    {
        Volume { _private: () }
    }
}

// ---------------------------------------------------------------------------
// The declaration
// ---------------------------------------------------------------------------

/// `p` aims one action at one application, or at the system slider.
pub open spec fn is_target_param(p: AddonParam) -> bool {
    &&& p.id@ == "app"@
    &&& p.name@ == "Application"@
    &&& p.description@ == "Whose volume to change. Leave empty for the system volume."@
    &&& p.kind == ParamKind::App
    &&& !p.required
    &&& !p.multiple
    &&& p.choices is None
}

/// `p` names the applications that lose the microphone.
pub open spec fn is_mic_targets_param(p: AddonParam) -> bool {
    &&& p.id@ == "apps"@
    &&& p.name@ == "Applications"@
    &&& p.description@
        == "Which applications lose the microphone. Leave empty to mute the microphone itself, which silences it for everything."@
    &&& p.kind == ParamKind::App
    &&& !p.required
    &&& p.multiple
    &&& p.choices is None
}

/// `p` names the applications to silence in both directions.
pub open spec fn is_deafen_targets_param(p: AddonParam) -> bool {
    &&& p.id@ == "apps"@
    &&& p.name@ == "Applications"@
    &&& p.description@
        == "Which applications to silence in both directions. Defaults to Discord."@
    &&& p.kind == ParamKind::App
    &&& !p.required
    &&& p.multiple
    &&& p.choices is None
}

/// The four actions, as declared.
pub open spec fn is_volume_actions(s: Seq<AddonAction>) -> bool {
    &&& s.len() == 4
    &&& s[0].id@ == "set"@
    &&& s[0].name@ == "Set volume"@
    &&& s[0].description@ == "Moves the volume to where the fader is."@
    &&& s[0].trigger == Trigger::Continuous
    &&& s[0].params@.len() == 1
    &&& is_target_param(s[0].params@[0])
    &&& s[1].id@ == "mute"@
    &&& s[1].name@ == "Toggle mute"@
    &&& s[1].description@ == "Mutes or unmutes."@
    &&& s[1].trigger == Trigger::Momentary
    &&& s[1].params@.len() == 1
    &&& is_target_param(s[1].params@[0])
    &&& s[2].id@ == "mute_microphone"@
    &&& s[2].name@ == "Mute the microphone"@
    &&& s[2].description@
        == "Mutes the microphone itself, so everything loses it at once. Name applications to take it from only those."@
    &&& s[2].trigger == Trigger::Momentary
    &&& s[2].params@.len() == 1
    &&& is_mic_targets_param(s[2].params@[0])
    &&& s[3].id@ == "deafen"@
    &&& s[3].name@ == "Deafen"@
    &&& s[3].description@
        == "Silences an application both ways at once: it loses the microphone and its own sound is muted."@
    &&& s[3].trigger == Trigger::Momentary
    &&& s[3].params@.len() == 1
    &&& is_deafen_targets_param(s[3].params@[0])
}

/// The two Discord controls the device works on its own: F13 and F14, with no
/// modifiers, each needing the matching keybind set in Discord.
pub open spec fn is_volume_device_actions(s: Seq<DeviceAction>) -> bool {
    &&& s.len() == 2
    &&& s[0].id@ == "discord_toggle_mute"@
    &&& s[0].name@ == "Discord: toggle mute"@
    &&& s[0].description@
        == "Mutes and unmutes you in Discord, exactly as its own keybind does — including with Nobble shut down."@
    &&& s[0].keystroke == (DeviceKeystroke::Tap {
        key: 0x68,
        ctrl: false,
        shift: false,
        alt: false,
        gui: false,
    })
    &&& s[0].prerequisite == Some(IN_DISCORD)
    &&& s[1].id@ == "discord_toggle_deafen"@
    &&& s[1].name@ == "Discord: toggle deafen"@
    &&& s[1].description@
        == "Deafens and undeafens you in Discord — you stop hearing the call and the call stops hearing you."@
    &&& s[1].keystroke == (DeviceKeystroke::Tap {
        key: 0x69,
        ctrl: false,
        shift: false,
        alt: false,
        gui: false,
    })
    &&& s[1].prerequisite == Some(IN_DISCORD)
}

/// No id names both an action the addon performs and one the device sends:
/// a binding stores one string, and a collision would make it ambiguous.
pub proof fn law_device_ids_never_name_an_action(actions: Seq<AddonAction>, device: Seq<DeviceAction>)
    requires
        is_volume_actions(actions),
        is_volume_device_actions(device),
    ensures
        forall|i: int, j: int|
            0 <= i < actions.len() && 0 <= j < device.len() ==> (#[trigger] actions[i]).id@
                != (#[trigger] device[j]).id@,
{
    reveal_strlit("set");
    reveal_strlit("mute");
    reveal_strlit("mute_microphone");
    reveal_strlit("deafen");
    reveal_strlit("discord_toggle_mute");
    reveal_strlit("discord_toggle_deafen");
    assert forall|i: int, j: int| 0 <= i < actions.len() && 0 <= j < device.len() implies (
    #[trigger] actions[i]).id@ != (#[trigger] device[j]).id@ by {
        assert(i == 0 || i == 1 || i == 2 || i == 3);
        assert(j == 0 || j == 1);
        assert(actions[i].id@.len() <= 15);
        assert(device[j].id@.len() >= 19);
    }
}

/// The four action ids are distinct, so a stored binding names one of them.
pub proof fn law_action_ids_are_distinct(actions: Seq<AddonAction>)
    requires
        is_volume_actions(actions),
    ensures
        forall|i: int, j: int|
            0 <= i < j < actions.len() ==> (#[trigger] actions[i]).id@ != (#[trigger] actions[j]).id@,
{
    reveal_strlit("set");
    reveal_strlit("mute");
    reveal_strlit("mute_microphone");
    reveal_strlit("deafen");
    assert forall|i: int, j: int| 0 <= i < j < actions.len() implies (#[trigger] actions[i]).id@
        != (#[trigger] actions[j]).id@ by {
        assert(i == 0 || i == 1 || i == 2);
        assert(j == 1 || j == 2 || j == 3);
        assert(actions[0].id@.len() == 3 && actions[1].id@.len() == 4);
        assert(actions[2].id@.len() == 15 && actions[3].id@.len() == 6);
    }
}

// ---------------------------------------------------------------------------
// What an action means
// ---------------------------------------------------------------------------

/// One operation on the mixer, with the targets it is aimed at.
#[derive(Debug, Clone, PartialEq, Eq)]
pub enum VolumeCommand {
    /// Move a slider to a fader position: the named application's, or the
    /// system's when none is named.
    SetLevel {
        /// Whose slider, or the system's.
        app: Option<String>,
        /// The raw position, `0..=16383`.
        position: u16,
    },
    /// Flip mute: the named application's, or the system's.
    ToggleMute {
        /// Whose, or the system's.
        app: Option<String>,
    },
    /// Flip the microphone: for the named applications, or the microphone
    /// itself when none is named.
    ToggleMicrophone {
        /// Which applications lose it.
        apps: Vec<String>,
    },
    /// Flip both directions for the named applications, together.
    ToggleDeafen {
        /// Which applications.
        apps: Vec<String>,
    },
}

/// An owned string option, by view.
pub open spec fn opt_view(o: Option<String>) -> Option<Seq<char>> {
    match o {
        Some(s) => Some(s@),
        None => None,
    }
}

/// What the applications *Deafen* is aimed at are, given what was named.
pub open spec fn deafen_targets(named: Seq<Seq<char>>) -> Seq<Seq<char>> {
    if named.len() == 0 {
        seq![DEAFEN_DEFAULT@]
    } else {
        named
    }
}

/// When the binding names applications, *Deafen* aims at every one of them,
/// in the order named, and at nothing else; only when it names none does it
/// aim at Discord.
pub proof fn law_deafen_aims_at_every_named_application(named: Seq<Seq<char>>)
    ensures
        named.len() > 0 ==> deafen_targets(named).len() == named.len() && forall|i: int|
            0 <= i < named.len() ==> #[trigger] deafen_targets(named)[i] == named[i],
        named.len() == 0 ==> deafen_targets(named).len() == 1 && deafen_targets(named)[0]
            == DEAFEN_DEFAULT@,
{
}

/// The failure of a fader action given no position.
pub open spec fn needs_position_text() -> Seq<char> {
    "setting the volume needs a fader position"@
}

impl Volume {
    /// A new addon. Does not touch the platform until asked.
    pub fn new() -> (r: Volume)
        ensures
            r == Volume::fresh(),
    {
        Volume { _private: () }
    }

    /// What one action means, given what it was invoked with.
    ///
    /// `set` needs a position: the trigger check in the daemon guarantees one
    /// for a continuous action, and saying so rather than assuming keeps the
    /// addon honest if it is ever called directly. `deafen` aims at Discord
    /// when nothing is named, because a key that does nothing until it is
    /// configured looks broken on the day it is bound.
    pub fn plan(&self, action: &str, invocation: &Invocation) -> (r: Result<VolumeCommand, AddonError>)
        ensures
            action@ == "set"@ ==> match invocation@.value {
                None => r matches Err(e) && is_failed(e, needs_position_text()),
                Some(v) => r matches Ok(VolumeCommand::SetLevel { app, position }) && position == v
                    && opt_view(app) == param_of(invocation@, "app"@),
            },
            action@ == "mute"@ ==> (r matches Ok(VolumeCommand::ToggleMute { app }) && opt_view(app)
                == param_of(invocation@, "app"@)),
            action@ == "mute_microphone"@ ==> (r matches Ok(VolumeCommand::ToggleMicrophone { apps })
                && string_views(apps@) == param_all_of(invocation@, "apps"@)),
            action@ == "deafen"@ ==> (r matches Ok(VolumeCommand::ToggleDeafen { apps })
                && string_views(apps@) == deafen_targets(param_all_of(invocation@, "apps"@))),
            action@ != "set"@ && action@ != "mute"@ && action@ != "mute_microphone"@ && action@
                != "deafen"@ ==> (r matches Err(e) && is_no_such_action(e, action@)),
    {
        proof {
            reveal_strlit("set");
            reveal_strlit("mute");
            reveal_strlit("mute_microphone");
            reveal_strlit("deafen");
            assert("set"@.len() == 3 && "mute"@.len() == 4 && "deafen"@.len() == 6);
            assert("mute_microphone"@.len() == 15);
        }
        let app = match invocation.param("app") {
            Some(a) => Some(a.to_owned()),
            None => None,
        };
        if str_eq(action, "set") {
            match invocation.value() {
                Some(position) => Ok(VolumeCommand::SetLevel { app, position }),
                None => Err(AddonError::Failed("setting the volume needs a fader position".to_owned())),
            }
        } else if str_eq(action, "mute") {
            Ok(VolumeCommand::ToggleMute { app })
        } else if str_eq(action, "mute_microphone") {
            Ok(VolumeCommand::ToggleMicrophone { apps: owned_all(invocation.param_all("apps")) })
        } else if str_eq(action, "deafen") {
            let named = owned_all(invocation.param_all("apps"));
            if named.len() == 0 {
                let mut apps: Vec<String> = Vec::new();
                apps.push(DEAFEN_DEFAULT.to_owned());
                assert(string_views(apps@) =~= seq![DEAFEN_DEFAULT@]);
                Ok(VolumeCommand::ToggleDeafen { apps })
            } else {
                Ok(VolumeCommand::ToggleDeafen { apps: named })
            }
        } else {
            Err(AddonError::NoSuchAction(action.to_owned()))
        }
    }
}

/// Owned copies of a list of string slices.
fn owned_all(v: Vec<&str>) -> (r: Vec<String>)
    ensures
        string_views(r@) == str_views(v@),
{
    let mut out: Vec<String> = Vec::new();
    let mut i: usize = 0;
    while i < v.len()
        invariant
            i <= v@.len(),
            string_views(out@) == str_views(v@.subrange(0, i as int)),
        decreases v@.len() - i,
    {
        out.push(v[i].to_owned());
        assert(str_views(v@.subrange(0, i + 1)) =~= str_views(v@.subrange(0, i as int)).push(
            v@[i as int]@,
        ));
        assert(string_views(out@) =~= str_views(v@.subrange(0, i + 1)));
        i = i + 1;
    }
    assert(v@.subrange(0, v@.len() as int) =~= v@);
    out
}

/// A borrowed view of an owned name, if there is one.
fn opt_as_str(o: &Option<String>) -> (r: Option<&str>)
    ensures
        match r {
            Some(s) => *o matches Some(t) && s@ == t@,
            None => o is None,
        },
{
    match o {
        Some(s) => Some(s.as_str()),
        None => None,
    }
}

/// Borrowed views of owned names, in order.
fn as_strs(v: &Vec<String>) -> (r: Vec<&str>)
    ensures
        str_views(r@) == string_views(v@),
{
    let mut out: Vec<&str> = Vec::new();
    let mut i: usize = 0;
    while i < v.len()
        invariant
            i <= v@.len(),
            str_views(out@) == string_views(v@.subrange(0, i as int)),
        decreases v@.len() - i,
    {
        out.push(v[i].as_str());
        assert(string_views(v@.subrange(0, i + 1)) =~= string_views(v@.subrange(0, i as int)).push(
            v@[i as int]@,
        ));
        assert(str_views(out@) =~= string_views(v@.subrange(0, i + 1)));
        i = i + 1;
    }
    assert(v@.subrange(0, v@.len() as int) =~= v@);
    out
}

impl Addon for Volume {
    fn id(&self) -> (r: &'static str)
        ensures
            r@ == "volume"@,
    {
        "volume"
    }

    fn name(&self) -> (r: &'static str)
        ensures
            r@ == "Volume"@,
    {
        "Volume"
    }

    fn description(&self) -> (r: &'static str)
        ensures
            r@ == "Moves the Windows volume — the system slider, or one application's. No account needed."@,
    {
        "Moves the Windows volume — the system slider, or one application's. No account needed."
    }

    fn actions(&self) -> (r: &'static [AddonAction])
        ensures
            is_volume_actions(r@),
    {
        &[
            AddonAction {
                id: "set",
                name: "Set volume",
                description: "Moves the volume to where the fader is.",
                trigger: Trigger::Continuous,
                params: &[
                    AddonParam {
                        id: "app",
                        name: "Application",
                        description: "Whose volume to change. Leave empty for the system volume.",
                        kind: ParamKind::App,
                        required: false,
                        multiple: false,
                        choices: None,
                    },
                ],
            },
            AddonAction {
                id: "mute",
                name: "Toggle mute",
                description: "Mutes or unmutes.",
                trigger: Trigger::Momentary,
                params: &[
                    AddonParam {
                        id: "app",
                        name: "Application",
                        description: "Whose volume to change. Leave empty for the system volume.",
                        kind: ParamKind::App,
                        required: false,
                        multiple: false,
                        choices: None,
                    },
                ],
            },
            AddonAction {
                id: "mute_microphone",
                name: "Mute the microphone",
                description: "Mutes the microphone itself, so everything loses it at once. Name applications to take it from only those.",
                trigger: Trigger::Momentary,
                params: &[
                    AddonParam {
                        id: "apps",
                        name: "Applications",
                        description: "Which applications lose the microphone. Leave empty to mute the microphone itself, which silences it for everything.",
                        kind: ParamKind::App,
                        required: false,
                        multiple: true,
                        choices: None,
                    },
                ],
            },
            AddonAction {
                id: "deafen",
                name: "Deafen",
                description: "Silences an application both ways at once: it loses the microphone and its own sound is muted.",
                trigger: Trigger::Momentary,
                params: &[
                    AddonParam {
                        id: "apps",
                        name: "Applications",
                        description: "Which applications to silence in both directions. Defaults to Discord.",
                        kind: ParamKind::App,
                        required: false,
                        multiple: true,
                        choices: None,
                    },
                ],
            },
        ]
    }

    fn device_actions(&self) -> (r: &'static [DeviceAction])
        ensures
            is_volume_device_actions(r@),
    {
        &[
            DeviceAction {
                id: "discord_toggle_mute",
                name: "Discord: toggle mute",
                description: "Mutes and unmutes you in Discord, exactly as its own keybind does — including with Nobble shut down.",
                keystroke: DeviceKeystroke::Tap {
                    key: 0x68,
                    ctrl: false,
                    shift: false,
                    alt: false,
                    gui: false,
                },
                prerequisite: Some(IN_DISCORD),
            },
            DeviceAction {
                id: "discord_toggle_deafen",
                name: "Discord: toggle deafen",
                description: "Deafens and undeafens you in Discord — you stop hearing the call and the call stops hearing you.",
                keystroke: DeviceKeystroke::Tap {
                    key: 0x69,
                    ctrl: false,
                    shift: false,
                    alt: false,
                    gui: false,
                },
                prerequisite: Some(IN_DISCORD),
            },
        ]
    }

    fn availability(&self) -> (r: Availability)
        ensures
            r matches Availability::Unavailable(w) && w@ == ONLY_WINDOWS@,
    {
        platform::availability()
    }

    /// An unknown action, or a fader action with no position, is refused
    /// before any mixer is touched; anything else meets no mixer here.
    fn perform(&mut self, action: &str, invocation: &Invocation<'_>) -> (r: Result<(), AddonError>)
        ensures
            action@ != "set"@ && action@ != "mute"@ && action@ != "mute_microphone"@ && action@
                != "deafen"@ ==> (r matches Err(e) && is_no_such_action(e, action@)),
            action@ == "set"@ && invocation@.value is None ==> (r matches Err(e) && is_failed(
                e,
                needs_position_text(),
            )),
            (action@ == "set"@ && invocation@.value is Some) || action@ == "mute"@ || action@
                == "mute_microphone"@ || action@ == "deafen"@ ==> (r matches Err(e)
                && is_unavailable(e, ONLY_WINDOWS@)),
    {
        match self.plan(action, invocation) {
            Err(e) => Err(e),
            // A slider takes an amplitude, which only a reachable mixer is
            // handed; here there is none to hand it to.
            Ok(VolumeCommand::SetLevel { .. }) => Err(AddonError::Unavailable(ONLY_WINDOWS.to_owned())),
            Ok(VolumeCommand::ToggleMute { app }) => platform::toggle_mute(opt_as_str(&app)),
            Ok(VolumeCommand::ToggleMicrophone { apps }) => platform::toggle_microphone(
                as_strs(&apps).as_slice(),
            ),
            Ok(VolumeCommand::ToggleDeafen { apps }) => platform::toggle_deafen(
                as_strs(&apps).as_slice(),
            ),
        }
    }
}

// ---------------------------------------------------------------------------
// Decisions the mixer's outcomes are handed to
// ---------------------------------------------------------------------------

/// Every flag is set.
pub open spec fn all_true(s: Seq<bool>) -> bool {
    forall|i: int| 0 <= i < s.len() ==> s[i]
}

/// What a set of mute controls moves to, given whether each is muted now.
///
/// Toggling several controls individually is not a toggle, it is a scatter:
/// press once with two applications where one is already muted and they
/// swap. So the *set* has a state — muted only when everything in it is
/// muted — and the key moves the whole set to the other one.
pub fn flip_target(muted: &[bool]) -> (r: bool)
    ensures
        r == !all_true(muted@),
{
    let mut i: usize = 0;
    while i < muted.len()
        invariant
            i <= muted@.len(),
            forall|j: int| 0 <= j < i ==> muted@[j],
        decreases muted@.len() - i,
    {
        if !muted[i] {
            return true;
        }
        i = i + 1;
    }
    false
}

/// A set of mute controls counts as muted only when every control in it is,
/// wherever it stands: one unmuted control anywhere makes the set unmuted,
/// so the key moves it to muted.
pub proof fn law_the_set_is_muted_only_when_every_control_is(muted: Seq<bool>)
    ensures
        all_true(muted) <==> !muted.contains(false),
{
    if !all_true(muted) {
        let i = choose|i: int| 0 <= i < muted.len() && !muted[i];
        assert(muted[i] == false);
    }
}

/// One press leaves the whole set in one state, and a second press moves it
/// to the other: pressing twice is never a no-op that looks broken.
pub proof fn law_second_press_moves_the_set_back(muted: Seq<bool>)
    requires
        muted.len() > 0,
    ensures
        !all_true(Seq::new(muted.len(), |i: int| !all_true(muted))) == all_true(muted),
{
    let after = Seq::new(muted.len(), |i: int| !all_true(muted));
    if all_true(muted) {
        assert(!after[0]);
    }
}

/// The sentence for applications that could not be silenced.
pub open spec fn missed_text(missed: Seq<Seq<char>>) -> Seq<char> {
    "no audio session to silence for "@ + joined(missed, ", "@)
        + " — an application only has one while it is actually using the microphone or playing sound"@
}

/// How silencing a set went, given which named applications had nothing to
/// silence. The reachable ones are done first, and the caller is told which
/// were not, by name.
pub fn silence_outcome(missed: &[String]) -> (r: Result<(), AddonError>)
    ensures
        missed@.len() == 0 ==> r is Ok,
        missed@.len() > 0 ==> (r matches Err(e) && is_unavailable(e, missed_text(string_views(missed@)))),
{
    if missed.len() == 0 {
        return Ok(());
    }
    let names = crate::text::join_strings(missed, ", ");
    assert(missed@.map_values(|p: String| p@) == string_views(missed@));
    let head = concat("no audio session to silence for ", names.as_str());
    let text = concat(
        head.as_str(),
        " — an application only has one while it is actually using the microphone or playing sound",
    );
    Err(AddonError::Unavailable(text))
}

/// The failure for a named application with no audio session.
pub fn session_missing(app: &str) -> (r: AddonError)
    ensures
        is_unavailable(r, app@ + " is not playing audio"@),
{
    AddonError::Unavailable(concat(app, " is not playing audio"))
}

/// The failure when there is no playback device to act on.
pub fn no_playback_device() -> (r: AddonError)
    ensures
        is_unavailable(r, "Windows is not reporting a playback device"@),
{
    AddonError::Unavailable("Windows is not reporting a playback device".to_owned())
}

/// The failure when there is no microphone to act on.
pub fn no_microphone() -> (r: AddonError)
    ensures
        is_unavailable(r, "Windows is not reporting a microphone"@),
{
    AddonError::Unavailable("Windows is not reporting a microphone".to_owned())
}

/// Whether the addon can act, given whether a playback device was found.
pub fn playback_availability(found: bool) -> (r: Availability)
    ensures
        found ==> r is Ready,
        !found ==> (r matches Availability::Unavailable(w) && w@
            == "Windows is not reporting a playback device."@),
{
    if found {
        Availability::Ready
    } else {
        Availability::Unavailable("Windows is not reporting a playback device.".to_owned())
    }
}

/// The named applications that had nothing to silence, in order: for the
/// microphone, those with no capture session.
pub fn microphone_missed(apps: &[String], capture: &[bool]) -> (r: Vec<String>)
    requires
        capture@.len() == apps@.len(),
    ensures
        string_views(r@) == missed_apps(string_views(apps@), capture@, capture@),
{
    missed(apps, capture, capture)
}

/// The named applications that had nothing to silence, in order: for
/// deafening, those with neither a capture nor a render session. A
/// half-silenced application counts as silenced here, and the set state
/// treats it as not silenced, because both of its sessions move together.
pub fn deafen_missed(apps: &[String], capture: &[bool], render: &[bool]) -> (r: Vec<String>)
    requires
        capture@.len() == apps@.len(),
        render@.len() == apps@.len(),
    ensures
        string_views(r@) == missed_apps(string_views(apps@), capture@, render@),
{
    missed(apps, capture, render)
}

/// The names at the positions where neither flag is set.
pub open spec fn missed_apps(apps: Seq<Seq<char>>, a: Seq<bool>, b: Seq<bool>) -> Seq<Seq<char>>
    decreases apps.len(),
{
    if apps.len() == 0 {
        Seq::empty()
    } else if !a.last() && !b.last() {
        missed_apps(apps.drop_last(), a.drop_last(), b.drop_last()).push(apps.last())
    } else {
        missed_apps(apps.drop_last(), a.drop_last(), b.drop_last())
    }
}

/// An application is missed exactly when neither of its sessions was
/// found: with neither found anywhere every name is missed, in order, and
/// with one found for each nothing is.
pub proof fn law_missed_exactly_when_neither_was_found(
    apps: Seq<Seq<char>>,
    a: Seq<bool>,
    b: Seq<bool>,
)
    requires
        a.len() == apps.len(),
        b.len() == apps.len(),
    ensures
        (forall|i: int| 0 <= i < apps.len() ==> !a[i] && !b[i]) ==> missed_apps(apps, a, b)
            == apps,
        (forall|i: int| 0 <= i < apps.len() ==> a[i] || b[i]) ==> missed_apps(apps, a, b).len()
            == 0,
    decreases apps.len(),
{
    if apps.len() > 0 {
        law_missed_exactly_when_neither_was_found(apps.drop_last(), a.drop_last(), b.drop_last());
        assert(apps.drop_last().push(apps.last()) =~= apps);
        if forall|i: int| 0 <= i < apps.len() ==> !a[i] && !b[i] {
            assert(forall|i: int|
                0 <= i < apps.drop_last().len() ==> !a.drop_last()[i] && !b.drop_last()[i]);
            assert(!a.last() && !b.last());
        }
        if forall|i: int| 0 <= i < apps.len() ==> a[i] || b[i] {
            assert(forall|i: int|
                0 <= i < apps.drop_last().len() ==> a.drop_last()[i] || b.drop_last()[i]);
            assert(a.last() || b.last());
        }
    }
}

fn missed(apps: &[String], a: &[bool], b: &[bool]) -> (r: Vec<String>)
    requires
        a@.len() == apps@.len(),
        b@.len() == apps@.len(),
    ensures
        string_views(r@) == missed_apps(string_views(apps@), a@, b@),
{
    let mut out: Vec<String> = Vec::new();
    let mut i: usize = 0;
    while i < apps.len()
        invariant
            a@.len() == apps@.len(),
            b@.len() == apps@.len(),
            i <= apps@.len(),
            string_views(out@) == missed_apps(
                string_views(apps@.subrange(0, i as int)),
                a@.subrange(0, i as int),
                b@.subrange(0, i as int),
            ),
        decreases apps@.len() - i,
    {
        let ghost sa = string_views(apps@.subrange(0, i + 1));
        assert(sa.drop_last() =~= string_views(apps@.subrange(0, i as int)));
        assert(a@.subrange(0, i + 1).drop_last() =~= a@.subrange(0, i as int));
        assert(b@.subrange(0, i + 1).drop_last() =~= b@.subrange(0, i as int));
        if !a[i] && !b[i] {
            out.push(apps[i].clone());
            assert(string_views(out@) =~= missed_apps(
                sa,
                a@.subrange(0, i + 1),
                b@.subrange(0, i + 1),
            ));
        }
        i = i + 1;
    }
    assert(apps@.subrange(0, apps@.len() as int) =~= apps@);
    assert(a@.subrange(0, apps@.len() as int) =~= a@);
    assert(b@.subrange(0, apps@.len() as int) =~= b@);
    out
}

} // verus!
