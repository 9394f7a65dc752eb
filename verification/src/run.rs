//! What the loop an addon does not have to write decides.
//!
//! Serving an addon alternates reading a frame, deciding, and writing one.
//! The reading and writing belong to the pipe; everything decided between
//! them is here: the reply each request gets, the owned declaration derived
//! from the borrowed one the author wrote, and how a credential answer is
//! read.

use std::collections::BTreeMap;

use vstd::prelude::*;

use crate::addon::{
    addon_error_text, param_kind_wire, trigger_wire, Addon, AddonAction, AddonChoice,
    AddonChoices, AddonError, AddonParam, AddonSetting, AddonSignal, Availability, Choice,
    CredentialHandle, DeviceAction, DeviceKeystroke, Invocation, Permission, Reading,
};
use crate::params::{opt_str_view, Params};
use crate::protocol::{
    protocol, protocol_spec, ActionDecl, Answer, AvailabilityDecl, ChoiceDecl, ChoicesDecl,
    Description, DeviceActionDecl, FailureKind, KeystrokeDecl, ParamDecl, PermissionDecl,
    ReadingDecl, Reply, Request, SettingDecl, SignalDecl,
};
use crate::text::{concat, debug_quoted, debug_text, str_eq};

verus! {

// ---------------------------------------------------------------------------
// The owned declaration, derived from the borrowed one
// ---------------------------------------------------------------------------

/// An owned string option, by view.
pub open spec fn opt_string_view(o: Option<String>) -> Option<Seq<char>> {
    match o {
        Some(s) => Some(s@),
        None => None,
    }
}

/// `d` is what `p` declares, owned.
pub open spec fn is_param_decl(d: ParamDecl, p: AddonParam) -> bool {
    &&& d.id@ == p.id@
    &&& d.name@ == p.name@
    &&& d.description@ == p.description@
    &&& d.kind@ == param_kind_wire(p.kind)
    &&& d.required == p.required
    &&& d.multiple == p.multiple
    &&& opt_string_view(d.choices) == opt_str_view(p.choices)
}

/// `ds` is `ps` declared, one for one and in order.
pub open spec fn are_param_decls(ds: Seq<ParamDecl>, ps: Seq<AddonParam>) -> bool {
    &&& ds.len() == ps.len()
    &&& forall|i: int| 0 <= i < ds.len() ==> is_param_decl(#[trigger] ds[i], ps[i])
}

/// A declared keystroke crosses the pipe field for field: a tap keeps its key
/// and each of its four modifiers where they were, and a media key keeps its
/// usage.
pub proof fn law_a_keystroke_crosses_field_for_field(k: DeviceKeystroke)
    ensures
        k matches DeviceKeystroke::Tap { key, ctrl, shift, alt, gui } ==> (keystroke_decl_of(
            k,
        ) matches KeystrokeDecl::HidTap { key: k2, ctrl: c2, shift: s2, alt: a2, gui: g2 } && k2
            == key && c2 == ctrl && s2 == shift && a2 == alt && g2 == gui),
        k matches DeviceKeystroke::Consumer { usage } ==> (keystroke_decl_of(
            k,
        ) matches KeystrokeDecl::HidConsumer { usage: u2 } && u2 == usage),
{
}

/// `d` is what `a` declares, owned.
pub open spec fn is_action_decl(d: ActionDecl, a: AddonAction) -> bool {
    &&& d.id@ == a.id@
    &&& d.name@ == a.name@
    &&& d.description@ == a.description@
    &&& d.trigger@ == trigger_wire(a.trigger)
    &&& are_param_decls(d.params@, a.params@)
    &&& d.prerequisite is None
}

/// The keystroke that crosses the pipe for one the author declared.
pub open spec fn keystroke_decl_of(k: DeviceKeystroke) -> KeystrokeDecl {
    match k {
        DeviceKeystroke::Tap { key, ctrl, shift, alt, gui } => KeystrokeDecl::HidTap {
            key,
            ctrl,
            shift,
            alt,
            gui,
        },
        DeviceKeystroke::Consumer { usage } => KeystrokeDecl::HidConsumer { usage },
    }
}

/// `d` is what `a` declares, owned.
pub open spec fn is_device_action_decl(d: DeviceActionDecl, a: DeviceAction) -> bool {
    &&& d.id@ == a.id@
    &&& d.name@ == a.name@
    &&& d.description@ == a.description@
    &&& d.keystroke == keystroke_decl_of(a.keystroke)
    &&& opt_string_view(d.prerequisite) == opt_str_view(a.prerequisite)
}

/// `d` is what `c` declares, owned: a declared option has no second line.
pub open spec fn is_choice_decl(d: ChoiceDecl, c: AddonChoice) -> bool {
    &&& d.value@ == c.value@
    &&& d.label@ == c.label@
    &&& d.detail@.len() == 0
}

/// `d` is what `c` declares, owned.
pub open spec fn is_choices_decl(d: ChoicesDecl, c: AddonChoices) -> bool {
    &&& d.id@ == c.id@
    &&& d.name@ == c.name@
    &&& d.live == c.live
    &&& d.values@.len() == c.values@.len()
    &&& forall|i: int| 0 <= i < d.values@.len() ==> is_choice_decl(#[trigger] d.values@[i], c.values@[i])
}

/// `d` is what `s` declares, owned.
pub open spec fn is_signal_decl(d: SignalDecl, s: AddonSignal) -> bool {
    &&& d.id@ == s.id@
    &&& d.name@ == s.name@
    &&& d.description@ == s.description@
}

/// `d` is what `s` declares, owned.
pub open spec fn is_setting_decl(d: SettingDecl, s: AddonSetting) -> bool {
    &&& is_param_decl(d.param, s.param)
    &&& d.secret == s.secret
}

/// `d` is what `p` declares, owned: the same kind, target and reason.
pub open spec fn is_permission_decl(d: PermissionDecl, p: Permission) -> bool {
    match p {
        Permission::Network { host, reason } => d matches PermissionDecl::Network {
            host: h,
            reason: r,
        } && h@ == host@ && r@ == reason@,
        Permission::Files { path, write, reason } => d matches PermissionDecl::Files {
            path: p2,
            write: w,
            reason: r,
        } && p2@ == path@ && w == write && r@ == reason@,
        Permission::Launch { program, reason } => d matches PermissionDecl::Launch {
            program: p2,
            reason: r,
        } && p2@ == program@ && r@ == reason@,
        Permission::Credentials { reason } => d matches PermissionDecl::Credentials { reason: r }
            && r@ == reason@,
    }
}

/// One parameter, owned.
pub fn param_decl(p: &AddonParam) -> (d: ParamDecl)
    ensures
        is_param_decl(d, *p),
{
    ParamDecl {
        id: p.id.to_owned(),
        name: p.name.to_owned(),
        description: p.description.to_owned(),
        kind: p.kind.as_wire().to_owned(),
        required: p.required,
        multiple: p.multiple,
        choices: match p.choices {
            Some(c) => Some(c.to_owned()),
            None => None,
        },
    }
}

/// Every parameter, owned, in order.
pub fn param_decls(ps: &[AddonParam]) -> (ds: Vec<ParamDecl>)
    ensures
        are_param_decls(ds@, ps@),
{
    let mut out: Vec<ParamDecl> = Vec::new();
    let mut i: usize = 0;
    while i < ps.len()
        invariant
            i <= ps@.len(),
            out@.len() == i,
            forall|j: int| 0 <= j < i ==> is_param_decl(#[trigger] out@[j], ps@[j]),
        decreases ps@.len() - i,
    {
        out.push(param_decl(&ps[i]));
        i = i + 1;
    }
    out
}

/// One action, owned. An authored action carries no prerequisite, so none
/// crosses the pipe.
pub fn action_decl(a: &AddonAction) -> (d: ActionDecl)
    ensures
        is_action_decl(d, *a),
{
    ActionDecl {
        id: a.id.to_owned(),
        name: a.name.to_owned(),
        description: a.description.to_owned(),
        trigger: a.trigger.as_wire().to_owned(),
        params: param_decls(a.params),
        prerequisite: None,
    }
}

/// The keystroke that crosses the pipe. Exhaustive on purpose:
/// [`KeystrokeDecl::Unknown`] is a decode state and has no arm here.
pub fn keystroke_decl(k: DeviceKeystroke) -> (d: KeystrokeDecl)
    ensures
        d == keystroke_decl_of(k),
{
    match k {
        DeviceKeystroke::Tap { key, ctrl, shift, alt, gui } => KeystrokeDecl::HidTap {
            key,
            ctrl,
            shift,
            alt,
            gui,
        },
        DeviceKeystroke::Consumer { usage } => KeystrokeDecl::HidConsumer { usage },
    }
}

/// One device-resolved action, owned.
pub fn device_action_decl(a: &DeviceAction) -> (d: DeviceActionDecl)
    ensures
        is_device_action_decl(d, *a),
{
    DeviceActionDecl {
        id: a.id.to_owned(),
        name: a.name.to_owned(),
        description: a.description.to_owned(),
        keystroke: keystroke_decl(a.keystroke),
        prerequisite: match a.prerequisite {
            Some(p) => Some(p.to_owned()),
            None => None,
        },
    }
}

/// One named list of options, owned. A declared source has nothing to
/// disambiguate, so every option's second line is empty.
pub fn choices_decl(c: &AddonChoices) -> (d: ChoicesDecl)
    ensures
        is_choices_decl(d, *c),
{
    let values: &'static [AddonChoice] = c.values;
    let mut out: Vec<ChoiceDecl> = Vec::new();
    let mut i: usize = 0;
    while i < values.len()
        invariant
            values@ == c.values@,
            i <= values@.len(),
            out@.len() == i,
            forall|j: int| 0 <= j < i ==> is_choice_decl(#[trigger] out@[j], values@[j]),
        decreases values@.len() - i,
    {
        out.push(ChoiceDecl {
            value: values[i].value.to_owned(),
            label: values[i].label.to_owned(),
            detail: String::new(),
        });
        i = i + 1;
    }
    ChoicesDecl { id: c.id.to_owned(), name: c.name.to_owned(), live: c.live, values: out }
}

/// One signal, owned.
pub fn signal_decl(s: &AddonSignal) -> (d: SignalDecl)
    ensures
        is_signal_decl(d, *s),
{
    SignalDecl {
        id: s.id.to_owned(),
        name: s.name.to_owned(),
        description: s.description.to_owned(),
    }
}

/// One setting, owned.
pub fn setting_decl(s: &AddonSetting) -> (d: SettingDecl)
    ensures
        is_setting_decl(d, *s),
{
    SettingDecl { param: param_decl(&s.param), secret: s.secret }
}

/// One permission, owned.
pub fn permission_decl(p: &Permission) -> (d: PermissionDecl)
    ensures
        is_permission_decl(d, *p),
{
    match *p {
        Permission::Network { host, reason } => PermissionDecl::Network {
            host: host.to_owned(),
            reason: reason.to_owned(),
        },
        Permission::Files { path, write, reason } => PermissionDecl::Files {
            path: path.to_owned(),
            write,
            reason: reason.to_owned(),
        },
        Permission::Launch { program, reason } => PermissionDecl::Launch {
            program: program.to_owned(),
            reason: reason.to_owned(),
        },
        Permission::Credentials { reason } => PermissionDecl::Credentials {
            reason: reason.to_owned(),
        },
    }
}

/// `d` describes an addon with these declarations, each list one for one and
/// in order.
pub open spec fn is_description_of(
    d: Description,
    id: Seq<char>,
    name: Seq<char>,
    description: Seq<char>,
    actions: Seq<AddonAction>,
    device_actions: Seq<DeviceAction>,
    choices: Seq<AddonChoices>,
    signals: Seq<AddonSignal>,
    settings: Seq<AddonSetting>,
    permissions: Seq<Permission>,
) -> bool {
    &&& d.id@ == id
    &&& d.name@ == name
    &&& d.description@ == description
    &&& d.actions@.len() == actions.len()
    &&& forall|i: int| 0 <= i < actions.len() ==> is_action_decl(#[trigger] d.actions@[i], actions[i])
    &&& d.device_actions@.len() == device_actions.len()
    &&& forall|i: int|
        0 <= i < device_actions.len() ==> is_device_action_decl(
            #[trigger] d.device_actions@[i],
            device_actions[i],
        )
    &&& d.choices@.len() == choices.len()
    &&& forall|i: int| 0 <= i < choices.len() ==> is_choices_decl(#[trigger] d.choices@[i], choices[i])
    &&& d.signals@.len() == signals.len()
    &&& forall|i: int| 0 <= i < signals.len() ==> is_signal_decl(#[trigger] d.signals@[i], signals[i])
    &&& d.settings@.len() == settings.len()
    &&& forall|i: int| 0 <= i < settings.len() ==> is_setting_decl(#[trigger] d.settings@[i], settings[i])
    &&& d.permissions@.len() == permissions.len()
    &&& forall|i: int|
        0 <= i < permissions.len() ==> is_permission_decl(#[trigger] d.permissions@[i], permissions[i])
}

/// The owned description of an addon with these declarations.
///
/// The only thing that produces a [`Description`]: there is one authored
/// source, and this derives the other from it.
pub fn description_of(
    id: &str,
    name: &str,
    description: &str,
    actions: &[AddonAction],
    device_actions: &[DeviceAction],
    choices: &[AddonChoices],
    signals: &[AddonSignal],
    settings: &[AddonSetting],
    permissions: &[Permission],
) -> (d: Description)
    ensures
        is_description_of(
            d,
            id@,
            name@,
            description@,
            actions@,
            device_actions@,
            choices@,
            signals@,
            settings@,
            permissions@,
        ),
{
    let mut action_decls: Vec<ActionDecl> = Vec::new();
    let mut i: usize = 0;
    while i < actions.len()
        invariant
            i <= actions@.len(),
            action_decls@.len() == i,
            forall|j: int| 0 <= j < i ==> is_action_decl(#[trigger] action_decls@[j], actions@[j]),
        decreases actions@.len() - i,
    {
        action_decls.push(action_decl(&actions[i]));
        i = i + 1;
    }
    let mut device_decls: Vec<DeviceActionDecl> = Vec::new();
    let mut i: usize = 0;
    while i < device_actions.len()
        invariant
            i <= device_actions@.len(),
            device_decls@.len() == i,
            forall|j: int|
                0 <= j < i ==> is_device_action_decl(#[trigger] device_decls@[j], device_actions@[j]),
        decreases device_actions@.len() - i,
    {
        device_decls.push(device_action_decl(&device_actions[i]));
        i = i + 1;
    }
    let mut choices_decls: Vec<ChoicesDecl> = Vec::new();
    let mut i: usize = 0;
    while i < choices.len()
        invariant
            i <= choices@.len(),
            choices_decls@.len() == i,
            forall|j: int| 0 <= j < i ==> is_choices_decl(#[trigger] choices_decls@[j], choices@[j]),
        decreases choices@.len() - i,
    {
        choices_decls.push(choices_decl(&choices[i]));
        i = i + 1;
    }
    let mut signal_decls: Vec<SignalDecl> = Vec::new();
    let mut i: usize = 0;
    while i < signals.len()
        invariant
            i <= signals@.len(),
            signal_decls@.len() == i,
            forall|j: int| 0 <= j < i ==> is_signal_decl(#[trigger] signal_decls@[j], signals@[j]),
        decreases signals@.len() - i,
    {
        signal_decls.push(signal_decl(&signals[i]));
        i = i + 1;
    }
    let mut setting_decls: Vec<SettingDecl> = Vec::new();
    let mut i: usize = 0;
    while i < settings.len()
        invariant
            i <= settings@.len(),
            setting_decls@.len() == i,
            forall|j: int| 0 <= j < i ==> is_setting_decl(#[trigger] setting_decls@[j], settings@[j]),
        decreases settings@.len() - i,
    {
        setting_decls.push(setting_decl(&settings[i]));
        i = i + 1;
    }
    let mut permission_decls: Vec<PermissionDecl> = Vec::new();
    let mut i: usize = 0;
    while i < permissions.len()
        invariant
            i <= permissions@.len(),
            permission_decls@.len() == i,
            forall|j: int|
                0 <= j < i ==> is_permission_decl(#[trigger] permission_decls@[j], permissions@[j]),
        decreases permissions@.len() - i,
    {
        permission_decls.push(permission_decl(&permissions[i]));
        i = i + 1;
    }
    Description {
        id: id.to_owned(),
        name: name.to_owned(),
        description: description.to_owned(),
        actions: action_decls,
        device_actions: device_decls,
        signals: signal_decls,
        settings: setting_decls,
        choices: choices_decls,
        permissions: permission_decls,
    }
}

/// `d` is `addon`'s description: each declaration is one that the addon's
/// own method answered, carried over as [`is_description_of`] says.
pub open spec fn describes<A: Addon>(addon: &A, d: Description) -> bool {
    exists|
        id: &'static str,
        name: &'static str,
        description: &'static str,
        actions: &'static [AddonAction],
        device_actions: &'static [DeviceAction],
        choices: &'static [AddonChoices],
        signals: &'static [AddonSignal],
        settings: &'static [AddonSetting],
        permissions: &'static [Permission],
    |
        {
            &&& call_ensures(A::id, (addon,), id)
            &&& call_ensures(A::name, (addon,), name)
            &&& call_ensures(A::description, (addon,), description)
            &&& call_ensures(A::actions, (addon,), actions)
            &&& call_ensures(A::device_actions, (addon,), device_actions)
            &&& call_ensures(A::choices, (addon,), choices)
            &&& call_ensures(A::signals, (addon,), signals)
            &&& call_ensures(A::settings, (addon,), settings)
            &&& call_ensures(A::permissions, (addon,), permissions)
            &&& is_description_of(
                d,
                id@,
                name@,
                description@,
                actions@,
                device_actions@,
                choices@,
                signals@,
                settings@,
                permissions@,
            )
        }
}

/// Derive the owned declaration from the borrowed one the author wrote:
/// every declaration the addon answers, and nothing else.
pub fn describe<A: Addon>(addon: &A) -> (d: Description)
    ensures
        describes(addon, d),
{
    let id = addon.id();
    let name = addon.name();
    let description = addon.description();
    let actions = addon.actions();
    let device_actions = addon.device_actions();
    let choices = addon.choices();
    let signals = addon.signals();
    let settings = addon.settings();
    let permissions = addon.permissions();
    let d = description_of(
        id,
        name,
        description,
        actions,
        device_actions,
        choices,
        signals,
        settings,
        permissions,
    );
    assert(is_description_of(
        d,
        id@,
        name@,
        description@,
        actions@,
        device_actions@,
        choices@,
        signals@,
        settings@,
        permissions@,
    ));
    d
}

// ---------------------------------------------------------------------------
// Perform
// ---------------------------------------------------------------------------

/// The ids of a list of device-resolved actions.
pub open spec fn device_ids(ds: Seq<DeviceAction>) -> Seq<Seq<char>> {
    ds.map_values(|d: DeviceAction| d.id@)
}

/// What a daemon too old to know device-resolved actions is told when it
/// asks for one: why, and what to do about it.
pub open spec fn device_refusal_text(action: Seq<char>) -> Seq<char> {
    debug_text(action)
        + " is sent by the device, not by this addon. This version of Nobble is older than the addon and cannot bind it as a keystroke; update Nobble."@
}

/// The reply for an action the device sends itself, if `action` is one.
///
/// `Failed` rather than `Unavailable`: unavailable means try again later, and
/// this never will be until the daemon is replaced. Not `NoSuchAction`
/// either, because the action is right there in the list the user bound it
/// from.
pub fn device_refusal(device_actions: &[DeviceAction], action: &str) -> (r: Option<Reply>)
    ensures
        r is Some <==> device_ids(device_actions@).contains(action@),
        r matches Some(reply) ==> (reply matches Reply::Failed { kind, detail } && kind
            == FailureKind::Failed && detail@ == device_refusal_text(action@)),
{
    let mut i: usize = 0;
    while i < device_actions.len()
        invariant
            i <= device_actions@.len(),
            forall|j: int| 0 <= j < i ==> device_ids(device_actions@)[j] != action@,
        decreases device_actions@.len() - i,
    {
        if str_eq(device_actions[i].id, action) {
            assert(device_ids(device_actions@)[i as int] == action@);
            let quoted = debug_quoted(action);
            let detail = concat(
                quoted.as_str(),
                " is sent by the device, not by this addon. This version of Nobble is older than the addon and cannot bind it as a keystroke; update Nobble.",
            );
            return Some(Reply::Failed { kind: FailureKind::Failed, detail });
        }
        i = i + 1;
    }
    None
}

/// The reply an outcome of `perform` gets: done, or a failure of the same
/// kind carrying the same sentence.
pub open spec fn outcome_reply(outcome: Result<(), AddonError>) -> Reply {
    match outcome {
        Ok(()) => Reply::Done,
        Err(AddonError::NoSuchAction(w)) => Reply::Failed { kind: FailureKind::NoSuchAction, detail: w },
        Err(AddonError::Unavailable(w)) => Reply::Failed { kind: FailureKind::Unavailable, detail: w },
        Err(AddonError::Failed(w)) => Reply::Failed { kind: FailureKind::Failed, detail: w },
    }
}

/// The reply for what `perform` returned. The kind is kept, so the daemon can
/// tell "no such action" from "not right now" without parsing prose.
pub fn outcome_to_reply(outcome: Result<(), AddonError>) -> (r: Reply)
    ensures
        r == outcome_reply(outcome),
{
    match outcome {
        Ok(()) => Reply::Done,
        Err(AddonError::NoSuchAction(w)) => Reply::Failed { kind: FailureKind::NoSuchAction, detail: w },
        Err(AddonError::Unavailable(w)) => Reply::Failed { kind: FailureKind::Unavailable, detail: w },
        Err(AddonError::Failed(w)) => Reply::Failed { kind: FailureKind::Failed, detail: w },
    }
}

/// What one action is handed, or why it is handed nothing.
///
/// An action the device sends itself is refused by name, because the addon's
/// author wrote no `perform` arm for it. Anything else is an invocation that
/// carries the binding's parameters as they are stored, the fader position
/// exactly when one was sent, and no input.
pub fn perform_plan<'a>(
    device_actions: &[DeviceAction],
    action: &str,
    params: &'a Params,
    value: Option<u16>,
) -> (r: Result<Invocation<'a>, Reply>)
    ensures
        r is Err <==> device_ids(device_actions@).contains(action@),
        r matches Err(reply) ==> (reply matches Reply::Failed { kind, detail } && kind
            == FailureKind::Failed && detail@ == device_refusal_text(action@)),
        r matches Ok(i) ==> i.entries() == params.entry_seq() && i@.params == params@ && i@.value
            == value && i@.input is None,
{
    if let Some(refusal) = device_refusal(device_actions, action) {
        return Err(refusal);
    }
    match value {
        Some(v) => Ok(Invocation::moved(params, v)),
        None => Ok(Invocation::press(params)),
    }
}

/// `r` is the refusal of `action`, which the device sends itself.
pub open spec fn is_device_refusal(r: Reply, action: Seq<char>) -> bool {
    r matches Reply::Failed { kind, detail } && kind == FailureKind::Failed && detail@
        == device_refusal_text(action)
}

/// The addon's own `perform`, called through the mutable borrow `call` with
/// `action` and `invocation`, returned `outcome`; the invocation carries the
/// binding's `params`, the fader position exactly when `value` holds one,
/// and no input; and `r` is the reply for that outcome.
///
/// Whoever states this also states that `call` runs from the addon before
/// to the addon after, so that this one call is all that happens to it.
pub open spec fn answered_by_perform<'a, A: Addon>(
    call: &mut A,
    action: &str,
    invocation: &Invocation<'a>,
    outcome: Result<(), AddonError>,
    params: Params,
    value: Option<u16>,
    r: Reply,
) -> bool {
    &&& invocation.entries() == params.entry_seq()
    &&& invocation@.params == params@
    &&& invocation@.value == value
    &&& invocation@.input is None
    &&& call_ensures(A::perform, (call, action, invocation), outcome)
    &&& r == outcome_reply(outcome)
}

/// Perform one action against the device-resolved actions the addon
/// declares, and say how it went.
///
/// An action the device sends itself never reaches the addon's own
/// `perform`: the reply is the refusal, by name, and the addon is left as it
/// was. Anything else is handed to the addon, once, as [`perform_plan`]
/// builds it; what it returns is reported with its kind kept, and the addon
/// is left as that one call left it.
pub fn perform_declared<A: Addon>(
    addon: &mut A,
    device_actions: &[DeviceAction],
    action: &str,
    params: &Params,
    value: Option<u16>,
) -> (r: Reply)
    ensures
        device_ids(device_actions@).contains(action@) ==> is_device_refusal(r, action@)
            && *final(addon) == *old(addon),
        !device_ids(device_actions@).contains(action@) ==> exists|
            call: &mut A,
            invocation: Invocation<'static>,
            outcome: Result<(), AddonError>,
        |
            #![trigger call_ensures(A::perform, (call, action, &invocation), outcome)]
            mut_ref_current(call) == *old(addon) && mut_ref_future(call) == *final(addon)
                && answered_by_perform(call, action, &invocation, outcome, *params, value, r),
{
    match perform_plan(device_actions, action, params, value) {
        Err(refusal) => refusal,
        Ok(invocation) => {
            let outcome = addon.perform(action, &invocation);
            let ghost o = outcome;
            let r = outcome_to_reply(outcome);
            assert(r == outcome_reply(o));
            r
        },
    }
}

/// Perform one action and say how it went: [`perform_declared`], against
/// the device-resolved actions the addon itself declares.
pub fn perform<A: Addon>(
    addon: &mut A,
    action: &str,
    params: &Params,
    value: Option<u16>,
) -> (r: Reply)
    ensures
        exists|device_actions: &'static [DeviceAction]|
            #![trigger call_ensures(A::device_actions, (&*old(addon),), device_actions)]
            {
                &&& call_ensures(A::device_actions, (&*old(addon),), device_actions)
                &&& device_ids(device_actions@).contains(action@) ==> is_device_refusal(r, action@)
                    && *final(addon) == *old(addon)
                &&& !device_ids(device_actions@).contains(action@) ==> exists|
                    call: &mut A,
                    invocation: Invocation<'static>,
                    outcome: Result<(), AddonError>,
                |
                    #![trigger call_ensures(A::perform, (call, action, &invocation), outcome)]
                    mut_ref_current(call) == *old(addon) && mut_ref_future(call) == *final(addon)
                        && answered_by_perform(call, action, &invocation, outcome, *params, value, r)
            },
{
    let device_actions = addon.device_actions();
    perform_declared(addon, device_actions, action, params, value)
}

// ---------------------------------------------------------------------------
// Answering one request
// ---------------------------------------------------------------------------

/// The owned form of an availability: the same state, the same sentence.
pub open spec fn availability_decl_of(a: Availability) -> AvailabilityDecl {
    match a {
        Availability::Ready => AvailabilityDecl::Ready,
        Availability::Unavailable(detail) => AvailabilityDecl::Unavailable { detail },
    }
}

/// An availability, owned.
pub fn availability_decl(a: Availability) -> (d: AvailabilityDecl)
    ensures
        d == availability_decl_of(a),
{
    match a {
        Availability::Ready => AvailabilityDecl::Ready,
        Availability::Unavailable(detail) => AvailabilityDecl::Unavailable { detail },
    }
}

/// `d` is `reading`, owned: the same sentence, or each signal id with its
/// value in the same order.
pub open spec fn is_reading_decl(d: ReadingDecl, reading: Reading) -> bool {
    match reading {
        Reading::Unavailable(w) => d == (ReadingDecl::Unavailable { detail: w }),
        Reading::Values(vs) => d matches ReadingDecl::Values { values } && values@.len()
            == vs@.len() && forall|i: int|
            0 <= i < vs@.len() ==> (#[trigger] values@[i]).0@ == vs@[i].0@ && values@[i].1
                == vs@[i].1,
    }
}

/// `d` is `choices`, owned, one for one and in order.
pub open spec fn are_choice_decls(d: Seq<ChoiceDecl>, choices: Seq<Choice>) -> bool {
    &&& d.len() == choices.len()
    &&& forall|i: int|
        0 <= i < d.len() ==> (#[trigger] d[i]).value@ == choices[i].value@ && d[i].label@
            == choices[i].label@ && d[i].detail@ == choices[i].detail@
}

/// A reading, owned: each signal id with its value, in the same order.
pub fn reading_decl(reading: Reading) -> (d: ReadingDecl)
    ensures
        is_reading_decl(d, reading),
{
    match reading {
        Reading::Values(vs) => {
            let mut values: Vec<(String, bool)> = Vec::new();
            let mut i: usize = 0;
            while i < vs.len()
                invariant
                    i <= vs@.len(),
                    values@.len() == i,
                    forall|j: int|
                        0 <= j < i ==> (#[trigger] values@[j]).0@ == vs@[j].0@ && values@[j].1
                            == vs@[j].1,
                decreases vs@.len() - i,
            {
                values.push((vs[i].0.to_owned(), vs[i].1));
                i = i + 1;
            }
            ReadingDecl::Values { values }
        },
        Reading::Unavailable(detail) => ReadingDecl::Unavailable { detail },
    }
}

/// Live options, owned, in the order the addon gave them.
pub fn choice_decls(choices: Vec<Choice>) -> (d: Vec<ChoiceDecl>)
    ensures
        are_choice_decls(d@, choices@),
{
    let mut out: Vec<ChoiceDecl> = Vec::new();
    let mut i: usize = 0;
    while i < choices.len()
        invariant
            i <= choices@.len(),
            out@.len() == i,
            forall|j: int|
                0 <= j < i ==> (#[trigger] out@[j]).value@ == choices@[j].value@ && out@[j].label@
                    == choices@[j].label@ && out@[j].detail@ == choices@[j].detail@,
        decreases choices@.len() - i,
    {
        let c = &choices[i];
        out.push(ChoiceDecl {
            value: c.value.clone(),
            label: c.label.clone(),
            detail: c.detail.clone(),
        });
        i = i + 1;
    }
    out
}

/// `r` is the failure a frame unreadable for `reason` is answered with.
pub open spec fn is_unparsed_reply(r: Reply, reason: Seq<char>) -> bool {
    r matches Reply::Failed { kind, detail } && kind == FailureKind::Failed && detail@
        == "could not understand that: "@ + reason
}

/// What a frame this end could not parse is answered with. Answered rather
/// than fatal: one bad frame should not end the conversation.
pub fn unparsed_reply(reason: &str) -> (r: Reply)
    ensures
        is_unparsed_reply(r, reason@),
{
    Reply::Failed { kind: FailureKind::Failed, detail: concat("could not understand that: ", reason) }
}

/// What answering `request` gives, for an addon that goes from `before` to
/// `after` while doing so, as far as it needs no call of a method that takes
/// the addon mutably: the reply, and whether the conversation ends.
///
/// Version checking is the daemon's call, not the addon's: a hello is
/// answered with this SDK's version whatever the daemon speaks. Only a
/// shutdown ends the conversation, and it is answered first. A request that
/// only asks leaves the addon as it was, and is answered with what the
/// addon's own method returned, carried over exactly. What a request that
/// needs the addon mutably does is in [`respond`]'s own contract.
pub open spec fn responds<A: Addon>(
    before: A,
    after: A,
    request: Request,
    r: (Reply, bool),
) -> bool {
    &&& r.1 <==> request is Shutdown
    &&& request is Hello ==> r.0 == (Reply::Welcome { version: protocol_spec() })
    &&& request is Shutdown || request is BoundInputs || request is HeldInputs
        || request is Configure ==> r.0 is Done
    &&& request is Hello || request is Describe || request is Availability || request is Applies
        || request is Status || request is HeldInputs || request is Shutdown ==> after == before
    &&& request is Describe ==> (r.0 matches Reply::Description(d) && describes(&before, d))
    &&& request is Availability ==> exists|a: Availability|
        call_ensures(A::availability, (&before,), a) && r.0 == Reply::Availability(
            availability_decl_of(a),
        )
    &&& request matches Request::Applies { action } ==> (r.0 matches Reply::Applies {
        applies,
        unavailable,
    } && unavailable is None && exists|a: &str|
        a@ == action@ && call_ensures(A::applies, (&before, a), applies))
    &&& request is Status ==> (r.0 matches Reply::Status { status } && call_ensures(
        A::status,
        (&before,),
        status,
    ))
}

/// The addon's own `live_choices`, called through `call` with `id`,
/// answered `answered`, and `r` carries those choices over exactly.
pub open spec fn live_choices_answered<'a, A: Addon>(
    call: &mut A,
    id: &'a str,
    answered: Vec<Choice>,
    r: Reply,
) -> bool {
    &&& call_ensures(A::live_choices, (call, id), answered)
    &&& r matches Reply::LiveChoices { choices }
    &&& are_choice_decls(choices@, answered@)
}

/// The addon's own `read_signals`, called through `call`, answered
/// `reading`, and `r` carries it over exactly.
pub open spec fn signals_answered<A: Addon>(call: &mut A, reading: Reading, r: Reply) -> bool {
    &&& call_ensures(A::read_signals, (call,), reading)
    &&& r matches Reply::Signals(d)
    &&& is_reading_decl(d, reading)
}

/// The reply to a perform of `action` on an addon whose own
/// `device_actions` answered `device_actions`, going from `before` to
/// `after`, when the device sends that action itself: refused by name, and
/// the addon left as it was.
pub open spec fn refused_by_name<A: Addon>(
    before: A,
    after: A,
    device_actions: &'static [DeviceAction],
    action: Seq<char>,
    r: Reply,
) -> bool {
    &&& call_ensures(A::device_actions, (&before,), device_actions)
    &&& device_ids(device_actions@).contains(action)
    &&& is_device_refusal(r, action)
    &&& after == before
}

/// The reply one request gets, and whether the conversation ends with it.
///
/// A request that needs the addon mutably is answered through one call of
/// the addon's own method, made through one mutable borrow that runs from
/// the addon before to the addon after: live choices and a signal reading
/// are what that call returned, carried over exactly; bound inputs are
/// handed over as the action and the inputs in order, and settings with the
/// credential handle. A perform is refused by name, leaving the addon as it
/// was, when the addon's own `device_actions` names the action; otherwise
/// it is [`answered_by_perform`].
pub fn respond<A: Addon>(addon: &mut A, request: Request, credentials: &CredentialHandle) -> (r: (
    Reply,
    bool,
))
    ensures
        responds(*old(addon), *final(addon), request, r),
        request matches Request::LiveChoices { id } ==> exists|
            call: &mut A,
            a: &str,
            answered: Vec<Choice>,
        |
            #![trigger call_ensures(A::live_choices, (call, a), answered)]
            mut_ref_current(call) == *old(addon) && mut_ref_future(call) == *final(addon) && a@
                == id@ && live_choices_answered(call, a, answered, r.0),
        request is ReadSignals ==> exists|call: &mut A, reading: Reading|
            #![trigger call_ensures(A::read_signals, (call,), reading)]
            mut_ref_current(call) == *old(addon) && mut_ref_future(call) == *final(addon)
                && signals_answered(call, reading, r.0),
        request matches Request::BoundInputs { action, inputs } ==> exists|
            call: &mut A,
            a: &str,
            given: &[String],
        |
            #![trigger call_ensures(A::bound_inputs, (call, a, given), ())]
            mut_ref_current(call) == *old(addon) && mut_ref_future(call) == *final(addon) && a@
                == action@ && given@ == inputs@ && call_ensures(A::bound_inputs, (call, a, given), ()),
        request matches Request::Configure { values } ==> exists|call: &mut A|
            #![trigger call_ensures(A::configure, (call, &values, credentials), ())]
            mut_ref_current(call) == *old(addon) && mut_ref_future(call) == *final(addon)
                && call_ensures(A::configure, (call, &values, credentials), ()),
        request matches Request::Perform { action, params, value } ==> exists|
            device_actions: &'static [DeviceAction],
        |
            #![trigger call_ensures(A::device_actions, (&*old(addon),), device_actions)]
            refused_by_name(*old(addon), *final(addon), device_actions, action@, r.0) || (
            call_ensures(A::device_actions, (&*old(addon),), device_actions) && !device_ids(
                device_actions@,
            ).contains(action@) && exists|
                call: &mut A,
                a: &str,
                invocation: Invocation<'static>,
                outcome: Result<(), AddonError>,
            |
                #![trigger call_ensures(A::perform, (call, a, &invocation), outcome)]
                mut_ref_current(call) == *old(addon) && mut_ref_future(call) == *final(addon) && a@
                    == action@ && answered_by_perform(
                    call,
                    a,
                    &invocation,
                    outcome,
                    params,
                    value,
                    r.0,
                )),
{
    match request {
        Request::Hello { .. } => (Reply::Welcome { version: protocol() }, false),
        Request::Describe => (Reply::Description(describe(&*addon)), false),
        Request::Availability => (Reply::Availability(availability_decl(addon.availability())), false),
        Request::Applies { action } => (
            Reply::Applies { applies: addon.applies(action.as_str()), unavailable: None },
            false,
        ),
        Request::Status => (Reply::Status { status: addon.status() }, false),
        Request::LiveChoices { id } => {
            let answered = addon.live_choices(id.as_str());
            (Reply::LiveChoices { choices: choice_decls(answered) }, false)
        },
        Request::BoundInputs { action, inputs } => {
            addon.bound_inputs(action.as_str(), inputs.as_slice());
            (Reply::Done, false)
        },
        Request::HeldInputs { .. } => (Reply::Done, false),
        Request::Configure { values } => {
            addon.configure(&values, credentials);
            (Reply::Done, false)
        },
        Request::ReadSignals => {
            let reading = addon.read_signals();
            (Reply::Signals(reading_decl(reading)), false)
        },
        Request::Perform { action, params, value } => (
            perform(addon, action.as_str(), &params, value),
            false,
        ),
        Request::Shutdown => (Reply::Done, true),
    }
}

/// One frame, as the pipe delivered it.
#[derive(Debug, Clone, PartialEq, Eq)]
pub enum Frame {
    /// The daemon closed the pipe.
    Closed,
    /// A line that could not be read as a request, and why not.
    Unreadable(String),
    /// A request.
    Request(Request),
}

/// What the loop does next with one frame.
#[derive(Debug, Clone, PartialEq, Eq)]
pub enum Step {
    /// Stop, writing nothing.
    Stop,
    /// Write this reply, and go on.
    Send(Reply),
    /// Answer this request as [`respond`] does, write the reply, and stop
    /// after it if `respond` says the conversation ends.
    Respond(Request),
}

/// What the loop does with one frame.
///
/// A closed pipe ends the conversation with nothing written. A frame that
/// cannot be read is answered with a failure and the conversation goes on:
/// one bad frame should not turn a daemon bug into a dead addon. A request
/// is answered by [`respond`].
pub fn serve_step(frame: Frame) -> (r: Step)
    ensures
        frame is Closed ==> r is Stop,
        frame matches Frame::Unreadable(why) ==> (r matches Step::Send(reply) && is_unparsed_reply(
            reply,
            why@,
        )),
        frame matches Frame::Request(request) ==> r == Step::Respond(request),
{
    match frame {
        Frame::Closed => Step::Stop,
        Frame::Unreadable(why) => Step::Send(unparsed_reply(why.as_str())),
        Frame::Request(request) => Step::Respond(request),
    }
}

// ---------------------------------------------------------------------------
// Credentials over the pipe
// ---------------------------------------------------------------------------

/// A credential read from the daemon's answer. A refusal and an absence are
/// the same to the caller: there is no credential to use.
pub fn credential_from_answer(answer: Option<Answer>) -> (r: Option<String>)
    ensures
        answer matches Some(Answer::Value { value }) ==> r == value,
        !(answer matches Some(Answer::Value { .. })) ==> r is None,
{
    match answer {
        Some(Answer::Value { value }) => value,
        _ => None,
    }
}

/// Whether a credential write took, from the daemon's answer. Anything but a
/// stored or a refused is a daemon that did not answer.
pub fn stored_from_answer(answer: Option<Answer>) -> (r: Result<(), String>)
    ensures
        answer matches Some(Answer::Stored) ==> r is Ok,
        answer matches Some(Answer::Refused { detail }) ==> r == Err::<(), String>(detail),
        !(answer matches Some(Answer::Stored)) && !(answer matches Some(Answer::Refused { .. }))
            ==> (r matches Err(e) && e@ == "the daemon did not answer"@),
{
    match answer {
        Some(Answer::Stored) => Ok(()),
        Some(Answer::Refused { detail }) => Err(detail),
        _ => Err("the daemon did not answer".to_owned()),
    }
}

} // verus!
