//! What an addon is: the trait an author implements, and its vocabulary.
//!
//! **Nothing here depends on any other Nobble crate, and it must stay that
//! way.** Every dependency added here is one a third-party addon author
//! inherits.

use std::collections::BTreeMap;
use std::sync::Arc;

use vstd::prelude::*;

use crate::params::{
    entries_map, lookup, one_value, opt_str_view, rendered, sorted_keys, all_values, str_views,
    ParamValue, ParamValueView, Params,
};
use crate::text::{
    absent, after_last, after_last_start, ascii_lower, ascii_lower_char, chars_of, concat,
    contains, contains_chars, debug_quoted, debug_text, ends_with, first_at, join, joined, lower_chars,
    occurs_at, str_eq, sub_chars, trim_suffix_all, trim_suffix_all_len,
};

verus! {

/// Where an addon keeps its own credentials.
///
/// # Why there is no `addon` parameter
///
/// Because there used to be, and it was a hole: every addon was handed the
/// same live handle to the store, so any addon could read any other addon's
/// credentials by passing a different string. An addon says which *key* it
/// wants and never which addon it is; whoever hands out the handle decides
/// that. The result is a type in which the old mistake cannot be written down.
pub trait Credentials: Send + Sync {
    /// Read one of this addon's credentials.
    fn get(&self, key: &str) -> Option<String>;

    /// Store one. An error if the platform store refused it.
    fn set(&self, key: &str, value: &str) -> Result<(), String>;

    /// Forget one. Absent is the outcome, so forgetting nothing is success.
    fn clear(&self, key: &str);
}

/// A shared [`Credentials`], because an addon needs it after configuration too.
pub type CredentialHandle = Arc<dyn Credentials>;

/// Full scale for a 14-bit fader value.
pub const FADER_MAX: u16 = 16383;

// ---------------------------------------------------------------------------
// Trigger and ParamKind, and how they are spelled on a wire
// ---------------------------------------------------------------------------

/// What kind of input an action expects.
///
/// Declared rather than inferred, because the two are not interchangeable: a
/// fader bound to "next track" would skip a hundred tracks across one sweep,
/// and a key bound to "set volume" has no position to send.
#[derive(Debug, Clone, Copy, PartialEq, Eq, Structural)]
pub enum Trigger {
    /// A press. The ordinary case.
    Momentary,
    /// A position — a fader, `0..=16383`.
    Continuous,
}

/// The protocol token for a trigger.
pub open spec fn trigger_wire(t: Trigger) -> Seq<char> {
    match t {
        Trigger::Momentary => "momentary"@,
        Trigger::Continuous => "continuous"@,
    }
}

/// The trigger a token names, if this build has a name for it.
pub open spec fn trigger_from_wire(s: Seq<char>) -> Option<Trigger> {
    if s == "momentary"@ {
        Some(Trigger::Momentary)
    } else if s == "continuous"@ {
        Some(Trigger::Continuous)
    } else {
        None
    }
}

impl Trigger {
    /// How it is spelled on a wire. A protocol token, not a display name.
    pub fn as_wire(self) -> (r: &'static str)
        ensures
            r@ == trigger_wire(self),
    {
        match self {
            Trigger::Momentary => "momentary",
            Trigger::Continuous => "continuous",
        }
    }

    /// Read one back, or `None` if this build has no name for it.
    ///
    /// An `Option` rather than a default, deliberately: whether to refuse or
    /// to default is the caller's decision to state out loud.
    pub fn from_wire(s: &str) -> (r: Option<Trigger>)
        ensures
            r == trigger_from_wire(s@),
    {
        if str_eq(s, "momentary") {
            Some(Trigger::Momentary)
        } else if str_eq(s, "continuous") {
            Some(Trigger::Continuous)
        } else {
            None
        }
    }
}

/// Every trigger survives the round trip its own encoder produces.
pub proof fn law_trigger_round_trip(t: Trigger)
    ensures
        trigger_from_wire(trigger_wire(t)) == Some(t),
{
    reveal_strlit("momentary");
    reveal_strlit("continuous");
    assert("momentary"@.len() != "continuous"@.len());
}

/// A token decodes only to the trigger that spells it: two triggers never
/// share a spelling.
pub proof fn law_trigger_decode_is_exact(s: Seq<char>, t: Trigger)
    requires
        trigger_from_wire(s) == Some(t),
    ensures
        trigger_wire(t) == s,
{
}

/// What a parameter holds, so an interface can offer the right editor.
///
/// A hint, not a storage type. Widening this is additive; a client that does
/// not recognise a kind falls back to a text box and stays useful.
#[derive(Debug, Clone, Copy, PartialEq, Eq, Structural)]
#[non_exhaustive]
pub enum ParamKind {
    /// Free text.
    Text,
    /// An application identity, in whatever form the foreground watcher
    /// reports.
    App,
}

/// The protocol token for a parameter kind.
pub open spec fn param_kind_wire(k: ParamKind) -> Seq<char> {
    match k {
        ParamKind::Text => "text"@,
        ParamKind::App => "app"@,
    }
}

/// The kind a token names, if this build has a name for it.
pub open spec fn param_kind_from_wire(s: Seq<char>) -> Option<ParamKind> {
    if s == "text"@ {
        Some(ParamKind::Text)
    } else if s == "app"@ {
        Some(ParamKind::App)
    } else {
        None
    }
}

impl ParamKind {
    /// How it is spelled on a wire. Exhaustive: adding a kind fails to
    /// compile here, at the one site that has to decide what it is called.
    pub fn as_wire(self) -> (r: &'static str)
        ensures
            r@ == param_kind_wire(self),
    {
        match self {
            ParamKind::Text => "text",
            ParamKind::App => "app",
        }
    }

    /// Read one back, or `None` if this build has no name for it.
    pub fn from_wire(s: &str) -> (r: Option<ParamKind>)
        ensures
            r == param_kind_from_wire(s@),
    {
        if str_eq(s, "text") {
            Some(ParamKind::Text)
        } else if str_eq(s, "app") {
            Some(ParamKind::App)
        } else {
            None
        }
    }
}

/// Every parameter kind survives the round trip its own encoder produces.
pub proof fn law_param_kind_round_trip(k: ParamKind)
    ensures
        param_kind_from_wire(param_kind_wire(k)) == Some(k),
{
    reveal_strlit("text");
    reveal_strlit("app");
    assert("text"@.len() != "app"@.len());
}

/// A token decodes only to the kind that spells it.
pub proof fn law_param_kind_decode_is_exact(s: Seq<char>, k: ParamKind)
    requires
        param_kind_from_wire(s) == Some(k),
    ensures
        param_kind_wire(k) == s,
{
}

// ---------------------------------------------------------------------------
// Application identities
// ---------------------------------------------------------------------------

/// `.exe`.
pub open spec fn dot_exe() -> Seq<char> {
    seq!['.', 'e', 'x', 'e']
}

/// `.EXE`.
pub open spec fn dot_exe_upper() -> Seq<char> {
    seq!['.', 'E', 'X', 'E']
}

/// What a target is compared on: what follows its last `:`, without any
/// trailing `.exe` or `.EXE`, lowered.
pub open spec fn app_stem(target: Seq<char>) -> Seq<char> {
    ascii_lower(
        trim_suffix_all(trim_suffix_all(after_last(target, ':'), dot_exe()), dot_exe_upper()),
    )
}

/// Whether `reported` names the application `target` means: the stem of the
/// target is non-empty and occurs, case aside, in what was reported.
pub open spec fn app_match(reported: Seq<char>, target: Seq<char>) -> bool {
    app_stem(target).len() > 0 && contains(ascii_lower(reported), app_stem(target))
}

/// Whether something the platform named is the application a binding meant.
///
/// The comparison is on the **stem**: `exe:spotify.exe` and `Spotify.exe`
/// both reduce to `spotify`. An empty target matches **nothing**: naming a
/// target means "this one", and a blank field that matched everything would
/// turn a typo into a key that controls whatever happens to be loudest.
pub fn app_matches(reported: &str, target: &str) -> (r: bool)
    ensures
        r == app_match(reported@, target@),
{
    let t = chars_of(target);
    let start = after_last_start(t.as_slice(), ':');
    let tail = sub_chars(t.as_slice(), start, t.len());
    let mut lower_ext: Vec<char> = Vec::new();
    lower_ext.push('.');
    lower_ext.push('e');
    lower_ext.push('x');
    lower_ext.push('e');
    let mut upper_ext: Vec<char> = Vec::new();
    upper_ext.push('.');
    upper_ext.push('E');
    upper_ext.push('X');
    upper_ext.push('E');
    assert(lower_ext@ =~= dot_exe());
    assert(upper_ext@ =~= dot_exe_upper());
    assert(tail@.subrange(0, tail@.len() as int) =~= tail@);
    let e1 = trim_suffix_all_len(tail.as_slice(), tail.len(), lower_ext.as_slice());
    let e2 = trim_suffix_all_len(tail.as_slice(), e1, upper_ext.as_slice());
    assert(tail@.subrange(0, e1 as int).subrange(0, e2 as int) =~= tail@.subrange(0, e2 as int));
    let raw = sub_chars(tail.as_slice(), 0, e2);
    let stem = lower_chars(raw.as_slice());
    if stem.len() == 0 {
        return false;
    }
    let reported_chars = chars_of(reported);
    let reported_lower = lower_chars(reported_chars.as_slice());
    contains_chars(reported_lower.as_slice(), stem.as_slice())
}

/// The first of several things the platform named that is the application a
/// binding meant, by position: which session a key aimed at one application
/// controls when that application has several.
pub fn first_match(reported: &[String], target: &str) -> (r: Option<usize>)
    ensures
        match r {
            Some(i) => i < reported@.len() && app_match(reported@[i as int]@, target@)
                && forall|j: int| 0 <= j < i ==> !app_match(#[trigger] reported@[j]@, target@),
            None => forall|j: int|
                0 <= j < reported@.len() ==> !app_match(#[trigger] reported@[j]@, target@),
        },
{
    let mut i: usize = 0;
    while i < reported.len()
        invariant
            i <= reported@.len(),
            forall|j: int| 0 <= j < i ==> !app_match(#[trigger] reported@[j]@, target@),
        decreases reported@.len() - i,
    {
        if app_matches(reported[i].as_str(), target) {
            return Some(i);
        }
        i = i + 1;
    }
    None
}

/// Lowering twice is lowering once.
pub proof fn lemma_ascii_lower_idempotent(s: Seq<char>)
    ensures
        ascii_lower(ascii_lower(s)) == ascii_lower(s),
{
    assert(ascii_lower(ascii_lower(s)) =~= ascii_lower(s));
}

/// Whether something matches does not depend on the case it was reported in.
pub proof fn law_app_match_ignores_reported_case(reported: Seq<char>, target: Seq<char>)
    ensures
        app_match(ascii_lower(reported), target) == app_match(reported, target),
{
    lemma_ascii_lower_idempotent(reported);
}

/// A name the platform reports that holds the target, up to the case of its
/// letters, anywhere in it matches it: `SpotifyAB.Zoom!App` holds `zoom`.
/// Every capital from `A` to `Z` counts, and so does every position.
pub proof fn law_a_name_matches_wherever_it_stands_in_any_case(
    before: Seq<char>,
    reported: Seq<char>,
    after: Seq<char>,
    name: Seq<char>,
)
    requires
        name.len() > 0,
        forall|i: int| 0 <= i < name.len() ==> 'a' <= #[trigger] name[i] <= 'z',
        reported.len() == name.len(),
        forall|i: int|
            0 <= i < name.len() ==> #[trigger] reported[i] == name[i] || reported[i] as u32 + 32
                == name[i] as u32,
    ensures
        app_match(before + reported + after, name),
{
    lemma_after_last_no_sep(name, ':');
    if name.len() >= 4 {
        assert(name[name.len() - 4] != '.');
        assert(name.subrange(name.len() - 4, name.len() as int)[0] == name[name.len() - 4]);
    }
    assert(!ends_with(name, dot_exe()));
    assert(!ends_with(name, dot_exe_upper()));
    assert(trim_suffix_all(name, dot_exe()) == name);
    assert(trim_suffix_all(name, dot_exe_upper()) == name);
    assert(ascii_lower(name) =~= name);
    assert forall|i: int| 0 <= i < reported.len() implies ascii_lower(reported)[i] == name[i] by {
        let c = reported[i];
        if c != name[i] {
            assert(c as u32 + 32 == name[i] as u32);
            assert('a' <= name[i] <= 'z');
            assert(97 <= name[i] as u32 <= 122);
            assert(65 <= c as u32 <= 90);
            lemma_capital(c);
            assert(((c as u32) + 32) as char == name[i]);
        }
    }
    assert(ascii_lower(reported) =~= name);
    let whole = before + reported + after;
    assert(ascii_lower(whole).subrange(before.len() as int, (before.len() + name.len()) as int)
        =~= ascii_lower(reported));
    assert(occurs_at(ascii_lower(whole), name, before.len() as int));
}

proof fn lemma_capital(c: char)
    requires
        65 <= c as u32 <= 90,
    ensures
        'A' <= c <= 'Z',
{
}

/// Lowering takes every capital from `A` to `Z` to its small letter, 32
/// code points on, and leaves every other character as it is.
pub proof fn law_lowering_takes_every_capital_to_its_small_letter(c: char)
    ensures
        'A' <= c <= 'Z' ==> ascii_lower_char(c) as u32 == c as u32 + 32 && 'a' <= ascii_lower_char(
            c,
        ) <= 'z',
        !('A' <= c <= 'Z') ==> ascii_lower_char(c) == c,
{
}

/// A target with nothing after its last `:` — the empty target, or `exe:` —
/// matches nothing at all.
pub proof fn law_empty_target_matches_nothing(reported: Seq<char>, target: Seq<char>)
    requires
        after_last(target, ':').len() == 0,
    ensures
        !app_match(reported, target),
{
    let a = after_last(target, ':');
    assert(trim_suffix_all(a, dot_exe()) == a);
    assert(trim_suffix_all(a, dot_exe_upper()) == a);
}

/// What follows the last separator of `a + b`, when `b` has no separator and
/// `a` ends with one, is `b`.
proof fn lemma_after_last_concat(a: Seq<char>, b: Seq<char>, sep: char)
    requires
        a.len() > 0,
        a.last() == sep,
        forall|i: int| 0 <= i < b.len() ==> b[i] != sep,
    ensures
        after_last(a + b, sep) == b,
    decreases b.len(),
{
    if b.len() == 0 {
        assert(a + b =~= a);
    } else {
        assert((a + b).drop_last() =~= a + b.drop_last());
        assert((a + b).last() == b.last());
        lemma_after_last_concat(a, b.drop_last(), sep);
        assert(b.drop_last().push(b.last()) =~= b);
    }
}

/// A stem with no `:` in it names the same application with or without the
/// `exe:` prefix the foreground watcher adds.
pub proof fn law_app_match_ignores_exe_prefix(reported: Seq<char>, name: Seq<char>)
    requires
        forall|i: int| 0 <= i < name.len() ==> name[i] != ':',
    ensures
        app_match(reported, seq!['e', 'x', 'e', ':'] + name) == app_match(reported, name),
{
    let prefix = seq!['e', 'x', 'e', ':'];
    lemma_after_last_concat(prefix, name, ':');
    lemma_after_last_no_sep(name, ':');
}

/// With no separator in `s`, what follows the last one is all of `s`.
proof fn lemma_after_last_no_sep(s: Seq<char>, sep: char)
    requires
        forall|i: int| 0 <= i < s.len() ==> s[i] != sep,
    ensures
        after_last(s, sep) == s,
    decreases s.len(),
{
    if s.len() > 0 {
        lemma_after_last_no_sep(s.drop_last(), sep);
        assert(s.drop_last().push(s.last()) =~= s);
    }
}

/// Naming an executable, `spotify.exe`, aims at the same application as
/// naming its stem, `spotify`.
pub proof fn law_app_match_ignores_exe_suffix(reported: Seq<char>, name: Seq<char>)
    requires
        forall|i: int| 0 <= i < name.len() ==> name[i] != ':',
    ensures
        app_match(reported, name + dot_exe()) == app_match(reported, name),
{
    let full = name + dot_exe();
    lemma_after_last_no_sep(name, ':');
    assert forall|i: int| 0 <= i < full.len() implies full[i] != ':' by {
        if i >= name.len() {
            assert(full[i] == dot_exe()[i - name.len()]);
        }
    }
    lemma_after_last_no_sep(full, ':');
    assert(ends_with_exe(full)) by {
        assert(full.subrange(full.len() - 4, full.len() as int) =~= dot_exe());
    }
    assert(full.subrange(0, full.len() - 4) =~= name);
    assert(trim_suffix_all(full, dot_exe()) == trim_suffix_all(name, dot_exe()));
}

spec fn ends_with_exe(s: Seq<char>) -> bool {
    crate::text::ends_with(s, dot_exe())
}

// ---------------------------------------------------------------------------
// Declarations
// ---------------------------------------------------------------------------

/// One option a user can pick.
#[derive(Debug, Clone, Copy, PartialEq, Eq)]
pub struct AddonChoice {
    /// What gets stored in the binding.
    pub value: &'static str,
    /// What the user reads.
    pub label: &'static str,
}

/// One option from a live source. The owned twin of [`AddonChoice`].
#[derive(Debug, Clone, PartialEq, Eq)]
pub struct Choice {
    /// What gets stored in the binding. **An identity, not a name.**
    pub value: String,
    /// What the user reads while choosing.
    pub label: String,
    /// A second line, where the label alone is ambiguous. Empty when there is
    /// nothing to add, which is the common case.
    pub detail: String,
}

impl Choice {
    /// One with nothing to disambiguate it.
    pub fn new(value: String, label: String) -> (r: Choice)
        ensures
            r.value@ == value@,
            r.label@ == label@,
            r.detail@ == Seq::<char>::empty(),
    {
        Choice { value, label, detail: String::new() }
    }

    /// One that needs a second line to tell it from another.
    pub fn detailed(value: String, label: String, detail: String) -> (r: Choice)
        ensures
            r.value@ == value@,
            r.label@ == label@,
            r.detail@ == detail@,
    {
        Choice { value, label, detail }
    }
}

/// A named list of options an addon offers, which a parameter can draw from.
#[derive(Debug, Clone, Copy, PartialEq, Eq)]
pub struct AddonChoices {
    /// Stable id, unique within the addon. A parameter names this.
    pub id: &'static str,
    /// What the list is, for the editor's heading and its empty state.
    pub name: &'static str,
    /// Whether the values must be asked for rather than read from below.
    pub live: bool,
    /// Every value, for a declared source. Empty when [`Self::live`].
    pub values: &'static [AddonChoice],
}

/// One thing an action needs to know, declared so an interface can ask for it.
#[derive(Debug, Clone, Copy, PartialEq, Eq)]
pub struct AddonParam {
    /// Stable identifier, and the key a binding stores it under.
    pub id: &'static str,
    /// What to call it.
    pub name: &'static str,
    /// What it is for, in a sentence.
    pub description: &'static str,
    /// What it holds.
    pub kind: ParamKind,
    /// Whether the action can run without it.
    pub required: bool,
    /// Whether it holds several values rather than one.
    pub multiple: bool,
    /// The id of an [`AddonChoices`] this draws its options from, if any.
    pub choices: Option<&'static str>,
}

impl AddonParam {
    /// A parameter with nothing set, to build from.
    pub fn base() -> (r: AddonParam)
        ensures
            r.id@.len() == 0,
            r.name@.len() == 0,
            r.description@.len() == 0,
            r.kind == ParamKind::Text,
            !r.required,
            !r.multiple,
            r.choices is None,
    {
        proof {
            reveal_strlit("");
        }
        AddonParam {
            id: "",
            name: "",
            description: "",
            kind: ParamKind::Text,
            required: false,
            multiple: false,
            choices: None,
        }
    }
}

/// The ids of a list of parameters.
pub open spec fn param_ids(ps: Seq<AddonParam>) -> Seq<Seq<char>> {
    ps.map_values(|p: AddonParam| p.id@)
}

/// One thing an addon can be asked to do.
#[derive(Debug, Clone, Copy, PartialEq, Eq)]
pub struct AddonAction {
    /// Stable identifier. This is what a binding stores.
    pub id: &'static str,
    /// What to call it in a menu.
    pub name: &'static str,
    /// What it does, in a sentence.
    pub description: &'static str,
    /// Whether it wants a press or a position.
    pub trigger: Trigger,
    /// What it needs to know, if anything.
    pub params: &'static [AddonParam],
}

impl AddonAction {
    /// One parameter's declaration, by id: the first one declared with it.
    pub fn param(&self, id: &str) -> (r: Option<&'static AddonParam>)
        ensures
            match r {
                Some(p) => exists|i: int|
                    first_at(param_ids(self.params@), id@, i) && *p == self.params@[i],
                None => absent(param_ids(self.params@), id@),
            },
    {
        let params: &'static [AddonParam] = self.params;
        let mut i: usize = 0;
        while i < params.len()
            invariant
                params@ == self.params@,
                i <= params@.len(),
                forall|j: int| 0 <= j < i ==> param_ids(params@)[j] != id@,
            decreases params@.len() - i,
        {
            if str_eq(params[i].id, id) {
                assert(first_at(param_ids(params@), id@, i as int));
                return Some(&params[i]);
            }
            i = i + 1;
        }
        None
    }
}

/// One keystroke, exactly as the device will send it.
///
/// Deliberately **not** `#[non_exhaustive]`: an unfamiliar keystroke has no
/// useful fallback, and a wildcard arm is how a device silently sends nothing.
#[derive(Debug, Clone, Copy, PartialEq, Eq, Structural)]
pub enum DeviceKeystroke {
    /// Press and release one key, with modifiers held. A suggestion the user
    /// is expected to change.
    Tap {
        /// A HID usage code, **not** a character.
        key: u8,
        /// Held with it.
        ctrl: bool,
        /// Held with it.
        shift: bool,
        /// Held with it.
        alt: bool,
        /// Held with it — Windows, Command, Super.
        gui: bool,
    },
    /// A Consumer Control usage — the media keys.
    Consumer {
        /// The usage.
        usage: u16,
    },
}

/// One thing an addon *names* and the **device** does, with no addon running.
///
/// Ids share one namespace with [`Addon::actions`], because a binding stores
/// one string and cannot say which list it came from.
#[derive(Debug, Clone, Copy, PartialEq, Eq)]
pub struct DeviceAction {
    /// Stable identifier, and what the binding records as provenance.
    pub id: &'static str,
    /// What to call it in a menu.
    pub name: &'static str,
    /// What it does, in a sentence.
    pub description: &'static str,
    /// What the device sends **by default**. The user can change it.
    pub keystroke: DeviceKeystroke,
    /// The step outside Nobble that has to happen for this to work, if there
    /// is one. Free text, shown at the moment of binding, and never parsed.
    pub prerequisite: Option<&'static str>,
}

// ---------------------------------------------------------------------------
// Invocation
// ---------------------------------------------------------------------------

/// What an invocation carries, by view.
pub struct InvocationView {
    /// The binding's parameters, by id.
    pub params: Map<Seq<char>, ParamValueView>,
    /// The raw position, for a continuous action.
    pub value: Option<u16>,
    /// Which input fired.
    pub input: Option<Seq<char>>,
}

/// The single value of parameter `id`, if the binding set one.
pub open spec fn param_of(inv: InvocationView, id: Seq<char>) -> Option<Seq<char>> {
    if inv.params.contains_key(id) {
        one_value(inv.params[id])
    } else {
        None
    }
}

/// Every value of parameter `id`, empty if the binding set none.
pub open spec fn param_all_of(inv: InvocationView, id: Seq<char>) -> Seq<Seq<char>> {
    if inv.params.contains_key(id) {
        all_values(inv.params[id])
    } else {
        Seq::empty()
    }
}

/// What an action was given when it ran.
///
/// Two sources, and keeping them apart is the whole design. **Parameters**
/// were chosen when the binding was authored and are saved with it; the
/// **value** was produced by the input a moment ago and is saved nowhere.
#[derive(Debug, Copy)]
pub struct Invocation<'a> {
    params: &'a [(String, ParamValue)],
    value: Option<u16>,
    input: Option<&'a str>,
}

impl<'a> Clone for Invocation<'a> {
    fn clone(&self) -> (r: Self)
        ensures
            r@ == self@,
            r.entries() == self.entries(),
    {
        proof {
            use_type_invariant(self);
        }
        Invocation { params: self.params, value: self.value, input: self.input }
    }
}

impl<'a> View for Invocation<'a> {
    type V = InvocationView;

    open spec fn view(&self) -> InvocationView {
        InvocationView {
            params: entries_map(self.entries()),
            value: self.value_spec(),
            input: self.input_spec(),
        }
    }
}

impl<'a> Invocation<'a> {
    #[verifier::type_invariant]
    spec fn sorted(&self) -> bool {
        sorted_keys(self.params@)
    }

    /// The parameters as stored, in id order.
    pub closed spec fn entries(&self) -> Seq<(String, ParamValue)> {
        self.params@
    }

    /// The position, if one was given.
    pub closed spec fn value_spec(&self) -> Option<u16> {
        self.value
    }

    /// The input, if one was named.
    pub closed spec fn input_spec(&self) -> Option<Seq<char>> {
        opt_str_view(self.input)
    }

    /// A press, with the binding's parameters.
    pub fn press(params: &'a Params) -> (r: Invocation<'a>)
        ensures
            r.entries() == params.entry_seq(),
            r@.params == params@,
            r@.value is None,
            r@.input is None,
    {
        Invocation { params: params.entries(), value: None, input: None }
    }

    /// A position, with the binding's parameters.
    pub fn moved(params: &'a Params, value: u16) -> (r: Invocation<'a>)
        ensures
            r.entries() == params.entry_seq(),
            r@.params == params@,
            r@.value == Some(value),
            r@.input is None,
    {
        Invocation { params: params.entries(), value: Some(value), input: None }
    }

    /// A press with nothing configured.
    pub fn bare() -> (r: Invocation<'static>)
        ensures
            r.entries().len() == 0,
            r@.params == Map::<Seq<char>, ParamValueView>::empty(),
            r@.value is None,
            r@.input is None,
    {
        let r = Invocation { params: &[], value: None, input: None };
        assert(entries_map(r.params@) =~= Map::<Seq<char>, ParamValueView>::empty());
        r
    }

    /// Say which input this came from. The host adds it; an addon never does.
    pub fn from(self, input: &'a str) -> (r: Invocation<'a>)
        ensures
            r.entries() == self.entries(),
            r@.params == self@.params,
            r@.value == self@.value,
            r@.input == Some(input@),
    {
        proof {
            use_type_invariant(&self);
        }
        Invocation { params: self.params, value: self.value, input: Some(input) }
    }

    /// Which input fired, as an opaque string. `None` when the interface
    /// asked rather than a key.
    pub fn input(&self) -> (r: Option<&str>)
        ensures
            opt_str_view(r) == self@.input,
    {
        self.input
    }

    /// One parameter, if the binding set it.
    ///
    /// Absent and empty are the same answer here, and **a parameter holding a
    /// list reads as absent**, rather than as its first entry.
    pub fn param(&self, id: &str) -> (r: Option<&str>)
        ensures
            opt_str_view(r) == param_of(self@, id@),
    {
        proof {
            use_type_invariant(self);
        }
        match lookup(self.params, id) {
            Some(v) => v.one(),
            None => None,
        }
    }

    /// Every value of one parameter, whether it holds one or several.
    pub fn param_all(&self, id: &str) -> (r: Vec<&str>)
        ensures
            str_views(r@) == param_all_of(self@, id@),
    {
        proof {
            use_type_invariant(self);
        }
        match lookup(self.params, id) {
            Some(v) => v.all(),
            None => {
                let r: Vec<&str> = Vec::new();
                assert(str_views(r@) =~= Seq::<Seq<char>>::empty());
                r
            },
        }
    }

    /// The parameters as they were stored, in id order, for a host that has
    /// to forward them verbatim. Not for addons.
    pub fn raw_params(&self) -> (r: &'a [(String, ParamValue)])
        ensures
            r@ == self.entries(),
            sorted_keys(r@),
            entries_map(r@) == self@.params,
    {
        proof {
            use_type_invariant(self);
        }
        self.params
    }

    /// Every parameter, for reporting. A list renders comma-separated,
    /// because this feeds a log line rather than anything that parses it back.
    pub fn params(&self) -> (r: Vec<(&str, String)>)
        ensures
            r@.len() == self.entries().len(),
            forall|i: int|
                0 <= i < r@.len() ==> (#[trigger] r@[i]).0@ == rendered(self.entries())[i].0
                    && r@[i].1@ == rendered(self.entries())[i].1,
    {
        let entries: &'a [(String, ParamValue)] = self.params;
        let mut out: Vec<(&str, String)> = Vec::new();
        let mut i: usize = 0;
        while i < entries.len()
            invariant
                entries@ == self.entries(),
                i <= entries@.len(),
                out@.len() == i,
                forall|j: int|
                    0 <= j < i ==> (#[trigger] out@[j]).0@ == rendered(entries@)[j].0
                        && out@[j].1@ == rendered(entries@)[j].1,
            decreases entries@.len() - i,
        {
            let values = entries[i].1.all();
            let line = join(values.as_slice(), ", ");
            assert(values@.map_values(|p: &str| p@) == str_views(values@));
            out.push((entries[i].0.as_str(), line));
            i = i + 1;
        }
        out
    }

    /// The raw position, `0..=16383`, for a continuous action.
    pub fn value(&self) -> (r: Option<u16>)
        ensures
            r == self@.value,
    {
        self.value
    }
}

/// A parameter that reads as one value reads as a list of that one value.
pub proof fn law_param_is_param_all(inv: InvocationView, id: Seq<char>)
    requires
        param_of(inv, id) is Some,
    ensures
        param_all_of(inv, id) == seq![param_of(inv, id)->0],
{
}

// ---------------------------------------------------------------------------
// Settings, permissions, signals
// ---------------------------------------------------------------------------

/// One thing an addon needs configuring once, rather than per key.
#[derive(Debug, Clone, Copy, PartialEq, Eq)]
pub struct AddonSetting {
    /// What to ask for.
    pub param: AddonParam,
    /// Whether this is a credential: kept in the OS credential store and
    /// **never sent back**.
    pub secret: bool,
}

/// Something an addon needs to be allowed to do.
///
/// Only [`Self::Credentials`] is enforced; the other three are declarations
/// shown to the user, and an ungranted addon is simply not started.
#[derive(Debug, Clone, Copy, PartialEq, Eq)]
#[non_exhaustive]
pub enum Permission {
    /// Reach a host over the network.
    Network {
        /// The host, as it appears in a URL.
        host: &'static str,
        /// Why, in a few words.
        reason: &'static str,
    },
    /// Read or write files under a path.
    Files {
        /// The directory or file.
        path: &'static str,
        /// Whether it writes, or only reads.
        write: bool,
        /// Why.
        reason: &'static str,
    },
    /// Start another program.
    Launch {
        /// What it starts.
        program: &'static str,
        /// Why.
        reason: &'static str,
    },
    /// Keep credentials of its own, in the OS credential store. The enforced one.
    Credentials {
        /// Why.
        reason: &'static str,
    },
}

/// Why a permission is asked for.
pub open spec fn permission_reason(p: Permission) -> Seq<char> {
    match p {
        Permission::Network { reason, .. } => reason@,
        Permission::Files { reason, .. } => reason@,
        Permission::Launch { reason, .. } => reason@,
        Permission::Credentials { reason } => reason@,
    }
}

impl Permission {
    /// Why the addon says it needs this.
    pub fn reason(&self) -> (r: &'static str)
        ensures
            r@ == permission_reason(*self),
    {
        match self {
            Permission::Network { reason, .. } => reason,
            Permission::Files { reason, .. } => reason,
            Permission::Launch { reason, .. } => reason,
            Permission::Credentials { reason } => reason,
        }
    }
}

/// A named boolean fact an addon publishes about its target.
#[derive(Debug, Clone, Copy, PartialEq, Eq)]
pub struct AddonSignal {
    /// Stable identifier, **unqualified** — `recording`, not `obs.recording`.
    pub id: &'static str,
    /// What to call it.
    pub name: &'static str,
    /// What *true* means, in a sentence.
    pub description: &'static str,
}

/// What an addon's signals read at one moment.
///
/// **Polled, not pushed**: a request/response call survives a process
/// boundary unchanged, and a callback does not.
#[derive(Debug, Clone, PartialEq, Eq)]
pub enum Reading {
    /// It looked, and these are the values.
    Values(Vec<(&'static str, bool)>),
    /// It could not look, and this is why: every signal it publishes then
    /// reads false, **and the reason is this sentence**.
    Unavailable(String),
}

/// The ids of a reading's values.
pub open spec fn reading_ids(vs: Seq<(&'static str, bool)>) -> Seq<Seq<char>> {
    vs.map_values(|v: (&'static str, bool)| v.0@)
}

impl Reading {
    /// A reading of nothing, from an addon that publishes no signals.
    pub fn none() -> (r: Reading)
        ensures
            r matches Reading::Values(vs) && vs@.len() == 0,
    {
        Reading::Values(Vec::new())
    }

    /// The value of one signal, if this reading carries it: the first value
    /// given under that id.
    pub fn get(&self, signal: &str) -> (r: Option<bool>)
        ensures
            self is Unavailable ==> r is None,
            self is Values ==> match r {
                Some(b) => exists|i: int|
                    first_at(reading_ids(self->Values_0@), signal@, i) && self->Values_0@[i].1 == b,
                None => absent(reading_ids(self->Values_0@), signal@),
            },
    {
        match self {
            Reading::Values(values) => {
                let mut i: usize = 0;
                while i < values.len()
                    invariant
                        self is Values,
                        self->Values_0@ == values@,
                        i <= values@.len(),
                        forall|j: int| 0 <= j < i ==> reading_ids(values@)[j] != signal@,
                    decreases values@.len() - i,
                {
                    if str_eq(values[i].0, signal) {
                        let b = values[i].1;
                        assert(first_at(reading_ids(values@), signal@, i as int));
                        return Some(b);
                    }
                    i = i + 1;
                }
                None
            },
            Reading::Unavailable(_) => None,
        }
    }
}

/// Whether an addon can act at the moment.
#[derive(Debug, Clone, PartialEq, Eq)]
pub enum Availability {
    /// It can.
    Ready,
    /// It cannot, and this is why, in words a user can act on.
    Unavailable(String),
}

/// Why performing an action failed.
#[derive(Debug, Clone, PartialEq, Eq)]
pub enum AddonError {
    /// No action by that name. Usually a binding saved against an older
    /// version of the addon.
    NoSuchAction(String),
    /// The addon could not act right now.
    Unavailable(String),
    /// It tried and something went wrong.
    Failed(String),
}

/// `e` says there is no action called `text`.
pub open spec fn is_no_such_action(e: AddonError, text: Seq<char>) -> bool {
    e matches AddonError::NoSuchAction(w) && w@ == text
}

/// `e` says the addon cannot act right now, for the reason `text`.
pub open spec fn is_unavailable(e: AddonError, text: Seq<char>) -> bool {
    e matches AddonError::Unavailable(w) && w@ == text
}

/// `e` says the addon tried and failed, for the reason `text`.
pub open spec fn is_failed(e: AddonError, text: Seq<char>) -> bool {
    e matches AddonError::Failed(w) && w@ == text
}

/// The sentence an error reads as.
pub open spec fn addon_error_text(e: AddonError) -> Seq<char> {
    match e {
        AddonError::NoSuchAction(a) => "no action called "@ + debug_text(a@),
        AddonError::Unavailable(why) => why@,
        AddonError::Failed(why) => why@,
    }
}

impl AddonError {
    /// The sentence this reads as. Both unavailable and failed render as
    /// their reason: the variants stay separate because callers distinguish
    /// them, but a reader wants the sentence, not the category.
    pub fn to_string(&self) -> (r: String)
        ensures
            r@ == addon_error_text(*self),
    {
        match self {
            AddonError::NoSuchAction(a) => {
                let quoted = debug_quoted(a.as_str());
                concat("no action called ", quoted.as_str())
            },
            AddonError::Unavailable(why) => why.clone(),
            AddonError::Failed(why) => why.clone(),
        }
    }
}

// ---------------------------------------------------------------------------
// The trait
// ---------------------------------------------------------------------------

/// Something that can act on another application's behalf.
///
/// Implementations are expected to be cheap to construct and to discover
/// their target lazily.
pub trait Addon: Send {
    /// Stable identifier, stored in bindings. Never rename one.
    fn id(&self) -> &'static str;

    /// What to call it.
    fn name(&self) -> &'static str;

    /// What it integrates, in a sentence.
    fn description(&self) -> &'static str;

    /// Everything it can be asked to do.
    fn actions(&self) -> &'static [AddonAction];

    /// Everything it *names* that the device does on its own. **`perform` is
    /// never called for one of these.** Defaulted to nothing.
    fn device_actions(&self) -> (r: &'static [DeviceAction])
        default_ensures
            r@.len() == 0,
    {
        &[]
    }

    /// Whether it could act right now. Quick, and allowed to be wrong a
    /// moment later.
    fn availability(&self) -> Availability;

    /// Do it. An error if the action is unknown, a required parameter is
    /// missing, the target is unavailable, or it failed.
    fn perform(&mut self, action: &str, invocation: &Invocation<'_>) -> Result<(), AddonError>;

    /// Whether an action is worth offering at the moment. Relevance, not
    /// permission: `perform` does not consult it. Defaulted to `true`.
    fn applies(&self, _action: &str) -> (r: bool)
        default_ensures
            r,
    {
        true
    }

    /// One line about what it is currently connected to. Defaulted to `None`.
    fn status(&self) -> (r: Option<String>)
        default_ensures
            r is None,
    {
        None
    }

    /// Every signal it publishes. Defaulted to none.
    fn signals(&self) -> (r: &'static [AddonSignal])
        default_ensures
            r@.len() == 0,
    {
        &[]
    }

    /// Everything it needs configuring once. Defaulted to nothing.
    fn settings(&self) -> (r: &'static [AddonSetting])
        default_ensures
            r@.len() == 0,
    {
        &[]
    }

    /// The inputs bound to one of its actions, **in device order**.
    /// Defaulted to ignoring it.
    fn bound_inputs(&mut self, _action: &str, _inputs: &[String]) {
    }

    /// Named lists its parameters can draw options from. Defaulted to none.
    fn choices(&self) -> (r: &'static [AddonChoices])
        default_ensures
            r@.len() == 0,
    {
        &[]
    }

    /// The current options for a live source, in the order to show them. An
    /// unknown id answers empty.
    fn live_choices(&mut self, _id: &str) -> (r: Vec<Choice>)
        default_ensures
            r@.len() == 0,
    {
        Vec::new()
    }

    /// Everything it needs to be *allowed* to do. Defaulted to nothing.
    fn permissions(&self) -> (r: &'static [Permission])
        default_ensures
            r@.len() == 0,
    {
        &[]
    }

    /// Take its settings, and a place to keep its own credentials. The
    /// handle is shared: an addon that needs it later keeps a clone of it.
    fn configure(&mut self, _values: &BTreeMap<String, String>, _credentials: &CredentialHandle) {
    }

    /// Read every signal it publishes, now. Never on the input path.
    fn read_signals(&mut self) -> (r: Reading)
        default_ensures
            r matches Reading::Values(vs) && vs@.len() == 0,
    {
        Reading::none()
    }
}

} // verus!
