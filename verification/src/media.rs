//! Transport control through the Windows media session.
//!
//! # Why this and not the Spotify Web API
//!
//! Spotify's Web API can do far more, and it needs a registered application,
//! an OAuth login per user, and a refresh token the daemon has to keep. None
//! of that works while the network is down. The media session Windows itself
//! uses for its overlay needs no account and no network, reports the track
//! that is actually playing, and works for whatever is playing rather than
//! only Spotify.
//!
//! # What is decided here, and what is done elsewhere
//!
//! Which actions exist, what an unknown one is answered, which session a key
//! aimed at one application controls, and the sentence each outcome reads as
//! are decided here. Reaching the media session is a call into the operating
//! system, made by the program that hosts the addon, which hands what came
//! back to these decisions. Where no media session is reachable the addon
//! says so, which is what [`MediaSession`] itself answers.

use vstd::prelude::*;

use crate::addon::{
    is_failed, is_no_such_action, is_unavailable, Addon, AddonAction, AddonError,
    AddonParam, AddonSignal, Availability, Invocation, ParamKind, Reading, Trigger,
};
use crate::text::{concat, str_eq};

pub mod platform;

verus! {

/// What every platform operation answers where there is no media session to
/// reach.
pub const NO_MEDIA_SESSION: &'static str = "media control needs Windows for now";

/// What the addon answers when the platform reports no session at all.
pub const NOTHING_PLAYING: &'static str =
    "Nothing is playing. Start Spotify, or anything else that reports to Windows.";

/// `p` aims a transport action at one application, or at whatever is
/// playing.
///
/// Optional, and absent is the useful default: "whatever is playing" is what
/// most people want from a play/pause key. Naming one keeps the key on *that*
/// application when a browser tab starts a video and takes the current session
/// away.
pub open spec fn is_media_target(p: AddonParam) -> bool {
    &&& p.id@ == "app"@
    &&& p.name@ == "Application"@
    &&& p.description@ == "Which application to control. Leave empty for whatever is playing."@
    &&& p.kind == ParamKind::App
    &&& !p.required
    &&& !p.multiple
    &&& p.choices is None
}

/// One transport action as declared: momentary, aimed by the target.
pub open spec fn is_transport_action(
    a: AddonAction,
    id: Seq<char>,
    name: Seq<char>,
    description: Seq<char>,
) -> bool {
    &&& a.id@ == id
    &&& a.name@ == name
    &&& a.description@ == description
    &&& a.trigger == Trigger::Momentary
    &&& a.params@.len() == 1
    &&& is_media_target(a.params@[0])
}

/// The four actions, as declared.
pub open spec fn is_media_actions(s: Seq<AddonAction>) -> bool {
    &&& s.len() == 4
    &&& is_transport_action(s[0], "play_pause"@, "Play / pause"@, "Toggles playback."@)
    &&& is_transport_action(s[1], "next"@, "Next track"@, "Skips forward."@)
    &&& is_transport_action(s[2], "previous"@, "Previous track"@, "Skips back."@)
    &&& is_transport_action(s[3], "stop"@, "Stop"@, "Stops playback."@)
}

/// The one signal, as declared.
pub open spec fn is_media_signals(s: Seq<AddonSignal>) -> bool {
    &&& s.len() == 1
    &&& s[0].id@ == "playing"@
    &&& s[0].name@ == "Playing"@
    &&& s[0].description@ == "Something is playing — any application Windows knows about."@
}

/// `action` is one of the four this addon declares.
pub open spec fn is_media_action(action: Seq<char>) -> bool {
    action == "play_pause"@ || action == "next"@ || action == "previous"@ || action == "stop"@
}

/// The four action ids are distinct, so a stored binding names one of them.
pub proof fn law_action_ids_are_distinct(actions: Seq<AddonAction>)
    requires
        is_media_actions(actions),
    ensures
        forall|i: int, j: int|
            0 <= i < j < actions.len() ==> (#[trigger] actions[i]).id@ != (#[trigger] actions[j]).id@,
{
    reveal_strlit("play_pause");
    reveal_strlit("next");
    reveal_strlit("previous");
    reveal_strlit("stop");
    assert forall|i: int, j: int| 0 <= i < j < actions.len() implies (#[trigger] actions[i]).id@
        != (#[trigger] actions[j]).id@ by {
        assert(i == 0 || i == 1 || i == 2);
        assert(j == 1 || j == 2 || j == 3);
        assert(actions[0].id@.len() == 10 && actions[1].id@.len() == 4);
        assert(actions[2].id@.len() == 8 && actions[3].id@.len() == 4);
        assert(actions[1].id@[0] != actions[3].id@[0]);
    }
}

/// The actions declared are exactly the ones [`is_media_action`] names.
pub proof fn law_declared_ids_are_the_known_actions(actions: Seq<AddonAction>, id: Seq<char>)
    requires
        is_media_actions(actions),
    ensures
        (exists|i: int| 0 <= i < actions.len() && (#[trigger] actions[i]).id@ == id)
            <==> is_media_action(id),
{
    if is_media_action(id) {
        if id == "play_pause"@ {
            assert(actions[0].id@ == id);
        } else if id == "next"@ {
            assert(actions[1].id@ == id);
        } else if id == "previous"@ {
            assert(actions[2].id@ == id);
        } else {
            assert(actions[3].id@ == id);
        }
    }
}

/// What is playing, if anything.
#[derive(Debug, Clone, PartialEq, Eq)]
pub struct NowPlaying {
    /// The application that owns the session, e.g. `Spotify.exe`.
    pub source: String,
    /// Track title, empty if the session does not report one.
    pub title: String,
    /// Artist, empty if unknown.
    pub artist: String,
    /// Whether it is playing rather than paused.
    pub playing: bool,
}

impl Default for NowPlaying {
    fn default() -> (r: NowPlaying)
        ensures
            r.source@.len() == 0,
            r.title@.len() == 0,
            r.artist@.len() == 0,
            !r.playing,
    {
        NowPlaying {
            source: String::new(),
            title: String::new(),
            artist: String::new(),
            playing: false,
        }
    }
}

/// Media transport control, through whatever Windows says is playing.
#[derive(Debug)]
pub struct MediaSession {
    _private: (),
}

impl MediaSession {
    /// The addon as it starts: it holds no state of its own.
    pub closed spec fn fresh() -> MediaSession {
        MediaSession { _private: () }
    }
}

impl Default for MediaSession {
    fn default() -> (r: MediaSession)
        ensures
            r == MediaSession::fresh(),
    {
        MediaSession { _private: () }
    }
}

impl MediaSession {
    /// A new addon. Does not touch the platform until asked.
    pub fn new() -> (r: MediaSession)
        ensures
            r == MediaSession::fresh(),
    {
        MediaSession { _private: () }
    }

    /// What is playing right now, if anything. Where no media session can be
    /// reached, nothing is.
    pub fn now_playing(&self) -> (r: Option<NowPlaying>)
        ensures
            r is None,
    {
        platform::now_playing(None)
    }

    /// What a named application is playing, if it is.
    ///
    /// `app` is an application identity as the foreground watcher reports it,
    /// such as `exe:spotify.exe`. Where no media session can be reached,
    /// nothing is.
    pub fn now_playing_for(&self, app: &str) -> (r: Option<NowPlaying>)
        ensures
            r is None,
    {
        platform::now_playing(Some(app))
    }
}

/// Whether one of the actions is declared under `id`.
fn declares(actions: &[AddonAction], id: &str) -> (r: bool)
    ensures
        r == exists|i: int| 0 <= i < actions@.len() && (#[trigger] actions@[i]).id@ == id@,
{
    let mut i: usize = 0;
    while i < actions.len()
        invariant
            i <= actions@.len(),
            forall|j: int| 0 <= j < i ==> (#[trigger] actions@[j]).id@ != id@,
        decreases actions@.len() - i,
    {
        if str_eq(actions[i].id, id) {
            return true;
        }
        i = i + 1;
    }
    false
}

impl Addon for MediaSession {
    fn id(&self) -> (r: &'static str)
        ensures
            r@ == "media"@,
    {
        "media"
    }

    fn name(&self) -> (r: &'static str)
        ensures
            r@ == "Media"@,
    {
        "Media"
    }

    fn description(&self) -> (r: &'static str)
        ensures
            r@
                == "Controls whatever is playing — Spotify, a browser tab, anything that registers with Windows. No account needed."@,
    {
        "Controls whatever is playing — Spotify, a browser tab, anything that registers with Windows. No account needed."
    }

    fn actions(&self) -> (r: &'static [AddonAction])
        ensures
            is_media_actions(r@),
    {
        &[
            AddonAction {
                id: "play_pause",
                name: "Play / pause",
                description: "Toggles playback.",
                trigger: Trigger::Momentary,
                params: &[
                    AddonParam {
                        id: "app",
                        name: "Application",
                        description: "Which application to control. Leave empty for whatever is playing.",
                        kind: ParamKind::App,
                        required: false,
                        multiple: false,
                        choices: None,
                    },
                ],
            },
            AddonAction {
                id: "next",
                name: "Next track",
                description: "Skips forward.",
                trigger: Trigger::Momentary,
                params: &[
                    AddonParam {
                        id: "app",
                        name: "Application",
                        description: "Which application to control. Leave empty for whatever is playing.",
                        kind: ParamKind::App,
                        required: false,
                        multiple: false,
                        choices: None,
                    },
                ],
            },
            AddonAction {
                id: "previous",
                name: "Previous track",
                description: "Skips back.",
                trigger: Trigger::Momentary,
                params: &[
                    AddonParam {
                        id: "app",
                        name: "Application",
                        description: "Which application to control. Leave empty for whatever is playing.",
                        kind: ParamKind::App,
                        required: false,
                        multiple: false,
                        choices: None,
                    },
                ],
            },
            AddonAction {
                id: "stop",
                name: "Stop",
                description: "Stops playback.",
                trigger: Trigger::Momentary,
                params: &[
                    AddonParam {
                        id: "app",
                        name: "Application",
                        description: "Which application to control. Leave empty for whatever is playing.",
                        kind: ParamKind::App,
                        required: false,
                        multiple: false,
                        choices: None,
                    },
                ],
            },
        ]
    }

    fn signals(&self) -> (r: &'static [AddonSignal])
        ensures
            is_media_signals(r@),
    {
        &[
            AddonSignal {
                id: "playing",
                name: "Playing",
                description: "Something is playing — any application Windows knows about.",
            },
        ]
    }

    fn availability(&self) -> (r: Availability)
        ensures
            r matches Availability::Unavailable(w) && w@ == NO_MEDIA_SESSION@,
    {
        platform::availability()
    }

    /// An unknown action is refused before the platform is touched: a binding
    /// saved against a newer version of this addon would otherwise reach the
    /// media session as a typo and fail with whatever the platform says.
    fn perform(&mut self, action: &str, invocation: &Invocation<'_>) -> (r: Result<(), AddonError>)
        ensures
            !is_media_action(action@) ==> (r matches Err(e) && is_no_such_action(e, action@)),
            is_media_action(action@) ==> (r matches Err(e) && is_unavailable(e, NO_MEDIA_SESSION@)),
    {
        let actions = self.actions();
        if !declares(actions, action) {
            proof {
                assert(actions@[0].id@ == "play_pause"@);
                assert(actions@[1].id@ == "next"@);
                assert(actions@[2].id@ == "previous"@);
                assert(actions@[3].id@ == "stop"@);
            }
            return Err(AddonError::NoSuchAction(action.to_owned()));
        }
        platform::perform(action, invocation.param("app"))
    }

    fn read_signals(&mut self) -> (r: Reading)
        ensures
            r matches Reading::Unavailable(w) && w@ == "nothing is playing"@,
    {
        media_reading(platform::now_playing(None))
    }
}

// ---------------------------------------------------------------------------
// Decisions the media session's answers are handed to
// ---------------------------------------------------------------------------

/// What the signals read, given what is playing.
pub fn media_reading(now: Option<NowPlaying>) -> (r: Reading)
    ensures
        match now {
            Some(n) => r matches Reading::Values(vs) && vs@.len() == 1 && vs@[0].0@ == "playing"@
                && vs@[0].1 == n.playing,
            None => r matches Reading::Unavailable(w) && w@ == "nothing is playing"@,
        },
{
    match now {
        Some(n) => {
            let mut values: Vec<(&'static str, bool)> = Vec::new();
            values.push(("playing", n.playing));
            Reading::Values(values)
        },
        None => Reading::Unavailable("nothing is playing".to_owned()),
    }
}

/// What a text the session may not have reported reads as: itself, or empty.
pub open spec fn or_empty(text: Option<String>) -> Seq<char> {
    match text {
        Some(t) => t@,
        None => Seq::empty(),
    }
}

/// What is playing, from what the session reported of it. A text it did not
/// report reads as empty, and it counts as playing only when its playback
/// state was read and is *playing*: a state that cannot be read is not one.
pub fn now_playing_from(
    source: Option<String>,
    title: Option<String>,
    artist: Option<String>,
    playing: Option<bool>,
) -> (r: NowPlaying)
    ensures
        r.source@ == or_empty(source),
        r.title@ == or_empty(title),
        r.artist@ == or_empty(artist),
        r.playing == (playing == Some(true)),
{
    NowPlaying {
        source: or_new(source),
        title: or_new(title),
        artist: or_new(artist),
        playing: match playing {
            Some(p) => p,
            None => false,
        },
    }
}

/// The text, or a new empty one.
fn or_new(text: Option<String>) -> (r: String)
    ensures
        r@ == or_empty(text),
{
    match text {
        Some(t) => t,
        None => String::new(),
    }
}

/// Whether the addon can act, given whether the platform reports a session.
pub fn media_availability(found: bool) -> (r: Availability)
    ensures
        found ==> r is Ready,
        !found ==> (r matches Availability::Unavailable(w) && w@ == NOTHING_PLAYING@),
{
    if found {
        Availability::Ready
    } else {
        Availability::Unavailable(NOTHING_PLAYING.to_owned())
    }
}

/// The failure when the session a key meant is not there. It names the
/// application when one was asked for: "nothing is playing" is a confusing
/// thing to read when Spotify is plainly open and the key was bound to Chrome.
pub fn no_session(target: Option<&str>) -> (r: AddonError)
    ensures
        match target {
            Some(app) => is_unavailable(r, app@ + " is not playing anything Nobble can control"@),
            None => is_unavailable(r, "nothing is playing for Nobble to control"@),
        },
{
    match target {
        Some(app) => AddonError::Unavailable(concat(app, " is not playing anything Nobble can control")),
        None => AddonError::Unavailable("nothing is playing for Nobble to control".to_owned()),
    }
}

/// One request to the media session.
#[derive(Debug, Clone, Copy, PartialEq, Eq)]
pub enum Transport {
    /// Toggle between playing and paused.
    PlayPause,
    /// Skip forward.
    Next,
    /// Skip back.
    Previous,
    /// Stop.
    Stop,
}

/// Which request an action makes of the media session; an unknown action is
/// refused.
pub fn transport_for(action: &str) -> (r: Result<Transport, AddonError>)
    ensures
        action@ == "play_pause"@ ==> r == Ok::<Transport, AddonError>(Transport::PlayPause),
        action@ == "next"@ ==> r == Ok::<Transport, AddonError>(Transport::Next),
        action@ == "previous"@ ==> r == Ok::<Transport, AddonError>(Transport::Previous),
        action@ == "stop"@ ==> r == Ok::<Transport, AddonError>(Transport::Stop),
        !is_media_action(action@) ==> (r matches Err(e) && is_no_such_action(e, action@)),
{
    proof {
        reveal_strlit("play_pause");
        reveal_strlit("next");
        reveal_strlit("previous");
        reveal_strlit("stop");
        assert("play_pause"@.len() == 10 && "next"@.len() == 4 && "previous"@.len() == 8);
        assert("stop"@.len() == 4 && "next"@[0] != "stop"@[0]);
    }
    if str_eq(action, "play_pause") {
        Ok(Transport::PlayPause)
    } else if str_eq(action, "next") {
        Ok(Transport::Next)
    } else if str_eq(action, "previous") {
        Ok(Transport::Previous)
    } else if str_eq(action, "stop") {
        Ok(Transport::Stop)
    } else {
        Err(AddonError::NoSuchAction(action.to_owned()))
    }
}

/// The sentence for a session that declined a request.
pub open spec fn refused_text(action: Seq<char>) -> Seq<char> {
    "the application playing refused "@ + action
}

/// How a request went, given whether the session accepted it or what the
/// platform reported instead. A `false` is not an error from the platform's
/// point of view but it is one from the user's: the key did nothing.
pub fn transport_outcome(action: &str, accepted: Result<bool, String>) -> (r: Result<(), AddonError>)
    ensures
        accepted == Ok::<bool, String>(true) ==> r is Ok,
        accepted == Ok::<bool, String>(false) ==> (r matches Err(e) && is_failed(
            e,
            refused_text(action@),
        )),
        accepted matches Err(m) ==> (r matches Err(e) && is_failed(e, m@)),
{
    match accepted {
        Ok(true) => Ok(()),
        Ok(false) => Err(AddonError::Failed(concat("the application playing refused ", action))),
        Err(m) => Err(AddonError::Failed(m)),
    }
}

} // verus!
