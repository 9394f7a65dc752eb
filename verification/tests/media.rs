use nobble_addon_sdk::media::{
    media_availability, media_reading, no_session, now_playing_from, transport_for,
    transport_outcome, Transport,
};
use nobble_addon_sdk::run::describe;
use nobble_addon_sdk::{
    Addon, AddonError, Availability, Invocation, MediaSession, NowPlaying, ParamKind, ParamValue,
    Params, Reading, Trigger,
};

#[test]
fn every_action_has_a_stable_id_and_something_to_read() {
    for a in MediaSession::new().actions() {
        assert!(!a.id.is_empty());
        assert!(!a.name.is_empty());
        assert!(!a.description.is_empty());
        assert!(
            a.id.chars().all(|c| c.is_ascii_lowercase() || c == '_'),
            "{:?} should be a stable snake_case id",
            a.id
        );
    }
}

#[test]
fn ids_are_unique() {
    let mut seen: Vec<&str> = Vec::new();
    for a in MediaSession::new().actions() {
        assert!(!seen.contains(&a.id), "duplicate action id {:?}", a.id);
        seen.push(a.id);
    }
}

#[test]
fn an_unknown_action_is_refused_before_the_platform_is_touched() {
    let mut addon = MediaSession::new();
    match addon.perform("teleport", &Invocation::bare()) {
        Err(AddonError::NoSuchAction(a)) => assert_eq!(a, "teleport"),
        other => panic!("expected NoSuchAction, got {other:?}"),
    }
}

#[test]
fn every_action_takes_an_optional_target() {
    for a in MediaSession::new().actions() {
        let target = a.param("app").expect("every action can be aimed");
        assert!(!target.required);
        assert_eq!(target.kind, ParamKind::App);
        assert_eq!(a.trigger, Trigger::Momentary);
    }
}

#[test]
fn without_a_media_session_every_known_action_says_so() {
    let mut addon = MediaSession::default();
    let unavailable = Err(AddonError::Unavailable("media control needs Windows for now".to_owned()));
    let mut p = Params::new();
    p.insert("app".to_owned(), ParamValue::One("exe:spotify.exe".to_owned()));
    for id in ["play_pause", "next", "previous", "stop"] {
        assert_eq!(addon.perform(id, &Invocation::press(&p)), unavailable, "{id}");
    }
    assert_eq!(
        addon.availability(),
        Availability::Unavailable("media control needs Windows for now".to_owned())
    );
    assert_eq!(addon.now_playing(), None);
    assert_eq!(addon.now_playing_for("exe:spotify.exe"), None);
    assert_eq!(addon.read_signals(), Reading::Unavailable("nothing is playing".to_owned()));
}

#[test]
fn the_media_addon_describes_itself() {
    let d = describe(&MediaSession::new());
    assert_eq!(d.id, "media");
    assert_eq!(d.name, "Media");
    let ids: Vec<&str> = d.actions.iter().map(|a| a.id.as_str()).collect();
    assert_eq!(ids, vec!["play_pause", "next", "previous", "stop"]);
    assert!(d.actions.iter().all(|a| a.trigger == "momentary" && a.params.len() == 1));
    assert_eq!(d.signals.len(), 1);
    assert_eq!(d.signals[0].id, "playing");
    assert!(d.device_actions.is_empty());
}

// ---------------------------------------------------------------------------
// Decisions on the media session's answers
// ---------------------------------------------------------------------------

#[test]
fn the_playing_signal_follows_the_session() {
    let playing = NowPlaying {
        source: "Spotify.exe".to_owned(),
        title: "A Song".to_owned(),
        artist: "Someone".to_owned(),
        playing: true,
    };
    assert_eq!(media_reading(Some(playing.clone())), Reading::Values(vec![("playing", true)]));
    let paused = NowPlaying { playing: false, ..playing };
    assert_eq!(media_reading(Some(paused)), Reading::Values(vec![("playing", false)]));
    assert_eq!(media_reading(None), Reading::Unavailable("nothing is playing".to_owned()));
    let blank = NowPlaying::default();
    assert_eq!((blank.source.as_str(), blank.playing), ("", false));
}

#[test]
fn a_missing_session_names_the_application_asked_for() {
    assert_eq!(
        no_session(Some("exe:chrome.exe")),
        AddonError::Unavailable("exe:chrome.exe is not playing anything Nobble can control".to_owned())
    );
    assert_eq!(
        no_session(None),
        AddonError::Unavailable("nothing is playing for Nobble to control".to_owned())
    );
    assert_eq!(media_availability(true), Availability::Ready);
    assert_eq!(
        media_availability(false),
        Availability::Unavailable(
            "Nothing is playing. Start Spotify, or anything else that reports to Windows.".to_owned()
        )
    );
}

#[test]
fn each_action_is_one_request_and_an_unknown_one_none() {
    assert_eq!(transport_for("play_pause"), Ok(Transport::PlayPause));
    assert_eq!(transport_for("next"), Ok(Transport::Next));
    assert_eq!(transport_for("previous"), Ok(Transport::Previous));
    assert_eq!(transport_for("stop"), Ok(Transport::Stop));
    assert_eq!(transport_for("Stop"), Err(AddonError::NoSuchAction("Stop".to_owned())));
}

#[test]
fn a_declined_request_is_a_failure_the_user_reads() {
    assert_eq!(transport_outcome("next", Ok(true)), Ok(()));
    assert_eq!(
        transport_outcome("next", Ok(false)),
        Err(AddonError::Failed("the application playing refused next".to_owned()))
    );
    assert_eq!(
        transport_outcome("stop", Err("RPC server unavailable".to_owned())),
        Err(AddonError::Failed("RPC server unavailable".to_owned()))
    );
}

#[test]
fn what_the_session_did_not_report_reads_as_empty_and_not_playing() {
    let n = now_playing_from(Some("Spotify.exe".to_owned()), None, Some("Someone".to_owned()), Some(true));
    assert_eq!(
        n,
        NowPlaying {
            source: "Spotify.exe".to_owned(),
            title: String::new(),
            artist: "Someone".to_owned(),
            playing: true,
        }
    );
    assert!(!now_playing_from(None, None, None, Some(false)).playing);
    assert!(!now_playing_from(None, None, None, None).playing);
}
