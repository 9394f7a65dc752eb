use nobble_addon_sdk::addon::{AddonAction, AddonParam};
use nobble_addon_sdk::{
    app_matches, first_match, AddonError, Choice, DeviceKeystroke, Invocation, ParamKind,
    ParamValue, Params, Permission, Reading, Trigger,
};

#[test]
fn a_trigger_survives_its_own_spelling() {
    for t in [Trigger::Momentary, Trigger::Continuous] {
        assert_eq!(Trigger::from_wire(t.as_wire()), Some(t), "{t:?}");
    }
    assert_eq!(Trigger::from_wire("Continuous"), None, "case matters");
    assert_eq!(Trigger::from_wire(""), None);
}

#[test]
fn the_trigger_tokens_are_these_two() {
    assert_eq!(Trigger::Momentary.as_wire(), "momentary");
    assert_eq!(Trigger::Continuous.as_wire(), "continuous");
}

#[test]
fn a_param_kind_survives_its_own_spelling() {
    for k in [ParamKind::Text, ParamKind::App] {
        assert_eq!(ParamKind::from_wire(k.as_wire()), Some(k), "{k:?}");
    }
    assert_eq!(ParamKind::from_wire("colour"), None);
}

#[test]
fn the_param_kind_tokens_are_these_two() {
    assert_eq!(ParamKind::Text.as_wire(), "text");
    assert_eq!(ParamKind::App.as_wire(), "app");
}

#[test]
fn an_application_matches_whichever_form_each_side_is_in() {
    assert!(app_matches("Spotify.exe", "exe:spotify.exe"));
    assert!(app_matches(
        "SpotifyAB.SpotifyMusic_zpdnekdrzrea0!Spotify",
        "exe:spotify.exe"
    ));
    assert!(app_matches("Spotify.exe", "spotify"));
    assert!(app_matches("chrome.exe", "exe:Chrome.exe"));
}

#[test]
fn a_different_application_does_not_match() {
    assert!(!app_matches("chrome.exe", "exe:spotify.exe"));
    assert!(!app_matches("Spotify.exe", "exe:firefox.exe"));
}

#[test]
fn an_empty_target_matches_nothing_rather_than_everything() {
    assert!(!app_matches("Spotify.exe", ""));
    assert!(!app_matches("Spotify.exe", "exe:"));
}

// ---------------------------------------------------------------------------
// Matching an application
// ---------------------------------------------------------------------------

#[test]
fn matching_ignores_the_case_of_what_the_platform_reports() {
    assert!(app_matches("SPOTIFY.EXE", "exe:spotify.exe"));
    assert!(app_matches("spotify.exe", "exe:SPOTIFY.EXE"));
}

#[test]
fn the_lower_case_suffix_is_trimmed_before_the_upper_case_one() {
    assert!(app_matches("Spotify", "exe:spotify.exe.exe"));
    assert!(app_matches("Spotify", "exe:spotify.EXE.EXE"));
    assert!(app_matches("Spotify", "exe:spotify.EXE.exe"));
    assert!(!app_matches("Spotify", "exe:spotify.exe.EXE"));
    assert!(app_matches("Spotify.exe", "exe:spotify.exe.EXE"));
    assert!(!app_matches("Spotify", "exe:.exe"));
    assert!(app_matches("Spotify", "a:b:spotify"));
}

#[test]
fn the_first_matching_session_is_the_one_controlled() {
    let reported = vec![
        "chrome.exe".to_owned(),
        "Spotify.exe".to_owned(),
        "SpotifyAB.SpotifyMusic!Spotify".to_owned(),
    ];
    assert_eq!(first_match(&reported, "exe:spotify.exe"), Some(1));
    assert_eq!(first_match(&reported, "exe:chrome.exe"), Some(0));
    assert_eq!(first_match(&reported, "exe:firefox.exe"), None);
    assert_eq!(first_match(&reported, ""), None);
    assert_eq!(first_match(&[], "spotify"), None);
}

// ---------------------------------------------------------------------------
// Parameter values and parameter maps
// ---------------------------------------------------------------------------

#[test]
fn a_single_value_is_its_own_only_value() {
    let v = ParamValue::One("exe:spotify.exe".to_owned());
    assert_eq!(v.one(), Some("exe:spotify.exe"));
    assert_eq!(v.all(), vec!["exe:spotify.exe"]);
}

#[test]
fn an_empty_single_value_is_no_value() {
    let v = ParamValue::One(String::new());
    assert_eq!(v.one(), None);
    assert!(v.all().is_empty());
}

#[test]
fn a_list_is_not_a_single_value_and_drops_its_blanks() {
    let v = ParamValue::Many(vec![
        String::new(),
        "exe:discord.exe".to_owned(),
        String::new(),
        "exe:obs64.exe".to_owned(),
    ]);
    assert_eq!(v.one(), None);
    assert_eq!(v.all(), vec!["exe:discord.exe", "exe:obs64.exe"]);
    assert_eq!(ParamValue::Many(vec!["only".to_owned()]).one(), None);
}

#[test]
fn inserting_a_parameter_replaces_the_old_value_and_returns_it() {
    let mut p = Params::new();
    assert!(p.is_empty());
    assert_eq!(p.insert("app".to_owned(), ParamValue::One("a".to_owned())), None);
    assert_eq!(p.insert("zone".to_owned(), ParamValue::One("z".to_owned())), None);
    assert_eq!(
        p.insert("app".to_owned(), ParamValue::One("b".to_owned())),
        Some(ParamValue::One("a".to_owned()))
    );
    assert_eq!(p.len(), 2);
    assert_eq!(p.get("app"), Some(&ParamValue::One("b".to_owned())));
    assert_eq!(p.get("zone"), Some(&ParamValue::One("z".to_owned())));
    assert_eq!(p.get("missing"), None);
}

#[test]
fn parameters_are_kept_in_key_order() {
    let mut p = Params::new();
    p.insert("zone".to_owned(), ParamValue::One("z".to_owned()));
    p.insert("app".to_owned(), ParamValue::One("a".to_owned()));
    p.insert("mode".to_owned(), ParamValue::One("m".to_owned()));
    let keys: Vec<&str> = p.entries().iter().map(|(k, _)| k.as_str()).collect();
    assert_eq!(keys, vec!["app", "mode", "zone"]);
}

#[test]
fn a_cloned_parameter_map_reads_the_same() {
    let mut p = Params::new();
    p.insert("apps".to_owned(), ParamValue::Many(vec!["x".to_owned()]));
    let q = p.clone();
    assert_eq!(q, p);
    assert_eq!(ParamValue::One("v".to_owned()).clone(), ParamValue::One("v".to_owned()));
}

// ---------------------------------------------------------------------------
// Invocations
// ---------------------------------------------------------------------------

#[test]
fn a_bare_invocation_carries_nothing() {
    let i = Invocation::bare();
    assert_eq!(i.value(), None);
    assert_eq!(i.input(), None);
    assert_eq!(i.param("app"), None);
    assert!(i.param_all("apps").is_empty());
    assert!(i.params().is_empty());
    assert!(i.raw_params().is_empty());
}

#[test]
fn a_press_reads_its_parameters_and_a_move_its_position() {
    let mut p = Params::new();
    p.insert("app".to_owned(), ParamValue::One("exe:spotify.exe".to_owned()));
    p.insert(
        "apps".to_owned(),
        ParamValue::Many(vec!["exe:discord.exe".to_owned(), "exe:obs64.exe".to_owned()]),
    );
    let press = Invocation::press(&p);
    assert_eq!(press.value(), None);
    assert_eq!(press.param("app"), Some("exe:spotify.exe"));
    assert_eq!(press.param("apps"), None);
    assert_eq!(press.param_all("app"), vec!["exe:spotify.exe"]);
    assert_eq!(press.param_all("apps"), vec!["exe:discord.exe", "exe:obs64.exe"]);
    assert_eq!(press.raw_params().len(), 2);

    let moved = Invocation::moved(&p, 8192).from("fader:1");
    assert_eq!(moved.value(), Some(8192));
    assert_eq!(moved.input(), Some("fader:1"));
    assert_eq!(moved.param("app"), Some("exe:spotify.exe"));
}

#[test]
fn a_list_parameter_is_rendered_joined_for_a_reader() {
    let mut p = Params::new();
    p.insert("app".to_owned(), ParamValue::One("exe:spotify.exe".to_owned()));
    p.insert(
        "apps".to_owned(),
        ParamValue::Many(vec!["a".to_owned(), "b".to_owned()]),
    );
    let i = Invocation::press(&p);
    assert_eq!(
        i.params(),
        vec![("app", "exe:spotify.exe".to_owned()), ("apps", "a, b".to_owned())]
    );
}

// ---------------------------------------------------------------------------
// Declarations
// ---------------------------------------------------------------------------

const TARGETED: AddonAction = AddonAction {
    id: "wave",
    name: "Wave",
    description: "Says hello.",
    trigger: Trigger::Momentary,
    params: &[
        AddonParam {
            id: "app",
            name: "Application",
            description: "Who to wave at.",
            kind: ParamKind::App,
            required: false,
            multiple: false,
            choices: None,
        },
        AddonParam {
            id: "app",
            name: "Second",
            description: "Shadowed by the first.",
            kind: ParamKind::Text,
            required: true,
            multiple: false,
            choices: None,
        },
    ],
};

#[test]
fn an_action_finds_its_first_parameter_by_id() {
    let p = TARGETED.param("app").expect("declared");
    assert_eq!(p.name, "Application");
    assert!(TARGETED.param("nothing").is_none());
}

#[test]
fn the_base_parameter_is_optional_text_with_nothing_declared() {
    let b = AddonParam::base();
    assert_eq!(b.id, "");
    assert_eq!(b.kind, ParamKind::Text);
    assert!(!b.required);
    assert!(!b.multiple);
    assert_eq!(b.choices, None);
}

#[test]
fn a_choice_carries_what_it_was_given() {
    let c = Choice::new("1".to_owned(), "One".to_owned());
    assert_eq!((c.value.as_str(), c.label.as_str(), c.detail.as_str()), ("1", "One", ""));
    let d = Choice::detailed("2".to_owned(), "Two".to_owned(), "the second".to_owned());
    assert_eq!(d.detail, "the second");
}

#[test]
fn every_permission_says_why() {
    let ps = [
        Permission::Network { host: "api.example.com", reason: "to reach it" },
        Permission::Files { path: "/tmp", write: true, reason: "to keep a cache" },
        Permission::Launch { program: "obs64.exe", reason: "to start it" },
        Permission::Credentials { reason: "to stay signed in" },
    ];
    let reasons: Vec<&str> = ps.iter().map(|p| p.reason()).collect();
    assert_eq!(
        reasons,
        vec!["to reach it", "to keep a cache", "to start it", "to stay signed in"]
    );
}

#[test]
fn a_keystroke_is_compared_field_by_field() {
    let a = DeviceKeystroke::Tap { key: 0x68, ctrl: false, shift: false, alt: false, gui: false };
    assert_ne!(a, DeviceKeystroke::Consumer { usage: 0xCD });
}

// ---------------------------------------------------------------------------
// Readings and errors
// ---------------------------------------------------------------------------

#[test]
fn a_reading_gives_the_first_value_under_an_id() {
    let r = Reading::Values(vec![("recording", true), ("live", false), ("recording", false)]);
    assert_eq!(r.get("recording"), Some(true));
    assert_eq!(r.get("live"), Some(false));
    assert_eq!(r.get("paused"), None);
    assert_eq!(Reading::Unavailable("offline".to_owned()).get("recording"), None);
    assert_eq!(Reading::none(), Reading::Values(vec![]));
}

#[test]
fn an_error_reads_as_a_sentence() {
    assert_eq!(
        AddonError::NoSuchAction("teleport".to_owned()).to_string(),
        "no action called \"teleport\""
    );
    assert_eq!(
        AddonError::NoSuchAction("say \"hi\"".to_owned()).to_string(),
        "no action called \"say \\\"hi\\\"\""
    );
    assert_eq!(AddonError::Unavailable("offline".to_owned()).to_string(), "offline");
    assert_eq!(AddonError::Failed("it broke".to_owned()).to_string(), "it broke");
}
