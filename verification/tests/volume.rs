use nobble_addon_sdk::run::describe;
use nobble_addon_sdk::volume::{
    deafen_missed, flip_target, microphone_missed, no_microphone, no_playback_device,
    playback_availability, session_missing, silence_outcome, VolumeCommand, DEAFEN_DEFAULT,
};
use nobble_addon_sdk::{
    Addon, AddonError, Availability, DeviceKeystroke, Invocation, ParamKind, ParamValue, Params,
    Trigger, Volume,
};

#[test]
fn setting_the_volume_wants_a_fader_and_muting_wants_a_key() {
    let actions = Volume::new().actions();
    let set = actions.iter().find(|a| a.id == "set").unwrap();
    let mute = actions.iter().find(|a| a.id == "mute").unwrap();
    assert_eq!(set.trigger, Trigger::Continuous);
    assert_eq!(mute.trigger, Trigger::Momentary);
}

#[test]
fn the_target_is_optional_so_the_system_slider_is_the_default() {
    for a in Volume::new().actions() {
        let target = a
            .params
            .iter()
            .find(|p| p.kind == ParamKind::App)
            .unwrap_or_else(|| panic!("{} cannot be aimed at anything", a.id));
        assert!(!target.required, "{} does nothing until it is configured", a.id);
    }
}

#[test]
fn silencing_takes_several_applications_and_moving_a_slider_takes_one() {
    let actions = Volume::new().actions();
    for id in ["mute_microphone", "deafen"] {
        let action = actions.iter().find(|a| a.id == id).expect(id);
        assert!(action.param("apps").expect("apps").multiple, "{id} must accept a list");
    }
    assert!(
        !actions
            .iter()
            .find(|a| a.id == "set")
            .expect("set")
            .param("app")
            .expect("app")
            .multiple
    );
}

#[test]
fn every_action_is_triggered_by_the_kind_of_input_that_suits_it() {
    let actions = Volume::new().actions();
    for id in ["mute_microphone", "deafen"] {
        let action = actions.iter().find(|a| a.id == id).expect(id);
        assert_eq!(action.trigger, Trigger::Momentary, "{id}");
    }
}

#[test]
fn deafen_names_its_default_where_a_user_will_read_it() {
    let actions = Volume::new().actions();
    let deafen = actions.iter().find(|a| a.id == "deafen").expect("deafen");
    let apps = deafen.param("apps").expect("apps");
    assert!(
        apps.description.to_lowercase().contains(DEAFEN_DEFAULT),
        "the default target is not stated: {}",
        apps.description
    );
}

#[test]
fn the_device_resolved_pair_admits_it_needs_a_step_elsewhere() {
    let device_actions = Volume::new().device_actions();
    assert_eq!(device_actions.len(), 2);
    for action in device_actions {
        let note = action
            .prerequisite
            .unwrap_or_else(|| panic!("{} claims to need nothing", action.id));
        assert!(note.contains("Keybinds"), "{} does not say where to go: {note}", action.id);
    }
}

#[test]
fn the_suggested_keys_collide_with_nothing_and_carry_no_modifiers() {
    let keys: Vec<u8> = Volume::new()
        .device_actions()
        .iter()
        .map(|a| match a.keystroke {
            DeviceKeystroke::Tap { key, ctrl, shift, alt, gui } => {
                assert!(!ctrl && !shift && !alt && !gui, "{} holds a modifier", a.id);
                key
            }
            DeviceKeystroke::Consumer { .. } => {
                panic!("{} is not a media key", a.id)
            }
        })
        .collect();
    assert_eq!(keys, vec![0x68, 0x69], "F13 and F14");
}

#[test]
fn a_device_action_never_shares_an_id_with_one_the_daemon_performs() {
    let addon = Volume::new();
    for device in addon.device_actions() {
        assert!(
            !addon.actions().iter().any(|a| a.id == device.id),
            "{} is declared twice",
            device.id
        );
    }
}

#[test]
fn an_unknown_action_is_refused() {
    let mut addon = Volume::new();
    assert!(matches!(
        addon.perform("teleport", &Invocation::bare()),
        Err(AddonError::NoSuchAction(_))
    ));
}

// ---------------------------------------------------------------------------
// What each action means
// ---------------------------------------------------------------------------

fn with(id: &str, value: ParamValue) -> Params {
    let mut p = Params::new();
    p.insert(id.to_owned(), value);
    p
}

#[test]
fn a_fader_moves_the_named_slider_to_its_position() {
    let addon = Volume::new();
    let p = with("app", ParamValue::One("exe:spotify.exe".to_owned()));
    assert_eq!(
        addon.plan("set", &Invocation::moved(&p, 4096)),
        Ok(VolumeCommand::SetLevel { app: Some("exe:spotify.exe".to_owned()), position: 4096 })
    );
    assert_eq!(
        addon.plan("set", &Invocation::moved(&Params::new(), 0)),
        Ok(VolumeCommand::SetLevel { app: None, position: 0 })
    );
}

#[test]
fn a_fader_action_with_no_position_is_refused_in_words() {
    let mut addon = Volume::new();
    let expected = Err(AddonError::Failed("setting the volume needs a fader position".to_owned()));
    assert_eq!(addon.plan("set", &Invocation::bare()).map(|_| ()), expected);
    assert_eq!(addon.perform("set", &Invocation::bare()), expected);
}

#[test]
fn mute_aims_at_the_named_application_or_the_system() {
    let addon = Volume::new();
    let p = with("app", ParamValue::One("exe:chrome.exe".to_owned()));
    assert_eq!(
        addon.plan("mute", &Invocation::press(&p)),
        Ok(VolumeCommand::ToggleMute { app: Some("exe:chrome.exe".to_owned()) })
    );
    assert_eq!(
        addon.plan("mute", &Invocation::bare()),
        Ok(VolumeCommand::ToggleMute { app: None })
    );
}

#[test]
fn the_microphone_goes_from_the_named_applications_or_from_everything() {
    let addon = Volume::new();
    let p = with(
        "apps",
        ParamValue::Many(vec!["exe:discord.exe".to_owned(), String::new(), "exe:obs64.exe".to_owned()]),
    );
    assert_eq!(
        addon.plan("mute_microphone", &Invocation::press(&p)),
        Ok(VolumeCommand::ToggleMicrophone {
            apps: vec!["exe:discord.exe".to_owned(), "exe:obs64.exe".to_owned()]
        })
    );
    assert_eq!(
        addon.plan("mute_microphone", &Invocation::bare()),
        Ok(VolumeCommand::ToggleMicrophone { apps: vec![] })
    );
}

#[test]
fn deafen_aims_at_discord_unless_told_otherwise() {
    let addon = Volume::new();
    assert_eq!(
        addon.plan("deafen", &Invocation::bare()),
        Ok(VolumeCommand::ToggleDeafen { apps: vec!["discord".to_owned()] })
    );
    let p = with("apps", ParamValue::One("exe:teams.exe".to_owned()));
    assert_eq!(
        addon.plan("deafen", &Invocation::press(&p)),
        Ok(VolumeCommand::ToggleDeafen { apps: vec!["exe:teams.exe".to_owned()] })
    );
}

#[test]
fn without_a_mixer_every_known_action_says_so() {
    let mut addon = Volume::default();
    let unavailable = Err(AddonError::Unavailable("volume control needs Windows for now".to_owned()));
    let p = Params::new();
    assert_eq!(addon.perform("set", &Invocation::moved(&p, 100)), unavailable);
    assert_eq!(addon.perform("mute", &Invocation::bare()), unavailable);
    assert_eq!(addon.perform("mute_microphone", &Invocation::bare()), unavailable);
    assert_eq!(addon.perform("deafen", &Invocation::bare()), unavailable);
    assert_eq!(
        addon.availability(),
        Availability::Unavailable("volume control needs Windows for now".to_owned())
    );
}

#[test]
fn the_volume_addon_describes_itself() {
    let d = describe(&Volume::new());
    assert_eq!(d.id, "volume");
    assert_eq!(d.name, "Volume");
    let ids: Vec<&str> = d.actions.iter().map(|a| a.id.as_str()).collect();
    assert_eq!(ids, vec!["set", "mute", "mute_microphone", "deafen"]);
    assert_eq!(d.actions[0].trigger, "continuous");
    assert_eq!(d.actions[2].params[0].kind, "app");
    assert!(d.actions[2].params[0].multiple);
    assert_eq!(d.device_actions.len(), 2);
}

// ---------------------------------------------------------------------------
// Decisions on the mixer's answers
// ---------------------------------------------------------------------------

#[test]
fn a_set_is_muted_only_when_all_of_it_is() {
    assert!(!flip_target(&[true, true]));
    assert!(flip_target(&[true, false]));
    assert!(flip_target(&[false, false]));
    assert!(!flip_target(&[]));
}

#[test]
fn pressing_twice_moves_the_set_back() {
    let before = [true, false, true];
    let first = flip_target(&before);
    assert!(first);
    let after = [first; 3];
    assert!(!flip_target(&after));
}

#[test]
fn silencing_reports_who_had_nothing_to_silence() {
    assert_eq!(silence_outcome(&[]), Ok(()));
    assert_eq!(
        silence_outcome(&["discord".to_owned(), "exe:obs64.exe".to_owned()]),
        Err(AddonError::Unavailable(
            "no audio session to silence for discord, exe:obs64.exe — an application only has one while it is actually using the microphone or playing sound".to_owned()
        ))
    );
}

#[test]
fn the_missed_applications_are_those_with_no_session_to_move() {
    let apps = vec!["a".to_owned(), "b".to_owned(), "c".to_owned()];
    assert_eq!(microphone_missed(&apps, &[true, false, false]), vec!["b".to_owned(), "c".to_owned()]);
    assert_eq!(
        deafen_missed(&apps, &[true, false, false], &[false, true, false]),
        vec!["c".to_owned()]
    );
    assert!(deafen_missed(&[], &[], &[]).is_empty());
}

#[test]
fn each_missing_device_reads_as_a_sentence() {
    assert_eq!(
        session_missing("exe:spotify.exe"),
        AddonError::Unavailable("exe:spotify.exe is not playing audio".to_owned())
    );
    assert_eq!(
        no_playback_device(),
        AddonError::Unavailable("Windows is not reporting a playback device".to_owned())
    );
    assert_eq!(
        no_microphone(),
        AddonError::Unavailable("Windows is not reporting a microphone".to_owned())
    );
    assert_eq!(playback_availability(true), Availability::Ready);
    assert_eq!(
        playback_availability(false),
        Availability::Unavailable("Windows is not reporting a playback device.".to_owned())
    );
}

#[test]
fn every_volume_action_id_is_distinct() {
    let actions = Volume::new().actions();
    for (i, a) in actions.iter().enumerate() {
        for b in &actions[i + 1..] {
            assert_ne!(a.id, b.id);
        }
    }
}
