use std::collections::BTreeMap;
use std::sync::{Arc, Mutex};

use nobble_addon_sdk::run::{
    credential_from_answer, describe, device_refusal, outcome_to_reply, perform, perform_plan,
    serve_step, stored_from_answer, unparsed_reply, Frame, Step,
};
use nobble_addon_sdk::{
    respond, Addon, AddonAction, AddonError, AddonSignal, Answer, Availability, AvailabilityDecl,
    Choice, ChoiceDecl, CredentialHandle, Credentials, DeviceAction, DeviceKeystroke,
    FailureKind, Invocation, KeystrokeDecl, ParamValue, Params, Reading, ReadingDecl, Reply,
    Request, Trigger, Version,
};

const ACTIONS: &[AddonAction] = &[AddonAction {
    id: "wave",
    name: "Wave",
    description: "Says hello.",
    trigger: Trigger::Momentary,
    params: &[],
}];

const DEVICE_ACTIONS: &[DeviceAction] = &[DeviceAction {
    id: "salute",
    name: "Salute",
    description: "The device sends this one.",
    keystroke: DeviceKeystroke::Tap { key: 0x10, ctrl: true, shift: true, alt: false, gui: false },
    prerequisite: Some("Set this keybind in the other application."),
}];

const SIGNALS: &[AddonSignal] = &[AddonSignal {
    id: "waving",
    name: "Waving",
    description: "A wave is in progress.",
}];

/// Everything the probe was handed, for the tests to look at afterwards.
#[derive(Default)]
struct Seen {
    performed: Vec<(String, Option<u16>, Option<String>)>,
    bound: Vec<(String, Vec<String>)>,
    configured: Vec<BTreeMap<String, String>>,
    fetched: Option<String>,
}

struct Probe {
    seen: Arc<Mutex<Seen>>,
}

impl Probe {
    fn new() -> (Probe, Arc<Mutex<Seen>>) {
        let seen = Arc::new(Mutex::new(Seen::default()));
        (Probe { seen: seen.clone() }, seen)
    }
}

impl Addon for Probe {
    fn id(&self) -> &'static str {
        "probe"
    }
    fn name(&self) -> &'static str {
        "Probe"
    }
    fn description(&self) -> &'static str {
        "For tests."
    }
    fn actions(&self) -> &'static [AddonAction] {
        ACTIONS
    }
    fn device_actions(&self) -> &'static [DeviceAction] {
        DEVICE_ACTIONS
    }
    fn signals(&self) -> &'static [AddonSignal] {
        SIGNALS
    }
    fn availability(&self) -> Availability {
        Availability::Ready
    }
    fn applies(&self, action: &str) -> bool {
        action == "wave"
    }
    fn status(&self) -> Option<String> {
        Some("waving at nobody".to_owned())
    }
    fn live_choices(&mut self, id: &str) -> Vec<Choice> {
        if id == "friends" {
            vec![
                Choice::new("a".to_owned(), "Alice".to_owned()),
                Choice::detailed("b".to_owned(), "Bob".to_owned(), "the other one".to_owned()),
            ]
        } else {
            Vec::new()
        }
    }
    fn bound_inputs(&mut self, action: &str, inputs: &[String]) {
        self.seen.lock().unwrap().bound.push((action.to_owned(), inputs.to_vec()));
    }
    fn perform(&mut self, action: &str, i: &Invocation<'_>) -> Result<(), AddonError> {
        self.seen.lock().unwrap().performed.push((
            action.to_owned(),
            i.value(),
            i.param("who").map(str::to_owned),
        ));
        match action {
            "wave" => Ok(()),
            "tired" => Err(AddonError::Unavailable("resting".to_owned())),
            "trip" => Err(AddonError::Failed("fell over".to_owned())),
            other => Err(AddonError::NoSuchAction(other.to_owned())),
        }
    }
    fn configure(&mut self, values: &BTreeMap<String, String>, c: &CredentialHandle) {
        let fetched = c.get("token");
        let mut seen = self.seen.lock().unwrap();
        seen.configured.push(values.clone());
        seen.fetched = fetched;
    }
    fn read_signals(&mut self) -> Reading {
        Reading::Values(vec![("waving", true)])
    }
}

/// A store that answers one key and remembers what it was asked.
#[derive(Default)]
struct Store {
    asked: Mutex<Vec<String>>,
}

impl Credentials for Store {
    fn get(&self, key: &str) -> Option<String> {
        self.asked.lock().unwrap().push(key.to_owned());
        (key == "token").then(|| "sekrit".to_owned())
    }
    fn set(&self, _key: &str, _value: &str) -> Result<(), String> {
        Ok(())
    }
    fn clear(&self, _key: &str) {}
}

fn store() -> CredentialHandle {
    Arc::new(Store::default())
}

fn perform_request(action: &str, value: Option<u16>) -> Request {
    Request::Perform { action: action.to_owned(), params: Params::new(), value }
}

#[test]
fn a_handshake_is_answered_with_this_sdks_version_whatever_the_daemon_speaks() {
    let (mut probe, _) = Probe::new();
    let creds = store();
    for theirs in [Version { major: 1, minor: 0 }, Version { major: 9, minor: 9 }] {
        let (reply, ends) = respond(&mut probe, Request::Hello { version: theirs }, &creds);
        assert_eq!(reply, Reply::Welcome { version: Version { major: 1, minor: 3 } });
        assert!(!ends);
    }
}

#[test]
fn it_describes_itself_from_its_declaration() {
    let (mut probe, _) = Probe::new();
    let (reply, ends) = respond(&mut probe, Request::Describe, &store());
    assert!(!ends);
    let Reply::Description(d) = reply else {
        panic!("expected a description, got {reply:?}");
    };
    assert_eq!(d.id, "probe");
    assert_eq!(d.name, "Probe");
    assert_eq!(d.description, "For tests.");
    assert_eq!(d.actions.len(), 1);
    assert_eq!(d.actions[0].trigger, "momentary");
    assert_eq!(d.actions[0].id, "wave");
    assert!(d.actions[0].params.is_empty());
    assert_eq!(d.device_actions.len(), 1);
    assert_eq!(d.device_actions[0].id, "salute");
    assert_eq!(
        d.device_actions[0].keystroke,
        KeystrokeDecl::HidTap { key: 0x10, ctrl: true, shift: true, alt: false, gui: false }
    );
    assert_eq!(
        d.device_actions[0].prerequisite.as_deref(),
        Some("Set this keybind in the other application.")
    );
    assert_eq!(d.signals.len(), 1);
    assert_eq!(d.signals[0].id, "waving");
    assert!(d.settings.is_empty());
    assert!(d.choices.is_empty());
    assert!(d.permissions.is_empty());
    assert_eq!(describe(&probe), d);
}

#[test]
fn a_failure_keeps_its_kind() {
    let (mut probe, _) = Probe::new();
    let (reply, _) = respond(&mut probe, perform_request("nope", None), &store());
    assert_eq!(
        reply,
        Reply::Failed { kind: FailureKind::NoSuchAction, detail: "nope".to_owned() }
    );
}

#[test]
fn every_outcome_of_perform_is_reported_with_its_kind() {
    let (mut probe, _) = Probe::new();
    let creds = store();
    assert_eq!(respond(&mut probe, perform_request("wave", None), &creds).0, Reply::Done);
    assert_eq!(
        respond(&mut probe, perform_request("tired", None), &creds).0,
        Reply::Failed { kind: FailureKind::Unavailable, detail: "resting".to_owned() }
    );
    assert_eq!(
        respond(&mut probe, perform_request("trip", None), &creds).0,
        Reply::Failed { kind: FailureKind::Failed, detail: "fell over".to_owned() }
    );
}

#[test]
fn a_perform_hands_the_addon_the_parameters_and_the_position() {
    let (mut probe, seen) = Probe::new();
    let mut params = Params::new();
    params.insert("who".to_owned(), ParamValue::One("everyone".to_owned()));
    let reply = perform(&mut probe, "wave", &params, Some(16383));
    assert_eq!(reply, Reply::Done);
    let reply = perform(&mut probe, "wave", &Params::new(), None);
    assert_eq!(reply, Reply::Done);
    let seen = seen.lock().unwrap();
    assert_eq!(
        seen.performed,
        vec![
            ("wave".to_owned(), Some(16383), Some("everyone".to_owned())),
            ("wave".to_owned(), None, None),
        ]
    );
}

#[test]
fn an_old_daemon_asking_us_to_perform_a_device_action_is_told_why_not() {
    let (mut probe, _) = Probe::new();
    let (reply, _) = respond(&mut probe, perform_request("salute", None), &store());
    let Reply::Failed { kind, detail } = reply else {
        panic!("expected a failure, got {reply:?}");
    };
    assert_eq!(kind, FailureKind::Failed);
    assert!(detail.contains("sent by the device"), "{detail}");
    assert!(detail.contains("update Nobble"), "{detail}");
}

#[test]
fn a_device_action_never_reaches_the_addons_own_perform() {
    let (mut probe, seen) = Probe::new();
    let (reply, _) = respond(&mut probe, perform_request("salute", None), &store());
    assert!(
        !matches!(reply, Reply::Failed { kind: FailureKind::NoSuchAction, .. }),
        "the guard let it through: {reply:?}"
    );
    assert!(seen.lock().unwrap().performed.is_empty());
}

#[test]
fn the_device_refusal_names_the_action_quoted() {
    assert_eq!(
        device_refusal(DEVICE_ACTIONS, "salute"),
        Some(Reply::Failed {
            kind: FailureKind::Failed,
            detail: "\"salute\" is sent by the device, not by this addon. This version of Nobble is older than the addon and cannot bind it as a keystroke; update Nobble.".to_owned(),
        })
    );
    assert_eq!(device_refusal(DEVICE_ACTIONS, "wave"), None);
    assert_eq!(device_refusal(&[], "salute"), None);
}

#[test]
fn an_outcome_becomes_a_reply_of_the_same_kind() {
    assert_eq!(outcome_to_reply(Ok(())), Reply::Done);
    assert_eq!(
        outcome_to_reply(Err(AddonError::NoSuchAction("x".to_owned()))),
        Reply::Failed { kind: FailureKind::NoSuchAction, detail: "x".to_owned() }
    );
    assert_eq!(
        outcome_to_reply(Err(AddonError::Unavailable("later".to_owned()))),
        Reply::Failed { kind: FailureKind::Unavailable, detail: "later".to_owned() }
    );
    assert_eq!(
        outcome_to_reply(Err(AddonError::Failed("broke".to_owned()))),
        Reply::Failed { kind: FailureKind::Failed, detail: "broke".to_owned() }
    );
}

#[test]
fn a_frame_that_cannot_be_read_is_answered_with_a_failure() {
    assert_eq!(
        unparsed_reply("expected value at line 1 column 1"),
        Reply::Failed {
            kind: FailureKind::Failed,
            detail: "could not understand that: expected value at line 1 column 1".to_owned(),
        }
    );
}

/// Every reply the loop would write for these frames, in order.
fn served<A: Addon>(addon: &mut A, frames: Vec<Frame>) -> Vec<Reply> {
    let creds = store();
    let mut replies = Vec::new();
    for frame in frames {
        match serve_step(frame) {
            Step::Stop => break,
            Step::Send(reply) => replies.push(reply),
            Step::Respond(request) => {
                let (reply, ends) = respond(addon, request, &creds);
                replies.push(reply);
                if ends {
                    break;
                }
            }
        }
    }
    replies
}

#[test]
fn shutdown_ends_it() {
    let (mut probe, _) = Probe::new();
    let replies = served(&mut probe, vec![Frame::Request(Request::Shutdown), Frame::Request(Request::Status)]);
    assert_eq!(replies, vec![Reply::Done], "nothing after shutdown is answered: {replies:?}");
    let (reply, ends) = respond(&mut probe, Request::Status, &store());
    assert_eq!(reply, Reply::Status { status: Some("waving at nobody".to_owned()) });
    assert!(!ends);
}

#[test]
fn a_frame_it_cannot_parse_is_answered_rather_than_fatal() {
    let replies = served(
        &mut Quiet,
        vec![
            Frame::Unreadable("expected value at line 1 column 1".to_owned()),
            Frame::Request(Request::Status),
        ],
    );
    assert!(matches!(replies[0], Reply::Failed { kind: FailureKind::Failed, .. }), "{:?}", replies[0]);
    assert_eq!(replies[1], Reply::Status { status: None }, "and it carries on");
}

#[test]
fn a_closed_pipe_is_answered_with_nothing() {
    let (mut probe, _) = Probe::new();
    assert_eq!(serve_step(Frame::Closed), Step::Stop);
    assert_eq!(
        serve_step(Frame::Request(Request::Status)),
        Step::Respond(Request::Status)
    );
    assert!(served(&mut probe, vec![Frame::Closed, Frame::Request(Request::Status)]).is_empty());
}

#[test]
fn an_unknown_action_performed_through_the_loop_keeps_its_kind() {
    let mut volume = nobble_addon_sdk::Volume::new();
    let replies = served(&mut volume, vec![Frame::Request(perform_request("teleport", None))]);
    assert_eq!(
        replies,
        vec![Reply::Failed { kind: FailureKind::NoSuchAction, detail: "teleport".to_owned() }]
    );
}

/// An addon that declares one action and overrides nothing else.
struct Quiet;

impl Addon for Quiet {
    fn id(&self) -> &'static str {
        "quiet"
    }
    fn name(&self) -> &'static str {
        "Quiet"
    }
    fn description(&self) -> &'static str {
        "Says nothing."
    }
    fn actions(&self) -> &'static [AddonAction] {
        ACTIONS
    }
    fn availability(&self) -> Availability {
        Availability::Ready
    }
    fn perform(&mut self, action: &str, _: &Invocation<'_>) -> Result<(), AddonError> {
        Err(AddonError::NoSuchAction(action.to_owned()))
    }
}

#[test]
fn the_smaller_questions_are_answered_from_the_addon() {
    let (mut probe, seen) = Probe::new();
    let creds = store();
    assert_eq!(
        respond(&mut probe, Request::Availability, &creds).0,
        Reply::Availability(AvailabilityDecl::Ready)
    );
    assert_eq!(
        respond(&mut probe, Request::Applies { action: "wave".to_owned() }, &creds).0,
        Reply::Applies { applies: true, unavailable: None }
    );
    assert_eq!(
        respond(&mut probe, Request::Applies { action: "sleep".to_owned() }, &creds).0,
        Reply::Applies { applies: false, unavailable: None }
    );
    assert_eq!(
        respond(&mut probe, Request::ReadSignals, &creds).0,
        Reply::Signals(ReadingDecl::Values { values: vec![("waving".to_owned(), true)] })
    );
    assert_eq!(
        respond(&mut probe, Request::LiveChoices { id: "friends".to_owned() }, &creds).0,
        Reply::LiveChoices {
            choices: vec![
                ChoiceDecl { value: "a".to_owned(), label: "Alice".to_owned(), detail: String::new() },
                ChoiceDecl {
                    value: "b".to_owned(),
                    label: "Bob".to_owned(),
                    detail: "the other one".to_owned(),
                },
            ],
        }
    );
    assert_eq!(
        respond(&mut probe, Request::LiveChoices { id: "enemies".to_owned() }, &creds).0,
        Reply::LiveChoices { choices: vec![] }
    );
    let inputs = vec!["key:1".to_owned(), "key:2".to_owned()];
    assert_eq!(
        respond(
            &mut probe,
            Request::BoundInputs { action: "wave".to_owned(), inputs: inputs.clone() },
            &creds
        )
        .0,
        Reply::Done
    );
    assert_eq!(
        respond(
            &mut probe,
            Request::HeldInputs { action: "wave".to_owned(), held: vec!["key:1".to_owned()] },
            &creds
        )
        .0,
        Reply::Done
    );
    assert_eq!(seen.lock().unwrap().bound, vec![("wave".to_owned(), inputs)]);
}

#[test]
fn configuring_hands_over_the_settings_and_a_store_that_names_no_addon() {
    let (mut probe, seen) = Probe::new();
    let backing = Arc::new(Store::default());
    let creds: CredentialHandle = backing.clone();
    let mut values = BTreeMap::new();
    values.insert("client_id".to_owned(), "abc".to_owned());
    let (reply, ends) = respond(&mut probe, Request::Configure { values: values.clone() }, &creds);
    assert_eq!(reply, Reply::Done);
    assert!(!ends);
    let seen = seen.lock().unwrap();
    assert_eq!(seen.configured, vec![values]);
    assert_eq!(seen.fetched.as_deref(), Some("sekrit"));
    assert_eq!(*backing.asked.lock().unwrap(), vec!["token".to_owned()]);
}

#[test]
fn an_unavailable_reading_and_availability_keep_their_sentence() {
    struct Down;
    impl Addon for Down {
        fn id(&self) -> &'static str {
            "down"
        }
        fn name(&self) -> &'static str {
            "Down"
        }
        fn description(&self) -> &'static str {
            "Never up."
        }
        fn actions(&self) -> &'static [AddonAction] {
            &[]
        }
        fn availability(&self) -> Availability {
            Availability::Unavailable("offline".to_owned())
        }
        fn perform(&mut self, action: &str, _: &Invocation<'_>) -> Result<(), AddonError> {
            Err(AddonError::NoSuchAction(action.to_owned()))
        }
        fn read_signals(&mut self) -> Reading {
            Reading::Unavailable("cannot look".to_owned())
        }
    }
    let creds = store();
    assert_eq!(
        respond(&mut Down, Request::Availability, &creds).0,
        Reply::Availability(AvailabilityDecl::Unavailable { detail: "offline".to_owned() })
    );
    assert_eq!(
        respond(&mut Down, Request::ReadSignals, &creds).0,
        Reply::Signals(ReadingDecl::Unavailable { detail: "cannot look".to_owned() })
    );
    assert_eq!(respond(&mut Down, Request::Status, &creds).0, Reply::Status { status: None });
    assert_eq!(
        respond(&mut Down, Request::Applies { action: "x".to_owned() }, &creds).0,
        Reply::Applies { applies: true, unavailable: None }
    );
}

#[test]
fn a_credential_answer_is_a_value_or_nothing() {
    assert_eq!(
        credential_from_answer(Some(Answer::Value { value: Some("sekrit".to_owned()) })),
        Some("sekrit".to_owned())
    );
    assert_eq!(credential_from_answer(Some(Answer::Value { value: None })), None);
    assert_eq!(
        credential_from_answer(Some(Answer::Refused { detail: "locked".to_owned() })),
        None
    );
    assert_eq!(credential_from_answer(Some(Answer::Stored)), None);
    assert_eq!(credential_from_answer(None), None);
}

#[test]
fn a_store_answer_is_stored_refused_or_silence() {
    assert_eq!(stored_from_answer(Some(Answer::Stored)), Ok(()));
    assert_eq!(
        stored_from_answer(Some(Answer::Refused { detail: "locked".to_owned() })),
        Err("locked".to_owned())
    );
    assert_eq!(stored_from_answer(None), Err("the daemon did not answer".to_owned()));
    assert_eq!(
        stored_from_answer(Some(Answer::Keys { keys: vec![] })),
        Err("the daemon did not answer".to_owned())
    );
}

#[test]
fn a_plan_hands_over_the_parameters_and_the_position_exactly_when_sent() {
    let mut params = Params::new();
    params.insert("who".to_owned(), ParamValue::One("everyone".to_owned()));
    let moved = perform_plan(DEVICE_ACTIONS, "wave", &params, Some(42)).expect("not a device action");
    assert_eq!(moved.value(), Some(42));
    assert_eq!(moved.param("who"), Some("everyone"));
    assert_eq!(moved.raw_params(), params.entries());
    assert_eq!(moved.input(), None);
    let pressed = perform_plan(DEVICE_ACTIONS, "wave", &params, None).expect("not a device action");
    assert_eq!(pressed.value(), None);
    assert_eq!(pressed.raw_params(), params.entries());
    let refused = perform_plan(DEVICE_ACTIONS, "salute", &params, Some(1)).err();
    assert_eq!(refused, device_refusal(DEVICE_ACTIONS, "salute"));
    assert!(refused.is_some());
}
