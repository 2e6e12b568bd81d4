use capptivo::command_line::{on_second_launch, recorder_action_from_argv, LaunchRequest};
use capptivo::hotkeys::{known_action, RECORDER_HOTKEYS};

fn argv(args: &[&str]) -> Vec<String> {
    args.iter().map(|s| s.to_string()).collect()
}

#[test]
fn parses_space_and_equals_forms() {
    assert_eq!(
        recorder_action_from_argv(&argv(&["Capptivo.exe", "--action", "start"])),
        Some("start".into())
    );
    assert_eq!(
        recorder_action_from_argv(&argv(&["Capptivo.exe", "--action=stop"])),
        Some("stop".into())
    );
}

#[test]
fn every_hotkey_action_is_accepted() {
    for (_, action) in RECORDER_HOTKEYS {
        assert_eq!(
            recorder_action_from_argv(&argv(&["Capptivo.exe", "--action", action])),
            Some((*action).into()),
            "action {action} should be accepted"
        );
    }
}

#[test]
fn rejects_unknown_or_missing_action() {
    assert_eq!(recorder_action_from_argv(&argv(&["Capptivo.exe"])), None);
    assert_eq!(
        recorder_action_from_argv(&argv(&["Capptivo.exe", "--action", "explode"])),
        None
    );
    // `--action` with no value must not panic or consume a bogus flag.
    assert_eq!(
        recorder_action_from_argv(&argv(&["Capptivo.exe", "--action"])),
        None
    );
}

#[test]
fn every_action_is_accepted_behind_an_equals_sign() {
    for (_, action) in RECORDER_HOTKEYS {
        let joined = format!("--action={action}");
        assert_eq!(
            recorder_action_from_argv(&argv(&["Capptivo.exe", &joined])),
            Some(action.to_string())
        );
    }
}

#[test]
fn empty_command_line_requests_nothing() {
    assert_eq!(recorder_action_from_argv(&[]), None);
}

#[test]
fn first_known_action_wins() {
    assert_eq!(
        recorder_action_from_argv(&argv(&["--action=pause", "--action", "stop"])),
        Some("pause".into())
    );
    assert_eq!(
        recorder_action_from_argv(&argv(&["--action", "explode", "--action=new"])),
        Some("new".into())
    );
    assert_eq!(
        recorder_action_from_argv(&argv(&["--action=", "--action", "mic"])),
        Some("mic".into())
    );
}

#[test]
fn the_flag_takes_the_next_argument_whatever_it_is() {
    assert_eq!(
        recorder_action_from_argv(&argv(&["--action", "--action=stop"])),
        None
    );
    assert_eq!(
        recorder_action_from_argv(&argv(&["--action", "--action", "stop"])),
        None
    );
    assert_eq!(
        recorder_action_from_argv(&argv(&["--action", "--verbose", "--action=camera"])),
        Some("camera".into())
    );
}

#[test]
fn both_forms_mean_the_same() {
    for value in ["start", "explode", "", "--action", "--action=stop"] {
        let joined = format!("--action={value}");
        assert_eq!(
            recorder_action_from_argv(&argv(&["x", "--action=no", "--action", value, "--action=new"])),
            recorder_action_from_argv(&argv(&["x", "--action=no", &joined, "--action=new"]))
        );
    }
}

#[test]
fn a_trailing_flag_makes_no_difference() {
    assert_eq!(
        recorder_action_from_argv(&argv(&["--action=mic", "--action"])),
        Some("mic".into())
    );
    assert_eq!(
        recorder_action_from_argv(&argv(&["--action", "--action"])),
        None
    );
}

#[test]
fn action_names_are_matched_exactly() {
    assert_eq!(recorder_action_from_argv(&argv(&["--action", "Start"])), None);
    assert_eq!(recorder_action_from_argv(&argv(&["--action", "star"])), None);
    assert_eq!(recorder_action_from_argv(&argv(&["--action", "starts"])), None);
    assert_eq!(recorder_action_from_argv(&argv(&["--action=start "])), None);
    assert_eq!(recorder_action_from_argv(&argv(&["--actions", "start"])), None);
    assert_eq!(recorder_action_from_argv(&argv(&["-action", "start"])), None);
    assert_eq!(recorder_action_from_argv(&argv(&["start"])), None);
    assert_eq!(recorder_action_from_argv(&argv(&["--action", "é"])), None);
}

#[test]
fn known_actions_are_those_of_the_table() {
    assert!(known_action("system-audio"));
    assert!(!known_action("system_audio"));
    assert!(!known_action(""));
    assert!(!known_action("Ctrl+Shift+F9"));
}

#[test]
fn second_launch_dispatches_or_shows_the_recorder() {
    assert!(matches!(
        on_second_launch(&argv(&["Capptivo.exe", "--action", "cancel"])),
        LaunchRequest::Dispatch(name) if name == "cancel"
    ));
    assert!(matches!(
        on_second_launch(&argv(&["Capptivo.exe"])),
        LaunchRequest::ShowRecorder
    ));
    assert!(matches!(
        on_second_launch(&argv(&["Capptivo.exe", "--action", "explode"])),
        LaunchRequest::ShowRecorder
    ));
}
