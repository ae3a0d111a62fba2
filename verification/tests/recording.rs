use gkeys::recording::{CaptureStart, Recorder, RecordingAction, RecordingState};

fn strings(items: &[&str]) -> Vec<String> {
    items.iter().map(|s| s.to_string()).collect()
}

fn awaiting(profile: &str) -> Recorder {
    let mut r = Recorder::new();
    assert_eq!(r.on_mr_press(profile, Vec::new()), RecordingAction::EnterAwaiting);
    r
}

fn recording(profile: &str, gkey: u8) -> Recorder {
    let mut r = awaiting(profile);
    assert_eq!(
        r.on_gkey_press(gkey, CaptureStart::Started),
        RecordingAction::StartedRecording { gkey }
    );
    r
}

#[test]
fn new_recorder_is_idle() {
    let r = Recorder::new();
    assert!(!r.is_recording());
    assert!(!r.is_awaiting());
    assert_eq!(*r.state(), RecordingState::Idle);
    assert_eq!(Recorder::default(), Recorder::new());
}

#[test]
fn record_key_while_idle_awaits_a_key() {
    let mut r = Recorder::new();
    let action = r.on_mr_press("MEMORY_2", Vec::new());
    assert_eq!(action, RecordingAction::EnterAwaiting);
    assert!(r.is_awaiting());
    assert_eq!(*r.state(), RecordingState::AwaitingGKey { profile: "MEMORY_2".to_string() });
}

#[test]
fn key_selected_while_awaiting_starts_the_recording() {
    let mut r = awaiting("MEMORY_1");
    let action = r.on_gkey_press(3, CaptureStart::Started);
    assert_eq!(action, RecordingAction::StartedRecording { gkey: 3 });
    assert!(r.is_recording());
    assert_eq!(
        *r.state(),
        RecordingState::Recording {
            profile: "MEMORY_1".to_string(),
            gkey: 3,
            captured_keys: Vec::new(),
        }
    );
}

#[test]
fn two_chords_then_record_key_save_the_macro() {
    let mut r = recording("MEMORY_1", 3);
    r.poll_captured_keys(strings(&["ctrl+shift+t"]));
    r.poll_captured_keys(strings(&["enter"]));
    let action = r.on_mr_press("MEMORY_1", Vec::new());
    assert_eq!(
        action,
        RecordingAction::SaveMacro {
            profile: "MEMORY_1".to_string(),
            gkey: 3,
            sequence: "ctrl+shift+t, enter".to_string(),
        }
    );
    assert_eq!(*r.state(), RecordingState::Idle);
}

#[test]
fn record_key_with_nothing_captured_cancels() {
    let mut r = recording("MEMORY_1", 1);
    let action = r.on_mr_press("MEMORY_1", Vec::new());
    assert_eq!(action, RecordingAction::CancelledEmpty);
    assert_eq!(*r.state(), RecordingState::Idle);
}

#[test]
fn record_key_while_awaiting_cancels() {
    let mut r = awaiting("MEMORY_1");
    let action = r.on_mr_press("MEMORY_1", Vec::new());
    assert_eq!(action, RecordingAction::CancelledNoGKey);
    assert_eq!(*r.state(), RecordingState::Idle);
}

#[test]
fn chords_still_queued_at_the_stop_are_not_lost() {
    let mut r = recording("MEMORY_3", 5);
    r.poll_captured_keys(strings(&["a"]));
    let action = r.on_mr_press("MEMORY_1", strings(&["b", "ctrl+c"]));
    assert_eq!(
        action,
        RecordingAction::SaveMacro {
            profile: "MEMORY_3".to_string(),
            gkey: 5,
            sequence: "a, b, ctrl+c".to_string(),
        }
    );
}

#[test]
fn only_pending_chords_make_a_macro_too() {
    let mut r = recording("MEMORY_1", 2);
    let action = r.on_mr_press("MEMORY_1", strings(&["x"]));
    assert_eq!(
        action,
        RecordingAction::SaveMacro {
            profile: "MEMORY_1".to_string(),
            gkey: 2,
            sequence: "x".to_string(),
        }
    );
}

#[test]
fn macro_goes_to_the_profile_of_the_first_press() {
    let mut r = awaiting("MEMORY_1");
    r.on_gkey_press(4, CaptureStart::Started);
    r.poll_captured_keys(strings(&["a"]));
    let action = r.on_mr_press("MEMORY_2", Vec::new());
    assert_eq!(
        action,
        RecordingAction::SaveMacro {
            profile: "MEMORY_1".to_string(),
            gkey: 4,
            sequence: "a".to_string(),
        }
    );
}

#[test]
fn pending_is_not_looked_at_outside_a_recording() {
    let mut r = Recorder::new();
    assert_eq!(r.on_mr_press("MEMORY_1", strings(&["a"])), RecordingAction::EnterAwaiting);
    assert_eq!(r.on_mr_press("MEMORY_1", strings(&["b"])), RecordingAction::CancelledNoGKey);
    assert_eq!(*r.state(), RecordingState::Idle);
}

#[test]
fn keyboard_not_found_leads_back_to_idle() {
    let mut r = awaiting("MEMORY_1");
    let action = r.on_gkey_press(2, CaptureStart::NotFound);
    assert_eq!(action, RecordingAction::Error("Keyboard device not found".to_string()));
    assert_eq!(*r.state(), RecordingState::Idle);
}

#[test]
fn failed_open_leads_back_to_idle() {
    let mut r = awaiting("MEMORY_1");
    let action = r.on_gkey_press(2, CaptureStart::Failed("Permission denied".to_string()));
    assert_eq!(
        action,
        RecordingAction::Error("Failed to start capture: Permission denied".to_string())
    );
    assert_eq!(*r.state(), RecordingState::Idle);
}

#[test]
fn key_group_press_is_nothing_while_idle() {
    let mut r = Recorder::new();
    assert_eq!(r.on_gkey_press(1, CaptureStart::Started), RecordingAction::NoAction);
    assert_eq!(*r.state(), RecordingState::Idle);
}

#[test]
fn key_group_press_is_nothing_while_recording() {
    let mut r = recording("MEMORY_1", 3);
    r.poll_captured_keys(strings(&["a"]));
    assert_eq!(r.on_gkey_press(4, CaptureStart::Started), RecordingAction::NoAction);
    assert_eq!(
        *r.state(),
        RecordingState::Recording {
            profile: "MEMORY_1".to_string(),
            gkey: 3,
            captured_keys: strings(&["a"]),
        }
    );
}

#[test]
fn chords_are_dropped_outside_a_recording() {
    let mut r = Recorder::new();
    r.poll_captured_keys(strings(&["a"]));
    assert_eq!(*r.state(), RecordingState::Idle);
    let mut r = awaiting("MEMORY_1");
    r.poll_captured_keys(strings(&["a"]));
    assert_eq!(*r.state(), RecordingState::AwaitingGKey { profile: "MEMORY_1".to_string() });
}

#[test]
fn chords_keep_their_order() {
    let mut r = recording("MEMORY_1", 1);
    r.poll_captured_keys(strings(&["a", "b"]));
    r.poll_captured_keys(Vec::new());
    r.poll_captured_keys(strings(&["c"]));
    assert_eq!(
        *r.state(),
        RecordingState::Recording {
            profile: "MEMORY_1".to_string(),
            gkey: 1,
            captured_keys: strings(&["a", "b", "c"]),
        }
    );
}

#[test]
fn machine_cycles() {
    let mut r = recording("MEMORY_1", 1);
    r.poll_captured_keys(strings(&["a"]));
    r.on_mr_press("MEMORY_1", Vec::new());
    assert_eq!(r.on_mr_press("MEMORY_1", Vec::new()), RecordingAction::EnterAwaiting);
    assert_eq!(
        r.on_gkey_press(2, CaptureStart::Started),
        RecordingAction::StartedRecording { gkey: 2 }
    );
    assert_eq!(r.on_mr_press("MEMORY_1", Vec::new()), RecordingAction::CancelledEmpty);
}
