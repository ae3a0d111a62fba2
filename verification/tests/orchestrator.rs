use gkeys::config::{Config, HotkeyType, Macro, StringBool};
use gkeys::events::Event;
use gkeys::events::mr_led_command;
use gkeys::led::{LedCommand, LedStep, LedWorker, WorkerInput};
use gkeys::orchestrator::{
    capture_must_stop, handle_event, handle_event_for_recording, handle_recording_action, macro_name,
    next_reconnect_delay, profile_name, profile_number, read_timeout_ms, route_event, save_notice,
    ActionPlan, Dispatch, Notice, Route, SaveRequest, FIRST_PROFILE, MR_QUICK_FLASH_COUNT,
    RECONNECT_DELAY_MAX_S, RECONNECT_DELAY_START_S, RECORDING_READ_TIMEOUT_MS,
};
use gkeys::recording::{CaptureStart, Recorder, RecordingAction, RecordingState};

fn strings(items: &[&str]) -> Vec<String> {
    items.iter().map(|s| s.to_string()).collect()
}

fn awaiting() -> Recorder {
    let mut r = Recorder::new();
    r.on_mr_press("MEMORY_1", Vec::new());
    r
}

fn recording() -> Recorder {
    let mut r = awaiting();
    r.on_gkey_press(3, CaptureStart::Started);
    r
}

fn all_events() -> Vec<Event> {
    vec![
        Event::GKey(1),
        Event::GKey(5),
        Event::GKeyRelease,
        Event::MKey(2),
        Event::MKeyRelease,
        Event::MRKey,
        Event::MRKeyRelease,
    ]
}

#[test]
fn names() {
    assert_eq!(macro_name(1), "MACRO_1");
    assert_eq!(macro_name(5), "MACRO_5");
    assert_eq!(macro_name(0), "MACRO_0");
    assert_eq!(macro_name(255), "MACRO_255");
    assert_eq!(profile_name(3), "MEMORY_3");
    assert_eq!(profile_name(10), "MEMORY_10");
    assert_eq!(FIRST_PROFILE, "MEMORY_1");
    assert_eq!(MR_QUICK_FLASH_COUNT, 4);
}

#[test]
fn profile_number_reads_the_name() {
    assert_eq!(profile_number("MEMORY_1"), 1);
    assert_eq!(profile_number("MEMORY_3"), 3);
    assert_eq!(profile_number("MEMORY_255"), 255);
    assert_eq!(profile_number("MEMORY_256"), 1);
    assert_eq!(profile_number("MEMORY_"), 1);
    assert_eq!(profile_number("MEMORY_x"), 1);
    assert_eq!(profile_number("MEMORY_+2"), 2);
    assert_eq!(profile_number("memory_2"), 1);
    assert_eq!(profile_number("PROFILE_2"), 1);
    assert_eq!(profile_number(""), 1);
    assert_eq!(profile_number("MEMORY_0"), 0);
    for n in 0u8..=255 {
        assert_eq!(profile_number(&profile_name(n)), n);
    }
}

#[test]
fn reconnect_delay_doubles_up_to_the_cap() {
    assert_eq!(RECONNECT_DELAY_START_S, 1);
    assert_eq!(RECONNECT_DELAY_MAX_S, 30);
    let mut delay = RECONNECT_DELAY_START_S;
    let mut seen = vec![delay];
    for _ in 0..7 {
        delay = next_reconnect_delay(delay);
        seen.push(delay);
    }
    assert_eq!(seen, vec![1, 2, 4, 8, 16, 30, 30, 30]);
    assert_eq!(next_reconnect_delay(0), 0);
    assert_eq!(next_reconnect_delay(15), 30);
    assert_eq!(next_reconnect_delay(14), 28);
    assert_eq!(next_reconnect_delay(u64::MAX), 30);
}

#[test]
fn reads_wait_briefly_only_while_recording() {
    assert_eq!(RECORDING_READ_TIMEOUT_MS, 100);
    assert_eq!(read_timeout_ms(&Recorder::new()), None);
    assert_eq!(read_timeout_ms(&awaiting()), None);
    assert_eq!(read_timeout_ms(&recording()), Some(100));
}

#[test]
fn routes() {
    for event in all_events() {
        let idle = route_event(&event, &Recorder::new());
        let wait = route_event(&event, &awaiting());
        let rec = route_event(&event, &recording());
        match event {
            Event::MRKey => {
                assert_eq!(idle, Route::RecordKey);
                assert_eq!(wait, Route::RecordKey);
                assert_eq!(rec, Route::RecordKey);
            }
            Event::GKey(n) => {
                assert_eq!(idle, Route::Dispatch);
                assert_eq!(wait, Route::SelectKey(n));
                assert_eq!(rec, Route::Ignore);
            }
            _ => {
                assert_eq!(idle, Route::Dispatch);
                assert_eq!(wait, Route::Ignore);
                assert_eq!(rec, Route::Ignore);
            }
        }
    }
}

#[test]
fn record_key_goes_to_the_recorder() {
    let mut r = Recorder::new();
    let action =
        handle_event_for_recording(&Event::MRKey, &mut r, "MEMORY_2", false, Vec::new(), CaptureStart::NotFound);
    assert_eq!(action, Some(RecordingAction::EnterAwaiting));
    assert_eq!(*r.state(), RecordingState::AwaitingGKey { profile: "MEMORY_2".to_string() });
    let action =
        handle_event_for_recording(&Event::MRKey, &mut r, "MEMORY_2", false, Vec::new(), CaptureStart::NotFound);
    assert_eq!(action, Some(RecordingAction::CancelledNoGKey));
    assert_eq!(*r.state(), RecordingState::Idle);
}

#[test]
fn echo_of_the_own_write_is_swallowed_in_every_state() {
    for mut r in [Recorder::new(), awaiting(), recording()] {
        let awaiting_before = r.is_awaiting();
        let recording_before = r.is_recording();
        let action = handle_event_for_recording(
            &Event::MRKey,
            &mut r,
            "MEMORY_1",
            true,
            strings(&["a"]),
            CaptureStart::Started,
        );
        assert_eq!(action, None);
        assert_eq!(r.is_awaiting(), awaiting_before);
        assert_eq!(r.is_recording(), recording_before);
    }
}

#[test]
fn key_selection_starts_the_recording() {
    let mut r = awaiting();
    let action = handle_event_for_recording(
        &Event::GKey(3),
        &mut r,
        "MEMORY_1",
        false,
        Vec::new(),
        CaptureStart::Started,
    );
    assert_eq!(action, Some(RecordingAction::StartedRecording { gkey: 3 }));
    assert!(r.is_recording());
}

#[test]
fn failed_capture_is_an_error_and_idle() {
    let mut r = awaiting();
    let action = handle_event_for_recording(
        &Event::GKey(3),
        &mut r,
        "MEMORY_1",
        false,
        Vec::new(),
        CaptureStart::NotFound,
    );
    assert_eq!(action, Some(RecordingAction::Error("Keyboard device not found".to_string())));
    assert_eq!(*r.state(), RecordingState::Idle);
}

#[test]
fn end_of_recording_takes_the_pending_chords() {
    let mut r = recording();
    r.poll_captured_keys(strings(&["ctrl+shift+t"]));
    let action = handle_event_for_recording(
        &Event::MRKey,
        &mut r,
        "MEMORY_1",
        false,
        strings(&["enter"]),
        CaptureStart::NotFound,
    );
    assert_eq!(
        action,
        Some(RecordingAction::SaveMacro {
            profile: "MEMORY_1".to_string(),
            gkey: 3,
            sequence: "ctrl+shift+t, enter".to_string(),
        })
    );
    assert_eq!(*r.state(), RecordingState::Idle);
}

#[test]
fn every_other_pair_of_state_and_event_changes_nothing() {
    for event in all_events() {
        if event == Event::MRKey {
            continue;
        }
        let mut idle = Recorder::new();
        assert_eq!(
            handle_event_for_recording(&event, &mut idle, "MEMORY_1", false, strings(&["a"]), CaptureStart::Started),
            None
        );
        assert_eq!(*idle.state(), RecordingState::Idle);

        let mut rec = recording();
        assert_eq!(
            handle_event_for_recording(&event, &mut rec, "MEMORY_1", false, strings(&["a"]), CaptureStart::Started),
            None
        );
        assert_eq!(
            *rec.state(),
            RecordingState::Recording {
                profile: "MEMORY_1".to_string(),
                gkey: 3,
                captured_keys: Vec::new(),
            }
        );

        if !matches!(event, Event::GKey(_)) {
            let mut wait = awaiting();
            assert_eq!(
                handle_event_for_recording(&event, &mut wait, "MEMORY_1", false, strings(&["a"]), CaptureStart::Started),
                None
            );
            assert_eq!(
                *wait.state(),
                RecordingState::AwaitingGKey { profile: "MEMORY_1".to_string() }
            );
        }
    }
}

fn store() -> Config {
    let mut config = Config::new();
    config.set_macro(
        "MEMORY_1",
        "MACRO_1",
        Macro { hotkey_type: HotkeyType::Shortcut, action: "ctrl+c".to_string() },
    );
    config.set_macro(
        "MEMORY_2",
        "MACRO_1",
        Macro { hotkey_type: HotkeyType::Run, action: "ls".to_string() },
    );
    config
}

#[test]
fn key_group_press_runs_the_macro_of_the_current_profile() {
    let config = store();
    let mut profile = "MEMORY_1".to_string();
    assert_eq!(
        handle_event(&Event::GKey(1), &config, &mut profile),
        Dispatch::RunMacro(Macro { hotkey_type: HotkeyType::Shortcut, action: "ctrl+c".to_string() })
    );
    assert_eq!(profile, "MEMORY_1");
    let mut profile = "MEMORY_2".to_string();
    assert_eq!(
        handle_event(&Event::GKey(1), &config, &mut profile),
        Dispatch::RunMacro(Macro { hotkey_type: HotkeyType::Run, action: "ls".to_string() })
    );
}

#[test]
fn key_group_press_without_a_macro_does_nothing() {
    let config = store();
    let mut profile = "MEMORY_1".to_string();
    assert_eq!(handle_event(&Event::GKey(2), &config, &mut profile), Dispatch::Nothing);
    let mut profile = "MEMORY_3".to_string();
    assert_eq!(handle_event(&Event::GKey(1), &config, &mut profile), Dispatch::Nothing);
}

#[test]
fn profile_key_switches_and_announces() {
    let config = store();
    let mut profile = "MEMORY_1".to_string();
    assert_eq!(
        handle_event(&Event::MKey(2), &config, &mut profile),
        Dispatch::SwitchProfile {
            profile: 2,
            notice: Some(Notice { title: "Profile M2".to_string(), body: None }),
        }
    );
    assert_eq!(profile, "MEMORY_2");
}

#[test]
fn profile_key_switches_silently_when_told_so() {
    let mut config = store();
    config.notify = StringBool(false);
    let mut profile = "MEMORY_1".to_string();
    assert_eq!(
        handle_event(&Event::MKey(3), &config, &mut profile),
        Dispatch::SwitchProfile { profile: 3, notice: None }
    );
    assert_eq!(profile, "MEMORY_3");
}

#[test]
fn profile_key_of_the_current_profile_does_nothing() {
    let config = store();
    let mut profile = "MEMORY_2".to_string();
    assert_eq!(handle_event(&Event::MKey(2), &config, &mut profile), Dispatch::Nothing);
    assert_eq!(profile, "MEMORY_2");
    // so the echo of the indicator's command cannot switch again
    let mut profile = "MEMORY_1".to_string();
    handle_event(&Event::MKey(3), &config, &mut profile);
    assert_eq!(handle_event(&Event::MKey(3), &config, &mut profile), Dispatch::Nothing);
}

#[test]
fn other_events_dispatch_to_nothing() {
    let config = store();
    for event in [Event::GKeyRelease, Event::MKeyRelease, Event::MRKey, Event::MRKeyRelease] {
        let mut profile = "MEMORY_1".to_string();
        assert_eq!(handle_event(&event, &config, &mut profile), Dispatch::Nothing);
        assert_eq!(profile, "MEMORY_1");
    }
}

#[test]
fn plan_for_entering_the_wait() {
    let mut config = Config::new();
    let plan = handle_recording_action(RecordingAction::EnterAwaiting, &mut config);
    assert_eq!(
        plan,
        ActionPlan {
            leds: vec![
                LedCommand::SetMrLed(true),
                LedCommand::SetAllGKeysLed { r: 255, g: 255, b: 255 },
            ],
            notice: None,
            save: None,
        }
    );
}

#[test]
fn plan_for_a_started_recording() {
    let mut config = Config::new();
    let plan = handle_recording_action(RecordingAction::StartedRecording { gkey: 3 }, &mut config);
    assert_eq!(
        plan,
        ActionPlan {
            leds: vec![
                LedCommand::SetGKeysRecording { selected_gkey: 3 },
                LedCommand::StartMrFlashing,
            ],
            notice: Some(Notice {
                title: "Recording G3".to_string(),
                body: Some("Press keys, then MR to stop".to_string()),
            }),
            save: None,
        }
    );
}

#[test]
fn plan_for_a_saved_macro() {
    let mut config = store();
    let plan = handle_recording_action(
        RecordingAction::SaveMacro {
            profile: "MEMORY_1".to_string(),
            gkey: 3,
            sequence: "ctrl+shift+t, enter".to_string(),
        },
        &mut config,
    );
    assert_eq!(
        plan,
        ActionPlan {
            leds: vec![LedCommand::QuickFlashMr { count: 4 }, LedCommand::TurnOffGKeys],
            notice: None,
            save: Some(SaveRequest { gkey: 3, sequence: "ctrl+shift+t, enter".to_string() }),
        }
    );
    assert_eq!(
        config.get_macro("MEMORY_1", "MACRO_3"),
        Some(&Macro { hotkey_type: HotkeyType::Sequence, action: "ctrl+shift+t, enter".to_string() })
    );
    // the rest of the store is as it was
    assert_eq!(
        config.get_macro("MEMORY_1", "MACRO_1"),
        Some(&Macro { hotkey_type: HotkeyType::Shortcut, action: "ctrl+c".to_string() })
    );
    assert_eq!(
        config.get_macro("MEMORY_2", "MACRO_1"),
        Some(&Macro { hotkey_type: HotkeyType::Run, action: "ls".to_string() })
    );
}

#[test]
fn plan_for_the_cancellations_and_the_error() {
    let mut config = Config::new();
    assert_eq!(
        handle_recording_action(RecordingAction::CancelledEmpty, &mut config),
        ActionPlan {
            leds: vec![LedCommand::StopMrFlashing, LedCommand::TurnOffGKeys],
            notice: Some(Notice {
                title: "Recording cancelled".to_string(),
                body: Some("No keys were captured".to_string()),
            }),
            save: None,
        }
    );
    assert_eq!(
        handle_recording_action(RecordingAction::CancelledNoGKey, &mut config),
        ActionPlan {
            leds: vec![LedCommand::SetMrLed(false), LedCommand::TurnOffGKeys],
            notice: None,
            save: None,
        }
    );
    assert_eq!(
        handle_recording_action(RecordingAction::Error("boom".to_string()), &mut config),
        ActionPlan {
            leds: vec![LedCommand::StopMrFlashing, LedCommand::TurnOffGKeys],
            notice: Some(Notice {
                title: "Recording error".to_string(),
                body: Some("boom".to_string()),
            }),
            save: None,
        }
    );
    assert_eq!(
        handle_recording_action(RecordingAction::NoAction, &mut config),
        ActionPlan { leds: vec![], notice: None, save: None }
    );
    assert_eq!(config.profiles.len(), 0);
}

#[test]
fn notice_after_the_store_was_written() {
    let save = SaveRequest { gkey: 3, sequence: "a, b".to_string() };
    assert_eq!(
        save_notice(&save, None),
        Notice { title: "Recorded G3".to_string(), body: Some("a, b".to_string()) }
    );
    assert_eq!(
        save_notice(&save, Some("disk full")),
        Notice {
            title: "Recording failed".to_string(),
            body: Some("Could not save: disk full".to_string()),
        }
    );
}

struct Light {
    worker: LedWorker,
    lit: bool,
}

impl Light {
    fn take(&mut self, input: WorkerInput, now: u64) {
        for step in self.worker.handle(input, now).steps {
            if step == LedStep::Write(mr_led_command(true)) {
                self.lit = true;
            } else if step == LedStep::Write(mr_led_command(false)) {
                self.lit = false;
            }
        }
    }

    fn shows(&self, recorder: &Recorder) -> bool {
        if recorder.is_recording() {
            self.worker.flashing
        } else if recorder.is_awaiting() {
            !self.worker.flashing && self.lit
        } else {
            !self.worker.flashing && !self.lit
        }
    }
}

fn step(
    recorder: &mut Recorder,
    config: &mut Config,
    light: &mut Light,
    event: Event,
    pending: Vec<String>,
    capture: CaptureStart,
    now: u64,
) {
    let action = handle_event_for_recording(&event, recorder, "MEMORY_1", false, pending, capture);
    if let Some(action) = action {
        for cmd in handle_recording_action(action, config).leds {
            light.take(WorkerInput::Command(cmd), now);
        }
    }
    assert!(light.shows(recorder));
    light.take(WorkerInput::Timeout, now + 600);
    assert!(light.shows(recorder));
    light.take(WorkerInput::Command(LedCommand::SetProfileLed(2)), now + 700);
    assert!(light.shows(recorder));
}

#[test]
fn record_indicator_shows_the_recorder_state_through_a_cycle() {
    let mut recorder = Recorder::new();
    let mut config = Config::new();
    let mut light = Light { worker: LedWorker::new(0), lit: false };
    assert!(light.shows(&recorder));
    // cancelled before a key was selected
    step(&mut recorder, &mut config, &mut light, Event::MRKey, vec![], CaptureStart::NotFound, 1000);
    assert!(recorder.is_awaiting());
    step(&mut recorder, &mut config, &mut light, Event::MRKey, vec![], CaptureStart::NotFound, 2000);
    // capture fails
    step(&mut recorder, &mut config, &mut light, Event::MRKey, vec![], CaptureStart::NotFound, 3000);
    step(&mut recorder, &mut config, &mut light, Event::GKey(1), vec![], CaptureStart::NotFound, 4000);
    assert!(!recorder.is_awaiting() && !recorder.is_recording());
    // empty recording
    step(&mut recorder, &mut config, &mut light, Event::MRKey, vec![], CaptureStart::NotFound, 5000);
    step(&mut recorder, &mut config, &mut light, Event::GKey(2), vec![], CaptureStart::Started, 6000);
    assert!(recorder.is_recording());
    step(&mut recorder, &mut config, &mut light, Event::GKey(3), vec![], CaptureStart::Started, 6500);
    step(&mut recorder, &mut config, &mut light, Event::MRKey, vec![], CaptureStart::NotFound, 7000);
    // saved recording
    step(&mut recorder, &mut config, &mut light, Event::MRKey, vec![], CaptureStart::NotFound, 8000);
    step(&mut recorder, &mut config, &mut light, Event::GKey(4), vec![], CaptureStart::Started, 9000);
    step(&mut recorder, &mut config, &mut light, Event::MRKey, strings(&["a"]), CaptureStart::NotFound, 10000);
    assert!(!recorder.is_awaiting() && !recorder.is_recording());
    assert_eq!(
        config.get_macro("MEMORY_1", "MACRO_4"),
        Some(&Macro { hotkey_type: HotkeyType::Sequence, action: "a".to_string() })
    );
}

#[test]
fn capture_stops_only_for_a_genuine_record_key_while_recording() {
    for event in all_events() {
        for from_led in [false, true] {
            assert!(!capture_must_stop(&event, &Recorder::new(), from_led));
            assert!(!capture_must_stop(&event, &awaiting(), from_led));
            assert_eq!(
                capture_must_stop(&event, &recording(), from_led),
                event == Event::MRKey && !from_led
            );
        }
    }
}
