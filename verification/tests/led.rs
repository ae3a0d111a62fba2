use gkeys::events::{
    all_gkeys_led_command, direct_mode_init_commands, full_keyboard_color_commands,
    gkey_led_command, led_command, led_commit_command, mr_led_command,
};
use gkeys::led::{
    LedCommand, LedStep, LedWorker, SelfWriteMarker, WorkerInput, IDLE_WAIT_MS,
    MR_FLASH_INTERVAL_MS, MR_LED_DEBOUNCE_MS, MR_QUICK_FLASH_INTERVAL_MS,
};

fn steps_for(cmd: LedCommand) -> Vec<LedStep> {
    let mut w = LedWorker::new(0);
    assert!(cmd.is_valid());
    w.handle(WorkerInput::Command(cmd), 0).steps
}

fn mr(on: bool) -> Vec<LedStep> {
    vec![LedStep::MarkSelfWrite, LedStep::Write(mr_led_command(on))]
}

fn gkeys(r: u8, g: u8, b: u8) -> Vec<LedStep> {
    vec![
        LedStep::Write(all_gkeys_led_command(r, g, b)),
        LedStep::Write(led_commit_command()),
    ]
}

#[test]
fn constants() {
    assert_eq!(MR_FLASH_INTERVAL_MS, 500);
    assert_eq!(MR_QUICK_FLASH_INTERVAL_MS, 125);
    assert_eq!(MR_LED_DEBOUNCE_MS, 30);
    assert_eq!(IDLE_WAIT_MS, 3_600_000);
}

#[test]
fn record_indicator_is_marked_then_written() {
    assert_eq!(steps_for(LedCommand::SetMrLed(true)), mr(true));
    assert_eq!(steps_for(LedCommand::SetMrLed(false)), mr(false));
}

#[test]
fn profile_indicator_is_written_without_mark() {
    assert_eq!(
        steps_for(LedCommand::SetProfileLed(2)),
        vec![LedStep::Write(led_command(2))]
    );
}

#[test]
fn profile_beyond_the_mask_is_not_valid() {
    assert!(LedCommand::SetProfileLed(8).is_valid());
    assert!(!LedCommand::SetProfileLed(9).is_valid());
    assert!(LedCommand::QuickFlashMr { count: 255 }.is_valid());
}

#[test]
fn key_group_colour_is_committed() {
    assert_eq!(steps_for(LedCommand::SetAllGKeysLed { r: 255, g: 255, b: 255 }), gkeys(255, 255, 255));
    assert_eq!(steps_for(LedCommand::TurnOffGKeys), gkeys(0, 0, 0));
    assert_eq!(
        steps_for(LedCommand::RestoreGKeysColor { color: Some((1, 2, 3)) }),
        gkeys(1, 2, 3)
    );
    assert_eq!(steps_for(LedCommand::RestoreGKeysColor { color: None }), gkeys(0, 0, 0));
}

#[test]
fn recording_colours_selected_key_red() {
    let steps = steps_for(LedCommand::SetGKeysRecording { selected_gkey: 3 });
    assert_eq!(
        steps,
        vec![
            LedStep::Write(gkey_led_command(1, 0, 0, 0)),
            LedStep::Write(gkey_led_command(2, 0, 0, 0)),
            LedStep::Write(gkey_led_command(3, 255, 0, 0)),
            LedStep::Write(gkey_led_command(4, 0, 0, 0)),
            LedStep::Write(gkey_led_command(5, 0, 0, 0)),
            LedStep::Write(led_commit_command()),
        ]
    );
}

#[test]
fn quick_flash_rounds() {
    assert_eq!(steps_for(LedCommand::QuickFlashMr { count: 0 }), vec![]);
    let steps = steps_for(LedCommand::QuickFlashMr { count: 2 });
    let round = vec![
        LedStep::MarkSelfWrite,
        LedStep::Write(mr_led_command(true)),
        LedStep::Pause(125),
        LedStep::MarkSelfWrite,
        LedStep::Write(mr_led_command(false)),
        LedStep::Pause(125),
    ];
    let mut expected = round.clone();
    expected.extend(round);
    assert_eq!(steps, expected);
    assert_eq!(steps_for(LedCommand::QuickFlashMr { count: 255 }).len(), 255 * 6);
}

#[test]
fn full_keyboard_fill_is_initialised_and_committed() {
    let steps = steps_for(LedCommand::SetFullKeyboardColor { r: 4, g: 5, b: 6 });
    let mut expected: Vec<LedStep> = Vec::new();
    for cmd in direct_mode_init_commands() {
        expected.push(LedStep::Write(cmd));
    }
    for cmd in full_keyboard_color_commands(4, 5, 6) {
        expected.push(LedStep::Write(cmd));
    }
    expected.push(LedStep::Write(led_commit_command()));
    assert_eq!(steps.len(), 4 + 117 + 1);
    assert_eq!(steps, expected);
}

#[test]
fn shutdown_puts_everything_out_and_stops() {
    let mut w = LedWorker::new(0);
    w.handle(WorkerInput::Command(LedCommand::StartMrFlashing), 10);
    assert!(w.flashing);
    let turn = w.handle(WorkerInput::Command(LedCommand::Shutdown), 20);
    assert!(turn.done);
    assert!(!w.flashing);
    let mut expected = mr(false);
    expected.extend(gkeys(0, 0, 0));
    assert_eq!(turn.steps, expected);
}

#[test]
fn disconnect_stops_without_a_write() {
    let mut w = LedWorker::new(0);
    let turn = w.handle(WorkerInput::Disconnected, 5);
    assert!(turn.done);
    assert!(turn.steps.is_empty());
}

#[test]
fn commands_other_than_shutdown_do_not_stop() {
    let mut w = LedWorker::new(0);
    assert!(!w.handle(WorkerInput::Command(LedCommand::SetMrLed(true)), 0).done);
    assert!(!w.handle(WorkerInput::Command(LedCommand::StopMrFlashing), 0).done);
    assert!(!w.handle(WorkerInput::Timeout, 0).done);
}

#[test]
fn idle_worker_waits_an_hour() {
    let w = LedWorker::new(100);
    assert_eq!(w.wait_ms(100), 3_600_000);
    assert_eq!(w.wait_ms(5_000_000), 3_600_000);
}

#[test]
fn flashing_worker_waits_for_the_rest_of_the_interval() {
    let mut w = LedWorker::new(0);
    let turn = w.handle(WorkerInput::Command(LedCommand::StartMrFlashing), 1000);
    assert_eq!(turn.steps, mr(true));
    assert_eq!(w, LedWorker { flashing: true, flash_on: true, last_flash: 1000 });
    assert_eq!(w.wait_ms(1000), 500);
    assert_eq!(w.wait_ms(1200), 300);
    assert_eq!(w.wait_ms(1499), 1);
    assert_eq!(w.wait_ms(1500), 0);
    assert_eq!(w.wait_ms(9000), 0);
    // a clock that reads less than before counts as no time gone
    assert_eq!(w.wait_ms(900), 500);
}

#[test]
fn flash_toggles_after_half_a_period() {
    let mut w = LedWorker::new(0);
    w.handle(WorkerInput::Command(LedCommand::StartMrFlashing), 1000);
    // too early: nothing
    let early = w.handle(WorkerInput::Timeout, 1499);
    assert!(early.steps.is_empty());
    assert_eq!(w, LedWorker { flashing: true, flash_on: true, last_flash: 1000 });
    // due: off
    let off = w.handle(WorkerInput::Timeout, 1500);
    assert_eq!(off.steps, mr(false));
    assert_eq!(w, LedWorker { flashing: true, flash_on: false, last_flash: 1500 });
    // due again: on
    let on = w.handle(WorkerInput::Timeout, 2100);
    assert_eq!(on.steps, mr(true));
    assert_eq!(w, LedWorker { flashing: true, flash_on: true, last_flash: 2100 });
}

#[test]
fn timeout_without_flash_does_nothing() {
    let mut w = LedWorker::new(0);
    let turn = w.handle(WorkerInput::Timeout, 10_000_000);
    assert!(turn.steps.is_empty());
    assert_eq!(w, LedWorker::new(0));
}

#[test]
fn stop_and_quick_flash_end_the_slow_flash() {
    let mut w = LedWorker::new(0);
    w.handle(WorkerInput::Command(LedCommand::StartMrFlashing), 0);
    let turn = w.handle(WorkerInput::Command(LedCommand::StopMrFlashing), 100);
    assert_eq!(turn.steps, mr(false));
    assert!(!w.flashing);
    w.handle(WorkerInput::Command(LedCommand::StartMrFlashing), 200);
    w.handle(WorkerInput::Command(LedCommand::QuickFlashMr { count: 1 }), 300);
    assert!(!w.flashing);
    assert!(w.handle(WorkerInput::Timeout, 5000).steps.is_empty());
}

#[test]
fn other_commands_keep_the_flash_running() {
    let mut w = LedWorker::new(0);
    w.handle(WorkerInput::Command(LedCommand::StartMrFlashing), 0);
    let before = w;
    w.handle(WorkerInput::Command(LedCommand::SetProfileLed(1)), 100);
    w.handle(WorkerInput::Command(LedCommand::TurnOffGKeys), 100);
    w.handle(WorkerInput::Command(LedCommand::SetMrLed(false)), 100);
    assert_eq!(w, before);
}

#[test]
fn every_record_indicator_write_follows_a_mark() {
    let commands = vec![
        LedCommand::SetMrLed(true),
        LedCommand::SetProfileLed(3),
        LedCommand::SetAllGKeysLed { r: 1, g: 2, b: 3 },
        LedCommand::SetGKeysRecording { selected_gkey: 2 },
        LedCommand::StartMrFlashing,
        LedCommand::StopMrFlashing,
        LedCommand::QuickFlashMr { count: 4 },
        LedCommand::TurnOffGKeys,
        LedCommand::SetFullKeyboardColor { r: 1, g: 2, b: 3 },
        LedCommand::RestoreGKeysColor { color: None },
        LedCommand::Shutdown,
    ];
    for cmd in commands {
        let steps = steps_for(cmd);
        for (i, step) in steps.iter().enumerate() {
            if let LedStep::Write(r) = step {
                if r[2] == 0x0c {
                    assert!(i > 0);
                    assert_eq!(steps[i - 1], LedStep::MarkSelfWrite);
                }
            }
        }
    }
}

#[test]
fn echo_of_a_self_write_then_a_genuine_press() {
    // the worker writes the record indicator off at t0
    let t0: u64 = 1_700_000_000_000;
    let mut marker = SelfWriteMarker::new();
    marker.record_write(t0);
    // an event 10 ms later is the echo
    assert!(marker.is_mr_event_from_led(t0 + 10));
    // an unrelated event 50 ms after the write is the user's
    assert!(!marker.is_mr_event_from_led(t0 + 50));
}

#[test]
fn echo_is_consumed_once() {
    let mut marker = SelfWriteMarker::new();
    marker.record_write(1000);
    assert!(marker.is_mr_event_from_led(1005));
    assert_eq!(marker.stamp, 0);
    assert!(!marker.is_mr_event_from_led(1005));
    assert!(!marker.is_mr_event_from_led(1006));
}

#[test]
fn no_write_no_echo() {
    let mut marker = SelfWriteMarker::new();
    assert_eq!(marker.stamp, 0);
    assert!(!marker.is_mr_event_from_led(0));
    assert!(!marker.is_mr_event_from_led(12345));
}

#[test]
fn event_after_the_window_is_genuine_and_keeps_the_marker() {
    let mut marker = SelfWriteMarker::new();
    marker.record_write(1000);
    assert!(!marker.is_mr_event_from_led(1030));
    assert_eq!(marker.stamp, 1000);
    assert!(!marker.is_mr_event_from_led(99_999));
    assert_eq!(marker.stamp, 1000);
    // the next write overwrites it
    marker.record_write(100_000);
    assert!(marker.is_mr_event_from_led(100_029));
}

#[test]
fn window_edges() {
    let mut marker = SelfWriteMarker { stamp: 1000 };
    assert!(marker.is_mr_event_from_led(1029));
    let mut marker = SelfWriteMarker { stamp: 1000 };
    assert!(marker.is_mr_event_from_led(1000));
    // a clock that reads less than the marker counts as no time gone
    let mut marker = SelfWriteMarker { stamp: 1000 };
    assert!(marker.is_mr_event_from_led(900));
}
