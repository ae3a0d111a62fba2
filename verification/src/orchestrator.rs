//! The decisions of the foreground loop: where an event goes, what a
//! recording action asks of the lights, the store and the user, and how
//! long to wait before the device is opened again.
//!
//! The loop itself reads the device, talks to the workers and sleeps; it
//! hands what it learned to the functions here and carries out what they
//! return.

use crate::config::{stored_macro, Config, ConfigView, HotkeyType, Macro, MacroView};
use crate::events::Event;
use crate::led::{
    colors_keep_the_record_indicator, light_after, light_after_commands, quick_flash_ends_dark,
    LedCommand, MrLight, WorkerInput,
};
use crate::recording::{
    action_after_gkey_press, action_after_mr_press, state_after_gkey_press, state_after_mr_press,
    ActionView, CaptureStart, CaptureStartView, Recorder, RecordingAction, StateView,
};
use crate::text::{
    chars_of, decimal_text, has_prefix, parse_u8, parsed_u8, push_decimal, same_text, starts_with,
    str_text, texts,
};
use vstd::prelude::*;
use vstd::string::StringExecFns;

verus! {

/// How often the record indicator flashes after a macro was saved.
pub const MR_QUICK_FLASH_COUNT: u8 = 4;

/// The profile that is current when the daemon starts.
pub const FIRST_PROFILE: &'static str = "MEMORY_1";

/// How long a read waits while a recording runs, in milliseconds.
pub const RECORDING_READ_TIMEOUT_MS: u64 = 100;

/// The delay before the first new attempt to open the device, in seconds.
pub const RECONNECT_DELAY_START_S: u64 = 1;

/// The longest delay between two attempts to open the device, in seconds.
pub const RECONNECT_DELAY_MAX_S: u64 = 30;

/// The name under which the store keeps the macro of key `gkey`.
pub open spec fn macro_name_text(gkey: u8) -> Seq<char> {
    "MACRO_"@ + decimal_text(gkey as nat)
}

/// The name under which the store keeps profile `n`.
pub open spec fn profile_name_text(n: u8) -> Seq<char> {
    "MEMORY_"@ + decimal_text(n as nat)
}

/// Writes the name of the macro of key `gkey`.
pub fn macro_name(gkey: u8) -> (name: String)
    ensures
        name@ == macro_name_text(gkey),
{
    let mut name = "MACRO_".to_owned();
    push_decimal(&mut name, gkey);
    name
}

/// Writes the name of profile `n`.
pub fn profile_name(n: u8) -> (name: String)
    ensures
        name@ == profile_name_text(n),
{
    let mut name = "MEMORY_".to_owned();
    push_decimal(&mut name, n);
    name
}

/// The number of the profile with this name: what follows `MEMORY_`, read
/// as a number below 256; 1 for any other name.
pub open spec fn profile_number_of(profile: Seq<char>) -> u8 {
    if has_prefix(profile, "MEMORY_"@) {
        match parsed_u8(profile.skip("MEMORY_"@.len() as int)) {
            Some(n) => n,
            None => 1,
        }
    } else {
        1
    }
}

/// Gives the number of the profile named `profile`, for its indicator.
pub fn profile_number(profile: &str) -> (n: u8)
    ensures
        n == profile_number_of(profile@),
{
    let text = chars_of(profile);
    let prefix = chars_of("MEMORY_");
    if !starts_with(text.as_slice(), prefix.as_slice()) {
        return 1;
    }
    let rest = vstd::slice::slice_subrange(text.as_slice(), prefix.len(), text.len());
    assert(rest@ =~= profile@.skip("MEMORY_"@.len() as int));
    match parse_u8(rest) {
        Some(n) => n,
        None => 1,
    }
}

/// A profile's name gives its number back.
pub proof fn profile_name_gives_number(n: u8)
    ensures
        profile_number_of(profile_name_text(n)) == n,
{
    let name = profile_name_text(n);
    let prefix = "MEMORY_"@;
    assert(name.take(prefix.len() as int) =~= prefix);
    assert(name.skip(prefix.len() as int) =~= decimal_text(n as nat));
    crate::text::decimal_text_reads_back(n);
}

/// The delay after one more failed attempt: twice the delay before it,
/// and the longest delay at most.
pub open spec fn delay_after_failure(delay_s: u64) -> u64 {
    if 2 * delay_s >= RECONNECT_DELAY_MAX_S {
        RECONNECT_DELAY_MAX_S
    } else {
        (2 * delay_s) as u64
    }
}

/// The delay before the attempt that follows `failures` failed ones in a
/// row.
pub open spec fn delay_after_failures(failures: nat) -> u64
    decreases failures,
{
    if failures <= 1 {
        RECONNECT_DELAY_START_S
    } else {
        delay_after_failure(delay_after_failures((failures - 1) as nat))
    }
}

/// Gives the delay to use after the attempt that followed a delay of
/// `delay_s` has failed too. A success starts over at the shortest delay.
pub fn next_reconnect_delay(delay_s: u64) -> (next: u64)
    ensures
        next == delay_after_failure(delay_s),
{
    if delay_s >= RECONNECT_DELAY_MAX_S {
        RECONNECT_DELAY_MAX_S
    } else {
        let doubled = delay_s * 2;
        if doubled >= RECONNECT_DELAY_MAX_S {
            RECONNECT_DELAY_MAX_S
        } else {
            doubled
        }
    }
}

/// The delays run 1, 2, 4, 8, 16, 30 and stay at 30: they never shrink and
/// never pass the longest delay.
pub proof fn reconnect_delays(failures: nat)
    ensures
        delay_after_failures(1) == 1,
        delay_after_failures(2) == 2,
        delay_after_failures(3) == 4,
        delay_after_failures(4) == 8,
        delay_after_failures(5) == 16,
        failures >= 6 ==> delay_after_failures(failures) == 30,
        RECONNECT_DELAY_START_S <= delay_after_failures(failures) <= RECONNECT_DELAY_MAX_S,
        delay_after_failures(failures) <= delay_after_failures(failures + 1),
    decreases failures,
{
    reveal_with_fuel(delay_after_failures, 7);
    if failures > 6 {
        reconnect_delays((failures - 1) as nat);
    }
}

/// How long the next read may wait: a recording needs the chords drained
/// promptly, so its reads give up after a short while; any other read waits
/// for as long as it takes.
pub fn read_timeout_ms(recorder: &Recorder) -> (timeout: Option<u64>)
    ensures
        timeout == (if recorder@ is Recording {
            Some(RECORDING_READ_TIMEOUT_MS)
        } else {
            None
        }),
{
    if recorder.is_recording() {
        Some(RECORDING_READ_TIMEOUT_MS)
    } else {
        None
    }
}

/// Where an event goes.
#[derive(Debug, Clone, Copy, PartialEq, Eq)]
pub enum Route {
    /// To the recorder as a press of the record key, unless it turns out
    /// to be the echo of the worker's own write.
    RecordKey,
    /// To the recorder as the key to record for, once the capture was
    /// started.
    SelectKey(u8),
    /// To the ordinary handling of keys.
    Dispatch,
    /// Nowhere.
    Ignore,
}

/// Where an event goes in a state of the recorder: the record key always
/// to the recorder; a key of the key group to the recorder while one is
/// awaited; anything else to the ordinary handling while the recorder is
/// idle, and nowhere while it is busy.
pub open spec fn route_of(event: Event, state: StateView) -> Route {
    match event {
        Event::MRKey => Route::RecordKey,
        Event::GKey(n) if state is AwaitingGKey => Route::SelectKey(n),
        _ => if state is Idle {
            Route::Dispatch
        } else {
            Route::Ignore
        },
    }
}

/// Says where an event goes.
pub fn route_event(event: &Event, recorder: &Recorder) -> (route: Route)
    ensures
        route == route_of(*event, recorder@),
{
    match event {
        Event::MRKey => Route::RecordKey,
        Event::GKey(n) => {
            if recorder.is_awaiting() {
                Route::SelectKey(*n)
            } else if recorder.is_recording() {
                Route::Ignore
            } else {
                Route::Dispatch
            }
        },
        _ => {
            if recorder.is_awaiting() || recorder.is_recording() {
                Route::Ignore
            } else {
                Route::Dispatch
            }
        },
    }
}

/// Says whether the capture worker must be stopped before an event goes
/// to the recorder: a press of the record key that is the user's own ends
/// a recording, and the capture ends with it. Whoever stops the worker
/// hands the chords that were still queued to the recorder with the
/// event.
pub fn capture_must_stop(event: &Event, recorder: &Recorder, from_led: bool) -> (stop: bool)
    ensures
        stop == (*event == Event::MRKey && !from_led && recorder@ is Recording),
{
    match event {
        Event::MRKey => !from_led && recorder.is_recording(),
        _ => false,
    }
}

/// The recorder's state after an event.
pub open spec fn recorder_after(
    state: StateView,
    event: Event,
    current_profile: Seq<char>,
    from_led: bool,
    pending: Seq<Seq<char>>,
    capture: CaptureStartView,
) -> StateView {
    match event {
        Event::MRKey => if from_led {
            state
        } else {
            state_after_mr_press(state, current_profile, pending)
        },
        Event::GKey(n) => state_after_gkey_press(state, n, capture),
        _ => state,
    }
}

/// The action that an event asks for, if it reaches the recorder.
pub open spec fn recorder_action(
    state: StateView,
    event: Event,
    current_profile: Seq<char>,
    from_led: bool,
    pending: Seq<Seq<char>>,
    capture: CaptureStartView,
) -> Option<ActionView> {
    match event {
        Event::MRKey => if from_led {
            None
        } else {
            Some(action_after_mr_press(state, current_profile, pending))
        },
        Event::GKey(n) if state is AwaitingGKey => Some(
            action_after_gkey_press(state, n, capture),
        ),
        _ => None,
    }
}

/// The view of an action, if there is one.
pub open spec fn action_view(action: Option<RecordingAction>) -> Option<ActionView> {
    match action {
        Some(a) => Some(a@),
        None => None,
    }
}

/// Hands an event to the recorder if it is the recorder's, and returns the
/// action to carry out.
///
/// The caller says what it found out for the event. For the record key:
/// whether the event is the echo of the worker's own write (`from_led`),
/// which swallows it; and, if a recording ends with it, the chords still
/// queued when the capture was stopped (`pending`). For a key of the key
/// group while one is awaited: how the start of the capture went
/// (`capture`). What does not apply to the event is not looked at. Every
/// other event leaves the recorder alone and yields `None`.
pub fn handle_event_for_recording(
    event: &Event,
    recorder: &mut Recorder,
    current_profile: &str,
    from_led: bool,
    pending: Vec<String>,
    capture: CaptureStart,
) -> (action: Option<RecordingAction>)
    ensures
        final(recorder)@ == recorder_after(
            old(recorder)@,
            *event,
            current_profile@,
            from_led,
            texts(pending@),
            capture@,
        ),
        action_view(action) == recorder_action(
            old(recorder)@,
            *event,
            current_profile@,
            from_led,
            texts(pending@),
            capture@,
        ),
{
    match event {
        Event::MRKey => {
            if from_led {
                return None;
            }
            Some(recorder.on_mr_press(current_profile, pending))
        },
        Event::GKey(n) => {
            if recorder.is_awaiting() {
                Some(recorder.on_gkey_press(*n, capture))
            } else {
                None
            }
        },
        _ => None,
    }
}

/// The capture worker runs exactly while the recorder records. A
/// recording ends with an event exactly when the worker had to be stopped
/// for it, and one begins exactly when the event was routed as the
/// selection of a key and the worker has started.
pub proof fn capture_runs_while_recording(
    state: StateView,
    event: Event,
    current_profile: Seq<char>,
    from_led: bool,
    pending: Seq<Seq<char>>,
    capture: CaptureStartView,
)
    ensures
        ({
            let next = recorder_after(state, event, current_profile, from_led, pending, capture);
            &&& (state is Recording && !(next is Recording)) <==> (event == Event::MRKey
                && !from_led && state is Recording)
            &&& (!(state is Recording) && next is Recording) <==> (route_of(event, state)
                is SelectKey && capture is Started)
        }),
{
}

/// The transition table, row by row. A press of the record key that is
/// the user's own: from idle the recorder awaits a key for the current
/// profile; while it awaits one, the press cancels; while it records, the
/// press ends the recording, which yields the macro of all chords captured,
/// those still queued included, or a cancellation if there are none. A key
/// of the key group while one is awaited starts the recording for that
/// key, or, if the capture could not start, leads back to idle with an
/// error. An echo of the worker's own write is swallowed. Chords drained
/// from the queue join those captured so far while a recording runs. Every
/// other pair of state and event leaves the state as it is and asks for
/// nothing.
pub proof fn transition_table(
    state: StateView,
    event: Event,
    current_profile: Seq<char>,
    from_led: bool,
    pending: Seq<Seq<char>>,
    capture: CaptureStartView,
    chords: Seq<Seq<char>>,
)
    ensures
        crate::recording::state_after_chords(state, chords) == (match state {
            StateView::Recording { profile, gkey, captured_keys } => StateView::Recording {
                profile,
                gkey,
                captured_keys: captured_keys + chords,
            },
            _ => state,
        }),
        ({
            let next = recorder_after(state, event, current_profile, from_led, pending, capture);
            let action = recorder_action(
                state,
                event,
                current_profile,
                from_led,
                pending,
                capture,
            );
            if event == Event::MRKey && !from_led {
                match state {
                    StateView::Idle => next == (StateView::AwaitingGKey {
                        profile: current_profile,
                    }) && action == Some(ActionView::EnterAwaiting),
                    StateView::AwaitingGKey { .. } => next == StateView::Idle && action == Some(
                        ActionView::CancelledNoGKey,
                    ),
                    StateView::Recording { profile, gkey, captured_keys } => next
                        == StateView::Idle && action == Some(
                        if captured_keys.len() + pending.len() == 0 {
                            ActionView::CancelledEmpty
                        } else {
                            ActionView::SaveMacro {
                                profile,
                                gkey,
                                sequence: crate::recording::sequence_text(captured_keys + pending),
                            }
                        },
                    ),
                }
            } else if state is AwaitingGKey && event is GKey {
                if capture is Started {
                    next == (StateView::Recording {
                        profile: state->AwaitingGKey_profile,
                        gkey: event->GKey_0,
                        captured_keys: Seq::empty(),
                    }) && action == Some(ActionView::StartedRecording { gkey: event->GKey_0 })
                } else {
                    next == StateView::Idle && action == Some(
                        ActionView::Error(crate::recording::capture_error_text(capture)),
                    )
                }
            } else {
                next == state && action is None
            }
        }),
{
}

/// A message for the user's desktop.
#[derive(Debug, PartialEq, Eq)]
pub struct Notice {
    pub title: String,
    pub body: Option<String>,
}

/// A message with its texts as sequences of characters.
pub struct NoticeView {
    pub title: Seq<char>,
    pub body: Option<Seq<char>>,
}

impl View for Notice {
    type V = NoticeView;

    open spec fn view(&self) -> NoticeView {
        NoticeView {
            title: self.title@,
            body: match self.body {
                Some(b) => Some(b@),
                None => None,
            },
        }
    }
}

/// The view of a message, if there is one.
pub open spec fn notice_view(notice: Option<Notice>) -> Option<NoticeView> {
    match notice {
        Some(n) => Some(n@),
        None => None,
    }
}

/// What the ordinary handling of an event asks for.
#[derive(Debug, PartialEq, Eq)]
pub enum Dispatch {
    /// Carry out this macro.
    RunMacro(Macro),
    /// The profile changed: light its indicator and, if there is a
    /// message, show it.
    SwitchProfile { profile: u8, notice: Option<Notice> },
    /// Nothing.
    Nothing,
}

/// What the ordinary handling asks for, with its texts as sequences of
/// characters.
pub enum DispatchView {
    RunMacro(MacroView),
    SwitchProfile { profile: u8, notice: Option<NoticeView> },
    Nothing,
}

impl View for Dispatch {
    type V = DispatchView;

    open spec fn view(&self) -> DispatchView {
        match *self {
            Dispatch::RunMacro(m) => DispatchView::RunMacro(m@),
            Dispatch::SwitchProfile { profile, notice } => DispatchView::SwitchProfile {
                profile,
                notice: notice_view(notice),
            },
            Dispatch::Nothing => DispatchView::Nothing,
        }
    }
}

/// The message that announces profile `n`.
pub open spec fn profile_notice(n: u8) -> NoticeView {
    NoticeView { title: "Profile M"@ + decimal_text(n as nat), body: None }
}

/// What the ordinary handling of an event asks for: a key of the key
/// group runs its macro of the current profile, if the store has one; a
/// profile key switches to its profile, unless that profile is current
/// already, and announces it if the store says so; nothing else does
/// anything.
pub open spec fn dispatch_of(
    event: Event,
    store: Map<Seq<char>, Map<Seq<char>, MacroView>>,
    notify: bool,
    current_profile: Seq<char>,
) -> DispatchView {
    match event {
        Event::GKey(n) => match stored_macro(store, current_profile, macro_name_text(n)) {
            Some(m) => DispatchView::RunMacro(m),
            None => DispatchView::Nothing,
        },
        Event::MKey(n) => if profile_name_text(n) != current_profile {
            DispatchView::SwitchProfile {
                profile: n,
                notice: if notify {
                    Some(profile_notice(n))
                } else {
                    None
                },
            }
        } else {
            DispatchView::Nothing
        },
        _ => DispatchView::Nothing,
    }
}

/// The current profile after the ordinary handling of an event.
pub open spec fn profile_after(event: Event, current_profile: Seq<char>) -> Seq<char> {
    match event {
        Event::MKey(n) => profile_name_text(n),
        _ => current_profile,
    }
}

/// Handles an event that is not the recorder's and says what to do.
///
/// A profile key for the profile that is current already does nothing: the
/// device echoes the indicator's command as a press of that key, and the
/// echo must not switch the profile again.
pub fn handle_event(event: &Event, config: &Config, current_profile: &mut String) -> (dispatch:
    Dispatch)
    ensures
        dispatch@ == dispatch_of(*event, config.store(), config.notify.0, old(current_profile)@),
        final(current_profile)@ == profile_after(*event, old(current_profile)@),
{
    match event {
        Event::GKey(n) => {
            let name = macro_name(*n);
            match config.get_macro(current_profile.as_str(), name.as_str()) {
                Some(m) => Dispatch::RunMacro(m.clone()),
                None => Dispatch::Nothing,
            }
        },
        Event::MKey(n) => {
            let new_profile = profile_name(*n);
            if !same_text(current_profile.as_str(), new_profile.as_str()) {
                *current_profile = new_profile;
                let notice = if config.notify.0 {
                    let mut title = "Profile M".to_owned();
                    push_decimal(&mut title, *n);
                    Some(Notice { title, body: None })
                } else {
                    None
                };
                Dispatch::SwitchProfile { profile: *n, notice }
            } else {
                Dispatch::Nothing
            }
        },
        _ => Dispatch::Nothing,
    }
}

/// A macro to be written to the store's file, with what the user is told
/// once that has gone well.
#[derive(Debug, PartialEq, Eq)]
pub struct SaveRequest {
    pub gkey: u8,
    pub sequence: String,
}

/// A request with its text as a sequence of characters.
pub struct SaveRequestView {
    pub gkey: u8,
    pub sequence: Seq<char>,
}

impl View for SaveRequest {
    type V = SaveRequestView;

    open spec fn view(&self) -> SaveRequestView {
        SaveRequestView { gkey: self.gkey, sequence: self.sequence@ }
    }
}

/// What a recording action asks of the outside world.
#[derive(Debug, PartialEq, Eq)]
pub struct ActionPlan {
    /// Commands for the indicator worker, in this order.
    pub leds: Vec<LedCommand>,
    /// A message to show.
    pub notice: Option<Notice>,
    /// The macro that was put into the store and must now be written to
    /// its file.
    pub save: Option<SaveRequest>,
}

/// The commands that a recording action sends to the indicator worker.
pub open spec fn action_leds(action: ActionView) -> Seq<LedCommand> {
    match action {
        ActionView::NoAction => Seq::empty(),
        ActionView::EnterAwaiting => seq![
            LedCommand::SetMrLed(true),
            LedCommand::SetAllGKeysLed { r: 255, g: 255, b: 255 },
        ],
        ActionView::StartedRecording { gkey } => seq![
            LedCommand::SetGKeysRecording { selected_gkey: gkey },
            LedCommand::StartMrFlashing,
        ],
        ActionView::SaveMacro { .. } => seq![
            LedCommand::QuickFlashMr { count: MR_QUICK_FLASH_COUNT },
            LedCommand::TurnOffGKeys,
        ],
        ActionView::CancelledEmpty => seq![LedCommand::StopMrFlashing, LedCommand::TurnOffGKeys],
        ActionView::CancelledNoGKey => seq![LedCommand::SetMrLed(false), LedCommand::TurnOffGKeys],
        ActionView::Error(_) => seq![LedCommand::StopMrFlashing, LedCommand::TurnOffGKeys],
    }
}

/// The message that a recording action shows at once.
pub open spec fn action_notice(action: ActionView) -> Option<NoticeView> {
    match action {
        ActionView::StartedRecording { gkey } => Some(
            NoticeView {
                title: "Recording G"@ + decimal_text(gkey as nat),
                body: Some("Press keys, then MR to stop"@),
            },
        ),
        ActionView::CancelledEmpty => Some(
            NoticeView { title: "Recording cancelled"@, body: Some("No keys were captured"@) },
        ),
        ActionView::Error(message) => Some(
            NoticeView { title: "Recording error"@, body: Some(message) },
        ),
        _ => None,
    }
}

/// The macro that a recording action asks to have written.
pub open spec fn action_save(action: ActionView) -> Option<SaveRequestView> {
    match action {
        ActionView::SaveMacro { gkey, sequence, .. } => Some(SaveRequestView { gkey, sequence }),
        _ => None,
    }
}

/// The store after a recording action: a saved macro stands under its
/// key's name in its profile, as a sequence of chords.
pub open spec fn store_after_action(
    store: Map<Seq<char>, Map<Seq<char>, MacroView>>,
    action: ActionView,
) -> Map<Seq<char>, Map<Seq<char>, MacroView>> {
    match action {
        ActionView::SaveMacro { profile, gkey, sequence } => store.insert(
            profile,
            crate::config::macros_of(store, profile).insert(
                macro_name_text(gkey),
                MacroView { hotkey_type: HotkeyType::Sequence, action: sequence },
            ),
        ),
        _ => store,
    }
}

/// The view of a request, if there is one.
pub open spec fn save_view(save: Option<SaveRequest>) -> Option<SaveRequestView> {
    match save {
        Some(s) => Some(s@),
        None => None,
    }
}

/// Carries out the part of a recording action that concerns the store and
/// says what is left to do outside: the commands for the lights, the
/// message to show, and whether the store must be written to its file.
pub fn handle_recording_action(action: RecordingAction, config: &mut Config) -> (plan: ActionPlan)
    ensures
        plan.leds@ == action_leds(action@),
        notice_view(plan.notice) == action_notice(action@),
        save_view(plan.save) == action_save(action@),
        final(config)@ == (ConfigView {
            profiles: store_after_action(old(config).store(), action@),
            ..old(config)@
        }),
{
    let mut leds: Vec<LedCommand> = Vec::new();
    let mut notice: Option<Notice> = None;
    let mut save: Option<SaveRequest> = None;
    match action {
        RecordingAction::NoAction => {},
        RecordingAction::EnterAwaiting => {
            leds.push(LedCommand::SetMrLed(true));
            leds.push(LedCommand::SetAllGKeysLed { r: 255, g: 255, b: 255 });
        },
        RecordingAction::StartedRecording { gkey } => {
            leds.push(LedCommand::SetGKeysRecording { selected_gkey: gkey });
            leds.push(LedCommand::StartMrFlashing);
            let mut title = "Recording G".to_owned();
            push_decimal(&mut title, gkey);
            notice = Some(Notice { title, body: Some("Press keys, then MR to stop".to_owned()) });
        },
        RecordingAction::SaveMacro { profile, gkey, sequence } => {
            leds.push(LedCommand::QuickFlashMr { count: MR_QUICK_FLASH_COUNT });
            leds.push(LedCommand::TurnOffGKeys);
            let name = macro_name(gkey);
            config.set_macro(
                profile.as_str(),
                name.as_str(),
                Macro { hotkey_type: HotkeyType::Sequence, action: sequence.clone() },
            );
            save = Some(SaveRequest { gkey, sequence });
        },
        RecordingAction::CancelledEmpty => {
            leds.push(LedCommand::StopMrFlashing);
            leds.push(LedCommand::TurnOffGKeys);
            notice = Some(
                Notice {
                    title: "Recording cancelled".to_owned(),
                    body: Some("No keys were captured".to_owned()),
                },
            );
        },
        RecordingAction::CancelledNoGKey => {
            leds.push(LedCommand::SetMrLed(false));
            leds.push(LedCommand::TurnOffGKeys);
        },
        RecordingAction::Error(message) => {
            leds.push(LedCommand::StopMrFlashing);
            leds.push(LedCommand::TurnOffGKeys);
            notice = Some(Notice { title: "Recording error".to_owned(), body: Some(message) });
        },
    }
    assert(leds@ =~= action_leds(action@));
    ActionPlan { leds, notice, save }
}

/// The message after the store was written for a saved macro: what was
/// recorded if that went well, else that it failed and why.
pub open spec fn save_notice_of(save: SaveRequestView, failure: Option<Seq<char>>) -> NoticeView {
    match failure {
        Some(reason) => NoticeView {
            title: "Recording failed"@,
            body: Some("Could not save: "@ + reason),
        },
        None => NoticeView {
            title: "Recorded G"@ + decimal_text(save.gkey as nat),
            body: Some(save.sequence),
        },
    }
}

/// Writes the message that follows the attempt to write the store's file.
/// `failure` is what went wrong, if anything did. The macro stays in the
/// store either way, so that the next write that succeeds carries it.
pub fn save_notice(save: &SaveRequest, failure: Option<&str>) -> (notice: Notice)
    ensures
        notice@ == save_notice_of(save@, str_text(failure)),
{
    match failure {
        Some(reason) => {
            let mut body = "Could not save: ".to_owned();
            body.append(reason);
            Notice { title: "Recording failed".to_owned(), body: Some(body) }
        },
        None => {
            let mut title = "Recorded G".to_owned();
            push_decimal(&mut title, save.gkey);
            Notice { title, body: Some(save.sequence.clone()) }
        },
    }
}

/// Whether the record indicator shows the recorder's state: dark and
/// still while idle, lit and still while a key is awaited, flashing while
/// a recording runs.
pub open spec fn light_shows(state: StateView, light: MrLight) -> bool {
    match state {
        StateView::Idle => !light.worker.flashing && !light.lit,
        StateView::AwaitingGKey { .. } => !light.worker.flashing && light.lit,
        StateView::Recording { .. } => light.worker.flashing,
    }
}

/// The record indicator after the commands of an action, if there is one.
pub open spec fn light_after_action(light: MrLight, action: Option<ActionView>, now: u64) -> MrLight {
    match action {
        Some(a) => light_after_commands(light, action_leds(a), now),
        None => light,
    }
}

/// The record indicator follows the recorder. If it shows the recorder's
/// state before an event, it shows the state after the event once the
/// worker has carried out the commands of the action; and neither a wait
/// that runs out nor a change of profile makes it show anything else. In
/// particular the indicator is dark and still whenever the recorder is
/// idle again.
pub proof fn record_indicator_follows_recorder(
    state: StateView,
    light: MrLight,
    event: Event,
    current_profile: Seq<char>,
    from_led: bool,
    pending: Seq<Seq<char>>,
    capture: CaptureStartView,
    profile: u8,
    now: u64,
)
    requires
        light_shows(state, light),
    ensures
        light_shows(
            recorder_after(state, event, current_profile, from_led, pending, capture),
            light_after_action(
                light,
                recorder_action(state, event, current_profile, from_led, pending, capture),
                now,
            ),
        ),
        light_shows(state, light_after(light, WorkerInput::Timeout, now)),
        light_shows(
            state,
            light_after(light, WorkerInput::Command(LedCommand::SetProfileLed(profile)), now),
        ),
{
    reveal_with_fuel(light_after_commands, 3);
    reveal_with_fuel(crate::led::mr_lit_after, 3);
    colors_keep_the_record_indicator(true, 255, 255, 255, 0);
    colors_keep_the_record_indicator(false, 0, 0, 0, 0);
    quick_flash_ends_dark(light.lit, MR_QUICK_FLASH_COUNT as nat);
    assert(crate::events::profile_led_report(profile)[2] != crate::events::mr_led_report(true)[2]);
    let action = recorder_action(state, event, current_profile, from_led, pending, capture);
    match action {
        Some(a) => {
            let cmds = action_leds(a);
            match a {
                ActionView::StartedRecording { gkey } => {
                    colors_keep_the_record_indicator(light.lit, 0, 0, 0, gkey);
                    assert(cmds.drop_last() =~= seq![
                        LedCommand::SetGKeysRecording { selected_gkey: gkey },
                    ]);
                    assert(cmds.drop_last().drop_last() =~= Seq::<LedCommand>::empty());
                },
                ActionView::NoAction => {},
                _ => {
                    assert(cmds.drop_last() =~= seq![cmds[0]]);
                    assert(cmds.drop_last().drop_last() =~= Seq::<LedCommand>::empty());
                },
            }
        },
        None => {},
    }
}

} // verus!
