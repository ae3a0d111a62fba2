//! The recording state machine.
//!
//! A recording runs from the record key to the record key: the first
//! press asks for a key of the key group, that key starts the capture, and
//! the second press ends it and turns the captured chords into a macro.
//! The machine owns only state; whoever drives it starts and stops the
//! capture worker and tells the machine how that went.

use crate::text::{join, joined, texts};
use vstd::prelude::*;
use vstd::string::StringExecFns;

verus! {

/// Where a recording stands.
#[derive(Debug, PartialEq, Eq)]
pub enum RecordingState {
    /// No recording.
    Idle,
    /// The record key was pressed; the next key of the key group is the
    /// one to record for.
    AwaitingGKey { profile: String },
    /// Chords are being captured for `gkey` of `profile`.
    Recording { profile: String, gkey: u8, captured_keys: Vec<String> },
}

/// What the orchestrator has to do after a transition.
#[derive(Debug, PartialEq, Eq)]
pub enum RecordingAction {
    /// Nothing.
    NoAction,
    /// Show that a key is awaited: record indicator on, key group white.
    EnterAwaiting,
    /// Show the recording: the selected key red, the record indicator
    /// flashing.
    StartedRecording { gkey: u8 },
    /// Store the recorded macro and show success.
    SaveMacro { profile: String, gkey: u8, sequence: String },
    /// The recording ended with nothing captured: lights out.
    CancelledEmpty,
    /// The record key was pressed again before any key was selected:
    /// lights out.
    CancelledNoGKey,
    /// The capture could not start: lights out, tell the user.
    Error(String),
}

/// How the attempt to start the capture worker went.
#[derive(Debug, PartialEq, Eq)]
pub enum CaptureStart {
    /// The worker runs.
    Started,
    /// The main keyboard was not found.
    NotFound,
    /// The main keyboard could not be opened; the text says why.
    Failed(String),
}

/// A state with its texts as sequences of characters.
pub enum StateView {
    Idle,
    AwaitingGKey { profile: Seq<char> },
    Recording { profile: Seq<char>, gkey: u8, captured_keys: Seq<Seq<char>> },
}

/// An action with its texts as sequences of characters.
pub enum ActionView {
    NoAction,
    EnterAwaiting,
    StartedRecording { gkey: u8 },
    SaveMacro { profile: Seq<char>, gkey: u8, sequence: Seq<char> },
    CancelledEmpty,
    CancelledNoGKey,
    Error(Seq<char>),
}

/// The outcome of starting the capture with its text as a sequence of
/// characters.
pub enum CaptureStartView {
    Started,
    NotFound,
    Failed(Seq<char>),
}

impl View for RecordingState {
    type V = StateView;

    open spec fn view(&self) -> StateView {
        match *self {
            RecordingState::Idle => StateView::Idle,
            RecordingState::AwaitingGKey { profile } => StateView::AwaitingGKey {
                profile: profile@,
            },
            RecordingState::Recording { profile, gkey, captured_keys } => StateView::Recording {
                profile: profile@,
                gkey,
                captured_keys: texts(captured_keys@),
            },
        }
    }
}

impl View for RecordingAction {
    type V = ActionView;

    open spec fn view(&self) -> ActionView {
        match *self {
            RecordingAction::NoAction => ActionView::NoAction,
            RecordingAction::EnterAwaiting => ActionView::EnterAwaiting,
            RecordingAction::StartedRecording { gkey } => ActionView::StartedRecording { gkey },
            RecordingAction::SaveMacro { profile, gkey, sequence } => ActionView::SaveMacro {
                profile: profile@,
                gkey,
                sequence: sequence@,
            },
            RecordingAction::CancelledEmpty => ActionView::CancelledEmpty,
            RecordingAction::CancelledNoGKey => ActionView::CancelledNoGKey,
            RecordingAction::Error(message) => ActionView::Error(message@),
        }
    }
}

impl View for CaptureStart {
    type V = CaptureStartView;

    open spec fn view(&self) -> CaptureStartView {
        match *self {
            CaptureStart::Started => CaptureStartView::Started,
            CaptureStart::NotFound => CaptureStartView::NotFound,
            CaptureStart::Failed(reason) => CaptureStartView::Failed(reason@),
        }
    }
}

/// The text of a recorded macro: the chords in the order of capture, with
/// a comma and a space between each two.
pub open spec fn sequence_text(chords: Seq<Seq<char>>) -> Seq<char> {
    joined(chords, ", "@)
}

/// The message of the error that a failed start of the capture becomes.
pub open spec fn capture_error_text(capture: CaptureStartView) -> Seq<char> {
    match capture {
        CaptureStartView::Failed(reason) => "Failed to start capture: "@ + reason,
        _ => "Keyboard device not found"@,
    }
}

/// The state after a press of the record key. `pending` are the chords
/// that were still queued when the capture was stopped.
pub open spec fn state_after_mr_press(
    state: StateView,
    current_profile: Seq<char>,
    pending: Seq<Seq<char>>,
) -> StateView {
    match state {
        StateView::Idle => StateView::AwaitingGKey { profile: current_profile },
        StateView::AwaitingGKey { .. } => StateView::Idle,
        StateView::Recording { .. } => StateView::Idle,
    }
}

/// The action after a press of the record key.
pub open spec fn action_after_mr_press(
    state: StateView,
    current_profile: Seq<char>,
    pending: Seq<Seq<char>>,
) -> ActionView {
    match state {
        StateView::Idle => ActionView::EnterAwaiting,
        StateView::AwaitingGKey { .. } => ActionView::CancelledNoGKey,
        StateView::Recording { profile, gkey, captured_keys } => if (captured_keys + pending).len()
            == 0 {
            ActionView::CancelledEmpty
        } else {
            ActionView::SaveMacro {
                profile,
                gkey,
                sequence: sequence_text(captured_keys + pending),
            }
        },
    }
}

/// The state after a press of key `gkey` of the key group, given how the
/// start of the capture went.
pub open spec fn state_after_gkey_press(
    state: StateView,
    gkey: u8,
    capture: CaptureStartView,
) -> StateView {
    match state {
        StateView::AwaitingGKey { profile } => match capture {
            CaptureStartView::Started => StateView::Recording {
                profile,
                gkey,
                captured_keys: Seq::empty(),
            },
            _ => StateView::Idle,
        },
        _ => state,
    }
}

/// The action after a press of key `gkey` of the key group.
pub open spec fn action_after_gkey_press(
    state: StateView,
    gkey: u8,
    capture: CaptureStartView,
) -> ActionView {
    match state {
        StateView::AwaitingGKey { .. } => match capture {
            CaptureStartView::Started => ActionView::StartedRecording { gkey },
            _ => ActionView::Error(capture_error_text(capture)),
        },
        _ => ActionView::NoAction,
    }
}

/// The state after chords were drained from the capture queue: a
/// recording takes them in, in order; any other state drops them.
pub open spec fn state_after_chords(state: StateView, chords: Seq<Seq<char>>) -> StateView {
    match state {
        StateView::Recording { profile, gkey, captured_keys } => StateView::Recording {
            profile,
            gkey,
            captured_keys: captured_keys + chords,
        },
        _ => state,
    }
}

/// The recording state machine.
#[derive(Debug, PartialEq, Eq)]
pub struct Recorder {
    state: RecordingState,
}

impl View for Recorder {
    type V = StateView;

    closed spec fn view(&self) -> StateView {
        self.state@
    }
}

/// Moves the strings of `more` to the end of `all`, in order.
fn append_all(all: &mut Vec<String>, more: Vec<String>)
    ensures
        texts(final(all)@) == texts(old(all)@) + texts(more@),
{
    let mut more = more;
    let ghost before = texts(all@);
    let ghost added = texts(more@);
    all.append(&mut more);
    assert(texts(all@) =~= before + added);
}

impl Recorder {
    /// A machine with no recording.
    pub fn new() -> (recorder: Recorder)
        ensures
            recorder@ == StateView::Idle,
    {
        Recorder { state: RecordingState::Idle }
    }

    /// Whether chords are being captured.
    pub fn is_recording(&self) -> (yes: bool)
        ensures
            yes == (self@ is Recording),
    {
        match self.state {
            RecordingState::Recording { .. } => true,
            _ => false,
        }
    }

    /// Whether a key of the key group is awaited.
    pub fn is_awaiting(&self) -> (yes: bool)
        ensures
            yes == (self@ is AwaitingGKey),
    {
        match self.state {
            RecordingState::AwaitingGKey { .. } => true,
            _ => false,
        }
    }

    /// The state.
    pub fn state(&self) -> (state: &RecordingState)
        ensures
            state@ == self@,
    {
        &self.state
    }

    /// Takes a press of the record key.
    ///
    /// From idle the machine awaits a key for `current_profile`. While it
    /// awaits one, the press cancels. While it records, the press ends the
    /// recording: the caller has stopped the capture worker and hands over
    /// as `pending` the chords that were still queued, so that the last
    /// keystrokes are not lost; these follow the chords captured so far,
    /// and all of them together make the macro, or the recording is
    /// cancelled if there are none. In the other states `pending` is not
    /// looked at.
    pub fn on_mr_press(&mut self, current_profile: &str, pending: Vec<String>) -> (action:
        RecordingAction)
        ensures
            final(self)@ == state_after_mr_press(old(self)@, current_profile@, texts(pending@)),
            action@ == action_after_mr_press(old(self)@, current_profile@, texts(pending@)),
    {
        let mut old_state = RecordingState::Idle;
        std::mem::swap(&mut self.state, &mut old_state);
        match old_state {
            RecordingState::Idle => {
                self.state = RecordingState::AwaitingGKey { profile: current_profile.to_owned() };
                RecordingAction::EnterAwaiting
            },
            RecordingState::AwaitingGKey { .. } => RecordingAction::CancelledNoGKey,
            RecordingState::Recording { profile, gkey, captured_keys } => {
                let mut captured_keys = captured_keys;
                append_all(&mut captured_keys, pending);
                if captured_keys.len() == 0 {
                    RecordingAction::CancelledEmpty
                } else {
                    let sequence = join(&captured_keys, ", ");
                    RecordingAction::SaveMacro { profile, gkey, sequence }
                }
            },
        }
    }

    /// Takes a press of key `gkey` of the key group.
    ///
    /// Only a machine that awaits a key reacts. The caller has tried to
    /// start the capture worker and says in `capture` how that went: if
    /// the worker runs, the recording begins with nothing captured; if
    /// not, the machine falls back to idle and reports the error. In the
    /// other states nothing changes and `capture` is not looked at.
    pub fn on_gkey_press(&mut self, gkey: u8, capture: CaptureStart) -> (action: RecordingAction)
        ensures
            final(self)@ == state_after_gkey_press(old(self)@, gkey, capture@),
            action@ == action_after_gkey_press(old(self)@, gkey, capture@),
    {
        let mut old_state = RecordingState::Idle;
        std::mem::swap(&mut self.state, &mut old_state);
        match old_state {
            RecordingState::AwaitingGKey { profile } => match capture {
                CaptureStart::Started => {
                    let captured_keys: Vec<String> = Vec::new();
                    assert(texts(captured_keys@) =~= Seq::<Seq<char>>::empty());
                    self.state = RecordingState::Recording { profile, gkey, captured_keys };
                    RecordingAction::StartedRecording { gkey }
                },
                CaptureStart::Failed(reason) => {
                    let mut message = "Failed to start capture: ".to_owned();
                    message.append(reason.as_str());
                    RecordingAction::Error(message)
                },
                CaptureStart::NotFound => RecordingAction::Error(
                    "Keyboard device not found".to_owned(),
                ),
            },
            other => {
                self.state = other;
                RecordingAction::NoAction
            },
        }
    }

    /// Takes the chords drained from the capture queue, in the order in
    /// which they were queued. Outside a recording they are dropped.
    pub fn poll_captured_keys(&mut self, chords: Vec<String>)
        ensures
            final(self)@ == state_after_chords(old(self)@, texts(chords@)),
    {
        let mut old_state = RecordingState::Idle;
        std::mem::swap(&mut self.state, &mut old_state);
        match old_state {
            RecordingState::Recording { profile, gkey, captured_keys } => {
                let mut captured_keys = captured_keys;
                append_all(&mut captured_keys, chords);
                self.state = RecordingState::Recording { profile, gkey, captured_keys };
            },
            other => {
                self.state = other;
            },
        }
    }
}

impl Default for Recorder {
    fn default() -> (recorder: Recorder)
        ensures
            recorder@ == StateView::Idle,
    {
        Recorder::new()
    }
}

/// Chords reach the macro whenever they are drained: taking them from the
/// queue in one batch or in two, while the recording runs or when it ends,
/// gives the same recording and the same macro, with the chords in the
/// order in which they were queued. Outside a recording drained chords
/// change nothing.
pub proof fn drain_timing_is_immaterial(
    state: StateView,
    current_profile: Seq<char>,
    first: Seq<Seq<char>>,
    second: Seq<Seq<char>>,
)
    ensures
        state_after_chords(state_after_chords(state, first), second) == state_after_chords(
            state,
            first + second,
        ),
        action_after_mr_press(state_after_chords(state, first), current_profile, second)
            == action_after_mr_press(state, current_profile, first + second),
        state_after_mr_press(state_after_chords(state, first), current_profile, second)
            == state_after_mr_press(state, current_profile, first + second),
        !(state is Recording) ==> state_after_chords(state, first) == state,
{
    match state {
        StateView::Recording { profile, gkey, captured_keys } => {
            assert((captured_keys + first) + second =~= captured_keys + (first + second));
        },
        _ => {},
    }
}

/// A recording is entered in one way and left in one way: it begins
/// when a key of the key group is pressed while one is awaited and the
/// capture has started, and it ends with a press of the record key,
/// which always leads to idle. Whoever drives the machine therefore runs a
/// capture worker exactly while the machine records.
pub proof fn recording_begins_and_ends(
    state: StateView,
    current_profile: Seq<char>,
    pending: Seq<Seq<char>>,
    gkey: u8,
    capture: CaptureStartView,
    chords: Seq<Seq<char>>,
)
    ensures
        !(state_after_mr_press(state, current_profile, pending) is Recording),
        state_after_gkey_press(state, gkey, capture) is Recording <==> (state is Recording || (
        state is AwaitingGKey && capture is Started)),
        state_after_chords(state, chords) is Recording <==> state is Recording,
{
}

} // verus!
