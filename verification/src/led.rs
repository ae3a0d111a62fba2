//! The indicator worker: what it writes for each command, how it times the
//! slow flash, and how an input event is told from the echo of its own
//! write.
//!
//! The worker itself waits on a queue and writes to the device; neither
//! happens here. This module decides: given what the wait returned and the
//! time, it says which reports go out, in which order, and how long to wait
//! next.

use crate::events::{
    all_gkeys_led_command, all_gkeys_led_report, direct_mode_init_commands,
    direct_mode_init_reports, full_keyboard_color_commands, full_keyboard_color_reports,
    gkey_led_command, gkey_led_report, led_command, led_commit_command, led_commit_report,
    mr_led_command, mr_led_report, profile_led_report, reports_of, COMMIT, FAMILY_COLOR,
    FAMILY_MR,
};
use vstd::prelude::*;

verus! {

/// A command to the indicator worker.
#[derive(Debug, Clone, Copy, PartialEq, Eq)]
pub enum LedCommand {
    /// Switch the record indicator on or off.
    SetMrLed(bool),
    /// Light the indicator of one profile (1 to 3).
    SetProfileLed(u8),
    /// Colour all keys of the key group alike.
    SetAllGKeysLed { r: u8, g: u8, b: u8 },
    /// Show a recording: the selected key red, the others dark.
    SetGKeysRecording { selected_gkey: u8 },
    /// Start the slow flash of the record indicator.
    StartMrFlashing,
    /// Stop the flash and put the record indicator out.
    StopMrFlashing,
    /// Flash the record indicator quickly, `count` times.
    QuickFlashMr { count: u8 },
    /// Put the key group's lights out.
    TurnOffGKeys,
    /// Colour the whole keyboard alike.
    SetFullKeyboardColor { r: u8, g: u8, b: u8 },
    /// Give the key group its configured colour back, or put it out.
    RestoreGKeysColor { color: Option<(u8, u8, u8)> },
    /// Put everything out and stop.
    Shutdown,
}

/// Half period of the slow flash, in milliseconds.
pub const MR_FLASH_INTERVAL_MS: u64 = 500;

/// Half period of the quick flash, in milliseconds.
pub const MR_QUICK_FLASH_INTERVAL_MS: u64 = 125;

/// How long after a write to the record indicator an event from the record
/// key counts as its echo, in milliseconds.
pub const MR_LED_DEBOUNCE_MS: u64 = 30;

/// How long the worker waits for a command while nothing flashes, in
/// milliseconds.
pub const IDLE_WAIT_MS: u64 = 3_600_000;

/// One thing the worker does to the outside world.
#[derive(Debug, Clone, Copy, PartialEq, Eq)]
pub enum LedStep {
    /// Store the present wall-clock time in the self-write marker.
    MarkSelfWrite,
    /// Write this report to the device.
    Write([u8; 20]),
    /// Sleep for so many milliseconds.
    Pause(u64),
}

/// A step with the report as its bytes.
pub enum StepView {
    MarkSelfWrite,
    Write(Seq<u8>),
    Pause(u64),
}

impl View for LedStep {
    type V = StepView;

    open spec fn view(&self) -> StepView {
        match *self {
            LedStep::MarkSelfWrite => StepView::MarkSelfWrite,
            LedStep::Write(report) => StepView::Write(report@),
            LedStep::Pause(ms) => StepView::Pause(ms),
        }
    }
}

/// The steps of a list, each by its view.
pub open spec fn steps_view(steps: Seq<LedStep>) -> Seq<StepView> {
    steps.map_values(|s: LedStep| s@)
}

/// A write of each report of a list, in order.
pub open spec fn writes(reports: Seq<Seq<u8>>) -> Seq<StepView> {
    reports.map_values(|r: Seq<u8>| StepView::Write(r))
}

/// Switching the record indicator: the marker is stored first, then the
/// report is written.
pub open spec fn marked_mr_write(on: bool) -> Seq<StepView> {
    seq![StepView::MarkSelfWrite, StepView::Write(mr_led_report(on))]
}

/// A colour for the whole key group, made visible.
pub open spec fn gkeys_color_steps(r: u8, g: u8, b: u8) -> Seq<StepView> {
    seq![StepView::Write(all_gkeys_led_report(r, g, b)), StepView::Write(led_commit_report())]
}

/// The colour of key `gkey` while key `selected` is being recorded: red for
/// the selected key, dark for the others.
pub open spec fn recording_key_report(gkey: u8, selected: u8) -> Seq<u8> {
    gkey_led_report(gkey, if gkey == selected { 255u8 } else { 0u8 }, 0, 0)
}

/// The five keys of the key group coloured for a recording, made visible.
pub open spec fn recording_steps(selected: u8) -> Seq<StepView> {
    Seq::new(5, |i: int| StepView::Write(recording_key_report((i + 1) as u8, selected))).push(
        StepView::Write(led_commit_report()),
    )
}

/// One round of the quick flash: on, wait, off, wait.
pub open spec fn quick_flash_round() -> Seq<StepView> {
    marked_mr_write(true) + seq![StepView::Pause(MR_QUICK_FLASH_INTERVAL_MS)] + marked_mr_write(
        false,
    ) + seq![StepView::Pause(MR_QUICK_FLASH_INTERVAL_MS)]
}

/// `count` rounds of the quick flash.
pub open spec fn quick_flash_steps(count: nat) -> Seq<StepView>
    decreases count,
{
    if count == 0 {
        Seq::empty()
    } else {
        quick_flash_steps((count - 1) as nat) + quick_flash_round()
    }
}

/// The whole keyboard in one colour: the four initialisation commands, one
/// frame per key, and the commit.
pub open spec fn full_keyboard_steps(r: u8, g: u8, b: u8) -> Seq<StepView> {
    writes(direct_mode_init_reports()) + writes(full_keyboard_color_reports(r, g, b)) + seq![
        StepView::Write(led_commit_report()),
    ]
}

/// Everything out: the record indicator, then the key group, made visible.
pub open spec fn shutdown_steps() -> Seq<StepView> {
    marked_mr_write(false) + gkeys_color_steps(0, 0, 0)
}

/// What the worker does for a command, in order.
pub open spec fn command_steps(cmd: LedCommand) -> Seq<StepView> {
    match cmd {
        LedCommand::SetMrLed(on) => marked_mr_write(on),
        LedCommand::SetProfileLed(profile) => seq![StepView::Write(profile_led_report(profile))],
        LedCommand::SetAllGKeysLed { r, g, b } => gkeys_color_steps(r, g, b),
        LedCommand::SetGKeysRecording { selected_gkey } => recording_steps(selected_gkey),
        LedCommand::StartMrFlashing => marked_mr_write(true),
        LedCommand::StopMrFlashing => marked_mr_write(false),
        LedCommand::QuickFlashMr { count } => quick_flash_steps(count as nat),
        LedCommand::TurnOffGKeys => gkeys_color_steps(0, 0, 0),
        LedCommand::SetFullKeyboardColor { r, g, b } => full_keyboard_steps(r, g, b),
        LedCommand::RestoreGKeysColor { color } => match color {
            Some((r, g, b)) => gkeys_color_steps(r, g, b),
            None => gkeys_color_steps(0, 0, 0),
        },
        LedCommand::Shutdown => shutdown_steps(),
    }
}

impl LedCommand {
    /// Whether the worker can carry the command out: a profile indicator
    /// exists only for a profile whose bit fits the mask.
    pub open spec fn valid(self) -> bool {
        self matches LedCommand::SetProfileLed(profile) ==> profile <= 8
    }

    /// Tests `valid`.
    pub fn is_valid(&self) -> (ok: bool)
        ensures
            ok == self.valid(),
    {
        match self {
            LedCommand::SetProfileLed(profile) => *profile <= 8,
            _ => true,
        }
    }
}

/// What the worker's wait for a command returned.
#[derive(Debug, Clone, Copy, PartialEq, Eq)]
pub enum WorkerInput {
    /// A command arrived.
    Command(LedCommand),
    /// The wait ran out.
    Timeout,
    /// Nobody can send a command any more.
    Disconnected,
}

impl WorkerInput {
    /// Whether the worker can act on the input.
    pub open spec fn valid(self) -> bool {
        self matches WorkerInput::Command(cmd) ==> cmd.valid()
    }
}

/// The worker between two waits: whether the record indicator flashes,
/// which phase the flash is in, and when it last changed phase. Times are
/// milliseconds of a clock that never runs backwards.
#[derive(Debug, Clone, Copy, PartialEq, Eq)]
pub struct LedWorker {
    pub flashing: bool,
    pub flash_on: bool,
    pub last_flash: u64,
}

/// What the worker does after one wait.
#[derive(Debug, PartialEq, Eq)]
pub struct WorkerTurn {
    /// What to do, in this order.
    pub steps: Vec<LedStep>,
    /// Whether the worker stops after these steps.
    pub done: bool,
}

/// Milliseconds gone since the flash last changed phase; none if the clock
/// reads less than it did then.
pub open spec fn flash_elapsed(w: LedWorker, now: u64) -> int {
    if now >= w.last_flash {
        now - w.last_flash
    } else {
        0
    }
}

/// Whether a wait that ran out at `now` changes the phase of the flash.
pub open spec fn toggle_due(w: LedWorker, now: u64) -> bool {
    w.flashing && flash_elapsed(w, now) >= MR_FLASH_INTERVAL_MS
}

/// How long the worker waits for the next command: until the flash is due
/// to change phase, or an hour when nothing flashes.
pub open spec fn wait_for(w: LedWorker, now: u64) -> int {
    if !w.flashing {
        IDLE_WAIT_MS as int
    } else if flash_elapsed(w, now) >= MR_FLASH_INTERVAL_MS {
        0
    } else {
        MR_FLASH_INTERVAL_MS - flash_elapsed(w, now)
    }
}

/// The worker after an input that arrived at `now`.
pub open spec fn worker_after(w: LedWorker, input: WorkerInput, now: u64) -> LedWorker {
    match input {
        WorkerInput::Command(LedCommand::StartMrFlashing) => LedWorker {
            flashing: true,
            flash_on: true,
            last_flash: now,
        },
        WorkerInput::Command(LedCommand::StopMrFlashing)
        | WorkerInput::Command(LedCommand::QuickFlashMr { .. })
        | WorkerInput::Command(LedCommand::Shutdown) => LedWorker { flashing: false, ..w },
        WorkerInput::Command(_) => w,
        WorkerInput::Timeout => if toggle_due(w, now) {
            LedWorker { flashing: true, flash_on: !w.flash_on, last_flash: now }
        } else {
            w
        },
        WorkerInput::Disconnected => w,
    }
}

/// What the worker does for an input that arrived at `now`.
pub open spec fn worker_steps(w: LedWorker, input: WorkerInput, now: u64) -> Seq<StepView> {
    match input {
        WorkerInput::Command(cmd) => command_steps(cmd),
        WorkerInput::Timeout => if toggle_due(w, now) {
            marked_mr_write(!w.flash_on)
        } else {
            Seq::empty()
        },
        WorkerInput::Disconnected => Seq::empty(),
    }
}

/// Whether the worker stops after an input.
pub open spec fn worker_done(input: WorkerInput) -> bool {
    input == WorkerInput::Command(LedCommand::Shutdown) || input == WorkerInput::Disconnected
}

/// Appends the switch of the record indicator: the marker, then the write.
fn push_mr_write(steps: &mut Vec<LedStep>, on: bool)
    ensures
        steps_view(final(steps)@) == steps_view(old(steps)@) + marked_mr_write(on),
{
    steps.push(LedStep::MarkSelfWrite);
    steps.push(LedStep::Write(mr_led_command(on)));
    assert(steps_view(steps@) =~= steps_view(old(steps)@) + marked_mr_write(on));
}

/// Appends a colour for the whole key group and the commit.
fn push_gkeys_color(steps: &mut Vec<LedStep>, r: u8, g: u8, b: u8)
    ensures
        steps_view(final(steps)@) == steps_view(old(steps)@) + gkeys_color_steps(r, g, b),
{
    steps.push(LedStep::Write(all_gkeys_led_command(r, g, b)));
    steps.push(LedStep::Write(led_commit_command()));
    assert(steps_view(steps@) =~= steps_view(old(steps)@) + gkeys_color_steps(r, g, b));
}

/// Appends the colours of a recording and the commit.
fn push_recording(steps: &mut Vec<LedStep>, selected: u8)
    ensures
        steps_view(final(steps)@) == steps_view(old(steps)@) + recording_steps(selected),
{
    let ghost before = steps_view(steps@);
    let mut g: u8 = 1;
    while g <= 5
        invariant
            1 <= g <= 6,
            steps_view(steps@) == before + Seq::new(
                (g - 1) as nat,
                |i: int| StepView::Write(recording_key_report((i + 1) as u8, selected)),
            ),
        decreases 6 - g,
    {
        let red: u8 = if g == selected { 255 } else { 0 };
        let ghost prev = steps_view(steps@);
        steps.push(LedStep::Write(gkey_led_command(g, red, 0, 0)));
        assert(steps_view(steps@) =~= prev.push(
            StepView::Write(recording_key_report(g, selected)),
        ));
        assert(steps_view(steps@) =~= before + Seq::new(
            g as nat,
            |i: int| StepView::Write(recording_key_report((i + 1) as u8, selected)),
        ));
        g += 1;
    }
    let ghost prev = steps_view(steps@);
    steps.push(LedStep::Write(led_commit_command()));
    assert(steps_view(steps@) =~= prev.push(StepView::Write(led_commit_report())));
    assert(steps_view(steps@) =~= before + recording_steps(selected));
}

/// Appends `count` rounds of the quick flash.
fn push_quick_flash(steps: &mut Vec<LedStep>, count: u8)
    ensures
        steps_view(final(steps)@) == steps_view(old(steps)@) + quick_flash_steps(count as nat),
{
    let ghost before = steps_view(steps@);
    let mut done: u8 = 0;
    assert(steps_view(steps@) =~= before + quick_flash_steps(0));
    while done < count
        invariant
            done <= count,
            steps_view(steps@) == before + quick_flash_steps(done as nat),
        decreases count - done,
    {
        let ghost prev = steps_view(steps@);
        push_mr_write(steps, true);
        steps.push(LedStep::Pause(MR_QUICK_FLASH_INTERVAL_MS));
        assert(steps_view(steps@) =~= prev + marked_mr_write(true) + seq![
            StepView::Pause(MR_QUICK_FLASH_INTERVAL_MS),
        ]);
        let ghost mid = steps_view(steps@);
        push_mr_write(steps, false);
        steps.push(LedStep::Pause(MR_QUICK_FLASH_INTERVAL_MS));
        assert(steps_view(steps@) =~= mid + marked_mr_write(false) + seq![
            StepView::Pause(MR_QUICK_FLASH_INTERVAL_MS),
        ]);
        assert(steps_view(steps@) =~= prev + quick_flash_round());
        done += 1;
        assert(steps_view(steps@) =~= before + quick_flash_steps(done as nat));
    }
}

/// Appends a write of each report of a list.
fn push_writes(steps: &mut Vec<LedStep>, cmds: &[[u8; 20]])
    ensures
        steps_view(final(steps)@) == steps_view(old(steps)@) + writes(reports_of(cmds@)),
{
    let ghost before = steps_view(steps@);
    let mut i: usize = 0;
    assert(steps_view(steps@) =~= before + writes(reports_of(cmds@.take(0))));
    while i < cmds.len()
        invariant
            i <= cmds@.len(),
            steps_view(steps@) == before + writes(reports_of(cmds@.take(i as int))),
        decreases cmds@.len() - i,
    {
        let ghost prev = steps_view(steps@);
        steps.push(LedStep::Write(cmds[i]));
        assert(steps_view(steps@) =~= prev.push(StepView::Write(cmds@[i as int]@)));
        assert(writes(reports_of(cmds@.take(i + 1))) =~= writes(
            reports_of(cmds@.take(i as int)),
        ).push(StepView::Write(cmds@[i as int]@)));
        i += 1;
    }
    assert(cmds@.take(i as int) =~= cmds@);
}

/// Appends the steps of a command.
fn push_command(steps: &mut Vec<LedStep>, cmd: LedCommand)
    requires
        cmd.valid(),
    ensures
        steps_view(final(steps)@) == steps_view(old(steps)@) + command_steps(cmd),
{
    let ghost before = steps_view(steps@);
    match cmd {
        LedCommand::SetMrLed(on) => push_mr_write(steps, on),
        LedCommand::SetProfileLed(profile) => {
            steps.push(LedStep::Write(led_command(profile)));
            assert(steps_view(steps@) =~= before + command_steps(cmd));
        },
        LedCommand::SetAllGKeysLed { r, g, b } => push_gkeys_color(steps, r, g, b),
        LedCommand::SetGKeysRecording { selected_gkey } => push_recording(steps, selected_gkey),
        LedCommand::StartMrFlashing => push_mr_write(steps, true),
        LedCommand::StopMrFlashing => push_mr_write(steps, false),
        LedCommand::QuickFlashMr { count } => push_quick_flash(steps, count),
        LedCommand::TurnOffGKeys => push_gkeys_color(steps, 0, 0, 0),
        LedCommand::SetFullKeyboardColor { r, g, b } => {
            let init = direct_mode_init_commands();
            assert(reports_of(init@) =~= direct_mode_init_reports());
            push_writes(steps, init.as_slice());
            let frames = full_keyboard_color_commands(r, g, b);
            push_writes(steps, frames.as_slice());
            let ghost prev = steps_view(steps@);
            steps.push(LedStep::Write(led_commit_command()));
            assert(steps_view(steps@) =~= prev.push(StepView::Write(led_commit_report())));
            assert(steps_view(steps@) =~= before + full_keyboard_steps(r, g, b));
        },
        LedCommand::RestoreGKeysColor { color } => match color {
            Some((r, g, b)) => push_gkeys_color(steps, r, g, b),
            None => push_gkeys_color(steps, 0, 0, 0),
        },
        LedCommand::Shutdown => {
            push_mr_write(steps, false);
            push_gkeys_color(steps, 0, 0, 0);
            assert(steps_view(steps@) =~= before + shutdown_steps());
        },
    }
}

impl LedWorker {
    /// A worker that starts at `now` with nothing flashing.
    pub fn new(now: u64) -> (w: LedWorker)
        ensures
            w == (LedWorker { flashing: false, flash_on: false, last_flash: now }),
    {
        LedWorker { flashing: false, flash_on: false, last_flash: now }
    }

    /// How many milliseconds to wait for the next command at `now`.
    pub fn wait_ms(&self, now: u64) -> (ms: u64)
        ensures
            ms == wait_for(*self, now),
    {
        if self.flashing {
            MR_FLASH_INTERVAL_MS.saturating_sub(now.saturating_sub(self.last_flash))
        } else {
            IDLE_WAIT_MS
        }
    }

    /// Takes what the wait returned at `now` and says what to do: the
    /// steps in order and whether the worker then stops. A command is
    /// carried out in full; a wait that ran out changes the phase of the
    /// flash if half a period has gone; a closed queue stops the worker
    /// without a write.
    pub fn handle(&mut self, input: WorkerInput, now: u64) -> (turn: WorkerTurn)
        requires
            input.valid(),
        ensures
            *final(self) == worker_after(*old(self), input, now),
            steps_view(turn.steps@) == worker_steps(*old(self), input, now),
            turn.done == worker_done(input),
    {
        let mut steps: Vec<LedStep> = Vec::new();
        assert(steps_view(steps@) =~= Seq::<StepView>::empty());
        let mut done = false;
        match input {
            WorkerInput::Command(cmd) => {
                match cmd {
                    LedCommand::StartMrFlashing => {
                        self.flashing = true;
                        self.flash_on = true;
                        self.last_flash = now;
                    },
                    LedCommand::StopMrFlashing | LedCommand::QuickFlashMr { .. } => {
                        self.flashing = false;
                    },
                    LedCommand::Shutdown => {
                        self.flashing = false;
                        done = true;
                    },
                    _ => {},
                }
                push_command(&mut steps, cmd);
                assert(steps_view(steps@) =~= command_steps(cmd));
            },
            WorkerInput::Timeout => {
                if self.flashing && now.saturating_sub(self.last_flash) >= MR_FLASH_INTERVAL_MS {
                    self.flash_on = !self.flash_on;
                    self.last_flash = now;
                    push_mr_write(&mut steps, self.flash_on);
                    assert(steps_view(steps@) =~= marked_mr_write(!old(self).flash_on));
                }
            },
            WorkerInput::Disconnected => {
                done = true;
            },
        }
        WorkerTurn { steps, done }
    }
}

/// Whether a step writes to the record indicator.
pub open spec fn is_record_write(step: StepView) -> bool {
    step matches StepView::Write(r) && r.len() > 2 && r[2] == FAMILY_MR
}

/// Whether a step writes a colour, which shows only after a commit.
pub open spec fn is_color_write(step: StepView) -> bool {
    step matches StepView::Write(r) && r.len() > 3 && r[2] == FAMILY_COLOR && r[3] != COMMIT
}

/// Whether every write to the record indicator in a list of steps comes
/// directly after a store of the marker.
pub open spec fn record_writes_marked(steps: Seq<StepView>) -> bool {
    forall|i: int|
        0 <= i < steps.len() && is_record_write(#[trigger] steps[i]) ==> i > 0 && steps[i - 1]
            == StepView::MarkSelfWrite
}

/// Whether a list of steps writes a colour.
pub open spec fn has_color_write(steps: Seq<StepView>) -> bool {
    exists|i: int| 0 <= i < steps.len() && is_color_write(#[trigger] steps[i])
}

proof fn marked_concat(a: Seq<StepView>, b: Seq<StepView>)
    requires
        record_writes_marked(a),
        record_writes_marked(b),
    ensures
        record_writes_marked(a + b),
{
    let c = a + b;
    assert forall|i: int| 0 <= i < c.len() && is_record_write(#[trigger] c[i]) implies i > 0 && c[i
        - 1] == StepView::MarkSelfWrite by {
        if i < a.len() {
            assert(c[i] == a[i]);
        } else {
            assert(c[i] == b[i - a.len()]);
            assert(c[i - 1] == b[i - a.len() - 1]);
        }
    }
}

proof fn quick_flash_marked(count: nat)
    ensures
        record_writes_marked(quick_flash_steps(count)),
        !has_color_write(quick_flash_steps(count)),
    decreases count,
{
    if count > 0 {
        quick_flash_marked((count - 1) as nat);
        let head = quick_flash_steps((count - 1) as nat);
        let round = quick_flash_round();
        assert(record_writes_marked(round));
        marked_concat(head, round);
        let all = head + round;
        assert forall|i: int| 0 <= i < all.len() implies !is_color_write(#[trigger] all[i]) by {
            if i < head.len() {
                assert(all[i] == head[i]);
            } else {
                assert(all[i] == round[i - head.len()]);
            }
        }
    }
}

/// Store before write: whatever the worker does in one turn, each write to
/// the record indicator comes directly after a store of the marker. Whoever
/// sees the echo of such a write finds the marker set.
pub proof fn record_writes_follow_marker(w: LedWorker, input: WorkerInput, now: u64)
    ensures
        record_writes_marked(worker_steps(w, input, now)),
{
    match input {
        WorkerInput::Command(cmd) => {
            match cmd {
                LedCommand::QuickFlashMr { count } => {
                    quick_flash_marked(count as nat);
                },
                LedCommand::SetFullKeyboardColor { r, g, b } => {
                    let steps = full_keyboard_steps(r, g, b);
                    assert forall|i: int| 0 <= i < steps.len() implies !is_record_write(
                        #[trigger] steps[i],
                    ) by {
                        if 4 <= i < steps.len() - 1 {
                            assert(steps[i] == StepView::Write(
                                full_keyboard_color_reports(r, g, b)[i - 4],
                            ));
                        }
                    }
                },
                _ => {},
            }
        },
        _ => {},
    }
}

/// Colours become visible: a turn that writes a colour ends with the commit.
pub proof fn color_writes_end_with_commit(w: LedWorker, input: WorkerInput, now: u64)
    ensures
        has_color_write(worker_steps(w, input, now)) ==> worker_steps(w, input, now).last()
            == StepView::Write(led_commit_report()),
{
    match input {
        WorkerInput::Command(LedCommand::QuickFlashMr { count }) => {
            quick_flash_marked(count as nat);
        },
        _ => {},
    }
}

/// Release on every exit by command: the turn of a shutdown stops the flash,
/// puts the record indicator out, then the key group, commits, and is the
/// worker's last.
pub proof fn shutdown_puts_everything_out(w: LedWorker, now: u64)
    ensures
        worker_done(WorkerInput::Command(LedCommand::Shutdown)),
        !worker_after(w, WorkerInput::Command(LedCommand::Shutdown), now).flashing,
        worker_steps(w, WorkerInput::Command(LedCommand::Shutdown), now) == seq![
            StepView::MarkSelfWrite,
            StepView::Write(mr_led_report(false)),
            StepView::Write(all_gkeys_led_report(0, 0, 0)),
            StepView::Write(led_commit_report()),
        ],
{
    assert(shutdown_steps() =~= seq![
        StepView::MarkSelfWrite,
        StepView::Write(mr_led_report(false)),
        StepView::Write(all_gkeys_led_report(0, 0, 0)),
        StepView::Write(led_commit_report()),
    ]);
}

/// The wait ends when the flash is due: while the record indicator flashes
/// and the clock has not run backwards, a wait of `wait_for` milliseconds
/// that runs out changes the phase, and no shorter wait does.
pub proof fn wait_ends_at_toggle(w: LedWorker, now: u64, later: u64)
    requires
        w.flashing,
        w.last_flash <= now <= later,
    ensures
        later - now >= wait_for(w, now) ==> toggle_due(w, later),
        later - now < wait_for(w, now) ==> !toggle_due(w, later),
        wait_for(w, now) <= MR_FLASH_INTERVAL_MS,
{
}

/// The slow flash alternates: a phase change writes the opposite of the
/// phase before it and starts the next half period at the time of the
/// change.
pub proof fn flash_alternates(w: LedWorker, now: u64)
    requires
        toggle_due(w, now),
    ensures
        worker_after(w, WorkerInput::Timeout, now).flash_on == !w.flash_on,
        worker_after(w, WorkerInput::Timeout, now).flashing,
        worker_after(w, WorkerInput::Timeout, now).last_flash == now,
        worker_steps(w, WorkerInput::Timeout, now) == marked_mr_write(!w.flash_on),
{
}

/// The time of the last write to the record indicator, in milliseconds since
/// the epoch; 0 when no write waits for its echo.
#[derive(Debug, Clone, Copy, PartialEq, Eq)]
pub struct SelfWriteMarker {
    pub stamp: u64,
}

/// Whether an event of the record key that arrives at `now` is the echo of
/// the write that the marker remembers: a write is pending and less than
/// the debounce window has gone since. A clock that reads less than the
/// marker counts as no time gone.
pub open spec fn is_echo(stamp: u64, now: u64) -> bool {
    stamp != 0 && (if now >= stamp {
        now - stamp
    } else {
        0
    }) < MR_LED_DEBOUNCE_MS
}

/// The marker after an event was classified at `now`: cleared by an echo,
/// unchanged otherwise.
pub open spec fn marker_after(stamp: u64, now: u64) -> u64 {
    if is_echo(stamp, now) {
        0
    } else {
        stamp
    }
}

impl SelfWriteMarker {
    /// A marker with no write pending.
    pub fn new() -> (m: SelfWriteMarker)
        ensures
            m.stamp == 0,
    {
        SelfWriteMarker { stamp: 0 }
    }

    /// Remembers a write to the record indicator that is about to happen at
    /// `now`.
    pub fn record_write(&mut self, now: u64)
        ensures
            final(self).stamp == now,
    {
        self.stamp = now;
    }

    /// Classifies an event of the record key that arrived at `now`: `true`
    /// if it is the echo of the worker's own write, which clears the
    /// marker; `false` if it is the user's, which leaves the marker as it is.
    pub fn is_mr_event_from_led(&mut self, now: u64) -> (from_led: bool)
        ensures
            from_led == is_echo(old(self).stamp, now),
            final(self).stamp == marker_after(old(self).stamp, now),
    {
        let write_time = self.stamp;
        if write_time == 0 {
            return false;
        }
        if now.saturating_sub(write_time) < MR_LED_DEBOUNCE_MS {
            self.stamp = 0;
            true
        } else {
            false
        }
    }
}

/// One echo per write: an event within the window after a write is an echo,
/// and once it has been classified no later event is, until the next write.
/// With no write pending no event is an echo, and an event after the window
/// is none and leaves the marker for the next write to overwrite.
pub proof fn echo_is_consumed_once(stamp: u64, now: u64, again: u64)
    ensures
        stamp != 0 && stamp <= now < stamp + MR_LED_DEBOUNCE_MS ==> is_echo(stamp, now)
            && !is_echo(marker_after(stamp, now), again),
        is_echo(stamp, now) ==> marker_after(stamp, now) == 0,
        !is_echo(0, now),
        now >= stamp + MR_LED_DEBOUNCE_MS ==> !is_echo(stamp, now) && marker_after(stamp, now)
            == stamp,
{
}

/// Whether the record indicator is lit after a list of steps, given
/// whether it was before: the last write to it decides.
pub open spec fn mr_lit_after(before: bool, steps: Seq<StepView>) -> bool
    decreases steps.len(),
{
    if steps.len() == 0 {
        before
    } else if steps.last() == StepView::Write(mr_led_report(true)) {
        true
    } else if steps.last() == StepView::Write(mr_led_report(false)) {
        false
    } else {
        mr_lit_after(before, steps.drop_last())
    }
}

/// What can be seen of the record indicator: whether the worker flashes
/// it, and whether it is lit.
pub struct MrLight {
    pub worker: LedWorker,
    pub lit: bool,
}

/// The record indicator after the worker has taken an input.
pub open spec fn light_after(light: MrLight, input: WorkerInput, now: u64) -> MrLight {
    MrLight {
        worker: worker_after(light.worker, input, now),
        lit: mr_lit_after(light.lit, worker_steps(light.worker, input, now)),
    }
}

/// The record indicator after the worker has taken a list of commands,
/// all at `now`.
pub open spec fn light_after_commands(light: MrLight, cmds: Seq<LedCommand>, now: u64) -> MrLight
    decreases cmds.len(),
{
    if cmds.len() == 0 {
        light
    } else {
        light_after(
            light_after_commands(light, cmds.drop_last(), now),
            WorkerInput::Command(cmds.last()),
            now,
        )
    }
}

/// A quick flash of at least one round leaves the record indicator dark;
/// one of no round leaves it as it was.
pub proof fn quick_flash_ends_dark(before: bool, count: nat)
    ensures
        mr_lit_after(before, quick_flash_steps(count)) == (if count == 0 {
            before
        } else {
            false
        }),
{
    if count > 0 {
        reveal_with_fuel(mr_lit_after, 3);
        let steps = quick_flash_steps(count);
        assert(steps.last() == StepView::Pause(MR_QUICK_FLASH_INTERVAL_MS));
        assert(steps.drop_last().last() == StepView::Write(mr_led_report(false)));
        assert(mr_led_report(true)[4] != mr_led_report(false)[4]);
    }
}

/// Colours leave the record indicator alone.
pub proof fn colors_keep_the_record_indicator(before: bool, r: u8, g: u8, b: u8, selected: u8)
    ensures
        mr_lit_after(before, gkeys_color_steps(r, g, b)) == before,
        mr_lit_after(before, recording_steps(selected)) == before,
{
    reveal_with_fuel(mr_lit_after, 8);
    let c = gkeys_color_steps(r, g, b);
    assert(c.drop_last() =~= seq![StepView::Write(all_gkeys_led_report(r, g, b))]);
    assert(c.drop_last().drop_last() =~= Seq::<StepView>::empty());
    assert(led_commit_report()[2] != mr_led_report(true)[2]);
    assert(all_gkeys_led_report(r, g, b)[2] != mr_led_report(true)[2]);
    let s = recording_steps(selected);
    let s5 = s.drop_last();
    let s4 = s5.drop_last();
    let s3 = s4.drop_last();
    let s2 = s3.drop_last();
    let s1 = s2.drop_last();
    let s0 = s1.drop_last();
    assert(s0 =~= Seq::<StepView>::empty());
    assert(recording_key_report(1, selected)[2] != mr_led_report(true)[2]);
    assert(recording_key_report(2, selected)[2] != mr_led_report(true)[2]);
    assert(recording_key_report(3, selected)[2] != mr_led_report(true)[2]);
    assert(recording_key_report(4, selected)[2] != mr_led_report(true)[2]);
    assert(recording_key_report(5, selected)[2] != mr_led_report(true)[2]);
    assert(s.last() == StepView::Write(led_commit_report()));
    assert(s5.last() == StepView::Write(recording_key_report(5, selected)));
    assert(s4.last() == StepView::Write(recording_key_report(4, selected)));
    assert(s3.last() == StepView::Write(recording_key_report(3, selected)));
    assert(s2.last() == StepView::Write(recording_key_report(2, selected)));
    assert(s1.last() == StepView::Write(recording_key_report(1, selected)));
}

} // verus!
