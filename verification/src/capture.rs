//! Key capture: from raw key transitions of the main keyboard to chords
//! such as `ctrl+alt+t`.
//!
//! The worker that reads the keyboard lives outside; it hands each
//! transition to this module as a key code and a value, and sends on the
//! chords that come back.

use crate::events::{G815_PRODUCT_ID, G815_VENDOR_ID};
use crate::keys::{
    KEY_0, KEY_1, KEY_2, KEY_3, KEY_4, KEY_5, KEY_6, KEY_7, KEY_8, KEY_9, KEY_A, KEY_APOSTROPHE,
    KEY_B, KEY_BACKSLASH, KEY_BACKSPACE, KEY_C, KEY_CAPSLOCK, KEY_COMMA, KEY_D, KEY_DELETE,
    KEY_DOT, KEY_DOWN, KEY_E, KEY_END, KEY_ENTER, KEY_EQUAL, KEY_ESC, KEY_F, KEY_F1, KEY_F10,
    KEY_F11, KEY_F12, KEY_F2, KEY_F3, KEY_F4, KEY_F5, KEY_F6, KEY_F7, KEY_F8, KEY_F9, KEY_G,
    KEY_GRAVE, KEY_H, KEY_HOME, KEY_I, KEY_INSERT, KEY_J, KEY_K, KEY_KP0, KEY_KP1, KEY_KP2,
    KEY_KP3, KEY_KP4, KEY_KP5, KEY_KP6, KEY_KP7, KEY_KP8, KEY_KP9, KEY_KPASTERISK, KEY_KPDOT,
    KEY_KPENTER, KEY_KPMINUS, KEY_KPPLUS, KEY_KPSLASH, KEY_L, KEY_LEFT, KEY_LEFTALT,
    KEY_LEFTBRACE, KEY_LEFTCTRL, KEY_LEFTMETA, KEY_LEFTSHIFT, KEY_M, KEY_MINUS, KEY_N, KEY_O,
    KEY_P, KEY_PAGEDOWN, KEY_PAGEUP, KEY_PAUSE, KEY_Q, KEY_R, KEY_RIGHT, KEY_RIGHTALT,
    KEY_RIGHTBRACE, KEY_RIGHTCTRL, KEY_RIGHTMETA, KEY_RIGHTSHIFT, KEY_S, KEY_SCROLLLOCK,
    KEY_SEMICOLON, KEY_SLASH, KEY_SPACE, KEY_SYSRQ, KEY_T, KEY_TAB, KEY_U, KEY_UP, KEY_V, KEY_W,
    KEY_X, KEY_Y, KEY_Z,
};
use crate::text::{join, joined, str_text, string_text, texts};
use vstd::prelude::*;

verus! {

/// Number of keys with a name.
pub const NAMED_KEYS: usize = 94;

/// The keys that a chord can end in, each with its name. Modifier keys
/// have no entry: they are held, not struck.
pub const KEY_NAMES: [(u16, &'static str); 94] = [
    (KEY_A, "a"),
    (KEY_B, "b"),
    (KEY_C, "c"),
    (KEY_D, "d"),
    (KEY_E, "e"),
    (KEY_F, "f"),
    (KEY_G, "g"),
    (KEY_H, "h"),
    (KEY_I, "i"),
    (KEY_J, "j"),
    (KEY_K, "k"),
    (KEY_L, "l"),
    (KEY_M, "m"),
    (KEY_N, "n"),
    (KEY_O, "o"),
    (KEY_P, "p"),
    (KEY_Q, "q"),
    (KEY_R, "r"),
    (KEY_S, "s"),
    (KEY_T, "t"),
    (KEY_U, "u"),
    (KEY_V, "v"),
    (KEY_W, "w"),
    (KEY_X, "x"),
    (KEY_Y, "y"),
    (KEY_Z, "z"),
    (KEY_1, "1"),
    (KEY_2, "2"),
    (KEY_3, "3"),
    (KEY_4, "4"),
    (KEY_5, "5"),
    (KEY_6, "6"),
    (KEY_7, "7"),
    (KEY_8, "8"),
    (KEY_9, "9"),
    (KEY_0, "0"),
    (KEY_F1, "f1"),
    (KEY_F2, "f2"),
    (KEY_F3, "f3"),
    (KEY_F4, "f4"),
    (KEY_F5, "f5"),
    (KEY_F6, "f6"),
    (KEY_F7, "f7"),
    (KEY_F8, "f8"),
    (KEY_F9, "f9"),
    (KEY_F10, "f10"),
    (KEY_F11, "f11"),
    (KEY_F12, "f12"),
    (KEY_ESC, "esc"),
    (KEY_TAB, "tab"),
    (KEY_CAPSLOCK, "capslock"),
    (KEY_SPACE, "space"),
    (KEY_ENTER, "enter"),
    (KEY_BACKSPACE, "backspace"),
    (KEY_DELETE, "delete"),
    (KEY_INSERT, "insert"),
    (KEY_HOME, "home"),
    (KEY_END, "end"),
    (KEY_PAGEUP, "pageup"),
    (KEY_PAGEDOWN, "pagedown"),
    (KEY_UP, "up"),
    (KEY_DOWN, "down"),
    (KEY_LEFT, "left"),
    (KEY_RIGHT, "right"),
    (KEY_MINUS, "minus"),
    (KEY_EQUAL, "equal"),
    (KEY_LEFTBRACE, "leftbrace"),
    (KEY_RIGHTBRACE, "rightbrace"),
    (KEY_SEMICOLON, "semicolon"),
    (KEY_APOSTROPHE, "apostrophe"),
    (KEY_GRAVE, "grave"),
    (KEY_BACKSLASH, "backslash"),
    (KEY_COMMA, "comma"),
    (KEY_DOT, "dot"),
    (KEY_SLASH, "slash"),
    (KEY_KP0, "kp0"),
    (KEY_KP1, "kp1"),
    (KEY_KP2, "kp2"),
    (KEY_KP3, "kp3"),
    (KEY_KP4, "kp4"),
    (KEY_KP5, "kp5"),
    (KEY_KP6, "kp6"),
    (KEY_KP7, "kp7"),
    (KEY_KP8, "kp8"),
    (KEY_KP9, "kp9"),
    (KEY_KPMINUS, "kpminus"),
    (KEY_KPPLUS, "kpplus"),
    (KEY_KPENTER, "kpenter"),
    (KEY_KPDOT, "kpdot"),
    (KEY_KPSLASH, "kpslash"),
    (KEY_KPASTERISK, "kpasterisk"),
    (KEY_SYSRQ, "printscreen"),
    (KEY_SCROLLLOCK, "scrolllock"),
    (KEY_PAUSE, "pause"),
];

/// The name that a table gives a key: that of its first entry for the key.
pub open spec fn lookup_name(table: Seq<(u16, &'static str)>, key: u16) -> Option<Seq<char>>
    decreases table.len(),
{
    if table.len() == 0 {
        None
    } else if table[0].0 == key {
        Some(table[0].1@)
    } else {
        lookup_name(table.drop_first(), key)
    }
}

/// The name of a key in chords, if it has one.
pub open spec fn key_name(key: u16) -> Option<Seq<char>> {
    lookup_name(KEY_NAMES@, key)
}

/// Gives the name of a key in chords; `None` for a modifier and for a key
/// without a name.
pub fn key_to_name(key: u16) -> (name: Option<&'static str>)
    ensures
        str_text(name) == key_name(key),
{
    let mut i: usize = 0;
    assert(KEY_NAMES@.skip(0) =~= KEY_NAMES@);
    while i < NAMED_KEYS
        invariant
            i <= NAMED_KEYS,
            KEY_NAMES@.len() == NAMED_KEYS,
            key_name(key) == lookup_name(KEY_NAMES@.skip(i as int), key),
        decreases NAMED_KEYS - i,
    {
        if KEY_NAMES[i].0 == key {
            return Some(KEY_NAMES[i].1);
        }
        assert(KEY_NAMES@.skip(i as int).drop_first() =~= KEY_NAMES@.skip(i + 1));
        i += 1;
    }
    None
}

/// Which modifiers are held.
#[derive(Debug, Clone, Copy, PartialEq, Eq)]
pub struct ModifierState {
    pub ctrl: bool,
    pub shift: bool,
    pub alt: bool,
    pub meta: bool,
}

impl Default for ModifierState {
    /// No modifier held.
    fn default() -> (m: ModifierState)
        ensures
            !m.ctrl && !m.shift && !m.alt && !m.meta,
    {
        ModifierState { ctrl: false, shift: false, alt: false, meta: false }
    }
}

/// Whether a key is one of the eight modifier keys.
pub open spec fn is_modifier_key(key: u16) -> bool {
    key == KEY_LEFTCTRL || key == KEY_RIGHTCTRL || key == KEY_LEFTSHIFT || key == KEY_RIGHTSHIFT
        || key == KEY_LEFTALT || key == KEY_RIGHTALT || key == KEY_LEFTMETA || key
        == KEY_RIGHTMETA
}

/// The modifiers held after a transition of `key`: a modifier key sets its
/// modifier to `pressed`, whichever of its two keys it is; any other key
/// changes nothing.
pub open spec fn modifiers_after(m: ModifierState, key: u16, pressed: bool) -> ModifierState {
    if key == KEY_LEFTCTRL || key == KEY_RIGHTCTRL {
        ModifierState { ctrl: pressed, ..m }
    } else if key == KEY_LEFTSHIFT || key == KEY_RIGHTSHIFT {
        ModifierState { shift: pressed, ..m }
    } else if key == KEY_LEFTALT || key == KEY_RIGHTALT {
        ModifierState { alt: pressed, ..m }
    } else if key == KEY_LEFTMETA || key == KEY_RIGHTMETA {
        ModifierState { meta: pressed, ..m }
    } else {
        m
    }
}

/// The names of the held modifiers, in the order in which every chord
/// lists them: ctrl, alt, shift, super.
pub open spec fn held_names(m: ModifierState) -> Seq<Seq<char>> {
    (if m.ctrl {
        seq!["ctrl"@]
    } else {
        Seq::empty()
    }) + (if m.alt {
        seq!["alt"@]
    } else {
        Seq::empty()
    }) + (if m.shift {
        seq!["shift"@]
    } else {
        Seq::empty()
    }) + (if m.meta {
        seq!["super"@]
    } else {
        Seq::empty()
    })
}

/// The chord of a key struck while `m` is held: the held modifiers and the
/// key's name with `+` between them.
pub open spec fn chord_text(m: ModifierState, name: Seq<char>) -> Seq<char> {
    joined(held_names(m).push(name), "+"@)
}

impl ModifierState {
    /// Takes a transition of `key` into account and says whether the key
    /// is a modifier.
    pub fn update(&mut self, key: u16, pressed: bool) -> (is_modifier: bool)
        ensures
            is_modifier == is_modifier_key(key),
            *final(self) == modifiers_after(*old(self), key, pressed),
    {
        if key == KEY_LEFTCTRL || key == KEY_RIGHTCTRL {
            self.ctrl = pressed;
            true
        } else if key == KEY_LEFTSHIFT || key == KEY_RIGHTSHIFT {
            self.shift = pressed;
            true
        } else if key == KEY_LEFTALT || key == KEY_RIGHTALT {
            self.alt = pressed;
            true
        } else if key == KEY_LEFTMETA || key == KEY_RIGHTMETA {
            self.meta = pressed;
            true
        } else {
            false
        }
    }

    /// Writes the chord of `key` struck with the held modifiers; `None`
    /// for a key without a name.
    pub fn format_with_key(&self, key: u16) -> (chord: Option<String>)
        ensures
            match key_name(key) {
                Some(name) => chord matches Some(c) && c@ == chord_text(*self, name),
                None => chord is None,
            },
    {
        let key_name = match key_to_name(key) {
            Some(name) => name,
            None => {
                return None;
            },
        };
        let mut parts: Vec<String> = Vec::new();
        assert(texts(parts@) =~= Seq::<Seq<char>>::empty());
        if self.ctrl {
            parts.push("ctrl".to_owned());
        }
        if self.alt {
            parts.push("alt".to_owned());
        }
        if self.shift {
            parts.push("shift".to_owned());
        }
        if self.meta {
            parts.push("super".to_owned());
        }
        assert(texts(parts@) =~= held_names(*self));
        parts.push(key_name.to_owned());
        assert(texts(parts@) =~= held_names(*self).push(key_name@));
        Some(join(&parts, "+"))
    }
}

/// Value of a transition that releases a key.
pub const KEY_RELEASE: i32 = 0;

/// Value of a transition that presses a key.
pub const KEY_PRESS: i32 = 1;

/// Value of a transition that repeats a held key.
pub const KEY_REPEAT: i32 = 2;

/// A key transition as the input layer reports it.
#[derive(Debug, Clone, Copy, PartialEq, Eq)]
pub struct KeyEvent {
    /// The key's code.
    pub code: u16,
    /// 0 for a release, 1 for a press, 2 for a repeat.
    pub value: i32,
}

/// The chord that a transition adds to the recording while `m` is held:
/// only the press of a named key that is no modifier adds one.
pub open spec fn captured(m: ModifierState, event: KeyEvent) -> Option<Seq<char>> {
    if event.value == KEY_PRESS && !is_modifier_key(event.code) {
        match key_name(event.code) {
            Some(name) => Some(chord_text(m, name)),
            None => None,
        }
    } else {
        None
    }
}

/// The modifiers held after a transition: a modifier is held from the
/// press of one of its keys until the release of one. A repeat, and any
/// value that is neither press nor release, changes nothing.
pub open spec fn modifiers_after_event(m: ModifierState, event: KeyEvent) -> ModifierState {
    if event.value == KEY_PRESS {
        modifiers_after(m, event.code, true)
    } else if event.value == KEY_RELEASE {
        modifiers_after(m, event.code, false)
    } else {
        m
    }
}

/// The modifiers held after a run of transitions.
pub open spec fn modifiers_after_all(m: ModifierState, events: Seq<KeyEvent>) -> ModifierState
    decreases events.len(),
{
    if events.len() == 0 {
        m
    } else {
        modifiers_after_event(modifiers_after_all(m, events.drop_last()), events.last())
    }
}

/// The chords that a run of transitions adds to the recording, in order.
pub open spec fn captured_all(m: ModifierState, events: Seq<KeyEvent>) -> Seq<Seq<char>>
    decreases events.len(),
{
    if events.len() == 0 {
        Seq::empty()
    } else {
        let before = captured_all(m, events.drop_last());
        match captured(modifiers_after_all(m, events.drop_last()), events.last()) {
            Some(chord) => before.push(chord),
            None => before,
        }
    }
}

/// Takes one transition: updates the held modifiers and returns the chord
/// to record, if the transition makes one. Only a press and a release
/// touch the modifiers, and only the press of a key that is no modifier
/// makes a chord; a repeat does neither.
pub fn capture_key_event(state: &mut ModifierState, event: KeyEvent) -> (chord: Option<String>)
    ensures
        *final(state) == modifiers_after_event(*old(state), event),
        string_text(chord) == captured(*old(state), event),
{
    if event.value == KEY_PRESS {
        if state.update(event.code, true) {
            None
        } else {
            state.format_with_key(event.code)
        }
    } else if event.value == KEY_RELEASE {
        state.update(event.code, false);
        None
    } else {
        None
    }
}

/// Takes a run of transitions in the order in which they were read and
/// returns the chords to record, in that order.
pub fn capture_events(state: &mut ModifierState, events: &[KeyEvent]) -> (chords: Vec<String>)
    ensures
        *final(state) == modifiers_after_all(*old(state), events@),
        texts(chords@) == captured_all(*old(state), events@),
{
    let mut chords: Vec<String> = Vec::new();
    let mut i: usize = 0;
    assert(texts(chords@) =~= Seq::<Seq<char>>::empty());
    while i < events.len()
        invariant
            i <= events@.len(),
            *state == modifiers_after_all(*old(state), events@.take(i as int)),
            texts(chords@) == captured_all(*old(state), events@.take(i as int)),
        decreases events@.len() - i,
    {
        let ghost before = texts(chords@);
        assert(events@.take(i + 1).drop_last() =~= events@.take(i as int));
        match capture_key_event(state, events[i]) {
            Some(chord) => {
                chords.push(chord);
                assert(texts(chords@) =~= before.push(chord@));
            },
            None => {},
        }
        i += 1;
    }
    assert(events@.take(i as int) =~= events@);
    chords
}

/// How long the worker sleeps after a read that failed, in milliseconds.
pub const CAPTURE_RETRY_MS: u64 = 10;

/// What the capture worker does after a read that failed.
#[derive(Debug, Clone, Copy, PartialEq, Eq)]
pub enum CaptureNext {
    /// Leave the loop.
    Stop,
    /// Sleep, then read again; `report` says whether the failure is worth
    /// a warning.
    Retry { pause_ms: u64, report: bool },
}

/// Decides what follows a failed read: the worker stops if it was asked
/// to; otherwise it sleeps briefly and reads again, whatever the failure
/// was. Only a failure other than "nothing to read yet" is reported.
pub fn after_read_error(stop_requested: bool, would_block: bool) -> (next: CaptureNext)
    ensures
        stop_requested ==> next == CaptureNext::Stop,
        !stop_requested ==> next == (CaptureNext::Retry {
            pause_ms: CAPTURE_RETRY_MS,
            report: !would_block,
        }),
{
    if stop_requested {
        CaptureNext::Stop
    } else {
        CaptureNext::Retry { pause_ms: CAPTURE_RETRY_MS, report: !would_block }
    }
}

/// What the host knows of one input device.
#[derive(Debug, Clone, Copy, PartialEq, Eq)]
pub struct InputRecord {
    pub vendor: u16,
    pub product: u16,
    /// Whether the device has the letter keys.
    pub has_letter_keys: bool,
    /// Whether the device has indicator lights.
    pub has_leds: bool,
}

/// Whether a record is the main keyboard of the supported device: it has
/// the device's identifiers, letter keys and lights. The interface of the
/// auxiliary keys has the same identifiers and neither of the other two.
pub open spec fn is_main_keyboard(r: InputRecord) -> bool {
    r.vendor == G815_VENDOR_ID && r.product == G815_PRODUCT_ID && r.has_letter_keys && r.has_leds
}

/// Finds the main keyboard among the host's input devices: the index of
/// the first record that is one, or `None`.
pub fn find_keyboard_evdev(records: &[InputRecord]) -> (found: Option<usize>)
    ensures
        match found {
            Some(i) => i < records@.len() && is_main_keyboard(records@[i as int]) && forall|k: int|
                0 <= k < i ==> !is_main_keyboard(#[trigger] records@[k]),
            None => forall|k: int|
                0 <= k < records@.len() ==> !is_main_keyboard(#[trigger] records@[k]),
        },
{
    let mut i: usize = 0;
    while i < records.len()
        invariant
            i <= records@.len(),
            forall|k: int| 0 <= k < i ==> !is_main_keyboard(#[trigger] records@[k]),
        decreases records@.len() - i,
    {
        let r = &records[i];
        if r.vendor == G815_VENDOR_ID && r.product == G815_PRODUCT_ID && r.has_letter_keys
            && r.has_leds {
            return Some(i);
        }
        i += 1;
    }
    None
}

proof fn named_key_is_listed(table: Seq<(u16, &'static str)>, key: u16)
    requires
        lookup_name(table, key) is Some,
    ensures
        exists|i: int| 0 <= i < table.len() && (#[trigger] table[i]).0 == key,
    decreases table.len(),
{
    if table[0].0 != key {
        named_key_is_listed(table.drop_first(), key);
        let i = choose|i: int|
            0 <= i < table.drop_first().len() && (#[trigger] table.drop_first()[i]).0 == key;
        assert(table[i + 1].0 == key);
    }
}

/// A modifier key has no name, so no chord ends in a modifier.
pub proof fn modifiers_have_no_name(key: u16)
    requires
        is_modifier_key(key),
    ensures
        key_name(key) is None,
        forall|m: ModifierState, value: i32| captured(m, KeyEvent { code: key, value }) is None,
{
    if key_name(key) is Some {
        named_key_is_listed(KEY_NAMES@, key);
    }
}

/// Only a press makes a chord: a release and a repeat make none. A
/// modifier is held from its press until its release: the press of a
/// modifier key begins the hold, the release ends it, and a repeat in
/// between leaves it as it is.
pub proof fn only_presses_make_chords(m: ModifierState, event: KeyEvent)
    ensures
        event.value != KEY_PRESS ==> captured(m, event) is None,
        !is_modifier_key(event.code) ==> modifiers_after_event(m, event) == m,
        event.value != KEY_PRESS && event.value != KEY_RELEASE ==> modifiers_after_event(m, event)
            == m,
        event.value == KEY_PRESS && (event.code == KEY_LEFTCTRL || event.code == KEY_RIGHTCTRL)
            ==> modifiers_after_event(m, event).ctrl,
        event.value == KEY_PRESS && (event.code == KEY_LEFTALT || event.code == KEY_RIGHTALT)
            ==> modifiers_after_event(m, event).alt,
        event.value == KEY_PRESS && (event.code == KEY_LEFTSHIFT || event.code == KEY_RIGHTSHIFT)
            ==> modifiers_after_event(m, event).shift,
        event.value == KEY_PRESS && (event.code == KEY_LEFTMETA || event.code == KEY_RIGHTMETA)
            ==> modifiers_after_event(m, event).meta,
        event.value == KEY_RELEASE && (event.code == KEY_LEFTCTRL || event.code == KEY_RIGHTCTRL)
            ==> !modifiers_after_event(m, event).ctrl,
        event.value == KEY_RELEASE && (event.code == KEY_LEFTALT || event.code == KEY_RIGHTALT)
            ==> !modifiers_after_event(m, event).alt,
        event.value == KEY_RELEASE && (event.code == KEY_LEFTSHIFT || event.code
            == KEY_RIGHTSHIFT) ==> !modifiers_after_event(m, event).shift,
        event.value == KEY_RELEASE && (event.code == KEY_LEFTMETA || event.code == KEY_RIGHTMETA)
            ==> !modifiers_after_event(m, event).meta,
{
}

/// With no modifier held the chord of a key is its name; with all four
/// held it is `ctrl+alt+shift+super+` and the name.
pub proof fn chord_shapes(name: Seq<char>)
    ensures
        chord_text(ModifierState { ctrl: false, shift: false, alt: false, meta: false }, name)
            == name,
        chord_text(ModifierState { ctrl: true, shift: true, alt: true, meta: true }, name)
            == "ctrl"@ + "+"@ + "alt"@ + "+"@ + "shift"@ + "+"@ + "super"@ + "+"@ + name,
{
    let none = ModifierState { ctrl: false, shift: false, alt: false, meta: false };
    assert(held_names(none).push(name) =~= seq![name]);
    let all = ModifierState { ctrl: true, shift: true, alt: true, meta: true };
    let parts = held_names(all).push(name);
    assert(parts =~= seq!["ctrl"@, "alt"@, "shift"@, "super"@, name]);
    reveal_with_fuel(joined, 6);
    assert(parts.drop_last() =~= seq!["ctrl"@, "alt"@, "shift"@, "super"@]);
    assert(parts.drop_last().drop_last() =~= seq!["ctrl"@, "alt"@, "shift"@]);
    assert(parts.drop_last().drop_last().drop_last() =~= seq!["ctrl"@, "alt"@]);
    assert(parts.drop_last().drop_last().drop_last().drop_last() =~= seq!["ctrl"@]);
}

} // verus!
