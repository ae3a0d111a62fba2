//! The virtual keyboard: from key names, chords and texts to the key
//! transitions that replay them.
//!
//! The keyboard here is one on paper. It takes the calls of a keyboard and
//! writes down, in order, what a device has to emit; whoever owns the
//! device takes the list and emits it.

use crate::keys::{
    KEY_0, KEY_1, KEY_2, KEY_3, KEY_4, KEY_5, KEY_6, KEY_7, KEY_8, KEY_9, KEY_A, KEY_APOSTROPHE,
    KEY_B, KEY_BACKSLASH, KEY_BACKSPACE, KEY_C, KEY_CAPSLOCK, KEY_COMMA, KEY_D, KEY_DELETE,
    KEY_DOT, KEY_DOWN, KEY_E, KEY_END, KEY_ENTER, KEY_EQUAL, KEY_ESC, KEY_F, KEY_F1, KEY_F10,
    KEY_F11, KEY_F12, KEY_F13, KEY_F14, KEY_F15, KEY_F16, KEY_F17, KEY_F18, KEY_F19, KEY_F2,
    KEY_F20, KEY_F3, KEY_F4, KEY_F5, KEY_F6, KEY_F7, KEY_F8, KEY_F9, KEY_G, KEY_GRAVE, KEY_H,
    KEY_HOME, KEY_I, KEY_INSERT, KEY_J, KEY_K, KEY_L, KEY_LEFT, KEY_LEFTALT, KEY_LEFTBRACE,
    KEY_LEFTCTRL, KEY_LEFTMETA, KEY_LEFTSHIFT, KEY_M, KEY_MINUS, KEY_N, KEY_O, KEY_P,
    KEY_PAGEDOWN, KEY_PAGEUP, KEY_Q, KEY_R, KEY_RIGHT, KEY_RIGHTBRACE, KEY_S, KEY_SEMICOLON,
    KEY_SLASH, KEY_SPACE, KEY_T, KEY_TAB, KEY_U, KEY_UP, KEY_V, KEY_W, KEY_X, KEY_Y, KEY_Z,
};
use crate::text::{
    chars_of, has_prefix, pieces, split_on, split_text, starts_with, text_is, trim, trimmed,
    trimming,
};
use vstd::prelude::*;

verus! {

/// Event type of a synchronisation mark.
pub const EV_SYN: u16 = 0x00;

/// Event type of a key transition.
pub const EV_KEY: u16 = 0x01;

/// Code of the mark that ends a report.
pub const SYN_REPORT: u16 = 0x00;

/// Pause after each typed character, in milliseconds.
pub const TYPE_PAUSE_MS: u64 = 10;

/// Pause after each chord of a sequence, in milliseconds.
pub const CHORD_PAUSE_MS: u64 = 50;

/// One thing for the device to do.
#[derive(Debug, Clone, Copy, PartialEq, Eq)]
pub enum Emit {
    /// Emit an input event.
    Event { kind: u16, code: u16, value: i32 },
    /// Sleep for so many milliseconds.
    Pause(u64),
}

/// The mark that ends a report.
pub open spec fn sync_emit() -> Emit {
    Emit::Event { kind: EV_SYN, code: SYN_REPORT, value: 0 }
}

/// A key going down.
pub open spec fn press_emits(key: u16) -> Seq<Emit> {
    seq![Emit::Event { kind: EV_KEY, code: key, value: 1 }, sync_emit()]
}

/// A key going up.
pub open spec fn release_emits(key: u16) -> Seq<Emit> {
    seq![Emit::Event { kind: EV_KEY, code: key, value: 0 }, sync_emit()]
}

/// A key struck: down, then up.
pub open spec fn click_emits(key: u16) -> Seq<Emit> {
    press_emits(key) + release_emits(key)
}

/// The keys of a list going down, first to last.
pub open spec fn presses(keys: Seq<u16>) -> Seq<Emit>
    decreases keys.len(),
{
    if keys.len() == 0 {
        Seq::empty()
    } else {
        presses(keys.drop_last()) + press_emits(keys.last())
    }
}

/// The keys of a list going up, last to first.
pub open spec fn releases_reversed(keys: Seq<u16>) -> Seq<Emit>
    decreases keys.len(),
{
    if keys.len() == 0 {
        Seq::empty()
    } else {
        release_emits(keys.last()) + releases_reversed(keys.drop_last())
    }
}

/// A chord struck: its keys go down in order and come up in reverse.
pub open spec fn chord_emits(keys: Seq<u16>) -> Seq<Emit> {
    presses(keys) + releases_reversed(keys)
}

/// Number of names that the keyboard knows.
pub const KNOWN_NAMES: usize = 92;

/// The names of keys, each with its code. A key may have several names.
pub const KEY_MAP: [(&'static str, u16); 92] = [
    ("ctrl", KEY_LEFTCTRL),
    ("control", KEY_LEFTCTRL),
    ("shift", KEY_LEFTSHIFT),
    ("alt", KEY_LEFTALT),
    ("super", KEY_LEFTMETA),
    ("meta", KEY_LEFTMETA),
    ("win", KEY_LEFTMETA),
    ("a", KEY_A),
    ("b", KEY_B),
    ("c", KEY_C),
    ("d", KEY_D),
    ("e", KEY_E),
    ("f", KEY_F),
    ("g", KEY_G),
    ("h", KEY_H),
    ("i", KEY_I),
    ("j", KEY_J),
    ("k", KEY_K),
    ("l", KEY_L),
    ("m", KEY_M),
    ("n", KEY_N),
    ("o", KEY_O),
    ("p", KEY_P),
    ("q", KEY_Q),
    ("r", KEY_R),
    ("s", KEY_S),
    ("t", KEY_T),
    ("u", KEY_U),
    ("v", KEY_V),
    ("w", KEY_W),
    ("x", KEY_X),
    ("y", KEY_Y),
    ("z", KEY_Z),
    ("0", KEY_0),
    ("1", KEY_1),
    ("2", KEY_2),
    ("3", KEY_3),
    ("4", KEY_4),
    ("5", KEY_5),
    ("6", KEY_6),
    ("7", KEY_7),
    ("8", KEY_8),
    ("9", KEY_9),
    ("f1", KEY_F1),
    ("f2", KEY_F2),
    ("f3", KEY_F3),
    ("f4", KEY_F4),
    ("f5", KEY_F5),
    ("f6", KEY_F6),
    ("f7", KEY_F7),
    ("f8", KEY_F8),
    ("f9", KEY_F9),
    ("f10", KEY_F10),
    ("f11", KEY_F11),
    ("f12", KEY_F12),
    ("f13", KEY_F13),
    ("f14", KEY_F14),
    ("f15", KEY_F15),
    ("f16", KEY_F16),
    ("f17", KEY_F17),
    ("f18", KEY_F18),
    ("f19", KEY_F19),
    ("f20", KEY_F20),
    ("esc", KEY_ESC),
    ("escape", KEY_ESC),
    ("tab", KEY_TAB),
    ("space", KEY_SPACE),
    ("enter", KEY_ENTER),
    ("return", KEY_ENTER),
    ("backspace", KEY_BACKSPACE),
    ("delete", KEY_DELETE),
    ("insert", KEY_INSERT),
    ("home", KEY_HOME),
    ("end", KEY_END),
    ("pageup", KEY_PAGEUP),
    ("pagedown", KEY_PAGEDOWN),
    ("up", KEY_UP),
    ("down", KEY_DOWN),
    ("left", KEY_LEFT),
    ("right", KEY_RIGHT),
    ("capslock", KEY_CAPSLOCK),
    ("minus", KEY_MINUS),
    ("equal", KEY_EQUAL),
    ("leftbrace", KEY_LEFTBRACE),
    ("rightbrace", KEY_RIGHTBRACE),
    ("semicolon", KEY_SEMICOLON),
    ("apostrophe", KEY_APOSTROPHE),
    ("grave", KEY_GRAVE),
    ("backslash", KEY_BACKSLASH),
    ("comma", KEY_COMMA),
    ("dot", KEY_DOT),
    ("slash", KEY_SLASH),
];

/// The code that a table gives a name: that of its first entry for the
/// name.
pub open spec fn lookup_code(table: Seq<(&'static str, u16)>, name: Seq<char>) -> Option<u16>
    decreases table.len(),
{
    if table.len() == 0 {
        None
    } else if table[0].0@ == name {
        Some(table[0].1)
    } else {
        lookup_code(table.drop_first(), name)
    }
}

/// The code of the key with this name, written in lower case.
pub open spec fn key_code_of(name: Seq<char>) -> Option<u16> {
    lookup_code(KEY_MAP@, name)
}

/// A name without the `key_` that it may begin with.
pub open spec fn without_key_prefix(name: Seq<char>) -> Seq<char> {
    if has_prefix(name, "key_"@) {
        name.skip("key_"@.len() as int)
    } else {
        name
    }
}

/// A text in lower case, as `str::to_lowercase` writes it.
pub uninterp spec fn lowercased(text: Seq<char>) -> Seq<char>;

/// `str::to_lowercase` on a text given as characters. The result is taken
/// to depend on the text alone; nothing more is claimed of it.
#[verifier::external_body]
fn to_lowercase(text: &[char]) -> (out: Vec<char>)
    ensures
        out@ == lowercased(text@),
{
    let owned: String = text.iter().collect();
    owned.to_lowercase().chars().collect()
}

/// The code of the key that a text names: the text is trimmed and put in
/// lower case, a leading `key_` is dropped, and what is left is looked
/// up among the names.
pub open spec fn parsed_key(name: Seq<char>) -> Option<u16> {
    key_code_of(without_key_prefix(lowercased(trimmed(name))))
}

/// Looks up a name, in lower case and with or without a leading `key_`,
/// among the names of keys.
pub fn lookup_key(name: &[char]) -> (code: Option<u16>)
    ensures
        code == key_code_of(without_key_prefix(name@)),
{
    let prefix = chars_of("key_");
    let bare = if starts_with(name, prefix.as_slice()) {
        vstd::slice::slice_subrange(name, prefix.len(), name.len())
    } else {
        name
    };
    assert(bare@ =~= without_key_prefix(name@));
    let mut i: usize = 0;
    assert(KEY_MAP@.skip(0) =~= KEY_MAP@);
    while i < KNOWN_NAMES
        invariant
            i <= KNOWN_NAMES,
            KEY_MAP@.len() == KNOWN_NAMES,
            bare@ == without_key_prefix(name@),
            key_code_of(bare@) == lookup_code(KEY_MAP@.skip(i as int), bare@),
        decreases KNOWN_NAMES - i,
    {
        if text_is(bare, KEY_MAP[i].0) {
            return Some(KEY_MAP[i].1);
        }
        assert(KEY_MAP@.skip(i as int).drop_first() =~= KEY_MAP@.skip(i + 1));
        i += 1;
    }
    None
}

/// Reads the name of a key, in any case and with white space around it,
/// with or without a leading `KEY_`.
pub fn parse_key_chars(name: &[char]) -> (code: Option<u16>)
    ensures
        code == parsed_key(name@),
{
    let bare = trim(name);
    let lower = to_lowercase(bare.as_slice());
    lookup_key(lower.as_slice())
}

/// Number of characters other than letters that can be typed.
pub const KNOWN_SYMBOLS: usize = 45;

/// The characters other than letters that can be typed, each with its
/// key and whether shift is held for it.
pub const SYMBOLS: [(char, u16, bool); 45] = [
    ('0', KEY_0, false),
    ('1', KEY_1, false),
    ('2', KEY_2, false),
    ('3', KEY_3, false),
    ('4', KEY_4, false),
    ('5', KEY_5, false),
    ('6', KEY_6, false),
    ('7', KEY_7, false),
    ('8', KEY_8, false),
    ('9', KEY_9, false),
    ('!', KEY_1, true),
    ('@', KEY_2, true),
    ('#', KEY_3, true),
    ('$', KEY_4, true),
    ('%', KEY_5, true),
    ('^', KEY_6, true),
    ('&', KEY_7, true),
    ('*', KEY_8, true),
    ('(', KEY_9, true),
    (')', KEY_0, true),
    (' ', KEY_SPACE, false),
    ('\n', KEY_ENTER, false),
    ('\t', KEY_TAB, false),
    ('-', KEY_MINUS, false),
    ('_', KEY_MINUS, true),
    ('=', KEY_EQUAL, false),
    ('+', KEY_EQUAL, true),
    ('[', KEY_LEFTBRACE, false),
    ('{', KEY_LEFTBRACE, true),
    (']', KEY_RIGHTBRACE, false),
    ('}', KEY_RIGHTBRACE, true),
    (';', KEY_SEMICOLON, false),
    (':', KEY_SEMICOLON, true),
    ('\'', KEY_APOSTROPHE, false),
    ('"', KEY_APOSTROPHE, true),
    ('`', KEY_GRAVE, false),
    ('~', KEY_GRAVE, true),
    ('\\', KEY_BACKSLASH, false),
    ('|', KEY_BACKSLASH, true),
    (',', KEY_COMMA, false),
    ('<', KEY_COMMA, true),
    ('.', KEY_DOT, false),
    ('>', KEY_DOT, true),
    ('/', KEY_SLASH, false),
    ('?', KEY_SLASH, true),
];

/// The stroke that a table gives a character: that of its first entry
/// for the character.
pub open spec fn lookup_stroke(table: Seq<(char, u16, bool)>, c: char) -> Option<(u16, bool)>
    decreases table.len(),
{
    if table.len() == 0 {
        None
    } else if table[0].0 == c {
        Some((table[0].1, table[0].2))
    } else {
        lookup_stroke(table.drop_first(), c)
    }
}

/// The key that types a character, and whether shift is held for it. A
/// letter is typed by the key as many codes after that of `a` as the
/// letter stands after `a` in the alphabet, with shift for a capital; any
/// other character by its entry among the symbols.
pub open spec fn char_stroke(c: char) -> Option<(u16, bool)> {
    if 'a' <= c && c <= 'z' {
        Some(((KEY_A + ((c as u8) - ('a' as u8))) as u16, false))
    } else if 'A' <= c && c <= 'Z' {
        Some(((KEY_A + ((c as u8) - ('A' as u8))) as u16, true))
    } else {
        lookup_stroke(SYMBOLS@, c)
    }
}

/// Gives the key that types a character, and whether shift is held for
/// it; `None` for a character that cannot be typed.
pub fn stroke_of(c: char) -> (stroke: Option<(u16, bool)>)
    ensures
        stroke == char_stroke(c),
{
    if 'a' <= c && c <= 'z' {
        let offset: u8 = (c as u8) - ('a' as u8);
        return Some((KEY_A + (offset as u16), false));
    }
    if 'A' <= c && c <= 'Z' {
        let offset: u8 = (c as u8) - ('A' as u8);
        return Some((KEY_A + (offset as u16), true));
    }
    let mut i: usize = 0;
    assert(SYMBOLS@.skip(0) =~= SYMBOLS@);
    while i < KNOWN_SYMBOLS
        invariant
            i <= KNOWN_SYMBOLS,
            SYMBOLS@.len() == KNOWN_SYMBOLS,
            !('a' <= c && c <= 'z'),
            !('A' <= c && c <= 'Z'),
            lookup_stroke(SYMBOLS@, c) == lookup_stroke(SYMBOLS@.skip(i as int), c),
        decreases KNOWN_SYMBOLS - i,
    {
        if SYMBOLS[i].0 == c {
            return Some((SYMBOLS[i].1, SYMBOLS[i].2));
        }
        assert(SYMBOLS@.skip(i as int).drop_first() =~= SYMBOLS@.skip(i + 1));
        i += 1;
    }
    None
}

/// A character typed: its key struck, under shift if it needs shift, and
/// a pause. Nothing for a character that cannot be typed.
pub open spec fn stroke_emits(c: char) -> Seq<Emit> {
    match char_stroke(c) {
        Some((key, shift)) => if shift {
            press_emits(KEY_LEFTSHIFT) + click_emits(key) + release_emits(KEY_LEFTSHIFT) + seq![
                Emit::Pause(TYPE_PAUSE_MS),
            ]
        } else {
            click_emits(key) + seq![Emit::Pause(TYPE_PAUSE_MS)]
        },
        None => Seq::empty(),
    }
}

/// A text typed, character by character.
pub open spec fn typeout_emits(text: Seq<char>) -> Seq<Emit>
    decreases text.len(),
{
    if text.len() == 0 {
        Seq::empty()
    } else {
        typeout_emits(text.drop_last()) + stroke_emits(text.last())
    }
}

/// The keys that the parts of a chord name, in order; a part that names
/// no key is left out.
pub open spec fn named_keys(parts: Seq<Seq<char>>) -> Seq<u16>
    decreases parts.len(),
{
    if parts.len() == 0 {
        Seq::empty()
    } else {
        let before = named_keys(parts.drop_last());
        match parsed_key(trimmed(parts.last())) {
            Some(key) => before.push(key),
            None => before,
        }
    }
}

/// A chord such as `ctrl+shift+t` struck: the keys that its parts name go
/// down in order and come up in reverse.
pub open spec fn shortcut_emits(shortcut: Seq<char>) -> Seq<Emit> {
    chord_emits(named_keys(split_text(shortcut, '+')))
}

/// One part of a sequence struck: the chord that is left of it after
/// trimming and a pause, or nothing if nothing is left.
pub open spec fn sequence_part_emits(part: Seq<char>) -> Seq<Emit> {
    if trimmed(part).len() > 0 {
        shortcut_emits(trimmed(part)) + seq![Emit::Pause(CHORD_PAUSE_MS)]
    } else {
        Seq::empty()
    }
}

/// The parts of a sequence struck one after the other.
pub open spec fn parts_emits(parts: Seq<Seq<char>>) -> Seq<Emit>
    decreases parts.len(),
{
    if parts.len() == 0 {
        Seq::empty()
    } else {
        parts_emits(parts.drop_last()) + sequence_part_emits(parts.last())
    }
}

/// A sequence of chords such as `ctrl+a, ctrl+c` struck: the chords
/// between its commas, in order.
pub open spec fn sequence_emits(sequence: Seq<char>) -> Seq<Emit> {
    parts_emits(split_text(sequence, ','))
}

/// A keyboard on paper: what was asked of it, as the list of what a device
/// has to emit.
#[derive(Debug, PartialEq, Eq)]
pub struct VirtualKeyboard {
    emits: Vec<Emit>,
}

impl View for VirtualKeyboard {
    type V = Seq<Emit>;

    closed spec fn view(&self) -> Seq<Emit> {
        self.emits@
    }
}

impl VirtualKeyboard {
    /// A keyboard of which nothing was asked yet.
    pub fn new() -> (keyboard: VirtualKeyboard)
        ensures
            keyboard@ == Seq::<Emit>::empty(),
    {
        VirtualKeyboard { emits: Vec::new() }
    }

    /// Hands over what is to be emitted, in order, and starts anew.
    pub fn take(&mut self) -> (emits: Vec<Emit>)
        ensures
            emits@ == old(self)@,
            final(self)@ == Seq::<Emit>::empty(),
    {
        let mut emits: Vec<Emit> = Vec::new();
        std::mem::swap(&mut self.emits, &mut emits);
        emits
    }

    /// Puts a key down.
    pub fn press(&mut self, key: u16)
        ensures
            final(self)@ == old(self)@ + press_emits(key),
    {
        self.emits.push(Emit::Event { kind: EV_KEY, code: key, value: 1 });
        self.emits.push(Emit::Event { kind: EV_SYN, code: SYN_REPORT, value: 0 });
        assert(self@ =~= old(self)@ + press_emits(key));
    }

    /// Lets a key up.
    pub fn release(&mut self, key: u16)
        ensures
            final(self)@ == old(self)@ + release_emits(key),
    {
        self.emits.push(Emit::Event { kind: EV_KEY, code: key, value: 0 });
        self.emits.push(Emit::Event { kind: EV_SYN, code: SYN_REPORT, value: 0 });
        assert(self@ =~= old(self)@ + release_emits(key));
    }

    /// Strikes a key: down, then up.
    pub fn click(&mut self, key: u16)
        ensures
            final(self)@ == old(self)@ + click_emits(key),
    {
        self.press(key);
        self.release(key);
        assert(self@ =~= old(self)@ + click_emits(key));
    }

    /// Reads the name of a key, in any case and with white space around
    /// it, with or without a leading `KEY_`.
    pub fn parse_key(name: &str) -> (code: Option<u16>)
        ensures
            code == parsed_key(name@),
    {
        let text = chars_of(name);
        parse_key_chars(text.as_slice())
    }

    /// Types a text character by character. A character that cannot be
    /// typed is passed over.
    pub fn typeout(&mut self, text: &str)
        ensures
            final(self)@ == old(self)@ + typeout_emits(text@),
    {
        let chars = chars_of(text);
        let mut i: usize = 0;
        assert(chars@.take(0) =~= Seq::<char>::empty());
        assert(self@ =~= old(self)@ + typeout_emits(chars@.take(0)));
        while i < chars.len()
            invariant
                i <= chars@.len(),
                self@ == old(self)@ + typeout_emits(chars@.take(i as int)),
            decreases chars@.len() - i,
        {
            let ghost before = self@;
            assert(chars@.take(i + 1).drop_last() =~= chars@.take(i as int));
            match stroke_of(chars[i]) {
                Some((key, shift)) => {
                    if shift {
                        self.press(KEY_LEFTSHIFT);
                    }
                    self.click(key);
                    if shift {
                        self.release(KEY_LEFTSHIFT);
                    }
                    self.emits.push(Emit::Pause(TYPE_PAUSE_MS));
                    assert(self@ =~= before + stroke_emits(chars@[i as int]));
                },
                None => {
                    assert(self@ =~= before + stroke_emits(chars@[i as int]));
                },
            }
            i += 1;
            assert(self@ =~= old(self)@ + typeout_emits(chars@.take(i as int)));
        }
        assert(chars@.take(i as int) =~= chars@);
    }

    /// Strikes a chord of keys given by their codes: they go down in
    /// order and come up in reverse.
    pub fn chord(&mut self, keys: &[u16])
        ensures
            final(self)@ == old(self)@ + chord_emits(keys@),
    {
        let mut i: usize = 0;
        assert(keys@.take(0) =~= Seq::<u16>::empty());
        assert(self@ =~= old(self)@ + presses(keys@.take(0)));
        while i < keys.len()
            invariant
                i <= keys@.len(),
                self@ == old(self)@ + presses(keys@.take(i as int)),
            decreases keys@.len() - i,
        {
            assert(keys@.take(i + 1).drop_last() =~= keys@.take(i as int));
            self.press(keys[i]);
            i += 1;
            assert(self@ =~= old(self)@ + presses(keys@.take(i as int)));
        }
        assert(keys@.take(i as int) =~= keys@);
        let ghost pressed = self@;
        let mut left: usize = keys.len();
        assert(keys@.skip(left as int) =~= Seq::<u16>::empty());
        assert(releases_reversed(keys@) =~= releases_reversed(keys@.take(left as int)));
        assert(self@ + releases_reversed(keys@.take(left as int)) =~= pressed + releases_reversed(
            keys@,
        ));
        while left > 0
            invariant
                left <= keys@.len(),
                self@ + releases_reversed(keys@.take(left as int)) == pressed + releases_reversed(
                    keys@,
                ),
            decreases left,
        {
            let ghost before = self@;
            assert(keys@.take(left as int).drop_last() =~= keys@.take(left - 1));
            assert(keys@.take(left as int).last() == keys@[left - 1]);
            left -= 1;
            self.release(keys[left]);
            assert(self@ + releases_reversed(keys@.take(left as int)) =~= before
                + releases_reversed(keys@.take(left + 1)));
        }
        assert(releases_reversed(keys@.take(0)) =~= Seq::<Emit>::empty());
        assert(self@ =~= old(self)@ + chord_emits(keys@));
    }

    /// Strikes a chord written as names with `+` between them, such as
    /// `ctrl+shift+t`. A name that names no key is passed over.
    pub fn shortcut(&mut self, shortcut: &str)
        ensures
            final(self)@ == old(self)@ + shortcut_emits(shortcut@),
    {
        let text = chars_of(shortcut);
        self.shortcut_chars(text.as_slice());
    }

    /// Strikes a chord written as names with `+` between them.
    pub fn shortcut_chars(&mut self, shortcut: &[char])
        ensures
            final(self)@ == old(self)@ + shortcut_emits(shortcut@),
    {
        let parts = split_on(shortcut, '+');
        let mut keys: Vec<u16> = Vec::new();
        let mut i: usize = 0;
        assert(pieces(parts@).take(0) =~= Seq::<Seq<char>>::empty());
        while i < parts.len()
            invariant
                i <= parts@.len(),
                keys@ == named_keys(pieces(parts@).take(i as int)),
            decreases parts@.len() - i,
        {
            assert(pieces(parts@).take(i + 1).drop_last() =~= pieces(parts@).take(i as int));
            assert(pieces(parts@).take(i + 1).last() == parts@[i as int]@);
            let part = trim(parts[i].as_slice());
            match parse_key_chars(part.as_slice()) {
                Some(key) => {
                    keys.push(key);
                },
                None => {},
            }
            i += 1;
        }
        assert(pieces(parts@).take(i as int) =~= pieces(parts@));
        self.chord(keys.as_slice());
    }

    /// Strikes a sequence of chords written with commas between them,
    /// such as `ctrl+a, ctrl+c`, with a pause after each.
    pub fn sequence(&mut self, sequence: &str)
        ensures
            final(self)@ == old(self)@ + sequence_emits(sequence@),
    {
        let text = chars_of(sequence);
        let parts = split_on(text.as_slice(), ',');
        let mut i: usize = 0;
        assert(pieces(parts@).take(0) =~= Seq::<Seq<char>>::empty());
        assert(self@ =~= old(self)@ + parts_emits(pieces(parts@).take(0)));
        while i < parts.len()
            invariant
                i <= parts@.len(),
                self@ == old(self)@ + parts_emits(pieces(parts@).take(i as int)),
            decreases parts@.len() - i,
        {
            let ghost before = self@;
            assert(pieces(parts@).take(i + 1).drop_last() =~= pieces(parts@).take(i as int));
            assert(pieces(parts@).take(i + 1).last() == parts@[i as int]@);
            let part = trim(parts[i].as_slice());
            if part.len() > 0 {
                self.shortcut_chars(part.as_slice());
                self.emits.push(Emit::Pause(CHORD_PAUSE_MS));
                assert(self@ =~= before + sequence_part_emits(parts@[i as int]@));
            } else {
                assert(self@ =~= before + sequence_part_emits(parts@[i as int]@));
            }
            i += 1;
            assert(self@ =~= old(self)@ + parts_emits(pieces(parts@).take(i as int)));
        }
        assert(pieces(parts@).take(i as int) =~= pieces(parts@));
    }
}

/// White space around a name does not matter, and a part of a sequence
/// with nothing in it strikes nothing: a name is read as it is read
/// without the white space at its ends, an empty part of a sequence is
/// passed over, and so is a part that is all white space; the empty
/// sequence strikes nothing.
pub proof fn white_space_around_names(part: Seq<char>)
    ensures
        parsed_key(trimmed(part)) == parsed_key(part),
        part.len() == 0 ==> sequence_part_emits(part) == Seq::<Emit>::empty(),
        trimmed(part).len() == 0 ==> sequence_part_emits(part) == Seq::<Emit>::empty(),
        sequence_emits(Seq::empty()) == Seq::<Emit>::empty(),
{
    trimming(part);
    reveal_with_fuel(parts_emits, 2);
    let parts = split_text(Seq::<char>::empty(), ',');
    assert(parts =~= seq![Seq::<char>::empty()]);
    assert(parts.drop_last() =~= Seq::<Seq<char>>::empty());
    trimming(Seq::<char>::empty());
    assert(sequence_part_emits(Seq::<char>::empty()) == Seq::<Emit>::empty());
    assert(parts_emits(parts) =~= Seq::<Emit>::empty());
}

/// The keys that are down after a list was emitted, given those that
/// were down before.
pub open spec fn held_after(held: Set<u16>, emits: Seq<Emit>) -> Set<u16>
    decreases emits.len(),
{
    if emits.len() == 0 {
        held
    } else {
        let before = held_after(held, emits.drop_last());
        match emits.last() {
            Emit::Event { kind, code, value } => if kind == EV_KEY && value == 1 {
                before.insert(code)
            } else if kind == EV_KEY && value == 0 {
                before.remove(code)
            } else {
                before
            },
            Emit::Pause(_) => before,
        }
    }
}

/// Emitting two lists one after the other is emitting the second where
/// the first left off.
pub proof fn held_after_both(held: Set<u16>, first: Seq<Emit>, second: Seq<Emit>)
    ensures
        held_after(held, first + second) == held_after(held_after(held, first), second),
    decreases second.len(),
{
    if second.len() == 0 {
        assert(first + second =~= first);
    } else {
        held_after_both(held, first, second.drop_last());
        assert((first + second).drop_last() =~= first + second.drop_last());
        assert((first + second).last() == second.last());
    }
}

proof fn held_after_press_release(held: Set<u16>, key: u16)
    ensures
        held_after(held, press_emits(key)) == held.insert(key),
        held_after(held, release_emits(key)) == held.remove(key),
        held_after(held, seq![Emit::Pause(TYPE_PAUSE_MS)]) == held,
        held_after(held, seq![Emit::Pause(CHORD_PAUSE_MS)]) == held,
{
    reveal_with_fuel(held_after, 3);
    assert(press_emits(key).drop_last() =~= seq![Emit::Event { kind: EV_KEY, code: key, value: 1 }]);
    assert(press_emits(key).drop_last().drop_last() =~= Seq::<Emit>::empty());
    assert(release_emits(key).drop_last() =~= seq![
        Emit::Event { kind: EV_KEY, code: key, value: 0 },
    ]);
    assert(release_emits(key).drop_last().drop_last() =~= Seq::<Emit>::empty());
    assert(seq![Emit::Pause(TYPE_PAUSE_MS)].drop_last() =~= Seq::<Emit>::empty());
    assert(seq![Emit::Pause(CHORD_PAUSE_MS)].drop_last() =~= Seq::<Emit>::empty());
}

proof fn held_after_presses(held: Set<u16>, keys: Seq<u16>)
    ensures
        held_after(held, presses(keys)) == held.union(keys.to_set()),
    decreases keys.len(),
{
    if keys.len() == 0 {
        assert(keys.to_set() =~= Set::<u16>::empty());
        assert(held.union(keys.to_set()) =~= held);
    } else {
        held_after_presses(held, keys.drop_last());
        held_after_both(held, presses(keys.drop_last()), press_emits(keys.last()));
        held_after_press_release(held_after(held, presses(keys.drop_last())), keys.last());
        assert(keys.to_set() =~= keys.drop_last().to_set().insert(keys.last())) by {
            assert forall|k: u16| keys.to_set().contains(k) implies keys.drop_last().to_set().insert(
                keys.last(),
            ).contains(k) by {
                let i = choose|i: int| 0 <= i < keys.len() && keys[i] == k;
                if i < keys.len() - 1 {
                    assert(keys.drop_last()[i] == k);
                }
            }
            assert forall|k: u16|
                keys.drop_last().to_set().insert(keys.last()).contains(k) implies keys.to_set().contains(
                k,
            ) by {
                if k == keys.last() {
                    assert(keys[keys.len() - 1] == k);
                } else {
                    let i = choose|i: int| 0 <= i < keys.drop_last().len() && keys.drop_last()[i] == k;
                    assert(keys[i] == k);
                }
            }
        }
        assert(held.union(keys.drop_last().to_set()).insert(keys.last()) =~= held.union(
            keys.to_set(),
        ));
    }
}

proof fn held_after_releases(held: Set<u16>, keys: Seq<u16>)
    ensures
        held_after(held, releases_reversed(keys)) == held.difference(keys.to_set()),
    decreases keys.len(),
{
    if keys.len() == 0 {
        assert(keys.to_set() =~= Set::<u16>::empty());
        assert(held.difference(keys.to_set()) =~= held);
    } else {
        held_after_both(held, release_emits(keys.last()), releases_reversed(keys.drop_last()));
        held_after_press_release(held, keys.last());
        held_after_releases(held.remove(keys.last()), keys.drop_last());
        assert(held.remove(keys.last()).difference(keys.drop_last().to_set()) =~= held.difference(
            keys.to_set(),
        )) by {
            assert forall|k: u16| keys.to_set().contains(k) <==> (k == keys.last()
                || keys.drop_last().to_set().contains(k)) by {
                if keys.to_set().contains(k) {
                    let i = choose|i: int| 0 <= i < keys.len() && keys[i] == k;
                    if i < keys.len() - 1 {
                        assert(keys.drop_last()[i] == k);
                    }
                }
                if k == keys.last() {
                    assert(keys[keys.len() - 1] == k);
                }
                if keys.drop_last().to_set().contains(k) {
                    let i = choose|i: int| 0 <= i < keys.drop_last().len() && keys.drop_last()[i] == k;
                    assert(keys[i] == k);
                }
            }
        }
    }
}

/// A chord lets go of every key it struck, and of nothing else that was
/// down.
pub proof fn chord_holds_nothing(held: Set<u16>, keys: Seq<u16>)
    ensures
        held_after(held, chord_emits(keys)) == held.difference(keys.to_set()),
        held_after(Set::empty(), chord_emits(keys)) == Set::<u16>::empty(),
{
    held_after_both(held, presses(keys), releases_reversed(keys));
    held_after_presses(held, keys);
    held_after_releases(held.union(keys.to_set()), keys);
    assert(held.union(keys.to_set()).difference(keys.to_set()) =~= held.difference(keys.to_set()));
    held_after_both(Set::empty(), presses(keys), releases_reversed(keys));
    held_after_presses(Set::empty(), keys);
    held_after_releases(Set::<u16>::empty().union(keys.to_set()), keys);
    assert(Set::<u16>::empty().union(keys.to_set()).difference(keys.to_set())
        =~= Set::<u16>::empty());
}

proof fn stroke_holds_nothing(c: char)
    ensures
        held_after(Set::empty(), stroke_emits(c)) == Set::<u16>::empty(),
{
    let none = Set::<u16>::empty();
    match char_stroke(c) {
        Some((key, shift)) => {
            let pause = seq![Emit::Pause(TYPE_PAUSE_MS)];
            if shift {
                let a = press_emits(KEY_LEFTSHIFT);
                let b = press_emits(key);
                let d = release_emits(key);
                let e = release_emits(KEY_LEFTSHIFT);
                assert(stroke_emits(c) =~= a + (b + (d + (e + pause))));
                held_after_both(none, a, b + (d + (e + pause)));
                held_after_press_release(none, KEY_LEFTSHIFT);
                let h1 = none.insert(KEY_LEFTSHIFT);
                held_after_both(h1, b, d + (e + pause));
                held_after_press_release(h1, key);
                let h2 = h1.insert(key);
                held_after_both(h2, d, e + pause);
                held_after_press_release(h2, key);
                let h3 = h2.remove(key);
                held_after_both(h3, e, pause);
                held_after_press_release(h3, KEY_LEFTSHIFT);
                let h4 = h3.remove(KEY_LEFTSHIFT);
                held_after_press_release(h4, key);
                assert(h4 =~= none);
            } else {
                let b = press_emits(key);
                let d = release_emits(key);
                assert(stroke_emits(c) =~= b + (d + pause));
                held_after_both(none, b, d + pause);
                held_after_press_release(none, key);
                let h1 = none.insert(key);
                held_after_both(h1, d, pause);
                held_after_press_release(h1, key);
                let h2 = h1.remove(key);
                held_after_press_release(h2, key);
                assert(h2 =~= none);
            }
        },
        None => {},
    }
}

proof fn typeout_holds_nothing(text: Seq<char>)
    ensures
        held_after(Set::empty(), typeout_emits(text)) == Set::<u16>::empty(),
    decreases text.len(),
{
    if text.len() > 0 {
        typeout_holds_nothing(text.drop_last());
        stroke_holds_nothing(text.last());
        held_after_both(Set::empty(), typeout_emits(text.drop_last()), stroke_emits(text.last()));
    }
}

proof fn parts_hold_nothing(parts: Seq<Seq<char>>)
    ensures
        held_after(Set::empty(), parts_emits(parts)) == Set::<u16>::empty(),
    decreases parts.len(),
{
    if parts.len() > 0 {
        parts_hold_nothing(parts.drop_last());
        let part = sequence_part_emits(parts.last());
        held_after_both(Set::empty(), parts_emits(parts.drop_last()), part);
        if trimmed(parts.last()).len() > 0 {
            let keys = named_keys(split_text(trimmed(parts.last()), '+'));
            chord_holds_nothing(Set::empty(), keys);
            held_after_both(
                Set::empty(),
                shortcut_emits(trimmed(parts.last())),
                seq![Emit::Pause(CHORD_PAUSE_MS)],
            );
            held_after_press_release(Set::empty(), 0);
        }
    }
}

/// No key sticks: after a key struck, a text typed, a chord or a sequence
/// of chords, every key that went down has come up again.
pub proof fn replay_holds_nothing(key: u16, text: Seq<char>)
    ensures
        held_after(Set::empty(), click_emits(key)) == Set::<u16>::empty(),
        held_after(Set::empty(), typeout_emits(text)) == Set::<u16>::empty(),
        held_after(Set::empty(), shortcut_emits(text)) == Set::<u16>::empty(),
        held_after(Set::empty(), sequence_emits(text)) == Set::<u16>::empty(),
{
    let none = Set::<u16>::empty();
    held_after_both(none, press_emits(key), release_emits(key));
    held_after_press_release(none, key);
    held_after_press_release(none.insert(key), key);
    assert(none.insert(key).remove(key) =~= none);
    typeout_holds_nothing(text);
    chord_holds_nothing(none, named_keys(split_text(text, '+')));
    parts_hold_nothing(split_text(text, ','));
}

} // verus!
