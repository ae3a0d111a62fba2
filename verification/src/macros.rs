//! Carrying out a macro: which keys to strike, or which command to run.

use crate::config::{HotkeyType, Macro, MacroView};
use crate::text::string_text;
use crate::uinput::{
    click_emits, held_after, parsed_key, replay_holds_nothing, sequence_emits, shortcut_emits,
    typeout_emits, Emit, VirtualKeyboard,
};
use vstd::prelude::*;

verus! {

/// Carries out macros on a keyboard on paper.
pub struct MacroExecutor {
    pub keyboard: VirtualKeyboard,
}

/// What a macro asks the keyboard to emit.
pub open spec fn macro_emits(m: MacroView) -> Seq<Emit> {
    match m.hotkey_type {
        HotkeyType::Run => Seq::empty(),
        HotkeyType::Shortcut => shortcut_emits(m.action),
        HotkeyType::Typeout => typeout_emits(m.action),
        HotkeyType::Uinput => match parsed_key(m.action) {
            Some(key) => click_emits(key),
            None => Seq::empty(),
        },
        HotkeyType::Sequence => sequence_emits(m.action),
        HotkeyType::Nothing => Seq::empty(),
    }
}

/// The shell command that a macro asks to have run.
pub open spec fn macro_command(m: MacroView) -> Option<Seq<char>> {
    match m.hotkey_type {
        HotkeyType::Run => Some(m.action),
        _ => None,
    }
}

impl MacroExecutor {
    /// An executor with a keyboard of which nothing was asked yet.
    pub fn new() -> (executor: MacroExecutor)
        ensures
            executor.keyboard@ == Seq::<Emit>::empty(),
    {
        MacroExecutor { keyboard: VirtualKeyboard::new() }
    }

    /// Carries out a macro: adds to the keyboard what the macro strikes
    /// or types, and returns the shell command to run if the macro is
    /// one. A macro that names an unknown key strikes nothing.
    pub fn execute(&mut self, macro_def: &Macro) -> (command: Option<String>)
        ensures
            final(self).keyboard@ == old(self).keyboard@ + macro_emits(macro_def@),
            string_text(command) == macro_command(macro_def@),
    {
        let ghost before = self.keyboard@;
        match macro_def.hotkey_type {
            HotkeyType::Run => {
                assert(self.keyboard@ =~= before + macro_emits(macro_def@));
                Some(macro_def.action.clone())
            },
            HotkeyType::Shortcut => {
                self.keyboard.shortcut(macro_def.action.as_str());
                None
            },
            HotkeyType::Typeout => {
                self.keyboard.typeout(macro_def.action.as_str());
                None
            },
            HotkeyType::Uinput => {
                match VirtualKeyboard::parse_key(macro_def.action.as_str()) {
                    Some(key) => {
                        self.keyboard.click(key);
                    },
                    None => {
                        assert(self.keyboard@ =~= before + macro_emits(macro_def@));
                    },
                }
                None
            },
            HotkeyType::Sequence => {
                self.keyboard.sequence(macro_def.action.as_str());
                None
            },
            HotkeyType::Nothing => {
                assert(self.keyboard@ =~= before + macro_emits(macro_def@));
                None
            },
        }
    }
}

/// No macro leaves a key down: whatever a macro strikes or types, every
/// key that went down for it has come up again when it is done.
pub proof fn macro_holds_nothing(m: MacroView)
    ensures
        held_after(Set::empty(), macro_emits(m)) == Set::<u16>::empty(),
{
    replay_holds_nothing(0, m.action);
    match m.hotkey_type {
        HotkeyType::Uinput => match parsed_key(m.action) {
            Some(key) => {
                replay_holds_nothing(key, m.action);
            },
            None => {},
        },
        _ => {},
    }
}

} // verus!
