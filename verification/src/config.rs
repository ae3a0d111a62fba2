//! The macro store: profiles of named macros, and the settings kept with
//! them.

use crate::text::{ascii_lowered, same_text, same_text_ignoring_ascii_case};
use vstd::prelude::*;

verus! {

/// A table from names to values in which no name stands twice. New names
/// go to the end; a name that is set again keeps its place.
pub struct NameMap<V> {
    entries: Vec<(String, V)>,
}

/// Whether no two entries have the same name.
pub open spec fn distinct_names<V>(entries: Seq<(String, V)>) -> bool {
    forall|i: int, j: int|
        0 <= i < entries.len() && 0 <= j < entries.len() && (#[trigger] entries[i]).0@
            == (#[trigger] entries[j]).0@ ==> i == j
}

/// Whether an entry has this name.
pub open spec fn has_name<V>(entries: Seq<(String, V)>, name: Seq<char>) -> bool {
    exists|i: int| 0 <= i < entries.len() && (#[trigger] entries[i]).0@ == name
}

/// The place of the entry with this name.
pub open spec fn place_of<V>(entries: Seq<(String, V)>, name: Seq<char>) -> int {
    choose|i: int| 0 <= i < entries.len() && (#[trigger] entries[i]).0@ == name
}

/// The mapping that a list of entries stands for.
pub open spec fn entries_map<V>(entries: Seq<(String, V)>) -> Map<Seq<char>, V> {
    Map::new(|name: Seq<char>| has_name(entries, name), |name: Seq<char>| entries[place_of(entries, name)].1)
}

impl<V> View for NameMap<V> {
    type V = Map<Seq<char>, V>;

    closed spec fn view(&self) -> Map<Seq<char>, V> {
        entries_map(self.entries@)
    }
}

impl<V> NameMap<V> {
    #[verifier::type_invariant]
    spec fn names_distinct(self) -> bool {
        distinct_names(self.entries@)
    }

    /// The names in the order of the table.
    pub closed spec fn names(&self) -> Seq<Seq<char>> {
        self.entries@.map_values(|e: (String, V)| e.0@)
    }

    /// An empty table.
    pub fn new() -> (table: NameMap<V>)
        ensures
            table@ == Map::<Seq<char>, V>::empty(),
            table.names().len() == 0,
    {
        let table = NameMap { entries: Vec::new() };
        assert(table@ =~= Map::<Seq<char>, V>::empty());
        table
    }

    /// Number of entries.
    pub fn len(&self) -> (n: usize)
        ensures
            n == self.names().len(),
    {
        self.entries.len()
    }

    /// The place of `name` in the table, if it is there.
    pub fn position(&self, name: &str) -> (place: Option<usize>)
        ensures
            match place {
                Some(i) => i < self.names().len() && self.names()[i as int] == name@
                    && self@.contains_key(name@),
                None => !self@.contains_key(name@),
            },
    {
        let mut i: usize = 0;
        while i < self.entries.len()
            invariant
                i <= self.entries@.len(),
                forall|k: int| 0 <= k < i ==> (#[trigger] self.entries@[k]).0@ != name@,
            decreases self.entries@.len() - i,
        {
            if same_text(self.entries[i].0.as_str(), name) {
                return Some(i);
            }
            i += 1;
        }
        None
    }

    /// Whether `name` has a value.
    pub fn contains_key(&self, name: &str) -> (yes: bool)
        ensures
            yes == self@.contains_key(name@),
    {
        self.position(name).is_some()
    }

    /// The value of `name`, if it has one.
    pub fn get(&self, name: &str) -> (value: Option<&V>)
        ensures
            match value {
                Some(v) => self@.contains_key(name@) && *v == self@[name@],
                None => !self@.contains_key(name@),
            },
    {
        proof {
            use_type_invariant(self);
        }
        match self.position(name) {
            Some(i) => {
                assert(self.entries@[i as int].0@ == name@);
                Some(&self.entries[i].1)
            },
            None => None,
        }
    }


    /// The name at place `i`.
    pub fn name_at(&self, i: usize) -> (name: &str)
        requires
            i < self.names().len(),
        ensures
            name@ == self.names()[i as int],
    {
        self.entries[i].0.as_str()
    }

    /// The value at place `i`.
    pub fn value_at(&self, i: usize) -> (value: &V)
        requires
            i < self.names().len(),
        ensures
            self@.contains_key(self.names()[i as int]),
            *value == self@[self.names()[i as int]],
    {
        proof {
            use_type_invariant(self);
        }
        assert(self.entries@[i as int].0@ == self.names()[i as int]);
        &self.entries[i].1
    }

    /// Gives `name` the value `value` and returns the value it had, if
    /// any.
    pub fn insert(&mut self, name: String, value: V) -> (previous: Option<V>)
        ensures
            final(self)@ == old(self)@.insert(name@, value),
            previous == (if old(self)@.contains_key(name@) {
                Some(old(self)@[name@])
            } else {
                None
            }),
            final(self).names() == if old(self)@.contains_key(name@) {
                old(self).names()
            } else {
                old(self).names().push(name@)
            },
    {
        proof {
            use_type_invariant(&*self);
        }
        let ghost before = self.entries@;
        let ghost key = name@;
        match self.position(name.as_str()) {
            Some(i) => {
                let mut entries: Vec<(String, V)> = Vec::new();
                std::mem::swap(&mut self.entries, &mut entries);
                assert(before[i as int].0@ == key);
                entries.push((name, value));
                let replaced = entries.swap_remove(i);
                let ghost after = entries@;
                assert(after =~= before.update(i as int, (name, value)));
                assert(distinct_names(after)) by {
                    assert forall|a: int, b: int|
                        0 <= a < after.len() && 0 <= b < after.len() && (#[trigger] after[a]).0@
                            == (#[trigger] after[b]).0@ implies a == b by {
                        assert(after[a].0@ == before[a].0@);
                        assert(after[b].0@ == before[b].0@);
                    }
                }
                assert(entries_map(after) =~= entries_map(before).insert(key, value)) by {
                    assert forall|n: Seq<char>| has_name(before, n) implies has_name(after, n) by {
                        let k = place_of(before, n);
                        assert(after[k].0@ == n);
                    }
                    assert forall|n: Seq<char>| has_name(after, n) implies has_name(before, n) by {
                        let k = place_of(after, n);
                        assert(before[k].0@ == n);
                    }
                    assert forall|n: Seq<char>| has_name(after, n) implies #[trigger] entries_map(
                        after,
                    )[n] == entries_map(before).insert(key, value)[n] by {
                        let k = place_of(after, n);
                        assert(before[k].0@ == n);
                        assert(before[place_of(before, n)].0@ == n);
                        assert(k == place_of(before, n));
                    }
                }
                self.entries = entries;
                assert(self.names() =~= old(self).names());
                Some(replaced.1)
            },
            None => {
                let mut entries: Vec<(String, V)> = Vec::new();
                std::mem::swap(&mut self.entries, &mut entries);
                entries.push((name, value));
                let ghost after = entries@;
                assert(distinct_names(after)) by {
                    assert forall|a: int, b: int|
                        0 <= a < after.len() && 0 <= b < after.len() && (#[trigger] after[a]).0@
                            == (#[trigger] after[b]).0@ implies a == b by {
                        if a < before.len() {
                            assert(after[a] == before[a]);
                        }
                        if b < before.len() {
                            assert(after[b] == before[b]);
                        }
                    }
                }
                assert(entries_map(after) =~= entries_map(before).insert(key, value)) by {
                    assert(after[before.len() as int].0@ == key);
                    assert forall|n: Seq<char>| has_name(before, n) implies has_name(after, n) by {
                        let k = place_of(before, n);
                        assert(after[k] == before[k]);
                    }
                    assert forall|n: Seq<char>| has_name(after, n) && n != key implies has_name(
                        before,
                        n,
                    ) by {
                        let k = place_of(after, n);
                        assert(before[k] == after[k]);
                    }
                    assert forall|n: Seq<char>| has_name(after, n) implies #[trigger] entries_map(
                        after,
                    )[n] == entries_map(before).insert(key, value)[n] by {
                        let k = place_of(after, n);
                        if n != key {
                            assert(before[k] == after[k]);
                            let k0 = place_of(before, n);
                            assert(after[k0] == before[k0]);
                            assert(k == k0);
                        } else {
                            assert(k == before.len());
                        }
                    }
                }
                self.entries = entries;
                assert(self.names() =~= old(self).names().push(key));
                None
            },
        }
    }
}

/// A yes or no that files also spell as the words `True` and `False`.
#[derive(Debug, Clone, Copy, PartialEq, Eq)]
pub struct StringBool(pub bool);

impl Default for StringBool {
    /// No.
    fn default() -> (value: StringBool)
        ensures
            !value.0,
    {
        StringBool(false)
    }
}

impl StringBool {
    /// Reads a word: `true` in any mix of upper and lower case is yes,
    /// every other text is no.
    pub fn from_text(text: &str) -> (value: StringBool)
        ensures
            value.0 == (ascii_lowered(text@) == ascii_lowered("true"@)),
    {
        StringBool(same_text_ignoring_ascii_case(text, "true"))
    }
}

/// Whether a change of profile is announced when the store does not say.
pub fn default_notify() -> (value: StringBool)
    ensures
        value.0,
{
    StringBool(true)
}

/// A colour.
#[derive(Debug, Clone, Copy, PartialEq, Eq)]
pub struct RgbColor {
    pub r: u8,
    pub g: u8,
    pub b: u8,
}

/// How a macro's text is carried out.
#[derive(Debug, Clone, Copy, PartialEq, Eq)]
pub enum HotkeyType {
    /// Run the text as a shell command.
    Run,
    /// Strike the text as one chord.
    Shortcut,
    /// Type the text character by character.
    Typeout,
    /// Strike the one key that the text names.
    Uinput,
    /// Strike the chords of the text one after the other.
    Sequence,
    /// Do nothing.
    Nothing,
}

/// A macro: a text and how to carry it out.
#[derive(Debug, PartialEq, Eq)]
pub struct Macro {
    pub hotkey_type: HotkeyType,
    pub action: String,
}

impl Clone for Macro {
    fn clone(&self) -> (copy: Macro)
        ensures
            copy@ == self@,
    {
        Macro { hotkey_type: self.hotkey_type, action: self.action.clone() }
    }
}

/// A macro with its text as a sequence of characters.
pub struct MacroView {
    pub hotkey_type: HotkeyType,
    pub action: Seq<char>,
}

impl View for Macro {
    type V = MacroView;

    open spec fn view(&self) -> MacroView {
        MacroView { hotkey_type: self.hotkey_type, action: self.action@ }
    }
}

/// The macros of one profile, by name.
pub struct Profile {
    pub macros: NameMap<Macro>,
}

impl View for Profile {
    type V = Map<Seq<char>, MacroView>;

    open spec fn view(&self) -> Map<Seq<char>, MacroView> {
        self.macros@.map_values(|m: Macro| m@)
    }
}

impl Profile {
    /// A profile without macros.
    pub fn new() -> (profile: Profile)
        ensures
            profile@ == Map::<Seq<char>, MacroView>::empty(),
    {
        let profile = Profile { macros: NameMap::new() };
        assert(profile@ =~= Map::<Seq<char>, MacroView>::empty());
        profile
    }
}

/// The store: settings and the profiles by name.
pub struct Config {
    pub keyboard_mapping: String,
    pub notify: StringBool,
    pub rgb_color: Option<RgbColor>,
    pub profiles: NameMap<Profile>,
}

/// The store with its texts as sequences of characters and its profiles
/// as a mapping.
pub struct ConfigView {
    pub keyboard_mapping: Seq<char>,
    pub notify: bool,
    pub rgb_color: Option<RgbColor>,
    pub profiles: Map<Seq<char>, Map<Seq<char>, MacroView>>,
}

impl View for Config {
    type V = ConfigView;

    open spec fn view(&self) -> ConfigView {
        ConfigView {
            keyboard_mapping: self.keyboard_mapping@,
            notify: self.notify.0,
            rgb_color: self.rgb_color,
            profiles: self.store(),
        }
    }
}

/// The macro that a store holds under a name of a profile.
pub open spec fn stored_macro(
    store: Map<Seq<char>, Map<Seq<char>, MacroView>>,
    profile: Seq<char>,
    name: Seq<char>,
) -> Option<MacroView> {
    if store.contains_key(profile) && store[profile].contains_key(name) {
        Some(store[profile][name])
    } else {
        None
    }
}

/// The macros of `profile` in a store; none if the store lacks the
/// profile.
pub open spec fn macros_of(
    store: Map<Seq<char>, Map<Seq<char>, MacroView>>,
    profile: Seq<char>,
) -> Map<Seq<char>, MacroView> {
    if store.contains_key(profile) {
        store[profile]
    } else {
        Map::empty()
    }
}

/// The view of a macro, if there is one.
pub open spec fn macro_view(m: Option<&Macro>) -> Option<MacroView> {
    match m {
        Some(m) => Some(m@),
        None => None,
    }
}

impl Config {
    /// A store without profiles, with the settings a file gets that
    /// names none: no key mapping, announcements on, no colour.
    pub fn new() -> (config: Config)
        ensures
            config@ == (ConfigView {
                keyboard_mapping: Seq::empty(),
                notify: true,
                rgb_color: None,
                profiles: Map::empty(),
            }),
    {
        let config = Config {
            keyboard_mapping: String::new(),
            notify: default_notify(),
            rgb_color: None,
            profiles: NameMap::new(),
        };
        assert(config.store() =~= Map::<Seq<char>, Map<Seq<char>, MacroView>>::empty());
        config
    }

    /// The macros of every profile, by profile and name.
    pub open spec fn store(&self) -> Map<Seq<char>, Map<Seq<char>, MacroView>> {
        self.profiles@.map_values(|p: Profile| p@)
    }

    /// Looks up the macro `macro_name` of `profile`.
    pub fn get_macro(&self, profile: &str, macro_name: &str) -> (found: Option<&Macro>)
        ensures
            macro_view(found) == stored_macro(self.store(), profile@, macro_name@),
    {
        match self.profiles.get(profile) {
            Some(p) => p.macros.get(macro_name),
            None => None,
        }
    }

    /// Stores `macro_def` as the macro `macro_name` of `profile`, in place
    /// of the one stored there if there is one. A profile that the store
    /// lacks is added. Nothing else changes.
    pub fn set_macro(&mut self, profile: &str, macro_name: &str, macro_def: Macro)
        ensures
            final(self)@ == (ConfigView {
                profiles: old(self).store().insert(
                    profile@,
                    macros_of(old(self).store(), profile@).insert(macro_name@, macro_def@),
                ),
                ..old(self)@
            }),
            stored_macro(final(self).store(), profile@, macro_name@) == Some(macro_def@),
    {
        let ghost before = self.store();
        let ghost before_profiles = self.profiles@;
        let mut entry = match self.profiles.insert(profile.to_owned(), Profile::new()) {
            Some(p) => p,
            None => Profile::new(),
        };
        assert(entry@ =~= macros_of(before, profile@));
        let ghost entry_before = entry.macros@;
        entry.macros.insert(macro_name.to_owned(), macro_def);
        assert(entry@ =~= macros_of(before, profile@).insert(macro_name@, macro_def@));
        let ghost updated = entry;
        self.profiles.insert(profile.to_owned(), entry);
        assert(self.profiles@ =~= before_profiles.insert(profile@, updated));
        assert(self.store() =~= before.insert(
            profile@,
            macros_of(before, profile@).insert(macro_name@, macro_def@),
        ));
    }
}

} // verus!
