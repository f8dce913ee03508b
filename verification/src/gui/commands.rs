//! Application commands, key-press mappings and the command manager.
use vstd::prelude::*;
use crate::gui::input::Modifiers;
use crate::keyed::KeyedList;
use crate::text::{
    insert_text_sorted, push_char, push_hex, push_hex2, spec_hex, spec_hex2, spec_texts,
    spec_texts_increasing,
};

verus! {

// ---------------------------------------------------------------------------
// CommandId and CommandFlags
// ---------------------------------------------------------------------------

/// Handle of a registered command.
#[derive(Copy, Clone, PartialEq, Eq, Structural, Hash, PartialOrd, Ord, Debug)]
pub struct CommandId(pub u32);

/// Command state bits.
#[derive(Copy, Clone, PartialEq, Eq, Structural, Hash, Default, Debug)]
pub struct CommandFlags(pub u32);

impl CommandFlags {
    /// Disabled: cannot be invoked.
    pub const IS_DISABLED: u32 = 1;
    /// Ticked: a toggle that is on.
    pub const IS_TICKED: u32 = 2;
    /// Hidden from menus.
    pub const HIDE_IN_MENU: u32 = 4;
    /// Hidden from key-mapping editors.
    pub const HIDE_IN_KEY_MAPPING: u32 = 8;
    /// Hidden from toolbars.
    pub const HIDE_IN_TOOLBAR: u32 = 16;

    /// No bits set.
    pub fn empty() -> (f: CommandFlags)
        ensures f.0 == 0,
    {
        CommandFlags(0)
    }

    /// Whether any bit of `other` is set.
    pub fn contains(self, other: CommandFlags) -> (b: bool)
        ensures b == ((self.0 & other.0) != 0),
    {
        (self.0 & other.0) != 0
    }

    /// Whether the disabled bit is set.
    pub fn is_disabled(self) -> (b: bool)
        ensures b == ((self.0 & 1) != 0),
    {
        self.contains(CommandFlags(Self::IS_DISABLED))
    }

    /// Whether the ticked bit is set.
    pub fn is_ticked(self) -> (b: bool)
        ensures b == ((self.0 & 2) != 0),
    {
        self.contains(CommandFlags(Self::IS_TICKED))
    }

    /// Whether the hide-in-menu bit is set.
    pub fn hidden_in_menu(self) -> (b: bool)
        ensures b == ((self.0 & 4) != 0),
    {
        self.contains(CommandFlags(Self::HIDE_IN_MENU))
    }

    /// Whether the hide-in-key-mapping bit is set.
    pub fn hidden_in_key_mapping(self) -> (b: bool)
        ensures b == ((self.0 & 8) != 0),
    {
        self.contains(CommandFlags(Self::HIDE_IN_KEY_MAPPING))
    }

    /// Whether the hide-in-toolbar bit is set.
    pub fn hidden_in_toolbar(self) -> (b: bool)
        ensures b == ((self.0 & 16) != 0),
    {
        self.contains(CommandFlags(Self::HIDE_IN_TOOLBAR))
    }
}

impl vstd::std_specs::ops::BitOrSpecImpl for CommandFlags {
    open spec fn obeys_bitor_spec() -> bool {
        true
    }

    open spec fn bitor_req(self, rhs: CommandFlags) -> bool {
        true
    }

    open spec fn bitor_spec(self, rhs: CommandFlags) -> CommandFlags {
        CommandFlags(self.0 | rhs.0)
    }
}

impl std::ops::BitOr for CommandFlags {
    type Output = CommandFlags;

    fn bitor(self, rhs: CommandFlags) -> (r: CommandFlags)
        ensures r.0 == self.0 | rhs.0,
    {
        CommandFlags(self.0 | rhs.0)
    }
}

// ---------------------------------------------------------------------------
// KeyPress
// ---------------------------------------------------------------------------

/// A key code with the modifiers held.
#[derive(Copy, Clone, PartialEq, Eq, Structural, Hash, Debug)]
pub struct KeyPress {
    /// The key code: ASCII for printable keys, the constants below otherwise.
    pub key_code: u32,
    /// The modifiers held.
    pub modifiers: Modifiers,
}

/// The name of a key code in a key description.
pub open spec fn spec_key_name(code: u32) -> Seq<char> {
    if code == 0x20 {
        "Space"@
    } else if code == 0x1B {
        "Esc"@
    } else if code == 0x0D {
        "Return"@
    } else if code == 0x09 {
        "Tab"@
    } else if code == 0x08 {
        "Backspace"@
    } else if code == 0x7F {
        "Delete"@
    } else if code == 0x100 {
        "Insert"@
    } else if code == 0x101 {
        "Home"@
    } else if code == 0x102 {
        "End"@
    } else if code == 0x103 {
        "PageUp"@
    } else if code == 0x104 {
        "PageDown"@
    } else if code == 0x105 {
        "Left"@
    } else if code == 0x106 {
        "Right"@
    } else if code == 0x107 {
        "Up"@
    } else if code == 0x108 {
        "Down"@
    } else if 0x110 <= code <= 0x11B {
        seq!['F'] + spec_decimal_small((code - 0x10F) as u32)
    } else if 0x21 <= code <= 0x7E {
        seq![(code as u8) as char]
    } else if code == 0x20 {
        "0x"@ + spec_hex2(code)
    } else {
        "0x"@ + spec_hex(code)
    }
}

/// The decimal digits of a number from 1 to 12.
pub open spec fn spec_decimal_small(n: u32) -> Seq<char> {
    if n < 10 {
        seq![((n + 48) as u8) as char]
    } else {
        seq!['1', (((n - 10) + 48) as u8) as char]
    }
}

/// The description of a key press: the held modifiers among Ctrl, Alt,
/// Shift and Cmd, then the key name, joined by `+`.
pub open spec fn spec_text_description(k: KeyPress) -> Seq<char> {
    (if k.modifiers.ctrl { "Ctrl+"@ } else { Seq::<char>::empty() })
        + (if k.modifiers.alt { "Alt+"@ } else { Seq::<char>::empty() })
        + (if k.modifiers.shift { "Shift+"@ } else { Seq::<char>::empty() })
        + (if k.modifiers.meta { "Cmd+"@ } else { Seq::<char>::empty() })
        + spec_key_name(k.key_code)
}

/// The key code a character gives: upper-cased when shift is held.
pub open spec fn spec_char_key_code(c: char, shift: bool) -> u32 {
    if shift && 'a' <= c && c <= 'z' {
        ((c as u32) - 32) as u32
    } else {
        c as u32
    }
}

/// The 4-bit encoding of modifiers.
pub open spec fn spec_modifier_bits(m: Modifiers) -> u64 {
    ((if m.shift { 8u64 } else { 0u64 }) + (if m.ctrl { 4u64 } else { 0u64 })
        + (if m.alt { 2u64 } else { 0u64 }) + (if m.meta { 1u64 } else { 0u64 })) as u64
}

/// The integer key of a key press in mapping tables.
pub open spec fn spec_keypress_key(k: KeyPress) -> u64 {
    ((k.key_code as u64) * 16 + spec_modifier_bits(k.modifiers)) as u64
}

/// Different key presses have different keys.
pub proof fn lemma_keypress_key_injective(a: KeyPress, b: KeyPress)
    ensures (spec_keypress_key(a) == spec_keypress_key(b)) == (a == b),
{
}

fn keypress_key(k: KeyPress) -> (r: u64)
    ensures r == spec_keypress_key(k),
{
    let m = k.modifiers;
    let bits: u64 = (if m.shift { 8 } else { 0 }) + (if m.ctrl { 4 } else { 0 })
        + (if m.alt { 2 } else { 0 }) + (if m.meta { 1 } else { 0 });
    (k.key_code as u64) * 16 + bits
}

impl KeyPress {
    /// Space.
    pub const SPACE: u32 = 0x20;
    /// Escape.
    pub const ESCAPE: u32 = 0x1B;
    /// Return.
    pub const RETURN: u32 = 0x0D;
    /// Tab.
    pub const TAB: u32 = 0x09;
    /// Backspace.
    pub const BACKSPACE: u32 = 0x08;
    /// Forward delete.
    pub const DELETE: u32 = 0x7F;
    /// Insert.
    pub const INSERT: u32 = 0x100;
    /// Home.
    pub const HOME: u32 = 0x101;
    /// End.
    pub const END: u32 = 0x102;
    /// Page up.
    pub const PAGE_UP: u32 = 0x103;
    /// Page down.
    pub const PAGE_DOWN: u32 = 0x104;
    /// Left arrow.
    pub const LEFT: u32 = 0x105;
    /// Right arrow.
    pub const RIGHT: u32 = 0x106;
    /// Up arrow.
    pub const UP: u32 = 0x107;
    /// Down arrow.
    pub const DOWN: u32 = 0x108;
    /// F1.
    pub const F1: u32 = 0x110;
    /// F2.
    pub const F2: u32 = 0x111;
    /// F3.
    pub const F3: u32 = 0x112;
    /// F4.
    pub const F4: u32 = 0x113;
    /// F5.
    pub const F5: u32 = 0x114;
    /// F6.
    pub const F6: u32 = 0x115;
    /// F7.
    pub const F7: u32 = 0x116;
    /// F8.
    pub const F8: u32 = 0x117;
    /// F9.
    pub const F9: u32 = 0x118;
    /// F10.
    pub const F10: u32 = 0x119;
    /// F11.
    pub const F11: u32 = 0x11A;
    /// F12.
    pub const F12: u32 = 0x11B;

    /// A key press without modifiers.
    pub fn from_key_code(key_code: u32) -> (k: KeyPress)
        ensures k.key_code == key_code, k.modifiers == Modifiers::none_spec(),
    {
        KeyPress { key_code, modifiers: Modifiers::none() }
    }

    /// A key press with modifiers.
    pub fn new(key_code: u32, modifiers: Modifiers) -> (k: KeyPress)
        ensures k.key_code == key_code, k.modifiers == modifiers,
    {
        KeyPress { key_code, modifiers }
    }

    /// The key press of a character; a lower-case ASCII letter is upper-cased
    /// when shift is held.
    pub fn from_char(c: char, mods: Modifiers) -> (k: KeyPress)
        ensures k.key_code == spec_char_key_code(c, mods.shift), k.modifiers == mods,
    {
        let key_code = if mods.shift && 'a' <= c && c <= 'z' {
            (c as u32) - 32
        } else {
            c as u32
        };
        KeyPress { key_code, modifiers: mods }
    }

    /// Same key code and same modifiers.
    pub fn matches(&self, other: &KeyPress) -> (b: bool)
        ensures b == (*self == *other),
    {
        self.key_code == other.key_code && self.modifiers == other.modifiers
    }

    /// Whether the key code is printable ASCII (`0x20..=0x7E`).
    pub fn is_printable(&self) -> (b: bool)
        ensures b == (0x20 <= self.key_code <= 0x7E),
    {
        0x20 <= self.key_code && self.key_code <= 0x7E
    }

    /// A description such as `Ctrl+S`, `F5` or `Ctrl+Shift+Right`.
    pub fn get_text_description(&self) -> (s: String)
        ensures s@ == spec_text_description(*self),
    {
        let mut s = String::new();
        if self.modifiers.ctrl {
            s.append("Ctrl+");
        }
        if self.modifiers.alt {
            s.append("Alt+");
        }
        if self.modifiers.shift {
            s.append("Shift+");
        }
        if self.modifiers.meta {
            s.append("Cmd+");
        }
        Self::push_key_code_name(&mut s, self.key_code);
        assert(s@ =~= spec_text_description(*self));
        s
    }

    fn push_key_code_name(s: &mut String, code: u32)
        ensures final(s)@ == old(s)@ + spec_key_name(code),
    {
        if code == Self::SPACE {
            s.append("Space");
        } else if code == Self::ESCAPE {
            s.append("Esc");
        } else if code == Self::RETURN {
            s.append("Return");
        } else if code == Self::TAB {
            s.append("Tab");
        } else if code == Self::BACKSPACE {
            s.append("Backspace");
        } else if code == Self::DELETE {
            s.append("Delete");
        } else if code == Self::INSERT {
            s.append("Insert");
        } else if code == Self::HOME {
            s.append("Home");
        } else if code == Self::END {
            s.append("End");
        } else if code == Self::PAGE_UP {
            s.append("PageUp");
        } else if code == Self::PAGE_DOWN {
            s.append("PageDown");
        } else if code == Self::LEFT {
            s.append("Left");
        } else if code == Self::RIGHT {
            s.append("Right");
        } else if code == Self::UP {
            s.append("Up");
        } else if code == Self::DOWN {
            s.append("Down");
        } else if Self::F1 <= code && code <= Self::F12 {
            let n = code - 0x10F;
            push_char(s, 'F');
            if n < 10 {
                push_char(s, ((n + 48) as u8) as char);
            } else {
                push_char(s, '1');
                push_char(s, (((n - 10) + 48) as u8) as char);
            }
            assert(s@ =~= old(s)@ + spec_key_name(code));
        } else if 0x21 <= code && code <= 0x7E {
            push_char(s, (code as u8) as char);
            assert(s@ =~= old(s)@ + spec_key_name(code));
        } else {
            s.append("0x");
            push_hex(s, code);
            assert(s@ =~= old(s)@ + spec_key_name(code));
        }
    }
}

impl Modifiers {
    /// No modifier held, as a value.
    pub open spec fn none_spec() -> Modifiers {
        Modifiers { shift: false, ctrl: false, alt: false, meta: false }
    }
}

// ---------------------------------------------------------------------------
// CommandInfo
// ---------------------------------------------------------------------------

/// Metadata of one command.
#[derive(Clone, PartialEq, Eq, Hash, Debug)]
pub struct CommandInfo {
    /// Its id.
    pub command_id: CommandId,
    /// Short verb ("Save").
    pub short_name: String,
    /// Menu label ("File > Save").
    pub long_name: String,
    /// Longer description.
    pub description: String,
    /// Group ("File", "Edit").
    pub category: String,
    /// State bits.
    pub flags: CommandFlags,
    /// The default key press, if any.
    pub default_keypress: Option<KeyPress>,
}

impl CommandInfo {
    /// A command with just an id and a short name.
    pub fn new(command_id: CommandId, short_name: &str) -> (c: CommandInfo)
        ensures
            c.command_id == command_id,
            c.short_name@ == short_name@,
            c.long_name@ == Seq::<char>::empty(),
            c.description@ == Seq::<char>::empty(),
            c.category@ == Seq::<char>::empty(),
            c.flags.0 == 0,
            c.default_keypress is None,
    {
        CommandInfo {
            command_id,
            short_name: String::from_str(short_name),
            long_name: String::new(),
            description: String::new(),
            category: String::new(),
            flags: CommandFlags::empty(),
            default_keypress: None,
        }
    }

    /// Set the long name.
    pub fn with_long_name(self, name: &str) -> (c: CommandInfo)
        ensures c == (CommandInfo { long_name: c.long_name, ..self }), c.long_name@ == name@,
    {
        let mut c = self;
        c.long_name = String::from_str(name);
        c
    }

    /// Set the description.
    pub fn with_description(self, desc: &str) -> (c: CommandInfo)
        ensures c == (CommandInfo { description: c.description, ..self }), c.description@ == desc@,
    {
        let mut c = self;
        c.description = String::from_str(desc);
        c
    }

    /// Set the category.
    pub fn with_category(self, cat: &str) -> (c: CommandInfo)
        ensures c == (CommandInfo { category: c.category, ..self }), c.category@ == cat@,
    {
        let mut c = self;
        c.category = String::from_str(cat);
        c
    }

    /// Set the flags.
    pub fn with_flags(self, flags: CommandFlags) -> (c: CommandInfo)
        ensures c == (CommandInfo { flags, ..self }),
    {
        let mut c = self;
        c.flags = flags;
        c
    }

    /// Set the default key press.
    pub fn with_default_keypress(self, key: KeyPress) -> (c: CommandInfo)
        ensures c == (CommandInfo { default_keypress: Some(key), ..self }),
    {
        let mut c = self;
        c.default_keypress = Some(key);
        c
    }
}

// ---------------------------------------------------------------------------
// KeyPressMappingSet
// ---------------------------------------------------------------------------

/// The key presses of a list other than one.
pub open spec fn spec_without(s: Seq<KeyPress>, key: KeyPress) -> Seq<KeyPress>
    decreases s.len(),
{
    if s.len() == 0 {
        s
    } else if s.last() == key {
        spec_without(s.drop_last(), key)
    } else {
        spec_without(s.drop_last(), key).push(s.last())
    }
}

/// A binding table with the bindings of each listed key press removed.
pub open spec fn spec_unbind_all(m: Map<u64, (KeyPress, CommandId)>, ks: Seq<KeyPress>) -> Map<u64, (KeyPress, CommandId)>
    decreases ks.len(),
{
    if ks.len() == 0 {
        m
    } else {
        spec_unbind_all(m, ks.drop_last()).remove(spec_keypress_key(ks.last()))
    }
}

/// The key presses recorded under a command in a record table.
pub open spec fn spec_keys_in(r: Map<u64, Seq<KeyPress>>, id: CommandId) -> Seq<KeyPress> {
    if r.contains_key(id.0 as u64) {
        r[id.0 as u64]
    } else {
        Seq::empty()
    }
}

/// The command a key press is bound to in a binding table.
pub open spec fn spec_command_in(b: Map<u64, (KeyPress, CommandId)>, key: KeyPress) -> Option<CommandId> {
    if b.contains_key(spec_keypress_key(key)) {
        Some(b[spec_keypress_key(key)].1)
    } else {
        None
    }
}

/// A binding table and a record table agree: the bindings are finite and
/// stored under their own keys, every record is a non-empty list without
/// repeats, and a command's record holds exactly the key presses bound to it.
pub open spec fn spec_mappings_wf(b: Map<u64, (KeyPress, CommandId)>, r: Map<u64, Seq<KeyPress>>) -> bool {
    &&& b.dom().finite()
    &&& forall|h: u64| #[trigger] b.contains_key(h) ==> spec_keypress_key(b[h].0) == h
    &&& forall|c: u64| #[trigger] r.contains_key(c) ==> c <= u32::MAX && r[c].len() > 0 && r[c].no_duplicates()
    &&& forall|key: KeyPress, id: CommandId|
        #![trigger spec_keys_in(r, id).contains(key)]
        #![trigger spec_keys_in(r, id), spec_command_in(b, key)]
        spec_keys_in(r, id).contains(key) <==> spec_command_in(b, key) == Some(id)
}

/// The bindings of a table whose command is not `id`.
pub open spec fn spec_drop_command(b: Map<u64, (KeyPress, CommandId)>, id: CommandId) -> Map<u64, (KeyPress, CommandId)> {
    b.restrict(Set::new(|h: u64| b.contains_key(h) && b[h].1 != id))
}

/// Key presses bound to commands, with the key presses bound to each
/// command recorded for it.
#[derive(Debug)]
pub struct KeyPressMappingSet {
    forward: KeyedList<(KeyPress, CommandId)>,
    reverse: KeyedList<Vec<KeyPress>>,
}

impl KeyPressMappingSet {
    /// The binding of each key press, by `spec_keypress_key`.
    pub closed spec fn bindings(self) -> Map<u64, (KeyPress, CommandId)> {
        self.forward@
    }

    /// The key presses bound to each command, by command id.
    pub closed spec fn keys_by_command(self) -> Map<u64, Seq<KeyPress>> {
        self.reverse@.map_values(|v: Vec<KeyPress>| v@)
    }

    /// The command a key press is bound to.
    pub open spec fn command_for(self, key: KeyPress) -> Option<CommandId> {
        spec_command_in(self.bindings(), key)
    }

    /// Whether a (key press, command) pair is one of the bindings.
    pub open spec fn is_binding(self, e: (KeyPress, CommandId)) -> bool {
        exists|k: u64| self.bindings().contains_key(k) && #[trigger] self.bindings()[k] == e
    }

    /// The key presses bound to a command (none when it has no record).
    pub open spec fn keys_of(self, id: CommandId) -> Seq<KeyPress> {
        spec_keys_in(self.keys_by_command(), id)
    }

    /// The bindings and the records agree (see [`spec_mappings_wf`]).
    pub open spec fn well_indexed(self) -> bool {
        spec_mappings_wf(self.bindings(), self.keys_by_command())
    }

    #[verifier::type_invariant]
    spec fn consistent(self) -> bool {
        self.well_indexed()
    }

    /// An empty set.
    pub fn new() -> (s: KeyPressMappingSet)
        ensures
            s.bindings() == Map::<u64, (KeyPress, CommandId)>::empty(),
            s.keys_by_command() == Map::<u64, Seq<KeyPress>>::empty(),
            s.well_indexed(),
    {
        let forward: KeyedList<(KeyPress, CommandId)> = KeyedList::new();
        let reverse: KeyedList<Vec<KeyPress>> = KeyedList::new();
        proof {
            assert(reverse@.map_values(|v: Vec<KeyPress>| v@) =~= Map::<u64, Seq<KeyPress>>::empty());
            lemma_empty_mappings_wf();
        }
        KeyPressMappingSet { forward, reverse }
    }

    /// The number of bound key presses.
    pub fn len(&self) -> (n: usize)
        ensures
            n == self.bindings().dom().len(),
            self.well_indexed(),
    {
        proof { use_type_invariant(self); }
        self.forward.len()
    }

    /// Whether no key press is bound.
    pub fn is_empty(&self) -> (b: bool)
        ensures
            b == (self.bindings().dom().len() == 0),
            self.well_indexed(),
    {
        proof { use_type_invariant(self); }
        self.forward.is_empty()
    }

    /// Bind a key press to a command, unless it is already bound: the first
    /// command bound to a key press keeps it. Returns the command the key
    /// press was bound to before the call.
    pub fn add_mapping(&mut self, key: KeyPress, id: CommandId) -> (prev: Option<CommandId>)
        ensures
            old(self).well_indexed(),
            final(self).well_indexed(),
            prev == old(self).command_for(key),
            prev is Some ==> final(self).bindings() == old(self).bindings()
                && final(self).keys_by_command() == old(self).keys_by_command(),
            prev is None ==> final(self).bindings() == old(self).bindings().insert(spec_keypress_key(key), (key, id))
                && final(self).keys_by_command() == old(self).keys_by_command().insert(
                id.0 as u64,
                old(self).keys_of(id).push(key),
            ),
    {
        proof { use_type_invariant(&*self); }
        let h = keypress_key(key);
        match self.forward.get(h) {
            Some(e) => {
                return Some(e.1);
            },
            None => {},
        }
        let mut t = KeyPressMappingSet::new();
        std::mem::swap(self, &mut t);
        let KeyPressMappingSet { mut forward, mut reverse } = t;
        forward.insert(h, (key, id));
        let c = id.0 as u64;
        let previous = reverse.insert(c, Vec::new());
        let mut keys = match previous {
            Some(v) => v,
            None => Vec::new(),
        };
        keys.push(key);
        reverse.insert(c, keys);
        proof {
            assert(reverse@.map_values(|v: Vec<KeyPress>| v@) =~= old(self).keys_by_command().insert(
                c,
                old(self).keys_of(id).push(key),
            ));
            lemma_mappings_wf_add(old(self).bindings(), old(self).keys_by_command(), key, id);
        }
        *self = KeyPressMappingSet { forward, reverse };
        None
    }

    /// Unbind a key press, returning the command it was bound to. The key
    /// press is also dropped from that command's record, and a record left
    /// empty is removed.
    pub fn remove_mapping(&mut self, key: &KeyPress) -> (r: Option<CommandId>)
        ensures
            old(self).well_indexed(),
            final(self).well_indexed(),
            r == old(self).command_for(*key),
            r is None ==> final(self).bindings() == old(self).bindings()
                && final(self).keys_by_command() == old(self).keys_by_command(),
            r matches Some(id) ==> final(self).bindings() == old(self).bindings().remove(spec_keypress_key(*key))
                && (spec_without(old(self).keys_of(id), *key).len() == 0
                    ==> final(self).keys_by_command() == old(self).keys_by_command().remove(id.0 as u64))
                && (spec_without(old(self).keys_of(id), *key).len() > 0
                    ==> final(self).keys_by_command() == old(self).keys_by_command().insert(
                    id.0 as u64,
                    spec_without(old(self).keys_of(id), *key),
                )),
    {
        proof { use_type_invariant(&*self); }
        let h = keypress_key(*key);
        let id = match self.forward.get(h) {
            Some(e) => e.1,
            None => {
                return None;
            },
        };
        let mut t = KeyPressMappingSet::new();
        std::mem::swap(self, &mut t);
        let KeyPressMappingSet { mut forward, mut reverse } = t;
        forward.remove(h);
        let c = id.0 as u64;
        proof {
            assert(spec_keys_in(old(self).keys_by_command(), id).contains(*key));
        }
        let keys = match reverse.insert(c, Vec::new()) {
            Some(v) => v,
            None => Vec::new(),
        };
        let kept = without(&keys, key);
        if kept.len() == 0 {
            reverse.remove(c);
            proof {
                assert(reverse@.map_values(|v: Vec<KeyPress>| v@) =~= old(self).keys_by_command().remove(c));
            }
        } else {
            reverse.insert(c, kept);
            proof {
                assert(reverse@.map_values(|v: Vec<KeyPress>| v@) =~= old(self).keys_by_command().insert(
                    c,
                    spec_without(old(self).keys_of(id), *key),
                ));
            }
        }
        proof {
            lemma_mappings_wf_remove(old(self).bindings(), old(self).keys_by_command(), *key, id);
        }
        *self = KeyPressMappingSet { forward, reverse };
        Some(id)
    }

    /// Unbind every key press bound to a command, and drop its record;
    /// bindings to other commands stay.
    pub fn remove_all_mappings_for_command(&mut self, id: CommandId)
        ensures
            old(self).well_indexed(),
            final(self).well_indexed(),
            final(self).bindings() == spec_drop_command(old(self).bindings(), id),
            final(self).keys_by_command() == old(self).keys_by_command().remove(id.0 as u64),
            forall|k: KeyPress| #[trigger] final(self).command_for(k) == (if old(self).command_for(k) == Some(id) {
                None
            } else {
                old(self).command_for(k)
            }),
    {
        proof { use_type_invariant(&*self); }
        let c = id.0 as u64;
        let mut t = KeyPressMappingSet::new();
        std::mem::swap(self, &mut t);
        let KeyPressMappingSet { mut forward, mut reverse } = t;
        let ghost b0 = forward@;
        match reverse.remove(c) {
            Some(keys) => {
                let mut i: usize = 0;
                while i < keys.len()
                    invariant
                        i <= keys@.len(),
                        keys@ == old(self).keys_of(id),
                        forward@ == spec_unbind_all(b0, keys@.take(i as int)),
                    decreases keys@.len() - i,
                {
                    forward.remove(keypress_key(keys[i]));
                    proof {
                        assert(keys@.take(i as int + 1).drop_last() =~= keys@.take(i as int));
                    }
                    i = i + 1;
                }
                assert(keys@.take(i as int) =~= keys@);
            },
            None => {
                proof {
                    assert(spec_unbind_all(b0, Seq::<KeyPress>::empty()) == b0);
                }
            },
        }
        proof {
            assert(reverse@.map_values(|v: Vec<KeyPress>| v@) =~= old(self).keys_by_command().remove(c));
            lemma_mappings_wf_remove_all(old(self).bindings(), old(self).keys_by_command(), id);
        }
        *self = KeyPressMappingSet { forward, reverse };
        proof {
            assert forall|k: KeyPress| #[trigger] self.command_for(k) == (if old(self).command_for(k) == Some(id) {
                None
            } else {
                old(self).command_for(k)
            }) by {}
        }
    }

    /// Drop every binding and record.
    pub fn clear(&mut self)
        ensures
            final(self).bindings() == Map::<u64, (KeyPress, CommandId)>::empty(),
            final(self).keys_by_command() == Map::<u64, Seq<KeyPress>>::empty(),
            final(self).well_indexed(),
    {
        *self = KeyPressMappingSet::new();
    }

    /// The command a key press is bound to.
    pub fn find_command_for_keypress(&self, key: &KeyPress) -> (r: Option<CommandId>)
        ensures r == self.command_for(*key),
    {
        match self.forward.get(keypress_key(*key)) {
            Some(entry) => Some(entry.1),
            None => None,
        }
    }

    /// The key presses bound to a command, each once.
    pub fn get_keypresses_for_command(&self, id: CommandId) -> (r: Vec<KeyPress>)
        ensures
            r@ == self.keys_of(id),
            r@.no_duplicates(),
            forall|k: KeyPress| #[trigger] r@.contains(k) <==> self.command_for(k) == Some(id),
    {
        proof { use_type_invariant(self); }
        let r = match self.reverse.get(id.0 as u64) {
            Some(keys) => copy_keys(keys),
            None => Vec::new(),
        };
        proof {
            if self.keys_by_command().contains_key(id.0 as u64) {
                assert(self.keys_of(id).no_duplicates());
            } else {
                assert(r@ =~= Seq::<KeyPress>::empty());
            }
            assert forall|k: KeyPress| #[trigger] r@.contains(k) <==> self.command_for(k) == Some(id) by {
                assert(spec_keys_in(self.keys_by_command(), id).contains(k) <==> spec_command_in(self.bindings(), k) == Some(id));
            }
        }
        r
    }

    /// Every (key press, command) binding, in the order first bound.
    pub fn iter(&self) -> (r: Vec<(KeyPress, CommandId)>)
        ensures
            r@.len() == self.bindings().dom().len(),
            forall|i: int| 0 <= i < r@.len() ==> #[trigger] self.is_binding(r@[i]),
            forall|k: u64| #[trigger] self.bindings().contains_key(k) ==> exists|i: int|
                0 <= i < r@.len() && r@[i] == self.bindings()[k],
    {
        let ks = self.forward.keys();
        let n = self.forward.len();
        let mut out: Vec<(KeyPress, CommandId)> = Vec::new();
        let mut i: usize = 0;
        while i < n
            invariant
                n == ks@.len(),
                ks@ == self.forward.key_order(),
                ks@.to_set() == self.forward@.dom(),
                i <= n,
                out@.len() == i,
                forall|j: int| 0 <= j < i ==> self.forward@.contains_key(#[trigger] ks@[j])
                    && self.forward@[ks@[j]] == out@[j],
            decreases n - i,
        {
            let (k, e) = self.forward.entry_at(i);
            proof { assert(ks@.to_set().contains(ks@[i as int])); }
            out.push(*e);
            i = i + 1;
        }
        proof {
            assert forall|i: int| 0 <= i < out@.len() implies #[trigger] self.is_binding(out@[i]) by {
                let k = ks@[i];
                assert(self.forward@.contains_key(k));
                assert(self.bindings().contains_key(k) && self.bindings()[k] == out@[i]);
            }
            assert forall|k: u64| #[trigger] self.bindings().contains_key(k) implies exists|i: int|
                0 <= i < out@.len() && out@[i] == self.bindings()[k] by {
                assert(ks@.to_set().contains(k));
                let j = choose|j: int| 0 <= j < ks@.len() && ks@[j] == k;
                assert(self.forward@.contains_key(ks@[j]));
            }
        }
        out
    }
}

/// A copy of a list of key presses.
fn copy_keys(v: &Vec<KeyPress>) -> (r: Vec<KeyPress>)
    ensures r@ == v@,
{
    let mut r: Vec<KeyPress> = Vec::new();
    let mut i: usize = 0;
    while i < v.len()
        invariant
            i <= v@.len(),
            r@ == v@.take(i as int),
        decreases v@.len() - i,
    {
        r.push(v[i]);
        assert(r@ =~= v@.take(i as int + 1));
        i = i + 1;
    }
    assert(v@.take(i as int) =~= v@);
    r
}

/// The key presses of a list other than one, in order.
fn without(v: &Vec<KeyPress>, key: &KeyPress) -> (r: Vec<KeyPress>)
    ensures r@ == spec_without(v@, *key),
{
    let mut r: Vec<KeyPress> = Vec::new();
    let mut i: usize = 0;
    while i < v.len()
        invariant
            i <= v@.len(),
            r@ == spec_without(v@.take(i as int), *key),
        decreases v@.len() - i,
    {
        proof { assert(v@.take(i as int + 1).drop_last() =~= v@.take(i as int)); }
        if v[i] != *key {
            r.push(v[i]);
        }
        i = i + 1;
    }
    assert(v@.take(i as int) =~= v@);
    r
}

/// Removing every copy of `key` keeps exactly the other entries.
pub proof fn lemma_without_contains(s: Seq<KeyPress>, key: KeyPress, x: KeyPress)
    ensures spec_without(s, key).contains(x) <==> (s.contains(x) && x != key),
    decreases s.len(),
{
    if s.len() > 0 {
        let t = s.drop_last();
        let l = s.last();
        lemma_without_contains(t, key, x);
        lemma_push_contains(t, l, x);
        assert(s =~= t.push(l));
        if l != key {
            lemma_push_contains(spec_without(t, key), l, x);
        }
    }
}

/// What a sequence with one more entry contains.
pub proof fn lemma_push_contains(s: Seq<KeyPress>, e: KeyPress, x: KeyPress)
    ensures s.push(e).contains(x) <==> (s.contains(x) || x == e),
{
    if s.contains(x) {
        let j = choose|j: int| 0 <= j < s.len() && s[j] == x;
        assert(s.push(e)[j] == x);
    }
    if x == e {
        assert(s.push(e)[s.len() as int] == x);
    }
    if s.push(e).contains(x) && x != e {
        let j = choose|j: int| 0 <= j < s.push(e).len() && s.push(e)[j] == x;
        assert(j < s.len());
        assert(s[j] == x);
    }
}

/// Unbinding a list of key presses keeps exactly the bindings of the other
/// key presses, unchanged.
pub proof fn lemma_unbind_all(m: Map<u64, (KeyPress, CommandId)>, ks: Seq<KeyPress>, k: u64)
    ensures
        spec_unbind_all(m, ks).contains_key(k) <==> (m.contains_key(k)
            && forall|i: int| 0 <= i < ks.len() ==> spec_keypress_key(#[trigger] ks[i]) != k),
        spec_unbind_all(m, ks).contains_key(k) ==> spec_unbind_all(m, ks)[k] == m[k],
    decreases ks.len(),
{
    if ks.len() > 0 {
        lemma_unbind_all(m, ks.drop_last(), k);
        let r = spec_unbind_all(m, ks.drop_last());
        if m.contains_key(k) && forall|i: int| 0 <= i < ks.len() ==> spec_keypress_key(#[trigger] ks[i]) != k {
            assert forall|i: int| 0 <= i < ks.drop_last().len() implies spec_keypress_key(#[trigger] ks.drop_last()[i]) != k by {
                assert(ks.drop_last()[i] == ks[i]);
            }
            assert(spec_keypress_key(ks[ks.len() - 1]) != k);
        }
        if spec_unbind_all(m, ks).contains_key(k) {
            assert forall|i: int| 0 <= i < ks.len() implies spec_keypress_key(#[trigger] ks[i]) != k by {
                if i < ks.len() - 1 {
                    assert(ks.drop_last()[i] == ks[i]);
                }
            }
        }
    }
}

/// Empty tables agree.
pub proof fn lemma_empty_mappings_wf()
    ensures
        spec_mappings_wf(Map::<u64, (KeyPress, CommandId)>::empty(), Map::<u64, Seq<KeyPress>>::empty()),
{
}

/// A list without repeats stays so with a new element appended.
pub proof fn lemma_push_no_dup(s: Seq<KeyPress>, e: KeyPress)
    requires
        s.no_duplicates(),
        !s.contains(e),
    ensures
        s.push(e).no_duplicates(),
{
    assert forall|i: int, j: int| 0 <= i < s.push(e).len() && 0 <= j < s.push(e).len() && i != j
        implies s.push(e)[i] != s.push(e)[j] by {
        if i < s.len() && j < s.len() {
        } else if i < s.len() {
            assert(s.contains(s[i]));
        } else if j < s.len() {
            assert(s.contains(s[j]));
        }
    }
}

/// Dropping a key press from a list without repeats leaves none.
pub proof fn lemma_without_no_dup(s: Seq<KeyPress>, key: KeyPress)
    requires
        s.no_duplicates(),
    ensures
        spec_without(s, key).no_duplicates(),
    decreases s.len(),
{
    if s.len() > 0 {
        let t = s.drop_last();
        let l = s.last();
        assert(t.no_duplicates()) by {
            assert forall|i: int, j: int| 0 <= i < t.len() && 0 <= j < t.len() && i != j implies t[i] != t[j] by {
                assert(t[i] == s[i] && t[j] == s[j]);
            }
        }
        lemma_without_no_dup(t, key);
        if l != key {
            lemma_without_contains(t, key, l);
            if t.contains(l) {
                let i = choose|i: int| 0 <= i < t.len() && t[i] == l;
                assert(s[i] == s[s.len() - 1]);
            }
            lemma_push_no_dup(spec_without(t, key), l);
        }
    }
}

/// Binding an unbound key press to a command keeps the tables in agreement.
pub proof fn lemma_mappings_wf_add(b: Map<u64, (KeyPress, CommandId)>, r: Map<u64, Seq<KeyPress>>, key: KeyPress, id: CommandId)
    requires
        spec_mappings_wf(b, r),
        spec_command_in(b, key) is None,
    ensures
        spec_mappings_wf(
            b.insert(spec_keypress_key(key), (key, id)),
            r.insert(id.0 as u64, spec_keys_in(r, id).push(key)),
        ),
{
    let h = spec_keypress_key(key);
    let c = id.0 as u64;
    let ks = spec_keys_in(r, id);
    let b2 = b.insert(h, (key, id));
    let r2 = r.insert(c, ks.push(key));
    assert(!ks.contains(key));
    if r.contains_key(c) {
        assert(ks.no_duplicates());
    }
    lemma_push_no_dup(ks, key);
    assert forall|h2: u64| #[trigger] b2.contains_key(h2) implies spec_keypress_key(b2[h2].0) == h2 by {
        if h2 != h {
            assert(b.contains_key(h2));
        }
    }
    assert forall|c2: u64| #[trigger] r2.contains_key(c2) implies c2 <= u32::MAX && r2[c2].len() > 0
        && r2[c2].no_duplicates() by {
        if c2 != c {
            assert(r.contains_key(c2));
        }
    }
    assert forall|k2: KeyPress, id2: CommandId| spec_keys_in(r2, id2).contains(k2)
        <==> spec_command_in(b2, k2) == Some(id2) by {
        lemma_keypress_key_injective(k2, key);
        lemma_push_contains(ks, key, k2);
        assert(spec_keys_in(r, id2).contains(k2) <==> spec_command_in(b, k2) == Some(id2));
        assert(spec_keys_in(r, id).contains(k2) <==> spec_command_in(b, k2) == Some(id));
        assert(spec_keys_in(r, id2).contains(key) <==> spec_command_in(b, key) == Some(id2));
    }
}

/// Unbinding a bound key press, and dropping it from its command's record
/// (the record itself when left empty), keeps the tables in agreement.
pub proof fn lemma_mappings_wf_remove(b: Map<u64, (KeyPress, CommandId)>, r: Map<u64, Seq<KeyPress>>, key: KeyPress, id: CommandId)
    requires
        spec_mappings_wf(b, r),
        spec_command_in(b, key) == Some(id),
    ensures
        spec_keys_in(r, id).contains(key),
        r.contains_key(id.0 as u64),
        spec_mappings_wf(
            b.remove(spec_keypress_key(key)),
            if spec_without(spec_keys_in(r, id), key).len() == 0 {
                r.remove(id.0 as u64)
            } else {
                r.insert(id.0 as u64, spec_without(spec_keys_in(r, id), key))
            },
        ),
{
    let h = spec_keypress_key(key);
    let c = id.0 as u64;
    let ks = spec_keys_in(r, id);
    let w = spec_without(ks, key);
    let b2 = b.remove(h);
    let r2 = if w.len() == 0 { r.remove(c) } else { r.insert(c, w) };
    assert(ks.contains(key));
    assert(r.contains_key(c));
    lemma_without_no_dup(ks, key);
    assert forall|h2: u64| #[trigger] b2.contains_key(h2) implies spec_keypress_key(b2[h2].0) == h2 by {
        assert(b.contains_key(h2));
    }
    assert forall|c2: u64| #[trigger] r2.contains_key(c2) implies c2 <= u32::MAX && r2[c2].len() > 0
        && r2[c2].no_duplicates() by {
        if c2 != c {
            assert(r.contains_key(c2));
        }
    }
    assert forall|k2: KeyPress, id2: CommandId| spec_keys_in(r2, id2).contains(k2)
        <==> spec_command_in(b2, k2) == Some(id2) by {
        lemma_keypress_key_injective(k2, key);
        lemma_without_contains(ks, key, k2);
        assert(spec_keys_in(r, id2).contains(k2) <==> spec_command_in(b, k2) == Some(id2));
        assert(spec_keys_in(r, id).contains(k2) <==> spec_command_in(b, k2) == Some(id));
        assert(spec_keys_in(r, id2).contains(key) <==> spec_command_in(b, key) == Some(id2));
    }
}

/// Unbinding the key presses recorded for a command drops exactly the
/// bindings to it, and with its record gone the tables still agree.
pub proof fn lemma_mappings_wf_remove_all(b: Map<u64, (KeyPress, CommandId)>, r: Map<u64, Seq<KeyPress>>, id: CommandId)
    requires
        spec_mappings_wf(b, r),
    ensures
        spec_unbind_all(b, spec_keys_in(r, id)) == spec_drop_command(b, id),
        spec_mappings_wf(spec_drop_command(b, id), r.remove(id.0 as u64)),
{
    let c = id.0 as u64;
    let ks = spec_keys_in(r, id);
    let d = spec_drop_command(b, id);
    let u = spec_unbind_all(b, ks);
    assert forall|h2: u64| (#[trigger] u.contains_key(h2) <==> d.contains_key(h2))
        && (u.contains_key(h2) ==> u[h2] == d[h2]) by {
        lemma_unbind_all(b, ks, h2);
        if b.contains_key(h2) {
            let k = b[h2].0;
            assert(spec_keypress_key(k) == h2);
            if b[h2].1 == id {
                assert(spec_command_in(b, k) == Some(id));
                assert(spec_keys_in(r, id).contains(k));
                let i = choose|i: int| 0 <= i < ks.len() && ks[i] == k;
                assert(spec_keypress_key(ks[i]) == h2);
            } else {
                assert forall|i: int| 0 <= i < ks.len() implies spec_keypress_key(#[trigger] ks[i]) != h2 by {
                    assert(ks.contains(ks[i]));
                    assert(spec_keys_in(r, id).contains(ks[i]));
                    if spec_keypress_key(ks[i]) == h2 {
                        assert(spec_command_in(b, ks[i]) == Some(b[h2].1));
                    }
                }
            }
        }
    }
    assert(u =~= d);
    assert(d.dom().subset_of(b.dom()));
    vstd::set_lib::lemma_set_subset_finite(b.dom(), d.dom());
    let r2 = r.remove(c);
    assert forall|h2: u64| #[trigger] d.contains_key(h2) implies spec_keypress_key(d[h2].0) == h2 by {
        assert(b.contains_key(h2));
    }
    assert forall|c2: u64| #[trigger] r2.contains_key(c2) implies c2 <= u32::MAX && r2[c2].len() > 0
        && r2[c2].no_duplicates() by {
        assert(r.contains_key(c2));
    }
    assert forall|k2: KeyPress, id2: CommandId| spec_keys_in(r2, id2).contains(k2)
        <==> spec_command_in(d, k2) == Some(id2) by {
        assert(spec_keys_in(r, id2).contains(k2) <==> spec_command_in(b, k2) == Some(id2));
    }
}

/// An empty set is well indexed.
pub proof fn lemma_empty_well_indexed(s: KeyPressMappingSet)
    requires
        s.bindings() == Map::<u64, (KeyPress, CommandId)>::empty(),
        s.keys_by_command() == Map::<u64, Seq<KeyPress>>::empty(),
    ensures
        s.well_indexed(),
{
}

/// In a well-indexed set, the key presses recorded for a command are
/// exactly those bound to it.
pub proof fn lemma_keys_match_bindings(s: KeyPressMappingSet, key: KeyPress, id: CommandId)
    requires
        s.well_indexed(),
    ensures
        s.keys_of(id).contains(key) <==> s.command_for(key) == Some(id),
{
}

/// After `add_mapping(key, id)` the key press finds the command it was first
/// bound to: `id` when it was unbound, its earlier command otherwise.
pub proof fn lemma_add_mapping_then_find(before: KeyPressMappingSet, after: KeyPressMappingSet, key: KeyPress, id: CommandId)
    requires
        before.command_for(key) is Some ==> after.bindings() == before.bindings(),
        before.command_for(key) is None ==> after.bindings()
            == before.bindings().insert(spec_keypress_key(key), (key, id)),
    ensures
        after.command_for(key) == (if before.command_for(key) is None { Some(id) } else { before.command_for(key) }),
{
}

/// After `remove_mapping(key)` the key press finds nothing.
pub proof fn lemma_remove_mapping_then_find(before: KeyPressMappingSet, after: KeyPressMappingSet, key: KeyPress, r: Option<CommandId>)
    requires
        r == before.command_for(key),
        r is None ==> after.bindings() == before.bindings(),
        r is Some ==> after.bindings() == before.bindings().remove(spec_keypress_key(key)),
    ensures
        after.command_for(key) is None,
{
}

/// After `remove_all_mappings_for_command(id)` no key press finds `id`, and
/// every other binding stays.
pub proof fn lemma_remove_all_then_find(before: KeyPressMappingSet, after: KeyPressMappingSet, id: CommandId, key: KeyPress)
    requires
        after.bindings() == spec_drop_command(before.bindings(), id),
    ensures
        after.command_for(key) != Some(id),
        before.command_for(key) != Some(id) ==> after.command_for(key) == before.command_for(key),
{
}


// ---------------------------------------------------------------------------
// Targets and listeners
// ---------------------------------------------------------------------------

/// Notified when the command list or a command's status changes.
pub trait CommandListener {
    /// The list of registered commands changed.
    fn command_list_changed(&mut self);

    /// A command's status (enabled, ticked) may have changed.
    fn command_status_changed(&mut self);
}

/// How an invocation was triggered.
#[derive(Copy, Clone, PartialEq, Eq, Structural, Hash, Debug)]
pub enum InvocationOrigin {
    /// From code.
    Direct,
    /// From a key press.
    Key,
    /// From a menu item.
    Menu,
    /// From a button.
    Button,
}

/// What a target is asked to perform.
#[derive(Copy, Clone, PartialEq, Eq, Structural, Hash, Debug)]
pub struct InvocationInfo {
    /// The command.
    pub command_id: CommandId,
    /// How it was triggered.
    pub origin: InvocationOrigin,
    /// Whether to perform it later on the message thread.
    pub asynchronously: bool,
}

impl InvocationInfo {
    /// A direct, synchronous invocation of a command.
    pub fn from_command(command_id: CommandId) -> (i: InvocationInfo)
        ensures
            i == (InvocationInfo { command_id, origin: InvocationOrigin::Direct, asynchronously: false }),
    {
        InvocationInfo { command_id, origin: InvocationOrigin::Direct, asynchronously: false }
    }
}

// ---------------------------------------------------------------------------
// ApplicationCommandManager
// ---------------------------------------------------------------------------

/// The commands of a category, in registration order.
pub open spec fn spec_in_category(order: Seq<u64>, commands: Map<u64, CommandInfo>, category: Seq<char>) -> Seq<CommandId>
    decreases order.len(),
{
    if order.len() == 0 {
        Seq::empty()
    } else {
        let rest = spec_in_category(order.drop_last(), commands, category);
        let c = commands[order.last()];
        if c.category@ == category {
            rest.push(c.command_id)
        } else {
            rest
        }
    }
}

/// The non-empty categories of registered commands.
pub open spec fn spec_categories(commands: Map<u64, CommandInfo>) -> Set<Seq<char>> {
    Set::new(|c: Seq<char>| c.len() > 0 && exists|k: u64| #[trigger] commands.contains_key(k) && commands[k].category@ == c)
}

/// One call a command manager makes on a listener.
pub enum CommandNotification {
    /// `command_list_changed`.
    ListChanged,
    /// `command_status_changed`.
    StatusChanged,
}

/// The registry of commands, key mappings, dispatch targets and listeners.
pub struct ApplicationCommandManager {
    commands: KeyedList<CommandInfo>,
    key_mappings: KeyPressMappingSet,
    listeners: Vec<Box<dyn CommandListener>>,
    notified_log: Ghost<Seq<CommandNotification>>,
}

impl ApplicationCommandManager {
    /// The registered commands, by id.
    pub closed spec fn commands(self) -> Map<u64, CommandInfo> {
        self.commands@
    }

    /// The ids in registration order.
    pub closed spec fn order(self) -> Seq<u64> {
        self.commands.key_order()
    }

    /// The key mappings.
    pub closed spec fn mappings(self) -> KeyPressMappingSet {
        self.key_mappings
    }

    /// The calls made on listeners so far, in order.
    pub closed spec fn notified(self) -> Seq<CommandNotification> {
        self.notified_log@
    }

    /// An empty manager.
    pub fn new() -> (m: ApplicationCommandManager)
        ensures
            m.commands() == Map::<u64, CommandInfo>::empty(),
            m.order() == Seq::<u64>::empty(),
            m.mappings().bindings() == Map::<u64, (KeyPress, CommandId)>::empty(),
            m.mappings().keys_by_command() == Map::<u64, Seq<KeyPress>>::empty(),
    {
        ApplicationCommandManager {
            commands: KeyedList::new(),
            key_mappings: KeyPressMappingSet::new(),
            listeners: Vec::new(),
            notified_log: Ghost(Seq::empty()),
        }
    }

    /// Drop every command and key mapping.
    pub fn clear_commands(&mut self)
        ensures
            final(self).commands() == Map::<u64, CommandInfo>::empty(),
            final(self).order() == Seq::<u64>::empty(),
            final(self).mappings().bindings() == Map::<u64, (KeyPress, CommandId)>::empty(),
            final(self).mappings().keys_by_command() == Map::<u64, Seq<KeyPress>>::empty(),
    {
        self.commands = KeyedList::new();
        self.key_mappings.clear();
        self.notify_list_changed();
    }

    /// Register a command, replacing one with the same id (which keeps its
    /// place in the order); its default key press, if any, is mapped to it.
    pub fn register_command(&mut self, info: CommandInfo)
        ensures
            final(self).commands() == old(self).commands().insert(info.command_id.0 as u64, info),
            old(self).commands().contains_key(info.command_id.0 as u64) ==> final(self).order() == old(self).order(),
            !old(self).commands().contains_key(info.command_id.0 as u64) ==> final(self).order()
                == old(self).order().push(info.command_id.0 as u64),
            info.default_keypress matches Some(k) ==> (old(self).mappings().command_for(k) is None
                ==> final(self).mappings().bindings()
                == old(self).mappings().bindings().insert(spec_keypress_key(k), (k, info.command_id))
                && final(self).mappings().keys_by_command() == old(self).mappings().keys_by_command().insert(
                info.command_id.0 as u64,
                old(self).mappings().keys_of(info.command_id).push(k),
            )),
            info.default_keypress matches Some(k) ==> (old(self).mappings().command_for(k) is Some
                ==> final(self).mappings().bindings() == old(self).mappings().bindings()
                && final(self).mappings().keys_by_command() == old(self).mappings().keys_by_command()),
            info.default_keypress is None ==> final(self).mappings() == old(self).mappings(),
            final(self).mappings().well_indexed(),
            final(self).listener_count() == old(self).listener_count(),
            final(self).notified() == old(self).notified() + Seq::new(
                old(self).listener_count(),
                |i: int| CommandNotification::ListChanged,
            ),
    {
        proof { use_type_invariant(&self.key_mappings); }
        let id = info.command_id;
        let default_keypress = info.default_keypress;
        self.commands.insert(id.0 as u64, info);
        match default_keypress {
            Some(key) => {
                self.key_mappings.add_mapping(key, id);
            },
            None => {},
        }
        self.notify_list_changed();
    }

    /// Remove a command and unbind its recorded key presses.
    pub fn remove_command(&mut self, id: CommandId)
        ensures
            final(self).commands() == old(self).commands().remove(id.0 as u64),
            !old(self).commands().contains_key(id.0 as u64) ==> final(self).order() == old(self).order()
                && final(self).mappings() == old(self).mappings(),
            old(self).commands().contains_key(id.0 as u64) ==> exists|i: int| 0 <= i < old(self).order().len()
                && old(self).order()[i] == id.0 as u64
                && final(self).order() == old(self).order().remove(i),
            old(self).commands().contains_key(id.0 as u64) ==>
                final(self).mappings().keys_by_command() == old(self).mappings().keys_by_command().remove(id.0 as u64)
                && final(self).mappings().bindings() == spec_drop_command(old(self).mappings().bindings(), id),
            final(self).mappings().well_indexed(),
            final(self).listener_count() == old(self).listener_count(),
            old(self).commands().contains_key(id.0 as u64) ==> final(self).notified() == old(self).notified()
                + Seq::new(old(self).listener_count(), |i: int| CommandNotification::ListChanged),
            !old(self).commands().contains_key(id.0 as u64) ==> final(self).notified() == old(self).notified(),
    {
        proof { use_type_invariant(&self.key_mappings); }
        let removed = self.commands.remove(id.0 as u64);
        let ghost order_after = self.commands.key_order();
        if removed.is_some() {
            self.key_mappings.remove_all_mappings_for_command(id);
            self.notify_list_changed();
            assert(self.commands.key_order() == order_after);
        }
        proof {
            let k = id.0 as u64;
            if old(self).commands().contains_key(k) {
                let i = choose|i: int| 0 <= i < old(self).commands.key_order().len()
                    && old(self).commands.key_order()[i] == k
                    && order_after == old(self).commands.key_order().remove(i);
                assert(0 <= i < old(self).order().len() && old(self).order()[i] == k
                    && self.order() == old(self).order().remove(i));
            }
        }
    }

    /// The number of registered commands.
    pub fn get_num_commands(&self) -> (n: usize)
        ensures
            n == self.commands().dom().len(),
            n == self.order().len(),
            self.commands().dom().finite(),
            self.order().no_duplicates(),
            self.order().to_set() == self.commands().dom(),
    {
        self.commands.len()
    }

    /// The command at a place in registration order.
    pub fn get_command_for_index(&self, index: usize) -> (r: Option<&CommandInfo>)
        ensures
            index >= self.order().len() ==> r is None,
            index < self.order().len() ==> (r matches Some(c) && *c == self.commands()[self.order()[index as int]]),
    {
        if index < self.commands.len() {
            let (_, c) = self.commands.entry_at(index);
            Some(c)
        } else {
            None
        }
    }

    /// The command with an id.
    pub fn get_command_for_id(&self, id: CommandId) -> (r: Option<&CommandInfo>)
        ensures
            r is None <==> !self.commands().contains_key(id.0 as u64),
            r matches Some(c) ==> *c == self.commands()[id.0 as u64],
    {
        self.commands.get(id.0 as u64)
    }

    /// The short name of a command, or the empty string.
    pub fn get_name_of_command(&self, id: CommandId) -> (s: String)
        ensures
            s@ == (if self.commands().contains_key(id.0 as u64) {
                self.commands()[id.0 as u64].short_name@
            } else {
                Seq::<char>::empty()
            }),
    {
        match self.commands.get(id.0 as u64) {
            Some(c) => c.short_name.clone(),
            None => String::new(),
        }
    }

    /// The description of a command, falling back to its short name when
    /// empty; the empty string for an unknown id.
    pub fn get_description_of_command(&self, id: CommandId) -> (s: String)
        ensures
            s@ == (if self.commands().contains_key(id.0 as u64) {
                let c = self.commands()[id.0 as u64];
                if c.description@.len() == 0 { c.short_name@ } else { c.description@ }
            } else {
                Seq::<char>::empty()
            }),
    {
        match self.commands.get(id.0 as u64) {
            Some(c) => {
                if c.description.as_str().is_empty() {
                    c.short_name.clone()
                } else {
                    c.description.clone()
                }
            },
            None => String::new(),
        }
    }

    /// Every non-empty category, each once, in increasing order.
    pub fn get_command_categories(&self) -> (r: Vec<String>)
        ensures
            spec_texts_increasing(spec_texts(r@)),
            spec_texts(r@).to_set() == spec_categories(self.commands()),
    {
        let ks = self.commands.keys();
        let n = self.commands.len();
        let mut cats: Vec<String> = Vec::new();
        let mut i: usize = 0;
        assert(spec_texts(cats@).to_set() =~= Set::<Seq<char>>::empty());
        while i < n
            invariant
                n == ks@.len(),
                ks@ == self.commands.key_order(),
                ks@.to_set() == self.commands@.dom(),
                i <= n,
                spec_texts_increasing(spec_texts(cats@)),
                spec_texts(cats@).to_set() == Set::new(|c: Seq<char>| c.len() > 0
                    && exists|j: int| 0 <= j < i && #[trigger] self.commands@[ks@[j]].category@ == c),
            decreases n - i,
        {
            let (k, c) = self.commands.entry_at(i);
            let ghost before = spec_texts(cats@).to_set();
            if !c.category.as_str().is_empty() {
                insert_text_sorted(&mut cats, c.category.clone());
            }
            proof {
                assert(spec_texts(cats@).to_set() =~= Set::new(|x: Seq<char>| x.len() > 0
                    && exists|j: int| 0 <= j < i + 1 && #[trigger] self.commands@[ks@[j]].category@ == x)) by {
                    assert forall|x: Seq<char>| (x.len() > 0 && exists|j: int| 0 <= j < i + 1 && #[trigger] self.commands@[ks@[j]].category@ == x)
                        implies spec_texts(cats@).to_set().contains(x) by {
                        let j = choose|j: int| 0 <= j < i + 1 && #[trigger] self.commands@[ks@[j]].category@ == x;
                        if j < i {
                            assert(before.contains(x));
                        }
                    }
                }
            }
            i = i + 1;
        }
        proof {
            assert(spec_texts(cats@).to_set() =~= spec_categories(self.commands())) by {
                assert forall|x: Seq<char>| #[trigger] spec_categories(self.commands()).contains(x)
                    implies spec_texts(cats@).to_set().contains(x) by {
                    let k = choose|k: u64| #[trigger] self.commands@.contains_key(k) && self.commands@[k].category@ == x;
                    assert(ks@.to_set().contains(k));
                    let j = choose|j: int| 0 <= j < ks@.len() && ks@[j] == k;
                    assert(self.commands@[ks@[j]].category@ == x);
                }
                assert forall|x: Seq<char>| spec_texts(cats@).to_set().contains(x)
                    implies #[trigger] spec_categories(self.commands()).contains(x) by {
                    let j = choose|j: int| 0 <= j < i && #[trigger] self.commands@[ks@[j]].category@ == x;
                    assert(ks@.to_set().contains(ks@[j]));
                }
            }
        }
        cats
    }

    /// The ids of the commands in a category, in registration order.
    pub fn get_commands_in_category(&self, category: &str) -> (r: Vec<CommandId>)
        ensures r@ == spec_in_category(self.order(), self.commands(), category@),
    {
        let ks = self.commands.keys();
        let n = self.commands.len();
        let mut out: Vec<CommandId> = Vec::new();
        let mut i: usize = 0;
        while i < n
            invariant
                n == ks@.len(),
                ks@ == self.commands.key_order(),
                i <= n,
                out@ == spec_in_category(ks@.take(i as int), self.commands@, category@),
            decreases n - i,
        {
            let (k, c) = self.commands.entry_at(i);
            proof { assert(ks@.take(i as int + 1).drop_last() =~= ks@.take(i as int)); }
            if crate::text::text_eq(c.category.as_str(), category) {
                out.push(c.command_id);
            }
            i = i + 1;
        }
        assert(ks@.take(i as int) =~= ks@);
        out
    }

    /// The key mappings, to change.
    pub fn key_mappings_mut(&mut self) -> (m: &mut KeyPressMappingSet)
        ensures
            *m == old(self).mappings(),
            final(self).mappings() == *final(m),
            final(self).commands() == old(self).commands(),
            final(self).order() == old(self).order(),
    {
        &mut self.key_mappings
    }

    /// The key mappings.
    pub fn key_mappings(&self) -> (m: &KeyPressMappingSet)
        ensures *m == self.mappings(),
    {
        &self.key_mappings
    }

    /// Bind another key press to a command.
    pub fn add_key_mapping(&mut self, key: KeyPress, id: CommandId)
        ensures
            old(self).mappings().command_for(key) is None ==> final(self).mappings().bindings()
                == old(self).mappings().bindings().insert(spec_keypress_key(key), (key, id))
                && final(self).mappings().keys_by_command() == old(self).mappings().keys_by_command().insert(
                id.0 as u64,
                old(self).mappings().keys_of(id).push(key),
            ),
            old(self).mappings().command_for(key) is Some ==> final(self).mappings().bindings()
                == old(self).mappings().bindings()
                && final(self).mappings().keys_by_command() == old(self).mappings().keys_by_command(),
            final(self).mappings().well_indexed(),
            final(self).commands() == old(self).commands(),
            final(self).order() == old(self).order(),
    {
        self.key_mappings.add_mapping(key, id);
    }

    /// The command a key press is bound to.
    pub fn find_key_mapping(&self, key: &KeyPress) -> (r: Option<CommandId>)
        ensures r == self.mappings().command_for(*key),
    {
        self.key_mappings.find_command_for_keypress(key)
    }

    /// The number of registered listeners.
    pub closed spec fn listener_count(self) -> nat {
        self.listeners@.len()
    }

    /// Register a listener.
    pub fn add_listener(&mut self, listener: Box<dyn CommandListener>)
        ensures
            final(self).commands() == old(self).commands(),
            final(self).order() == old(self).order(),
            final(self).mappings() == old(self).mappings(),
    {
        self.listeners.push(listener);
    }

    /// Drop every listener.
    pub fn clear_listeners(&mut self)
        ensures
            final(self).listener_count() == 0,
            final(self).commands() == old(self).commands(),
            final(self).order() == old(self).order(),
            final(self).mappings() == old(self).mappings(),
    {
        self.listeners = Vec::new();
    }

    /// Tell every listener that a command's status may have changed.
    pub fn command_status_changed(&mut self)
        ensures
            final(self).notified() == old(self).notified() + Seq::new(
                old(self).listener_count(),
                |i: int| CommandNotification::StatusChanged,
            ),
            final(self).listener_count() == old(self).listener_count(),
            final(self).commands() == old(self).commands(),
            final(self).order() == old(self).order(),
            final(self).mappings() == old(self).mappings(),
    {
        let mut i: usize = 0;
        while i < self.listeners.len()
            invariant
                self.commands@ == old(self).commands@,
                self.commands.key_order() == old(self).commands.key_order(),
                self.key_mappings == old(self).key_mappings,
                self.listeners@.len() == old(self).listeners@.len(),
                i <= self.listeners@.len(),
                self.notified_log@ == old(self).notified_log@ + Seq::new(i as nat, |j: int| CommandNotification::StatusChanged),
            decreases self.listeners@.len() - i,
        {
            self.listeners[i].command_status_changed();
            proof {
                assert(self.notified_log@.push(CommandNotification::StatusChanged) =~= old(self).notified_log@
                    + Seq::new((i + 1) as nat, |j: int| CommandNotification::StatusChanged));
            }
            self.notified_log = Ghost(self.notified_log@.push(CommandNotification::StatusChanged));
            i = i + 1;
        }
        assert(self.notified_log@ =~= old(self).notified_log@
            + Seq::new(old(self).listeners@.len(), |j: int| CommandNotification::StatusChanged));
    }

    fn notify_list_changed(&mut self)
        ensures
            final(self).notified_log@ == old(self).notified_log@ + Seq::new(
                old(self).listeners@.len(),
                |i: int| CommandNotification::ListChanged,
            ),
            final(self).listeners@.len() == old(self).listeners@.len(),
            final(self).commands@ == old(self).commands@,
            final(self).commands.key_order() == old(self).commands.key_order(),
            final(self).key_mappings == old(self).key_mappings,
    {
        let mut i: usize = 0;
        while i < self.listeners.len()
            invariant
                self.commands@ == old(self).commands@,
                self.commands.key_order() == old(self).commands.key_order(),
                self.key_mappings == old(self).key_mappings,
                self.listeners@.len() == old(self).listeners@.len(),
                i <= self.listeners@.len(),
                self.notified_log@ == old(self).notified_log@ + Seq::new(i as nat, |j: int| CommandNotification::ListChanged),
            decreases self.listeners@.len() - i,
        {
            self.listeners[i].command_list_changed();
            proof {
                assert(self.notified_log@.push(CommandNotification::ListChanged) =~= old(self).notified_log@
                    + Seq::new((i + 1) as nat, |j: int| CommandNotification::ListChanged));
            }
            self.notified_log = Ghost(self.notified_log@.push(CommandNotification::ListChanged));
            i = i + 1;
        }
        assert(self.notified_log@ =~= old(self).notified_log@
            + Seq::new(old(self).listeners@.len(), |j: int| CommandNotification::ListChanged));
    }
}

/// A registered command is found by its id: after `register_command(info)`,
/// `get_command_for_id` gives `info` back.
pub proof fn lemma_register_then_get(before: ApplicationCommandManager, after: ApplicationCommandManager, info: CommandInfo)
    requires
        after.commands() == before.commands().insert(info.command_id.0 as u64, info),
    ensures
        after.commands().contains_key(info.command_id.0 as u64),
        after.commands()[info.command_id.0 as u64] == info,
{
}

/// After `remove_command(id)` the id finds no command, and when it was
/// registered, no key press is bound to it any more.
pub proof fn lemma_remove_command_then_get(
    before: ApplicationCommandManager,
    after: ApplicationCommandManager,
    id: CommandId,
    key: KeyPress,
)
    requires
        after.commands() == before.commands().remove(id.0 as u64),
        before.commands().contains_key(id.0 as u64) ==>
            after.mappings().bindings() == spec_drop_command(before.mappings().bindings(), id),
    ensures
        !after.commands().contains_key(id.0 as u64),
        before.commands().contains_key(id.0 as u64) ==> after.mappings().command_for(key) != Some(id),
{
    if before.commands().contains_key(id.0 as u64) {
        lemma_remove_all_then_find(before.mappings(), after.mappings(), id, key);
    }
}


// ---------------------------------------------------------------------------
// Compact text form of a mapping set
// ---------------------------------------------------------------------------

/// `true` or `false`.
pub open spec fn spec_bool_text(b: bool) -> Seq<char> {
    if b { "true"@ } else { "false"@ }
}

/// The debug text of modifiers.
pub open spec fn spec_modifiers_text(m: Modifiers) -> Seq<char> {
    "Modifiers { shift: "@ + spec_bool_text(m.shift) + ", ctrl: "@ + spec_bool_text(m.ctrl) + ", alt: "@
        + spec_bool_text(m.alt) + ", meta: "@ + spec_bool_text(m.meta) + " }"@
}

/// One binding as `0x<key code>:<modifiers>=0x<command id>` (hex upper case).
pub open spec fn spec_binding_text(e: (KeyPress, CommandId)) -> Seq<char> {
    "0x"@ + spec_hex(e.0.key_code) + ":"@ + spec_modifiers_text(e.0.modifiers) + "=0x"@ + spec_hex(e.1.0)
}

/// Bindings as text, separated by `;`.
pub open spec fn spec_join_bindings(es: Seq<(KeyPress, CommandId)>) -> Seq<char>
    decreases es.len(),
{
    if es.len() == 0 {
        Seq::empty()
    } else if es.len() == 1 {
        spec_binding_text(es[0])
    } else {
        spec_join_bindings(es.drop_last()) + ";"@ + spec_binding_text(es.last())
    }
}

/// Whether bindings are ordered by the description of their key presses.
pub open spec fn spec_sorted_by_description(es: Seq<(KeyPress, CommandId)>) -> bool {
    forall|i: int, j: int| 0 <= i < j < es.len()
        ==> !crate::text::spec_text_less(spec_text_description(es[j].0), spec_text_description(es[i].0))
}

fn push_bool_text(s: &mut String, b: bool)
    ensures final(s)@ == old(s)@ + spec_bool_text(b),
{
    if b {
        s.append("true");
    } else {
        s.append("false");
    }
}

fn push_labelled_bool(s: &mut String, label: &str, b: bool)
    ensures final(s)@ == old(s)@ + (label@ + spec_bool_text(b)),
{
    s.append(label);
    push_bool_text(s, b);
    assert(s@ =~= old(s)@ + (label@ + spec_bool_text(b)));
}

#[verifier::spinoff_prover]
#[verifier::rlimit(40)]
fn push_modifiers_text(s: &mut String, m: Modifiers)
    ensures final(s)@ == old(s)@ + spec_modifiers_text(m),
{
    let ghost s0 = s@;
    let ghost a = "Modifiers { shift: "@ + spec_bool_text(m.shift);
    let ghost b = ", ctrl: "@ + spec_bool_text(m.ctrl);
    let ghost c = ", alt: "@ + spec_bool_text(m.alt);
    let ghost d = ", meta: "@ + spec_bool_text(m.meta);
    push_labelled_bool(s, "Modifiers { shift: ", m.shift);
    push_labelled_bool(s, ", ctrl: ", m.ctrl);
    push_labelled_bool(s, ", alt: ", m.alt);
    push_labelled_bool(s, ", meta: ", m.meta);
    s.append(" }");
    assert(s@ =~= s0 + (a + b + c + d + " }"@));
    assert(spec_modifiers_text(m) =~= a + b + c + d + " }"@);
}

fn push_binding_text(s: &mut String, e: (KeyPress, CommandId))
    ensures final(s)@ == old(s)@ + spec_binding_text(e),
{
    let ghost s0 = s@;
    s.append("0x");
    push_hex(s, e.0.key_code);
    s.append(":");
    let ghost s1 = s@;
    push_modifiers_text(s, e.0.modifiers);
    let ghost s2 = s@;
    s.append("=0x");
    push_hex(s, e.1.0);
    assert(s1 =~= s0 + ("0x"@ + spec_hex(e.0.key_code) + ":"@));
    assert(s@ =~= s2 + ("=0x"@ + spec_hex(e.1.0)));
    assert(spec_binding_text(e) =~= ("0x"@ + spec_hex(e.0.key_code) + ":"@) + spec_modifiers_text(e.0.modifiers)
        + ("=0x"@ + spec_hex(e.1.0)));
}

impl KeyPressMappingSet {
    /// Every binding as `0x<key code>:<modifiers>=0x<command id>`, separated
    /// by `;`, ordered by the description of the key press.
    pub fn to_compact_string(&self) -> (r: String)
        ensures
            exists|es: Seq<(KeyPress, CommandId)>| {
                &&& es.len() == self.bindings().dom().len()
                &&& forall|i: int| 0 <= i < es.len() ==> #[trigger] self.is_binding(es[i])
                &&& forall|k: u64| #[trigger] self.bindings().contains_key(k) ==> es.contains(self.bindings()[k])
                &&& spec_sorted_by_description(es)
                &&& r@ == spec_join_bindings(es)
            },
    {
        let entries = self.iter();
        let mut sorted: Vec<(KeyPress, CommandId)> = Vec::new();
        let mut descs: Vec<String> = Vec::new();
        let mut i: usize = 0;
        while i < entries.len()
            invariant
                i <= entries@.len(),
                sorted@.len() == i,
                descs@.len() == i,
                forall|t: int| 0 <= t < i ==> (#[trigger] descs@[t])@ == spec_text_description(sorted@[t].0),
                spec_sorted_by_description(sorted@),
                sorted@.to_set() == entries@.take(i as int).to_set(),
            decreases entries@.len() - i,
        {
            let e = entries[i];
            let d = e.0.get_text_description();
            let mut j: usize = 0;
            while j < sorted.len() && !crate::text::text_less(d.as_str(), descs[j].as_str())
                invariant
                    j <= sorted@.len(),
                    sorted@.len() == descs@.len(),
                    forall|t: int| 0 <= t < j ==> !crate::text::spec_text_less(d@, (#[trigger] descs@[t])@),
                decreases sorted@.len() - j,
            {
                j = j + 1;
            }
            let ghost before = sorted@;
            let ghost before_d = descs@;
            sorted.insert(j, e);
            descs.insert(j, d);
            proof {
                let after = sorted@;
                assert forall|t: int| 0 <= t < i + 1 implies (#[trigger] descs@[t])@ == spec_text_description(sorted@[t].0) by {
                    if t < j {
                        assert(descs@[t] == before_d[t]);
                    } else if t > j {
                        assert(descs@[t] == before_d[t - 1]);
                    }
                }
                assert forall|a: int, b: int| 0 <= a < b < after.len() implies
                    !crate::text::spec_text_less(spec_text_description(after[b].0), spec_text_description(after[a].0)) by {
                    let da = spec_text_description(after[a].0);
                    let db = spec_text_description(after[b].0);
                    let dx = d@;
                    if b < j {
                    } else if a < j && b == j {
                        assert(!crate::text::spec_text_less(dx, before_d[a]@));
                        crate::text::lemma_text_less_total(dx, da);
                    } else if a < j && b > j {
                        assert(after[b] == before[b - 1]);
                        assert(after[a] == before[a]);
                    } else if a == j {
                        assert(after[b] == before[b - 1]);
                        if j < before.len() {
                            assert(crate::text::spec_text_less(dx, before_d[j as int]@));
                            crate::text::lemma_text_less_total(dx, db);
                            if b - 1 > j {
                                crate::text::lemma_text_less_total(before_d[j as int]@, db);
                                if crate::text::spec_text_less(db, dx) {
                                    if before_d[j as int]@ == db {
                                    } else {
                                        crate::text::lemma_text_less_transitive(db, dx, before_d[j as int]@);
                                        crate::text::lemma_text_less_total(db, before_d[j as int]@);
                                    }
                                }
                            }
                        }
                    } else {
                        assert(after[a] == before[a - 1]);
                        assert(after[b] == before[b - 1]);
                    }
                }
                let t0 = entries@.take(i as int);
                let t1 = entries@.take(i as int + 1);
                assert(t1 =~= t0.push(e));
                assert forall|x: (KeyPress, CommandId)| after.to_set().contains(x) <==> t1.to_set().contains(x) by {
                    if after.to_set().contains(x) {
                        let k = choose|k: int| 0 <= k < after.len() && after[k] == x;
                        if k < j {
                            assert(before.to_set().contains(before[k]));
                        } else if k > j {
                            assert(before.to_set().contains(before[k - 1]));
                        }
                        if x != e {
                            let q = choose|q: int| 0 <= q < t0.len() && t0[q] == x;
                            assert(t1[q] == x);
                        } else {
                            assert(t1[i as int] == x);
                        }
                    }
                    if t1.to_set().contains(x) {
                        let q = choose|q: int| 0 <= q < t1.len() && t1[q] == x;
                        if q == i {
                            assert(after[j as int] == x);
                        } else {
                            assert(t0[q] == x);
                            assert(before.to_set().contains(x));
                            let k = choose|k: int| 0 <= k < before.len() && before[k] == x;
                            if k < j {
                                assert(after[k] == x);
                            } else {
                                assert(after[k + 1] == x);
                            }
                        }
                    }
                }
                assert(after.to_set() =~= t1.to_set());
            }
            i = i + 1;
        }
        assert(entries@.take(i as int) =~= entries@);
        let mut out = String::new();
        let mut t: usize = 0;
        while t < sorted.len()
            invariant
                t <= sorted@.len(),
                out@ == spec_join_bindings(sorted@.take(t as int)),
            decreases sorted@.len() - t,
        {
            proof { assert(sorted@.take(t as int + 1).drop_last() =~= sorted@.take(t as int)); }
            if t > 0 {
                out.append(";");
            }
            push_binding_text(&mut out, sorted[t]);
            proof {
                if t == 0 {
                    assert(out@ =~= spec_join_bindings(sorted@.take(1)));
                }
            }
            t = t + 1;
        }
        proof {
            assert(sorted@.take(t as int) =~= sorted@);
            let es = sorted@;
            assert forall|q: int| 0 <= q < es.len() implies #[trigger] self.is_binding(es[q]) by {
                assert(es.to_set().contains(es[q]));
                assert(entries@.to_set().contains(es[q]));
                let p = choose|p: int| 0 <= p < entries@.len() && entries@[p] == es[q];
                assert(self.is_binding(entries@[p]));
            }
            assert forall|k: u64| #[trigger] self.bindings().contains_key(k) implies es.contains(self.bindings()[k]) by {
                let p = choose|p: int| 0 <= p < entries@.len() && entries@[p] == self.bindings()[k];
                assert(entries@.to_set().contains(entries@[p]));
            }
        }
        out
    }
}

} // verus!
