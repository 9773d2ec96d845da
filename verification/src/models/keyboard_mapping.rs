//! Keyboard shortcuts: modifier keys, keys, shortcut combinations and their
//! textual forms, keyboard mappings and sets of mappings.

use vstd::prelude::*;
use crate::text::{
    decimal, push_char, push_decimal, push_str, char_to_uppercase, uppercase_char, lowercase,
    to_lowercase, chars_of, str_equal, owned, parse_unsigned, parse_unsigned_chars, is_ascii_alpha,
    trim, split_on, views, split_chars, trim_chars, string_of_chars, is_blank, str_is_blank, is_ws,
    ascii_lower, ascii_upper, ascii_lowercase, is_ascii_text, digits_value, unsigned_digits, all_digits, digit_char, is_digit,
    lemma_decimal_parses,
};

verus! {

/// Modifier keys for keyboard shortcuts.
#[derive(Debug, Clone, Copy, PartialEq, Eq, Hash, Structural)]
pub enum ModifierKey {
    /// Command key (⌘)
    Command,
    /// Option/Alt key (⌥)
    Option,
    /// Control key (⌃)
    Control,
    /// Shift key (⇧)
    Shift,
    /// Function key (fn)
    Function,
}

/// Arrow key directions.
#[derive(Debug, Clone, Copy, PartialEq, Eq, Hash, Structural)]
pub enum ArrowDirection {
    Up,
    Down,
    Left,
    Right,
}

/// Regular keys for keyboard shortcuts.
#[derive(Debug, Clone, Copy, PartialEq, Eq, Hash, Structural)]
pub enum Key {
    /// Letter keys A-Z
    Letter(char),
    /// Number keys 0-9
    Number(u8),
    /// Function keys F1-F12
    Function(u8),
    /// Arrow keys
    Arrow(ArrowDirection),
    /// Special keys
    Space,
    Enter,
    Tab,
    Escape,
    Backspace,
    Delete,
    /// Custom scan code
    ScanCode(u16),
}

/// Errors that can occur with keyboard mappings.
#[derive(Debug, Clone, PartialEq, Eq)]
pub enum KeyboardMappingError {
    EmptyName,
    InvalidKey,
    NoModifiers,
    ActionParameterMismatch,
    InvalidResizeAmount,
    EmptyWorkspaceName,
    EmptyMonitorId,
    ConflictingShortcut(String),
    InvalidModifierCombination,
    InvalidShortcutFormat(String),
}

/// Modifiers in their canonical order, which is the alphabetical order of
/// their names: Command, Control, Function, Option, Shift.
pub open spec fn pick(mods: Seq<ModifierKey>, m: ModifierKey) -> Seq<ModifierKey> {
    if mods.contains(m) {
        seq![m]
    } else {
        Seq::<ModifierKey>::empty()
    }
}

/// The distinct modifiers of `mods`, each once, in canonical order. This is
/// what sorting by name and removing duplicates leaves.
pub open spec fn canonical_modifiers(mods: Seq<ModifierKey>) -> Seq<ModifierKey> {
    pick(mods, ModifierKey::Command) + pick(mods, ModifierKey::Control) + pick(
        mods,
        ModifierKey::Function,
    ) + pick(mods, ModifierKey::Option) + pick(mods, ModifierKey::Shift)
}

/// The modifiers other than Command, in order.
pub open spec fn without_command(s: Seq<ModifierKey>) -> Seq<ModifierKey> {
    s.filter(|m: ModifierKey| m != ModifierKey::Command)
}

/// The modifiers after a Command shortcut is moved to Option: Command is
/// dropped, Option is added, and the list is put in canonical order.
pub open spec fn migrated_modifiers(s: Seq<ModifierKey>) -> Seq<ModifierKey> {
    canonical_modifiers(without_command(s).push(ModifierKey::Option))
}

proof fn lemma_contains_one(a: ModifierKey, x: ModifierKey)
    ensures
        seq![a].contains(x) <==> x == a,
{
    if x == a {
        assert(seq![a][0] == x);
    }
}

proof fn lemma_contains_two(a: ModifierKey, b: ModifierKey, x: ModifierKey)
    ensures
        seq![a, b].contains(x) <==> (x == a || x == b),
{
    if x == a {
        assert(seq![a, b][0] == x);
    }
    if x == b {
        assert(seq![a, b][1] == x);
    }
}

/// A single modifier is already canonical.
pub proof fn lemma_canonical_one(a: ModifierKey)
    ensures
        canonical_modifiers(seq![a]) == seq![a],
{
    lemma_contains_one(a, ModifierKey::Command);
    lemma_contains_one(a, ModifierKey::Control);
    lemma_contains_one(a, ModifierKey::Function);
    lemma_contains_one(a, ModifierKey::Option);
    lemma_contains_one(a, ModifierKey::Shift);
    assert(canonical_modifiers(seq![a]) =~= seq![a]);
}

/// Two modifiers in canonical order.
pub proof fn lemma_canonical_two(a: ModifierKey, b: ModifierKey)
    ensures
        canonical_modifiers(seq![a, b]) == canonical_modifiers(seq![b, a]),
        (a == ModifierKey::Option && b == ModifierKey::Shift) ==> canonical_modifiers(seq![a, b])
            == seq![ModifierKey::Option, ModifierKey::Shift],
        (a == ModifierKey::Option && b == ModifierKey::Control) ==> canonical_modifiers(seq![a, b])
            == seq![ModifierKey::Control, ModifierKey::Option],
{
    lemma_contains_two(a, b, ModifierKey::Command);
    lemma_contains_two(a, b, ModifierKey::Control);
    lemma_contains_two(a, b, ModifierKey::Function);
    lemma_contains_two(a, b, ModifierKey::Option);
    lemma_contains_two(a, b, ModifierKey::Shift);
    lemma_contains_two(b, a, ModifierKey::Command);
    lemma_contains_two(b, a, ModifierKey::Control);
    lemma_contains_two(b, a, ModifierKey::Function);
    lemma_contains_two(b, a, ModifierKey::Option);
    lemma_contains_two(b, a, ModifierKey::Shift);
    assert(canonical_modifiers(seq![a, b]) =~= canonical_modifiers(seq![b, a]));
    if a == ModifierKey::Option && b == ModifierKey::Shift {
        assert(canonical_modifiers(seq![a, b]) =~= seq![ModifierKey::Option, ModifierKey::Shift]);
    }
    if a == ModifierKey::Option && b == ModifierKey::Control {
        assert(canonical_modifiers(seq![a, b]) =~= seq![ModifierKey::Control, ModifierKey::Option]);
    }
}

/// Whether a key is one that shortcuts accept.
pub open spec fn key_is_valid(k: Key) -> bool {
    match k {
        Key::Letter(c) => ('a' <= c && c <= 'z') || ('A' <= c && c <= 'Z'),
        Key::Number(n) => n <= 9,
        Key::Function(f) => 1 <= f && f <= 12,
        _ => true,
    }
}

/// What validating a shortcut with these modifiers and key gives.
pub open spec fn shortcut_validation(mods: Seq<ModifierKey>, k: Key) -> Result<
    (),
    KeyboardMappingError,
> {
    if !key_is_valid(k) {
        Err(KeyboardMappingError::InvalidKey)
    } else if mods.len() == 0 {
        Err(KeyboardMappingError::NoModifiers)
    } else {
        Ok(())
    }
}

/// The configuration token of a modifier.
pub open spec fn modifier_token_spec(m: ModifierKey) -> Seq<char> {
    match m {
        ModifierKey::Command => "cmd"@,
        ModifierKey::Option => "opt"@,
        ModifierKey::Control => "ctrl"@,
        ModifierKey::Shift => "shift"@,
        ModifierKey::Function => "fn"@,
    }
}

/// The configuration token of a key.
pub open spec fn key_token_spec(k: Key) -> Seq<char> {
    match k {
        Key::Letter(c) => seq![ascii_lower(c)],
        Key::Number(n) => decimal(n as nat),
        Key::Function(f) => seq!['f'] + decimal(f as nat),
        Key::Arrow(ArrowDirection::Up) => "up"@,
        Key::Arrow(ArrowDirection::Down) => "down"@,
        Key::Arrow(ArrowDirection::Left) => "left"@,
        Key::Arrow(ArrowDirection::Right) => "right"@,
        Key::Space => "space"@,
        Key::Enter => "enter"@,
        Key::Tab => "tab"@,
        Key::Escape => "esc"@,
        Key::Backspace => "backspace"@,
        Key::Delete => "delete"@,
        Key::ScanCode(code) => seq!['k', 'e', 'y'] + decimal(code as nat),
    }
}

/// Tokens of the modifiers, each followed by `+`.
pub open spec fn modifiers_prefix(mods: Seq<ModifierKey>) -> Seq<char>
    decreases mods.len(),
{
    if mods.len() == 0 {
        Seq::<char>::empty()
    } else {
        modifiers_prefix(mods.drop_last()) + modifier_token_spec(mods.last()) + seq!['+']
    }
}

/// The configuration string of a shortcut, such as `opt+shift+1`.
pub open spec fn config_string(mods: Seq<ModifierKey>, k: Key) -> Seq<char> {
    modifiers_prefix(mods) + key_token_spec(k)
}

/// The display symbol of a modifier.
pub open spec fn modifier_symbol(m: ModifierKey) -> Seq<char> {
    match m {
        ModifierKey::Command => "⌘"@,
        ModifierKey::Option => "⌥"@,
        ModifierKey::Control => "⌃"@,
        ModifierKey::Shift => "⇧"@,
        ModifierKey::Function => "fn"@,
    }
}

/// The display symbols of the modifiers, concatenated.
pub open spec fn modifier_symbols(mods: Seq<ModifierKey>) -> Seq<char>
    decreases mods.len(),
{
    if mods.len() == 0 {
        Seq::<char>::empty()
    } else {
        modifier_symbols(mods.drop_last()) + modifier_symbol(mods.last())
    }
}

/// The display form of a key.
pub open spec fn key_display(k: Key) -> Seq<char> {
    match k {
        Key::Letter(c) => uppercase_char(c),
        Key::Number(n) => decimal(n as nat),
        Key::Function(f) => seq!['F'] + decimal(f as nat),
        Key::Arrow(ArrowDirection::Up) => "↑"@,
        Key::Arrow(ArrowDirection::Down) => "↓"@,
        Key::Arrow(ArrowDirection::Left) => "←"@,
        Key::Arrow(ArrowDirection::Right) => "→"@,
        Key::Space => "Space"@,
        Key::Enter => "Enter"@,
        Key::Tab => "Tab"@,
        Key::Escape => "Esc"@,
        Key::Backspace => "⌫"@,
        Key::Delete => "⌦"@,
        Key::ScanCode(code) => seq!['K', 'e', 'y'] + decimal(code as nat),
    }
}

/// The display string of a shortcut, such as `⌥⇧A`.
pub open spec fn display_string(mods: Seq<ModifierKey>, k: Key) -> Seq<char> {
    modifier_symbols(mods) + key_display(k)
}

/// Whether the modifier list holds `m`.
pub fn has_modifier(mods: &Vec<ModifierKey>, m: ModifierKey) -> (b: bool)
    ensures
        b == mods@.contains(m),
{
    let mut i: usize = 0;
    while i < mods.len()
        invariant
            i <= mods@.len(),
            forall|j: int| 0 <= j < i ==> mods@[j] != m,
        decreases mods.len() - i,
    {
        if mods[i] == m {
            return true;
        }
        i = i + 1;
    }
    false
}

/// The canonical form of a modifier list.
pub fn canonicalize(mods: &Vec<ModifierKey>) -> (r: Vec<ModifierKey>)
    ensures
        r@ == canonical_modifiers(mods@),
{
    let mut r: Vec<ModifierKey> = Vec::new();
    if has_modifier(mods, ModifierKey::Command) {
        r.push(ModifierKey::Command);
    }
    assert(r@ =~= pick(mods@, ModifierKey::Command));
    let ghost r1 = r@;
    if has_modifier(mods, ModifierKey::Control) {
        r.push(ModifierKey::Control);
    }
    assert(r@ =~= r1 + pick(mods@, ModifierKey::Control));
    let ghost r2 = r@;
    if has_modifier(mods, ModifierKey::Function) {
        r.push(ModifierKey::Function);
    }
    assert(r@ =~= r2 + pick(mods@, ModifierKey::Function));
    let ghost r3 = r@;
    if has_modifier(mods, ModifierKey::Option) {
        r.push(ModifierKey::Option);
    }
    assert(r@ =~= r3 + pick(mods@, ModifierKey::Option));
    let ghost r4 = r@;
    if has_modifier(mods, ModifierKey::Shift) {
        r.push(ModifierKey::Shift);
    }
    assert(r@ =~= r4 + pick(mods@, ModifierKey::Shift));
    r
}

/// A copy of a modifier list.
pub fn copy_modifiers(mods: &Vec<ModifierKey>) -> (r: Vec<ModifierKey>)
    ensures
        r@ == mods@,
{
    let mut r: Vec<ModifierKey> = Vec::new();
    let mut i: usize = 0;
    while i < mods.len()
        invariant
            i <= mods@.len(),
            r@ == mods@.take(i as int),
        decreases mods.len() - i,
    {
        r.push(mods[i]);
        i = i + 1;
        assert(r@ =~= mods@.take(i as int));
    }
    assert(mods@.take(mods@.len() as int) =~= mods@);
    r
}

/// Whether two modifier lists are equal.
pub fn modifiers_equal(a: &Vec<ModifierKey>, b: &Vec<ModifierKey>) -> (r: bool)
    ensures
        r == (a@ == b@),
{
    if a.len() != b.len() {
        return false;
    }
    let mut i: usize = 0;
    while i < a.len()
        invariant
            a@.len() == b@.len(),
            i <= a@.len(),
            forall|j: int| 0 <= j < i ==> a@[j] == b@[j],
        decreases a.len() - i,
    {
        if a[i] != b[i] {
            return false;
        }
        i = i + 1;
    }
    assert(a@ =~= b@);
    true
}

/// Complete keyboard shortcut combination.
#[derive(Debug, Clone, Eq, Hash)]
pub struct ShortcutCombination {
    /// Modifier keys that must be held
    pub modifiers: Vec<ModifierKey>,
    /// Primary key to press
    pub key: Key,
}

impl View for ShortcutCombination {
    type V = (Seq<ModifierKey>, Key);

    open spec fn view(&self) -> (Seq<ModifierKey>, Key) {
        (self.modifiers@, self.key)
    }
}

impl PartialEq for ShortcutCombination {
    fn eq(&self, other: &Self) -> (r: bool) {
        self.same_as(other)
    }
}

impl vstd::std_specs::cmp::PartialEqSpecImpl for ShortcutCombination {
    open spec fn obeys_eq_spec() -> bool {
        true
    }

    open spec fn eq_spec(&self, other: &Self) -> bool {
        self@ == other@
    }
}

/// The token of a modifier in configuration strings.
pub fn modifier_token(modifier: &ModifierKey) -> (s: &'static str)
    ensures
        s@ == modifier_token_spec(*modifier),
{
    match modifier {
        ModifierKey::Command => "cmd",
        ModifierKey::Option => "opt",
        ModifierKey::Control => "ctrl",
        ModifierKey::Shift => "shift",
        ModifierKey::Function => "fn",
    }
}

/// The token of a key in configuration strings.
pub fn key_token(key: &Key) -> (s: String)
    ensures
        s@ == key_token_spec(*key),
{
    let mut s = String::new();
    match key {
        Key::Letter(c) => {
            let c = *c;
            let l = if 'A' <= c && c <= 'Z' {
                ((c as u32) + 32) as u8 as char
            } else {
                c
            };
            assert(l == ascii_lower(c));
            push_char(&mut s, l);
            assert(s@ =~= seq![l]);
        },
        Key::Number(n) => {
            push_decimal(&mut s, *n as u64);
            assert(s@ =~= decimal(*n as nat));
        },
        Key::Function(f) => {
            push_char(&mut s, 'f');
            push_decimal(&mut s, *f as u64);
            assert(s@ =~= seq!['f'] + decimal(*f as nat));
        },
        Key::Arrow(ArrowDirection::Up) => {
            push_str(&mut s, "up");
            assert(s@ =~= "up"@);
        },
        Key::Arrow(ArrowDirection::Down) => {
            push_str(&mut s, "down");
            assert(s@ =~= "down"@);
        },
        Key::Arrow(ArrowDirection::Left) => {
            push_str(&mut s, "left");
            assert(s@ =~= "left"@);
        },
        Key::Arrow(ArrowDirection::Right) => {
            push_str(&mut s, "right");
            assert(s@ =~= "right"@);
        },
        Key::Space => {
            push_str(&mut s, "space");
            assert(s@ =~= "space"@);
        },
        Key::Enter => {
            push_str(&mut s, "enter");
            assert(s@ =~= "enter"@);
        },
        Key::Tab => {
            push_str(&mut s, "tab");
            assert(s@ =~= "tab"@);
        },
        Key::Escape => {
            push_str(&mut s, "esc");
            assert(s@ =~= "esc"@);
        },
        Key::Backspace => {
            push_str(&mut s, "backspace");
            assert(s@ =~= "backspace"@);
        },
        Key::Delete => {
            push_str(&mut s, "delete");
            assert(s@ =~= "delete"@);
        },
        Key::ScanCode(code) => {
            push_char(&mut s, 'k');
            push_char(&mut s, 'e');
            push_char(&mut s, 'y');
            push_decimal(&mut s, *code as u64);
            assert(s@ =~= seq!['k', 'e', 'y'] + decimal(*code as nat));
        },
    }
    s
}

/// The display symbol of a modifier.
pub fn modifier_symbol_str(m: &ModifierKey) -> (s: &'static str)
    ensures
        s@ == modifier_symbol(*m),
{
    match m {
        ModifierKey::Command => "⌘",
        ModifierKey::Option => "⌥",
        ModifierKey::Control => "⌃",
        ModifierKey::Shift => "⇧",
        ModifierKey::Function => "fn",
    }
}

/// The display form of a key.
pub fn key_display_string(key: &Key) -> (s: String)
    ensures
        s@ == key_display(*key),
        (*key matches Key::Letter(c) ==> ((c as u32) < 128 ==> s@ == seq![ascii_upper(c)])),
{
    let mut s = String::new();
    match key {
        Key::Letter(c) => {
            s = char_to_uppercase(*c);
        },
        Key::Number(n) => {
            push_decimal(&mut s, *n as u64);
            assert(s@ =~= decimal(*n as nat));
        },
        Key::Function(f) => {
            push_char(&mut s, 'F');
            push_decimal(&mut s, *f as u64);
            assert(s@ =~= seq!['F'] + decimal(*f as nat));
        },
        Key::Arrow(ArrowDirection::Up) => {
            push_str(&mut s, "↑");
            assert(s@ =~= "↑"@);
        },
        Key::Arrow(ArrowDirection::Down) => {
            push_str(&mut s, "↓");
            assert(s@ =~= "↓"@);
        },
        Key::Arrow(ArrowDirection::Left) => {
            push_str(&mut s, "←");
            assert(s@ =~= "←"@);
        },
        Key::Arrow(ArrowDirection::Right) => {
            push_str(&mut s, "→");
            assert(s@ =~= "→"@);
        },
        Key::Space => {
            push_str(&mut s, "Space");
            assert(s@ =~= "Space"@);
        },
        Key::Enter => {
            push_str(&mut s, "Enter");
            assert(s@ =~= "Enter"@);
        },
        Key::Tab => {
            push_str(&mut s, "Tab");
            assert(s@ =~= "Tab"@);
        },
        Key::Escape => {
            push_str(&mut s, "Esc");
            assert(s@ =~= "Esc"@);
        },
        Key::Backspace => {
            push_str(&mut s, "⌫");
            assert(s@ =~= "⌫"@);
        },
        Key::Delete => {
            push_str(&mut s, "⌦");
            assert(s@ =~= "⌦"@);
        },
        Key::ScanCode(code) => {
            push_char(&mut s, 'K');
            push_char(&mut s, 'e');
            push_char(&mut s, 'y');
            push_decimal(&mut s, *code as u64);
            assert(s@ =~= seq!['K', 'e', 'y'] + decimal(*code as nat));
        },
    }
    s
}

impl ShortcutCombination {
    /// Create a new shortcut combination; the modifiers are sorted by name and
    /// duplicates are dropped.
    pub fn new(modifiers: Vec<ModifierKey>, key: Key) -> (r: Self)
        ensures
            r.modifiers@ == canonical_modifiers(modifiers@),
            r.key == key,
    {
        ShortcutCombination { modifiers: canonicalize(&modifiers), key }
    }

    /// Whether two combinations have the same modifiers, in the same order, and
    /// the same key.
    pub fn same_as(&self, other: &Self) -> (r: bool)
        ensures
            r == (self@ == other@),
    {
        modifiers_equal(&self.modifiers, &other.modifiers) && self.key == other.key
    }

    /// A copy of this combination.
    pub fn duplicate(&self) -> (r: Self)
        ensures
            r@ == self@,
    {
        ShortcutCombination { modifiers: copy_modifiers(&self.modifiers), key: self.key }
    }

    /// Validate the shortcut combination: the key must be valid and there must
    /// be at least one modifier.
    pub fn validate(&self) -> (r: Result<(), KeyboardMappingError>)
        ensures
            r == shortcut_validation(self.modifiers@, self.key),
    {
        match self.key {
            Key::Letter(c) => {
                if !(('a' <= c && c <= 'z') || ('A' <= c && c <= 'Z')) {
                    return Err(KeyboardMappingError::InvalidKey);
                }
            },
            Key::Number(n) => {
                if n > 9 {
                    return Err(KeyboardMappingError::InvalidKey);
                }
            },
            Key::Function(f) => {
                if f == 0 || f > 12 {
                    return Err(KeyboardMappingError::InvalidKey);
                }
            },
            _ => {},
        }
        if self.modifiers.len() == 0 {
            return Err(KeyboardMappingError::NoModifiers);
        }
        Ok(())
    }

    /// Returns true if the shortcut already includes the Option modifier.
    pub fn has_option_modifier(&self) -> (b: bool)
        ensures
            b == self.modifiers@.contains(ModifierKey::Option),
    {
        has_modifier(&self.modifiers, ModifierKey::Option)
    }

    /// Returns true if the supplied modifier is present.
    pub fn contains_modifier(&self, modifier: &ModifierKey) -> (b: bool)
        ensures
            b == self.modifiers@.contains(*modifier),
    {
        has_modifier(&self.modifiers, *modifier)
    }

    /// Render the shortcut using the configuration format (e.g. `opt+shift+1`).
    pub fn to_config_string(&self) -> (s: String)
        ensures
            s@ == config_string(self.modifiers@, self.key),
    {
        let mut s = String::new();
        let mut i: usize = 0;
        while i < self.modifiers.len()
            invariant
                i <= self.modifiers@.len(),
                s@ == modifiers_prefix(self.modifiers@.take(i as int)),
            decreases self.modifiers.len() - i,
        {
            let ghost before = s@;
            push_str(&mut s, modifier_token(&self.modifiers[i]));
            push_char(&mut s, '+');
            proof {
                let t = self.modifiers@.take(i + 1);
                assert(t.drop_last() =~= self.modifiers@.take(i as int));
                assert(t.last() == self.modifiers@[i as int]);
            }
            i = i + 1;
        }
        assert(self.modifiers@.take(self.modifiers@.len() as int) =~= self.modifiers@);
        let k = key_token(&self.key);
        push_str(&mut s, k.as_str());
        s
    }

    /// The display string of the shortcut, with modifier symbols followed by
    /// the key (e.g. `⌥⇧A`).
    pub fn to_display_string(&self) -> (s: String)
        ensures
            s@ == display_string(self.modifiers@, self.key),
            (self.key matches Key::Letter(c) ==> ((c as u32) < 128 ==> s@ == modifier_symbols(self.modifiers@)
                + seq![ascii_upper(c)])),
    {
        let mut s = String::new();
        let mut i: usize = 0;
        while i < self.modifiers.len()
            invariant
                i <= self.modifiers@.len(),
                s@ == modifier_symbols(self.modifiers@.take(i as int)),
            decreases self.modifiers.len() - i,
        {
            push_str(&mut s, modifier_symbol_str(&self.modifiers[i]));
            proof {
                let t = self.modifiers@.take(i + 1);
                assert(t.drop_last() =~= self.modifiers@.take(i as int));
            }
            i = i + 1;
        }
        assert(self.modifiers@.take(self.modifiers@.len() as int) =~= self.modifiers@);
        let k = key_display_string(&self.key);
        push_str(&mut s, k.as_str());
        s
    }

    /// Replace a legacy Command shortcut without Option by one with Option in
    /// place of Command. Returns `true` when the shortcut is updated.
    pub fn migrate_command_to_option(&mut self) -> (changed: bool)
        ensures
            changed == (!old(self).modifiers@.contains(ModifierKey::Option) && old(
                self,
            ).modifiers@.contains(ModifierKey::Command)),
            changed ==> final(self).modifiers@ == migrated_modifiers(old(self).modifiers@),
            !changed ==> final(self).modifiers@ == old(self).modifiers@,
            final(self).key == old(self).key,
    {
        if self.has_option_modifier() || !has_modifier(&self.modifiers, ModifierKey::Command) {
            return false;
        }
        let ghost old_mods = self.modifiers@;
        let mut kept: Vec<ModifierKey> = Vec::new();
        let mut i: usize = 0;
        assert(old_mods.take(0) =~= Seq::<ModifierKey>::empty());
        proof {
            reveal(Seq::filter);
        }
        while i < self.modifiers.len()
            invariant
                old_mods == self.modifiers@,
                i <= old_mods.len(),
                kept@ == without_command(old_mods.take(i as int)),
            decreases self.modifiers.len() - i,
        {
            let m = self.modifiers[i];
            proof {
                assert(old_mods.take(i + 1) =~= old_mods.take(i as int).push(m));
                old_mods.take(i as int).lemma_filter_push(
                    m,
                    |x: ModifierKey| x != ModifierKey::Command,
                );
            }
            if m != ModifierKey::Command {
                kept.push(m);
            }
            i = i + 1;
        }
        assert(old_mods.take(old_mods.len() as int) =~= old_mods);
        kept.push(ModifierKey::Option);
        self.modifiers = canonicalize(&kept);
        true
    }
}


/// The modifier named by an already lowercased token.
pub open spec fn modifier_of_token(lower: Seq<char>) -> Option<ModifierKey> {
    if lower == "cmd"@ || lower == "command"@ {
        Some(ModifierKey::Command)
    } else if lower == "opt"@ || lower == "option"@ || lower == "alt"@ {
        Some(ModifierKey::Option)
    } else if lower == "ctrl"@ || lower == "control"@ {
        Some(ModifierKey::Control)
    } else if lower == "shift"@ {
        Some(ModifierKey::Shift)
    } else if lower == "fn"@ || lower == "function"@ {
        Some(ModifierKey::Function)
    } else {
        None
    }
}

/// The key named by an already lowercased token.
pub open spec fn key_of_token(lower: Seq<char>) -> Option<Key> {
    if lower.len() >= 3 && lower.take(3) == seq!['k', 'e', 'y'] && parse_unsigned(
        lower.skip(3),
        65535,
    ) is Some {
        Some(Key::ScanCode(parse_unsigned(lower.skip(3), 65535).unwrap() as u16))
    } else if parse_unsigned(lower, 255) is Some && parse_unsigned(lower, 255).unwrap() <= 9 {
        Some(Key::Number(parse_unsigned(lower, 255).unwrap() as u8))
    } else if lower.len() == 1 && is_ascii_alpha(lower[0]) {
        Some(Key::Letter(lower[0]))
    } else if lower.len() >= 1 && lower[0] == 'f' && parse_unsigned(lower.skip(1), 255) is Some
        && 1 <= parse_unsigned(lower.skip(1), 255).unwrap() <= 12 {
        Some(Key::Function(parse_unsigned(lower.skip(1), 255).unwrap() as u8))
    } else if lower == "space"@ {
        Some(Key::Space)
    } else if lower == "enter"@ || lower == "return"@ {
        Some(Key::Enter)
    } else if lower == "tab"@ {
        Some(Key::Tab)
    } else if lower == "esc"@ || lower == "escape"@ {
        Some(Key::Escape)
    } else if lower == "backspace"@ {
        Some(Key::Backspace)
    } else if lower == "delete"@ {
        Some(Key::Delete)
    } else if lower == "up"@ {
        Some(Key::Arrow(ArrowDirection::Up))
    } else if lower == "down"@ {
        Some(Key::Arrow(ArrowDirection::Down))
    } else if lower == "left"@ {
        Some(Key::Arrow(ArrowDirection::Left))
    } else if lower == "right"@ {
        Some(Key::Arrow(ArrowDirection::Right))
    } else {
        None
    }
}

/// The trimmed pieces that are not empty.
pub open spec fn trimmed_nonempty(parts: Seq<Seq<char>>) -> Seq<Seq<char>>
    decreases parts.len(),
{
    if parts.len() == 0 {
        Seq::<Seq<char>>::empty()
    } else {
        let r = trimmed_nonempty(parts.drop_last());
        let t = trim(parts.last());
        if t.len() > 0 {
            r.push(t)
        } else {
            r
        }
    }
}

/// The segments of a shortcut string: pieces between `+`, trimmed, empty ones dropped.
pub open spec fn shortcut_segments(s: Seq<char>) -> Seq<Seq<char>> {
    trimmed_nonempty(split_on(s, '+'))
}

/// The modifiers named by the segments, if every one names a modifier.
pub open spec fn parse_modifier_list(segs: Seq<Seq<char>>) -> Option<Seq<ModifierKey>>
    decreases segs.len(),
{
    if segs.len() == 0 {
        Some(Seq::<ModifierKey>::empty())
    } else {
        match parse_modifier_list(segs.drop_last()) {
            Some(ms) => match modifier_of_token(lowercase(segs.last())) {
                Some(m) => Some(ms.push(m)),
                None => None,
            },
            None => None,
        }
    }
}

/// What parsing a shortcut string gives: the canonical modifiers and the key,
/// or nothing when the string is not a valid shortcut.
pub open spec fn parse_shortcut_spec(s: Seq<char>) -> Option<(Seq<ModifierKey>, Key)> {
    let segs = shortcut_segments(s);
    if segs.len() < 2 {
        None
    } else {
        match key_of_token(lowercase(segs.last())) {
            None => None,
            Some(k) => match parse_modifier_list(segs.drop_last()) {
                None => None,
                Some(ms) => if shortcut_validation(canonical_modifiers(ms), k) is Ok {
                    Some((canonical_modifiers(ms), k))
                } else {
                    None
                },
            },
        }
    }
}

/// Each modifier is named by its documented aliases and by nothing else,
/// whatever their case (`parse_modifier_token` lowercases first): `cmd` and
/// `command` name Command; `opt`, `option` and `alt` name Option; `ctrl` and
/// `control` name Control; `shift` names Shift; `fn` and `function` name
/// Function.
pub proof fn law_modifier_aliases(token: Seq<char>)
    requires
        is_ascii_text(token),
    ensures
        modifier_of_token(ascii_lowercase(token)) == Some(ModifierKey::Command) <==> (ascii_lowercase(token)
            == "cmd"@ || ascii_lowercase(token) == "command"@),
        modifier_of_token(ascii_lowercase(token)) == Some(ModifierKey::Option) <==> (ascii_lowercase(token)
            == "opt"@ || ascii_lowercase(token) == "option"@ || ascii_lowercase(token) == "alt"@),
        modifier_of_token(ascii_lowercase(token)) == Some(ModifierKey::Control) <==> (ascii_lowercase(token)
            == "ctrl"@ || ascii_lowercase(token) == "control"@),
        modifier_of_token(ascii_lowercase(token)) == Some(ModifierKey::Shift) <==> ascii_lowercase(token)
            == "shift"@,
        modifier_of_token(ascii_lowercase(token)) == Some(ModifierKey::Function) <==> (ascii_lowercase(token)
            == "fn"@ || ascii_lowercase(token) == "function"@),
{
    reveal_strlit("cmd");
    reveal_strlit("command");
    reveal_strlit("opt");
    reveal_strlit("option");
    reveal_strlit("alt");
    reveal_strlit("ctrl");
    reveal_strlit("control");
    reveal_strlit("shift");
    reveal_strlit("fn");
    reveal_strlit("function");
    let l = ascii_lowercase(token);
    if l == "opt"@ || l == "alt"@ {
        assert(l[0] != "cmd"@[0]);
    }
    if l == "option"@ {
        assert(l.len() != "command"@.len());
    }
    if l == "control"@ {
        assert(l[2] != "command"@[2]);
    }
    if l == "ctrl"@ {
        assert(l.len() == 4 && "cmd"@.len() == 3 && "opt"@.len() == 3 && "alt"@.len() == 3);
        assert(l.len() != "command"@.len() && l.len() != "option"@.len());
    }
    if l == "shift"@ {
        assert(l[0] != "cmd"@[0] && l[0] != "opt"@[0] && l[0] != "alt"@[0] && l[0] != "ctrl"@[0]);
        assert(l.len() != "command"@.len() && l.len() != "option"@.len() && l.len() != "control"@.len());
    }
    if l == "fn"@ || l == "function"@ {
        assert(l[0] != "cmd"@[0] && l[0] != "opt"@[0] && l[0] != "alt"@[0] && l[0] != "ctrl"@[0]);
        assert(l[0] != "shift"@[0]);
        assert(l.len() != "command"@.len() && l.len() != "option"@.len() && l.len() != "control"@.len());
    }
}

/// Every modifier's configuration token reads back as that modifier:
/// `parse_modifier_token(modifier_token(m))` is `Some(m)`.
pub proof fn law_modifier_token_round_trip(m: ModifierKey)
    ensures
        is_ascii_text(modifier_token_spec(m)),
        modifier_of_token(ascii_lowercase(modifier_token_spec(m))) == Some(m),
{
    reveal_strlit("cmd");
    reveal_strlit("opt");
    reveal_strlit("ctrl");
    reveal_strlit("shift");
    reveal_strlit("fn");
    reveal_strlit("command");
    reveal_strlit("option");
    reveal_strlit("alt");
    reveal_strlit("control");
    reveal_strlit("function");
    let t = modifier_token_spec(m);
    assert(ascii_lowercase(t) =~= t);
    match m {
        ModifierKey::Option => {
            assert(t[0] != "cmd"@[0]);
        },
        ModifierKey::Control => {
            assert(t[1] != "command"@[1]);
            assert(t[1] != "cmd"@[1]);
        },
        ModifierKey::Shift => {
            assert(t[0] != "control"@[0]);
        },
        ModifierKey::Function => {
            assert(t[0] != "opt"@[0]);
            assert(t[0] != "cmd"@[0]);
            assert(t[0] != "alt"@[0]);
            assert(t[0] != "ctrl"@[0]);
            assert(t[0] != "shift"@[0]);
        },
        ModifierKey::Command => {},
    }
}

/// A key as it reads back from its token: letters in lower case.
pub open spec fn normalized_key(k: Key) -> Key {
    match k {
        Key::Letter(c) => Key::Letter(ascii_lower(c)),
        _ => k,
    }
}

proof fn lemma_word_not_number(w: Seq<char>)
    requires
        w.len() > 0,
        'a' <= w[0] <= 'z',
    ensures
        parse_unsigned(w, 255) is None,
        parse_unsigned(w, 65535) is None,
{
    assert(!is_digit(w[0]));
    assert(!all_digits(unsigned_digits(w)));
}

/// Every valid key's configuration token reads back as the key (a letter in
/// lower case): `parse_key_token(&key_token(&k))` is `Some` of it.
pub proof fn law_key_token_round_trip(k: Key)
    requires
        key_is_valid(k),
    ensures
        is_ascii_text(key_token_spec(k)),
        key_of_token(ascii_lowercase(key_token_spec(k))) == Some(normalized_key(k)),
{
    reveal_strlit("up");
    reveal_strlit("down");
    reveal_strlit("left");
    reveal_strlit("right");
    reveal_strlit("space");
    reveal_strlit("enter");
    reveal_strlit("return");
    reveal_strlit("tab");
    reveal_strlit("esc");
    reveal_strlit("escape");
    reveal_strlit("backspace");
    reveal_strlit("delete");
    let t = key_token_spec(k);
    match k {
        Key::Letter(c) => {
            assert(ascii_lowercase(t) =~= t);
            assert(!is_digit(t[0]));
            assert(!all_digits(unsigned_digits(t)));
        },
        Key::Number(n) => {
            lemma_decimal_parses(n as nat);
            assert(decimal(n as nat) =~= seq![digit_char(n as int)]);
            assert(ascii_lowercase(t) =~= t);
            assert(unsigned_digits(t) == t);
        },
        Key::Function(f) => {
            lemma_decimal_parses(f as nat);
            let d = decimal(f as nat);
            assert(is_digit(d[0]));
            assert(ascii_lowercase(t) =~= t) by {
                assert forall|i: int| 0 <= i < t.len() implies #[trigger] ascii_lower(t[i]) == t[i] by {
                    if i > 0 {
                        assert(t[i] == d[i - 1]);
                    }
                }
            }
            assert(is_ascii_text(t)) by {
                assert forall|i: int| 0 <= i < t.len() implies (#[trigger] t[i] as u32) < 128 by {
                    if i > 0 {
                        assert(t[i] == d[i - 1]);
                    }
                }
            }
            assert(t.skip(1) =~= d);
            assert(unsigned_digits(d) == d);
            assert(!is_digit(t[0]));
            assert(!all_digits(unsigned_digits(t)));
        },
        Key::ScanCode(code) => {
            lemma_decimal_parses(code as nat);
            let d = decimal(code as nat);
            assert(is_digit(d[0]));
            assert(ascii_lowercase(t) =~= t) by {
                assert forall|i: int| 0 <= i < t.len() implies #[trigger] ascii_lower(t[i]) == t[i] by {
                    if i > 2 {
                        assert(t[i] == d[i - 3]);
                    }
                }
            }
            assert(is_ascii_text(t)) by {
                assert forall|i: int| 0 <= i < t.len() implies (#[trigger] t[i] as u32) < 128 by {
                    if i > 2 {
                        assert(t[i] == d[i - 3]);
                    }
                }
            }
            assert(t.take(3) =~= seq!['k', 'e', 'y']);
            assert(t.skip(3) =~= d);
            assert(unsigned_digits(d) == d);
        },
        _ => {
            assert(ascii_lowercase(t) =~= t);
            lemma_word_not_number(t);
        },
    }
}

/// Parses a modifier token such as `cmd`, `Option` or `alt`, ignoring case.
pub fn parse_modifier_token(token: &str) -> (r: Option<ModifierKey>)
    ensures
        r == modifier_of_token(lowercase(token@)),
        is_ascii_text(token@) ==> r == modifier_of_token(ascii_lowercase(token@)),
{
    let lower = to_lowercase(token);
    let l = lower.as_str();
    if str_equal(l, "cmd") || str_equal(l, "command") {
        Some(ModifierKey::Command)
    } else if str_equal(l, "opt") || str_equal(l, "option") || str_equal(l, "alt") {
        Some(ModifierKey::Option)
    } else if str_equal(l, "ctrl") || str_equal(l, "control") {
        Some(ModifierKey::Control)
    } else if str_equal(l, "shift") {
        Some(ModifierKey::Shift)
    } else if str_equal(l, "fn") || str_equal(l, "function") {
        Some(ModifierKey::Function)
    } else {
        None
    }
}

/// Parses a key token such as `a`, `1`, `f5`, `space` or `key42`, ignoring case.
pub fn parse_key_token(token: &str) -> (r: Option<Key>)
    ensures
        r == key_of_token(lowercase(token@)),
        is_ascii_text(token@) ==> r == key_of_token(ascii_lowercase(token@)),
{
    let lower = to_lowercase(token);
    let lc = chars_of(lower.as_str());
    let ghost low = lower@;
    if lc.len() >= 3 && lc[0] == 'k' && lc[1] == 'e' && lc[2] == 'y' {
        assert(low.take(3) =~= seq!['k', 'e', 'y']);
        if let Some(code) = parse_unsigned_chars(&lc, 3, 65535) {
            return Some(Key::ScanCode(code as u16));
        }
    }
    proof {
        if !(lc@.len() >= 3 && lc@[0] == 'k' && lc@[1] == 'e' && lc@[2] == 'y') && low.len() >= 3 {
            assert(low.take(3)[0] == low[0]);
            assert(low.take(3)[1] == low[1]);
            assert(low.take(3)[2] == low[2]);
            assert(low.take(3) != seq!['k', 'e', 'y']);
        }
    }
    assert(low.skip(0) =~= low);
    if let Some(n) = parse_unsigned_chars(&lc, 0, 255) {
        if n <= 9 {
            return Some(Key::Number(n as u8));
        }
    }
    if lc.len() == 1 {
        let ch = lc[0];
        if ('a' <= ch && ch <= 'z') || ('A' <= ch && ch <= 'Z') {
            return Some(Key::Letter(ch));
        }
    }
    if lc.len() >= 1 && lc[0] == 'f' {
        if let Some(f) = parse_unsigned_chars(&lc, 1, 255) {
            if 1 <= f && f <= 12 {
                return Some(Key::Function(f as u8));
            }
        }
    }
    let l = lower.as_str();
    if str_equal(l, "space") {
        Some(Key::Space)
    } else if str_equal(l, "enter") || str_equal(l, "return") {
        Some(Key::Enter)
    } else if str_equal(l, "tab") {
        Some(Key::Tab)
    } else if str_equal(l, "esc") || str_equal(l, "escape") {
        Some(Key::Escape)
    } else if str_equal(l, "backspace") {
        Some(Key::Backspace)
    } else if str_equal(l, "delete") {
        Some(Key::Delete)
    } else if str_equal(l, "up") {
        Some(Key::Arrow(ArrowDirection::Up))
    } else if str_equal(l, "down") {
        Some(Key::Arrow(ArrowDirection::Down))
    } else if str_equal(l, "left") {
        Some(Key::Arrow(ArrowDirection::Left))
    } else if str_equal(l, "right") {
        Some(Key::Arrow(ArrowDirection::Right))
    } else {
        None
    }
}

/// The trimmed, non-empty segments of a shortcut string.
fn shortcut_segment_chars(s: &str) -> (segs: Vec<Vec<char>>)
    ensures
        views(segs@) == shortcut_segments(s@),
{
    let cs = chars_of(s);
    let parts = split_chars(&cs, '+');
    let ghost pv = views(parts@);
    let mut segs: Vec<Vec<char>> = Vec::new();
    let mut i: usize = 0;
    assert(pv.take(0) =~= Seq::<Seq<char>>::empty());
    assert(views(segs@) =~= Seq::<Seq<char>>::empty());
    while i < parts.len()
        invariant
            pv == views(parts@),
            pv == split_on(s@, '+'),
            i <= parts@.len(),
            views(segs@) == trimmed_nonempty(pv.take(i as int)),
        decreases parts.len() - i,
    {
        let t = trim_chars(&parts[i]);
        let ghost before = views(segs@);
        proof {
            assert(pv.take(i + 1).drop_last() =~= pv.take(i as int));
            assert(pv.take(i + 1).last() == parts@[i as int]@);
        }
        if t.len() > 0 {
            segs.push(t);
            assert(views(segs@) =~= before.push(t@));
        }
        i = i + 1;
    }
    assert(pv.take(pv.len() as int) =~= pv);
    segs
}

impl ShortcutCombination {
    /// Parses a shortcut such as `opt+shift+1` or `Cmd + Space`: segments
    /// between `+` are trimmed and empty ones dropped, the last one names the
    /// key and the others name modifiers, case ignored. The result must be a
    /// valid shortcut.
    pub fn parse(s: &str) -> (r: Result<ShortcutCombination, KeyboardMappingError>)
        ensures
            match parse_shortcut_spec(s@) {
                Some(v) => r matches Ok(c) && c@ == v,
                None => r matches Err(KeyboardMappingError::InvalidShortcutFormat(e)) && e@ == s@,
            },
            is_ascii_text(s@) ==> match parse_shortcut_ascii(s@) {
                Some(v) => r matches Ok(c) && c@ == v,
                None => r is Err,
            },
    {
        let segs = shortcut_segment_chars(s);
        let ghost sv = views(segs@);
        proof {
            if is_ascii_text(s@) {
                lemma_ascii_segments(s@);
            }
        }
        if segs.len() < 2 {
            return Err(KeyboardMappingError::InvalidShortcutFormat(owned(s)));
        }
        let last = string_of_chars(&segs[segs.len() - 1]);
        assert(last@ == sv.last());
        proof {
            if is_ascii_text(s@) {
                assert(is_ascii_text(sv[sv.len() - 1]));
            }
        }
        let key = match parse_key_token(last.as_str()) {
            Some(k) => k,
            None => {
                return Err(KeyboardMappingError::InvalidShortcutFormat(owned(s)));
            },
        };
        let mut modifiers: Vec<ModifierKey> = Vec::new();
        let mut i: usize = 0;
        let n = segs.len() - 1;
        assert(sv.drop_last().take(0) =~= Seq::<Seq<char>>::empty());
        while i < n
            invariant
                n == segs@.len() - 1,
                sv == views(segs@),
                sv == shortcut_segments(s@),
                sv.len() >= 2,
                key_of_token(lowercase(sv.last())) == Some(key),
                i <= n,
                parse_modifier_list(sv.drop_last().take(i as int)) == Some(modifiers@),
                is_ascii_text(s@) ==> key_of_token(ascii_lowercase(sv.last())) == Some(key),
                is_ascii_text(s@) ==> parse_modifier_list_ascii(sv.drop_last().take(i as int)) == Some(modifiers@),
                is_ascii_text(s@) ==> forall|j: int| 0 <= j < sv.len() ==> is_ascii_text(#[trigger] sv[j]),
            decreases n - i,
        {
            let seg = string_of_chars(&segs[i]);
            proof {
                assert(sv.drop_last().take(i + 1).drop_last() =~= sv.drop_last().take(i as int));
                assert(sv.drop_last().take(i + 1).last() == seg@);
            }
            proof {
                if is_ascii_text(s@) {
                    assert(is_ascii_text(sv[i as int]));
                    assert(seg@ == sv[i as int]);
                }
            }
            match parse_modifier_token(seg.as_str()) {
                Some(m) => {
                    modifiers.push(m);
                },
                None => {
                    proof {
                        assert(modifier_of_token(lowercase(sv.drop_last().take(i + 1).last())) is None);
                        assert(parse_modifier_list(sv.drop_last().take(i + 1)) is None);
                        lemma_modifier_list_prefix_none(sv.drop_last(), i + 1);
                        if is_ascii_text(s@) {
                            assert(is_ascii_text(sv[i as int]));
                            assert(parse_modifier_list_ascii(sv.drop_last().take(i + 1)) is None);
                            lemma_ascii_modifier_list_prefix_none(sv.drop_last(), i + 1);
                        }
                        assert(parse_modifier_list(sv.drop_last()) is None);
                        assert(key_of_token(lowercase(sv.last())) == Some(key));
                        assert(sv.len() >= 2);
                        assert(sv.drop_last().take(n as int) =~= sv.drop_last());
                    }
                    return Err(KeyboardMappingError::InvalidShortcutFormat(owned(s)));
                },
            }
            i = i + 1;
        }
        assert(sv.drop_last().take(n as int) =~= sv.drop_last());
        let combination = ShortcutCombination::new(modifiers, key);
        match combination.validate() {
            Ok(()) => Ok(combination),
            Err(_) => Err(KeyboardMappingError::InvalidShortcutFormat(owned(s))),
        }
    }
}

proof fn lemma_modifier_list_prefix_none(segs: Seq<Seq<char>>, k: int)
    requires
        0 <= k <= segs.len(),
        parse_modifier_list(segs.take(k)) is None,
    ensures
        parse_modifier_list(segs) is None,
    decreases segs.len() - k,
{
    if k < segs.len() {
        assert(segs.take(k + 1).drop_last() =~= segs.take(k));
        lemma_modifier_list_prefix_none(segs, k + 1);
    } else {
        assert(segs.take(k) =~= segs);
    }
}

/// The modifiers named by the segments, read with ASCII lowercasing, if
/// every one names a modifier.
pub open spec fn parse_modifier_list_ascii(segs: Seq<Seq<char>>) -> Option<Seq<ModifierKey>>
    decreases segs.len(),
{
    if segs.len() == 0 {
        Some(Seq::<ModifierKey>::empty())
    } else {
        match parse_modifier_list_ascii(segs.drop_last()) {
            Some(ms) => match modifier_of_token(ascii_lowercase(segs.last())) {
                Some(m) => Some(ms.push(m)),
                None => None,
            },
            None => None,
        }
    }
}

/// What parsing an ASCII shortcut string gives (its tokens lowercased the
/// ASCII way, which is what Unicode lowercasing does to ASCII text).
pub open spec fn parse_shortcut_ascii(s: Seq<char>) -> Option<(Seq<ModifierKey>, Key)> {
    let segs = shortcut_segments(s);
    if segs.len() < 2 {
        None
    } else {
        match key_of_token(ascii_lowercase(segs.last())) {
            None => None,
            Some(k) => match parse_modifier_list_ascii(segs.drop_last()) {
                None => None,
                Some(ms) => if shortcut_validation(canonical_modifiers(ms), k) is Ok {
                    Some((canonical_modifiers(ms), k))
                } else {
                    None
                },
            },
        }
    }
}

proof fn lemma_ascii_modifier_list_prefix_none(segs: Seq<Seq<char>>, k: int)
    requires
        0 <= k <= segs.len(),
        parse_modifier_list_ascii(segs.take(k)) is None,
    ensures
        parse_modifier_list_ascii(segs) is None,
    decreases segs.len() - k,
{
    if k < segs.len() {
        assert(segs.take(k + 1).drop_last() =~= segs.take(k));
        lemma_ascii_modifier_list_prefix_none(segs, k + 1);
    } else {
        assert(segs.take(k) =~= segs);
    }
}

proof fn lemma_ascii_trim_start(s: Seq<char>)
    requires
        is_ascii_text(s),
    ensures
        is_ascii_text(crate::text::trim_start(s)),
    decreases s.len(),
{
    if s.len() > 0 && is_ws(s[0]) {
        assert(is_ascii_text(s.drop_first())) by {
            assert forall|i: int| 0 <= i < s.drop_first().len() implies (#[trigger] s.drop_first()[i] as u32) < 128 by {
                assert(s.drop_first()[i] == s[i + 1]);
            }
        }
        lemma_ascii_trim_start(s.drop_first());
    }
}

proof fn lemma_ascii_trim_end(s: Seq<char>)
    requires
        is_ascii_text(s),
    ensures
        is_ascii_text(crate::text::trim_end(s)),
    decreases s.len(),
{
    if s.len() > 0 && is_ws(s.last()) {
        assert(is_ascii_text(s.drop_last())) by {
            assert forall|i: int| 0 <= i < s.drop_last().len() implies (#[trigger] s.drop_last()[i] as u32) < 128 by {
                assert(s.drop_last()[i] == s[i]);
            }
        }
        lemma_ascii_trim_end(s.drop_last());
    }
}

proof fn lemma_ascii_split(s: Seq<char>, sep: char)
    requires
        is_ascii_text(s),
    ensures
        forall|i: int| 0 <= i < split_on(s, sep).len() ==> is_ascii_text(#[trigger] split_on(s, sep)[i]),
    decreases s.len(),
{
    if s.len() > 0 {
        let d = s.drop_last();
        assert(is_ascii_text(d)) by {
            assert forall|i: int| 0 <= i < d.len() implies (#[trigger] d[i] as u32) < 128 by {
                assert(d[i] == s[i]);
            }
        }
        lemma_ascii_split(d, sep);
        let r = split_on(d, sep);
        crate::text::lemma_split_on_nonempty(d, sep);
        assert((s[s.len() - 1] as u32) < 128);
        if s.last() != sep {
            let l = r.last().push(s.last());
            assert(is_ascii_text(r[r.len() - 1]));
            assert(is_ascii_text(l)) by {
                assert forall|i: int| 0 <= i < l.len() implies (#[trigger] l[i] as u32) < 128 by {
                    if i < l.len() - 1 {
                        assert(l[i] == r.last()[i]);
                    }
                }
            }
        }
    }
}

proof fn lemma_ascii_trimmed(parts: Seq<Seq<char>>)
    requires
        forall|i: int| 0 <= i < parts.len() ==> is_ascii_text(#[trigger] parts[i]),
    ensures
        forall|i: int| 0 <= i < trimmed_nonempty(parts).len() ==> is_ascii_text(#[trigger] trimmed_nonempty(parts)[i]),
    decreases parts.len(),
{
    if parts.len() > 0 {
        assert forall|i: int| 0 <= i < parts.drop_last().len() implies is_ascii_text(#[trigger] parts.drop_last()[i]) by {
            assert(parts.drop_last()[i] == parts[i]);
        }
        lemma_ascii_trimmed(parts.drop_last());
        assert(is_ascii_text(parts[parts.len() - 1]));
        lemma_ascii_trim_start(parts.last());
        lemma_ascii_trim_end(crate::text::trim_start(parts.last()));
        let r = trimmed_nonempty(parts.drop_last());
        let t = trim(parts.last());
        assert(is_ascii_text(t));
        if t.len() > 0 {
            assert forall|i: int| 0 <= i < r.push(t).len() implies is_ascii_text(#[trigger] r.push(t)[i]) by {
                if i < r.len() {
                    assert(r.push(t)[i] == r[i]);
                }
            }
        }
    }
}

/// The segments of an ASCII shortcut string are ASCII.
proof fn lemma_ascii_segments(s: Seq<char>)
    requires
        is_ascii_text(s),
    ensures
        forall|i: int| 0 <= i < shortcut_segments(s).len() ==> is_ascii_text(#[trigger] shortcut_segments(s)[i]),
{
    lemma_ascii_split(s, '+');
    lemma_ascii_trimmed(split_on(s, '+'));
}

/// A token that trimming leaves as it is and that holds no `+`.
pub open spec fn plain_token(t: Seq<char>) -> bool {
    &&& t.len() > 0
    &&& !is_ws(t[0])
    &&& !is_ws(t.last())
    &&& forall|i: int| 0 <= i < t.len() ==> #[trigger] t[i] != '+'
}

/// The configuration tokens of the modifiers.
pub open spec fn modifier_tokens(mods: Seq<ModifierKey>) -> Seq<Seq<char>> {
    mods.map_values(|m: ModifierKey| modifier_token_spec(m))
}

proof fn lemma_modifier_token_plain(m: ModifierKey)
    ensures
        plain_token(modifier_token_spec(m)),
{
    reveal_strlit("cmd");
    reveal_strlit("opt");
    reveal_strlit("ctrl");
    reveal_strlit("shift");
    reveal_strlit("fn");
    let t = modifier_token_spec(m);
    assert forall|i: int| 0 <= i < t.len() implies #[trigger] t[i] != '+' by {}
}

proof fn lemma_digits_plain(d: Seq<char>)
    requires
        d.len() > 0,
        all_digits(d),
    ensures
        forall|i: int| 0 <= i < d.len() ==> #[trigger] d[i] != '+' && !is_ws(d[i]),
{
    assert forall|i: int| 0 <= i < d.len() implies #[trigger] d[i] != '+' && !is_ws(d[i]) by {
        assert(is_digit(d[i]));
    }
}

proof fn lemma_key_token_plain(k: Key)
    requires
        key_is_valid(k),
    ensures
        plain_token(key_token_spec(k)),
{
    reveal_strlit("up");
    reveal_strlit("down");
    reveal_strlit("left");
    reveal_strlit("right");
    reveal_strlit("space");
    reveal_strlit("enter");
    reveal_strlit("tab");
    reveal_strlit("esc");
    reveal_strlit("backspace");
    reveal_strlit("delete");
    let t = key_token_spec(k);
    match k {
        Key::Number(n) => {
            lemma_decimal_parses(n as nat);
            lemma_digits_plain(t);
        },
        Key::Function(f) => {
            let d = decimal(f as nat);
            lemma_decimal_parses(f as nat);
            lemma_digits_plain(d);
            assert forall|i: int| 0 <= i < t.len() implies #[trigger] t[i] != '+' by {
                if i > 0 {
                    assert(t[i] == d[i - 1]);
                }
            }
            assert(t.last() == d.last());
        },
        Key::ScanCode(c) => {
            let d = decimal(c as nat);
            lemma_decimal_parses(c as nat);
            lemma_digits_plain(d);
            assert forall|i: int| 0 <= i < t.len() implies #[trigger] t[i] != '+' by {
                if i > 2 {
                    assert(t[i] == d[i - 3]);
                }
            }
            assert(t.last() == d.last());
        },
        _ => {
            assert forall|i: int| 0 <= i < t.len() implies #[trigger] t[i] != '+' by {}
        },
    }
}

proof fn lemma_split_push_sep(a: Seq<char>, sep: char)
    ensures
        split_on(a.push(sep), sep) == split_on(a, sep).push(Seq::<char>::empty()),
{
    assert(a.push(sep).drop_last() =~= a);
}

proof fn lemma_split_append(a: Seq<char>, b: Seq<char>, sep: char)
    requires
        forall|i: int| 0 <= i < b.len() ==> #[trigger] b[i] != sep,
    ensures
        split_on(a + b, sep) == split_on(a, sep).update(
            split_on(a, sep).len() - 1,
            split_on(a, sep).last() + b,
        ),
    decreases b.len(),
{
    crate::text::lemma_split_on_nonempty(a, sep);
    let sa = split_on(a, sep);
    if b.len() == 0 {
        assert(a + b =~= a);
        assert(sa.last() + b =~= sa.last());
        assert(sa.update(sa.len() - 1, sa.last() + b) =~= sa);
    } else {
        let b0 = b.drop_last();
        assert forall|i: int| 0 <= i < b0.len() implies #[trigger] b0[i] != sep by {
            assert(b0[i] == b[i]);
        }
        lemma_split_append(a, b0, sep);
        assert((a + b).drop_last() =~= a + b0);
        assert((a + b).last() == b.last());
        assert(b[b.len() - 1] != sep);
        let r = split_on(a + b0, sep);
        assert(r.last() == sa.last() + b0);
        assert(r.last().push(b.last()) =~= sa.last() + b);
        assert(r.update(r.len() - 1, r.last().push(b.last())) =~= sa.update(sa.len() - 1, sa.last() + b));
    }
}

proof fn lemma_split_prefix(mods: Seq<ModifierKey>)
    ensures
        split_on(modifiers_prefix(mods), '+') == modifier_tokens(mods).push(Seq::<char>::empty()),
    decreases mods.len(),
{
    if mods.len() == 0 {
        assert(split_on(Seq::<char>::empty(), '+') =~= seq![Seq::<char>::empty()]);
        assert(modifier_tokens(mods).push(Seq::<char>::empty()) =~= seq![Seq::<char>::empty()]);
    } else {
        let d = mods.drop_last();
        let t = modifier_token_spec(mods.last());
        lemma_split_prefix(d);
        lemma_modifier_token_plain(mods.last());
        let p = modifiers_prefix(d);
        lemma_split_append(p, t, '+');
        lemma_split_push_sep(p + t, '+');
        assert(modifiers_prefix(mods) == (p + t).push('+'));
        let sp = split_on(p, '+');
        assert(sp.last() + t =~= t);
        assert(sp.update(sp.len() - 1, sp.last() + t) =~= modifier_tokens(d).push(t));
        assert(modifier_tokens(d).push(t) =~= modifier_tokens(mods));
    }
}

proof fn lemma_trimmed_plain(parts: Seq<Seq<char>>)
    requires
        forall|i: int| 0 <= i < parts.len() ==> plain_token(#[trigger] parts[i]),
    ensures
        trimmed_nonempty(parts) == parts,
    decreases parts.len(),
{
    if parts.len() > 0 {
        let d = parts.drop_last();
        assert forall|i: int| 0 <= i < d.len() implies plain_token(#[trigger] d[i]) by {
            assert(d[i] == parts[i]);
        }
        lemma_trimmed_plain(d);
        let t = parts.last();
        assert(plain_token(parts[parts.len() - 1]));
        assert(crate::text::trim_start(t) == t);
        assert(crate::text::trim_end(t) == t);
        assert(d.push(t) =~= parts);
    }
}

proof fn lemma_modifier_list_round_trip(mods: Seq<ModifierKey>)
    ensures
        parse_modifier_list_ascii(modifier_tokens(mods)) == Some(mods),
    decreases mods.len(),
{
    if mods.len() > 0 {
        let d = mods.drop_last();
        lemma_modifier_list_round_trip(d);
        law_modifier_token_round_trip(mods.last());
        let ts = modifier_tokens(mods);
        assert(ts.drop_last() =~= modifier_tokens(d));
        assert(d.push(mods.last()) =~= mods);
    } else {
        assert(modifier_tokens(mods) =~= Seq::<Seq<char>>::empty());
    }
}

/// Formatting a valid shortcut and parsing the text back gives it again (a
/// letter key in lower case): for `c` with canonical, non-empty modifiers
/// and a valid key, `ShortcutCombination::parse(&c.to_config_string())` is
/// `Ok` of the same modifiers and key.
pub proof fn law_shortcut_round_trip(mods: Seq<ModifierKey>, k: Key)
    requires
        mods.len() > 0,
        canonical_modifiers(mods) == mods,
        key_is_valid(k),
    ensures
        is_ascii_text(config_string(mods, k)),
        parse_shortcut_ascii(config_string(mods, k)) == Some((mods, normalized_key(k))),
{
    let p = modifiers_prefix(mods);
    let kt = key_token_spec(k);
    lemma_key_token_plain(k);
    law_key_token_round_trip(k);
    lemma_split_prefix(mods);
    lemma_split_append(p, kt, '+');
    let toks = modifier_tokens(mods);
    let sp = split_on(p, '+');
    assert(sp.last() + kt =~= kt);
    let parts = toks.push(kt);
    assert(sp.update(sp.len() - 1, sp.last() + kt) =~= parts);
    assert forall|i: int| 0 <= i < parts.len() implies plain_token(#[trigger] parts[i]) by {
        if i < toks.len() {
            assert(parts[i] == modifier_token_spec(mods[i]));
            lemma_modifier_token_plain(mods[i]);
        }
    }
    lemma_trimmed_plain(parts);
    assert(shortcut_segments(config_string(mods, k)) == parts);
    assert(parts.drop_last() =~= toks);
    lemma_modifier_list_round_trip(mods);
    lemma_ascii_prefix(mods);
    assert(is_ascii_text(config_string(mods, k))) by {
        let c = config_string(mods, k);
        assert forall|i: int| 0 <= i < c.len() implies (#[trigger] c[i] as u32) < 128 by {
            if i < p.len() {
                assert(c[i] == p[i]);
            } else {
                assert(c[i] == kt[i - p.len()]);
            }
        }
    }
    assert(key_is_valid(normalized_key(k)));
}

proof fn lemma_ascii_prefix(mods: Seq<ModifierKey>)
    ensures
        is_ascii_text(modifiers_prefix(mods)),
    decreases mods.len(),
{
    if mods.len() > 0 {
        lemma_ascii_prefix(mods.drop_last());
        law_modifier_token_round_trip(mods.last());
        let a = modifiers_prefix(mods.drop_last());
        let t = modifier_token_spec(mods.last());
        let c = modifiers_prefix(mods);
        assert(c == a + t + seq!['+']);
        assert forall|i: int| 0 <= i < c.len() implies (#[trigger] c[i] as u32) < 128 by {
            if i < a.len() {
                assert(c[i] == a[i]);
            } else if i < a.len() + t.len() {
                assert(c[i] == t[i - a.len()]);
            }
        }
    }
}

impl core::str::FromStr for ShortcutCombination {
    type Err = KeyboardMappingError;

    fn from_str(s: &str) -> (r: Result<Self, Self::Err>)
        ensures
            match parse_shortcut_spec(s@) {
                Some(v) => r matches Ok(c) && c@ == v,
                None => r matches Err(KeyboardMappingError::InvalidShortcutFormat(e)) && e@ == s@,
            },
            is_ascii_text(s@) ==> match parse_shortcut_ascii(s@) {
                Some(v) => r matches Ok(c) && c@ == v,
                None => r is Err,
            },
    {
        ShortcutCombination::parse(s)
    }
}


/// Types of actions that can be triggered by keyboard shortcuts.
#[derive(Debug, Clone, PartialEq)]
pub enum ActionType {
    /// Switch to a specific workspace
    SwitchWorkspace,
    /// Move current window to another workspace
    MoveWindow,
    /// Move current window to another monitor
    MoveWindowToMonitor,
    /// Resize current window
    ResizeWindow,
    /// Create a new workspace
    CreateWorkspace,
    /// Delete current workspace
    DeleteWorkspace,
    /// Toggle window floating mode
    ToggleFloating,
    /// Toggle window fullscreen mode
    ToggleFullscreen,
    /// Focus next window in workspace
    FocusNext,
    /// Focus previous window in workspace
    FocusPrevious,
    /// Close current window
    CloseWindow,
    /// Minimize current window
    MinimizeWindow,
    /// Refresh workspace layout
    RefreshLayout,
    /// Show workspace overview
    ShowOverview,
    /// Custom action with parameters
    Custom(String),
}

/// Resize directions for window resizing actions.
#[derive(Debug, Clone, Copy, PartialEq, Eq, Structural)]
pub enum ResizeDirection {
    Increase,
    Decrease,
    IncreaseWidth,
    DecreaseWidth,
    IncreaseHeight,
    DecreaseHeight,
}

/// Parameters for different action types.
#[derive(Debug, Clone, PartialEq)]
pub enum ActionParameters {
    /// No parameters
    Empty,
    /// Target workspace identifier for switch/move actions
    WorkspaceId(u128),
    /// Target monitor identifier for monitor move actions
    MonitorId(String),
    /// Resize direction and amount
    Resize(ResizeDirection, u32),
    /// Workspace name for creation
    WorkspaceName(String),
    /// Custom parameters, as JSON text
    Custom(String),
}

impl ActionType {
    /// A copy of this action type.
    pub fn duplicate(&self) -> (r: Self)
        ensures
            r == *self,
    {
        match self {
            ActionType::SwitchWorkspace => ActionType::SwitchWorkspace,
            ActionType::MoveWindow => ActionType::MoveWindow,
            ActionType::MoveWindowToMonitor => ActionType::MoveWindowToMonitor,
            ActionType::ResizeWindow => ActionType::ResizeWindow,
            ActionType::CreateWorkspace => ActionType::CreateWorkspace,
            ActionType::DeleteWorkspace => ActionType::DeleteWorkspace,
            ActionType::ToggleFloating => ActionType::ToggleFloating,
            ActionType::ToggleFullscreen => ActionType::ToggleFullscreen,
            ActionType::FocusNext => ActionType::FocusNext,
            ActionType::FocusPrevious => ActionType::FocusPrevious,
            ActionType::CloseWindow => ActionType::CloseWindow,
            ActionType::MinimizeWindow => ActionType::MinimizeWindow,
            ActionType::RefreshLayout => ActionType::RefreshLayout,
            ActionType::ShowOverview => ActionType::ShowOverview,
            ActionType::Custom(s) => ActionType::Custom(s.clone()),
        }
    }
}

impl ActionParameters {
    /// A copy of these parameters.
    pub fn duplicate(&self) -> (r: Self)
        ensures
            r == *self,
    {
        match self {
            ActionParameters::Empty => ActionParameters::Empty,
            ActionParameters::WorkspaceId(id) => ActionParameters::WorkspaceId(*id),
            ActionParameters::MonitorId(m) => ActionParameters::MonitorId(m.clone()),
            ActionParameters::Resize(d, a) => ActionParameters::Resize(*d, *a),
            ActionParameters::WorkspaceName(n) => ActionParameters::WorkspaceName(n.clone()),
            ActionParameters::Custom(c) => ActionParameters::Custom(c.clone()),
        }
    }
}

/// Whether an action type fits the given parameters. Switching to and moving
/// a window to a workspace may leave the workspace open (the defaults do:
/// it is filled in with the workspace's identifier later).
pub open spec fn action_parameters_fit(action: ActionType, params: ActionParameters) -> bool {
    match (action, params) {
        (ActionType::SwitchWorkspace, ActionParameters::WorkspaceId(_)) => true,
        (ActionType::SwitchWorkspace, ActionParameters::Empty) => true,
        (ActionType::MoveWindow, ActionParameters::WorkspaceId(_)) => true,
        (ActionType::MoveWindow, ActionParameters::Empty) => true,
        (ActionType::MoveWindowToMonitor, ActionParameters::MonitorId(_)) => true,
        (ActionType::ResizeWindow, ActionParameters::Resize(_, _)) => true,
        (ActionType::CreateWorkspace, ActionParameters::WorkspaceName(_)) => true,
        (ActionType::Custom(_), ActionParameters::Custom(_)) => true,
        (ActionType::DeleteWorkspace, ActionParameters::Empty) => true,
        (ActionType::ToggleFloating, ActionParameters::Empty) => true,
        (ActionType::ToggleFullscreen, ActionParameters::Empty) => true,
        (ActionType::FocusNext, ActionParameters::Empty) => true,
        (ActionType::FocusPrevious, ActionParameters::Empty) => true,
        (ActionType::CloseWindow, ActionParameters::Empty) => true,
        (ActionType::MinimizeWindow, ActionParameters::Empty) => true,
        (ActionType::RefreshLayout, ActionParameters::Empty) => true,
        (ActionType::ShowOverview, ActionParameters::Empty) => true,
        _ => false,
    }
}

/// What validating a keyboard mapping with these parts gives.
pub open spec fn mapping_validation(
    name: Seq<char>,
    mods: Seq<ModifierKey>,
    key: Key,
    action: ActionType,
    params: ActionParameters,
) -> Result<(), KeyboardMappingError> {
    if is_blank(name) {
        Err(KeyboardMappingError::EmptyName)
    } else if shortcut_validation(mods, key) is Err {
        shortcut_validation(mods, key)
    } else if !action_parameters_fit(action, params) {
        Err(KeyboardMappingError::ActionParameterMismatch)
    } else {
        match params {
            ActionParameters::Resize(_, amount) => if amount == 0 {
                Err(KeyboardMappingError::InvalidResizeAmount)
            } else {
                Ok(())
            },
            ActionParameters::WorkspaceName(n) => if is_blank(n@) {
                Err(KeyboardMappingError::EmptyWorkspaceName)
            } else {
                Ok(())
            },
            ActionParameters::MonitorId(m) => if is_blank(m@) {
                Err(KeyboardMappingError::EmptyMonitorId)
            } else {
                Ok(())
            },
            _ => Ok(()),
        }
    }
}

/// Defines keyboard shortcuts for workspace and window operations.
#[derive(Debug, Clone)]
pub struct KeyboardMapping {
    /// Unique identifier
    pub id: u128,
    /// Human-readable name for this mapping
    pub name: String,
    /// Keyboard shortcut combination
    pub shortcut_combination: ShortcutCombination,
    /// Type of action to perform
    pub action_type: ActionType,
    /// Parameters for the action
    pub parameters: ActionParameters,
    /// Whether this shortcut is currently enabled
    pub enabled: bool,
    /// Whether shortcut works globally or only when app is focused
    pub global_scope: bool,
    /// Optional description of what this shortcut does
    pub description: Option<String>,
}

/// Whether two mappings conflict: both enabled, the same shortcut, different ids.
pub open spec fn mappings_conflict(a: KeyboardMapping, b: KeyboardMapping) -> bool {
    a.enabled && b.enabled && a.shortcut_combination@ == b.shortcut_combination@ && a.id != b.id
}

/// Whether two mappings hold the same values.
pub open spec fn same_mapping(a: KeyboardMapping, b: KeyboardMapping) -> bool {
    &&& a.id == b.id
    &&& a.name == b.name
    &&& a.shortcut_combination@ == b.shortcut_combination@
    &&& a.action_type == b.action_type
    &&& a.parameters == b.parameters
    &&& a.enabled == b.enabled
    &&& a.global_scope == b.global_scope
    &&& a.description == b.description
}

/// The debug name of a resize direction.
pub open spec fn resize_direction_name(d: ResizeDirection) -> Seq<char> {
    match d {
        ResizeDirection::Increase => "Increase"@,
        ResizeDirection::Decrease => "Decrease"@,
        ResizeDirection::IncreaseWidth => "IncreaseWidth"@,
        ResizeDirection::DecreaseWidth => "DecreaseWidth"@,
        ResizeDirection::IncreaseHeight => "IncreaseHeight"@,
        ResizeDirection::DecreaseHeight => "DecreaseHeight"@,
    }
}

/// The generated description of an action with its parameters.
pub open spec fn generated_description(action: ActionType, params: ActionParameters) -> Seq<char> {
    match (action, params) {
        (ActionType::SwitchWorkspace, ActionParameters::WorkspaceId(_)) => "Switch to workspace"@,
        (ActionType::MoveWindow, ActionParameters::WorkspaceId(_)) => "Move window to workspace"@,
        (ActionType::MoveWindowToMonitor, ActionParameters::MonitorId(m)) => "Move window to monitor "@
            + m@,
        (ActionType::ResizeWindow, ActionParameters::Resize(d, amount)) => "Resize window "@
            + resize_direction_name(d) + " by "@ + decimal(amount as nat),
        (ActionType::CreateWorkspace, ActionParameters::WorkspaceName(n)) => "Create workspace '"@
            + n@ + "'"@,
        (ActionType::DeleteWorkspace, _) => "Delete current workspace"@,
        (ActionType::ToggleFloating, _) => "Toggle window floating mode"@,
        (ActionType::ToggleFullscreen, _) => "Toggle window fullscreen"@,
        (ActionType::FocusNext, _) => "Focus next window"@,
        (ActionType::FocusPrevious, _) => "Focus previous window"@,
        (ActionType::CloseWindow, _) => "Close current window"@,
        (ActionType::MinimizeWindow, _) => "Minimize current window"@,
        (ActionType::RefreshLayout, _) => "Refresh workspace layout"@,
        (ActionType::ShowOverview, _) => "Show workspace overview"@,
        (ActionType::Custom(a), _) => "Custom action: "@ + a@,
        _ => "Unknown action"@,
    }
}

fn resize_direction_str(d: ResizeDirection) -> (s: &'static str)
    ensures
        s@ == resize_direction_name(d),
{
    match d {
        ResizeDirection::Increase => "Increase",
        ResizeDirection::Decrease => "Decrease",
        ResizeDirection::IncreaseWidth => "IncreaseWidth",
        ResizeDirection::DecreaseWidth => "DecreaseWidth",
        ResizeDirection::IncreaseHeight => "IncreaseHeight",
        ResizeDirection::DecreaseHeight => "DecreaseHeight",
    }
}

fn from_literal(s: &str) -> (r: String)
    ensures
        r@ == s@,
{
    owned(s)
}

impl KeyboardMapping {
    /// Create a new keyboard mapping with a fresh identifier, validating it.
    pub fn new(
        name: String,
        shortcut_combination: ShortcutCombination,
        action_type: ActionType,
        parameters: ActionParameters,
        enabled: bool,
        global_scope: bool,
        description: Option<String>,
    ) -> (r: Result<Self, KeyboardMappingError>)
        ensures
            r is Ok <==> mapping_validation(
                name@,
                shortcut_combination.modifiers@,
                shortcut_combination.key,
                action_type,
                parameters,
            ) is Ok,
            r matches Err(e) ==> Err::<(), KeyboardMappingError>(e) == mapping_validation(
                name@,
                shortcut_combination.modifiers@,
                shortcut_combination.key,
                action_type,
                parameters,
            ),
            r matches Ok(m) ==> {
                &&& m.name == name
                &&& m.shortcut_combination@ == shortcut_combination@
                &&& m.action_type == action_type
                &&& m.parameters == parameters
                &&& m.enabled == enabled
                &&& m.global_scope == global_scope
                &&& m.description == description
            },
    {
        let mapping = KeyboardMapping {
            id: crate::ids::new_id(),
            name,
            shortcut_combination,
            action_type,
            parameters,
            enabled,
            global_scope,
            description,
        };
        match mapping.validate() {
            Ok(()) => Ok(mapping),
            Err(e) => Err(e),
        }
    }

    /// A copy of this mapping.
    pub fn duplicate(&self) -> (r: Self)
        ensures
            same_mapping(r, *self),
    {
        KeyboardMapping {
            id: self.id,
            name: self.name.clone(),
            shortcut_combination: self.shortcut_combination.duplicate(),
            action_type: self.action_type.duplicate(),
            parameters: self.parameters.duplicate(),
            enabled: self.enabled,
            global_scope: self.global_scope,
            description: match &self.description {
                Some(d) => Some(d.clone()),
                None => None,
            },
        }
    }

    /// Check if the action type matches the provided parameters.
    pub fn action_parameters_match(&self) -> (b: bool)
        ensures
            b == action_parameters_fit(self.action_type, self.parameters),
    {
        match (&self.action_type, &self.parameters) {
            (ActionType::SwitchWorkspace, ActionParameters::WorkspaceId(_)) => true,
            (ActionType::SwitchWorkspace, ActionParameters::Empty) => true,
            (ActionType::MoveWindow, ActionParameters::WorkspaceId(_)) => true,
            (ActionType::MoveWindow, ActionParameters::Empty) => true,
            (ActionType::MoveWindowToMonitor, ActionParameters::MonitorId(_)) => true,
            (ActionType::ResizeWindow, ActionParameters::Resize(_, _)) => true,
            (ActionType::CreateWorkspace, ActionParameters::WorkspaceName(_)) => true,
            (ActionType::Custom(_), ActionParameters::Custom(_)) => true,
            (ActionType::DeleteWorkspace, ActionParameters::Empty) => true,
            (ActionType::ToggleFloating, ActionParameters::Empty) => true,
            (ActionType::ToggleFullscreen, ActionParameters::Empty) => true,
            (ActionType::FocusNext, ActionParameters::Empty) => true,
            (ActionType::FocusPrevious, ActionParameters::Empty) => true,
            (ActionType::CloseWindow, ActionParameters::Empty) => true,
            (ActionType::MinimizeWindow, ActionParameters::Empty) => true,
            (ActionType::RefreshLayout, ActionParameters::Empty) => true,
            (ActionType::ShowOverview, ActionParameters::Empty) => true,
            _ => false,
        }
    }

    /// A human-readable description: the one given, else one generated from
    /// the action and its parameters.
    pub fn get_description(&self) -> (s: String)
        ensures
            s@ == match self.description {
                Some(d) => d@,
                None => generated_description(self.action_type, self.parameters),
            },
    {
        match &self.description {
            Some(d) => d.clone(),
            None => self.generate_description(),
        }
    }

    fn generate_description(&self) -> (s: String)
        ensures
            s@ == generated_description(self.action_type, self.parameters),
    {
        match (&self.action_type, &self.parameters) {
            (ActionType::SwitchWorkspace, ActionParameters::WorkspaceId(_)) => from_literal(
                "Switch to workspace",
            ),
            (ActionType::MoveWindow, ActionParameters::WorkspaceId(_)) => from_literal(
                "Move window to workspace",
            ),
            (ActionType::MoveWindowToMonitor, ActionParameters::MonitorId(monitor)) => {
                let mut s = from_literal("Move window to monitor ");
                push_str(&mut s, monitor.as_str());
                s
            },
            (ActionType::ResizeWindow, ActionParameters::Resize(direction, amount)) => {
                let mut s = from_literal("Resize window ");
                push_str(&mut s, resize_direction_str(*direction));
                push_str(&mut s, " by ");
                push_decimal(&mut s, *amount as u64);
                s
            },
            (ActionType::CreateWorkspace, ActionParameters::WorkspaceName(name)) => {
                let mut s = from_literal("Create workspace '");
                push_str(&mut s, name.as_str());
                push_str(&mut s, "'");
                s
            },
            (ActionType::DeleteWorkspace, _) => from_literal("Delete current workspace"),
            (ActionType::ToggleFloating, _) => from_literal("Toggle window floating mode"),
            (ActionType::ToggleFullscreen, _) => from_literal("Toggle window fullscreen"),
            (ActionType::FocusNext, _) => from_literal("Focus next window"),
            (ActionType::FocusPrevious, _) => from_literal("Focus previous window"),
            (ActionType::CloseWindow, _) => from_literal("Close current window"),
            (ActionType::MinimizeWindow, _) => from_literal("Minimize current window"),
            (ActionType::RefreshLayout, _) => from_literal("Refresh workspace layout"),
            (ActionType::ShowOverview, _) => from_literal("Show workspace overview"),
            (ActionType::Custom(action), _) => {
                let mut s = from_literal("Custom action: ");
                push_str(&mut s, action.as_str());
                s
            },
            _ => from_literal("Unknown action"),
        }
    }

    /// Whether this mapping conflicts with another: both enabled, the same
    /// shortcut, different identifiers.
    pub fn conflicts_with(&self, other: &KeyboardMapping) -> (b: bool)
        ensures
            b == mappings_conflict(*self, *other),
    {
        self.enabled && other.enabled && self.shortcut_combination == other.shortcut_combination
            && self.id != other.id
    }

    /// Validate the keyboard mapping configuration.
    pub fn validate(&self) -> (r: Result<(), KeyboardMappingError>)
        ensures
            r == mapping_validation(
                self.name@,
                self.shortcut_combination.modifiers@,
                self.shortcut_combination.key,
                self.action_type,
                self.parameters,
            ),
    {
        if str_is_blank(self.name.as_str()) {
            return Err(KeyboardMappingError::EmptyName);
        }
        match self.shortcut_combination.validate() {
            Ok(()) => {},
            Err(e) => {
                return Err(e);
            },
        }
        if !self.action_parameters_match() {
            return Err(KeyboardMappingError::ActionParameterMismatch);
        }
        match &self.parameters {
            ActionParameters::Resize(_, amount) => {
                if *amount == 0 {
                    return Err(KeyboardMappingError::InvalidResizeAmount);
                }
            },
            ActionParameters::WorkspaceName(name) => {
                if str_is_blank(name.as_str()) {
                    return Err(KeyboardMappingError::EmptyWorkspaceName);
                }
            },
            ActionParameters::MonitorId(id) => {
                if str_is_blank(id.as_str()) {
                    return Err(KeyboardMappingError::EmptyMonitorId);
                }
            },
            _ => {},
        }
        Ok(())
    }
}

impl Default for KeyboardMapping {
    fn default() -> (m: Self)
        ensures
            m.name@ == "Default Mapping"@,
            m.shortcut_combination@ == (seq![ModifierKey::Option], Key::Letter('a')),
            m.action_type == ActionType::ShowOverview,
            m.parameters == ActionParameters::Empty,
            m.enabled,
            m.global_scope,
            m.description is None,
    {
        let mut mods: Vec<ModifierKey> = Vec::new();
        mods.push(ModifierKey::Option);
        assert(mods@ =~= seq![ModifierKey::Option]);
        proof {
            lemma_canonical_one(ModifierKey::Option);
        }
        let combination = ShortcutCombination::new(mods, Key::Letter('a'));
        KeyboardMapping {
            id: crate::ids::new_id(),
            name: from_literal("Default Mapping"),
            shortcut_combination: combination,
            action_type: ActionType::ShowOverview,
            parameters: ActionParameters::Empty,
            enabled: true,
            global_scope: true,
            description: None,
        }
    }
}


/// Whether a mapping would conflict with some mapping of the list.
pub open spec fn conflicts_with_any(m: KeyboardMapping, s: Seq<KeyboardMapping>) -> bool {
    exists|i: int| 0 <= i < s.len() && mappings_conflict(m, #[trigger] s[i])
}

/// Whether `p` is the first position of a mapping with identifier `id`.
pub open spec fn first_with_id(s: Seq<KeyboardMapping>, id: u128, p: int) -> bool {
    0 <= p < s.len() && s[p].id == id && forall|j: int| 0 <= j < p ==> (#[trigger] s[j]).id != id
}

/// Whether a mapping is enabled and bound to the given shortcut.
pub open spec fn bound_to(m: KeyboardMapping, c: (Seq<ModifierKey>, Key)) -> bool {
    m.enabled && m.shortcut_combination@ == c
}

/// Whether a mapping is enabled and global.
pub open spec fn is_enabled_global(m: KeyboardMapping) -> bool {
    m.enabled && m.global_scope
}

/// Whether a mapping is enabled and local to the application.
pub open spec fn is_enabled_local(m: KeyboardMapping) -> bool {
    m.enabled && !m.global_scope
}

/// Whether a mapping holds a legacy Command shortcut that migration rewrites.
pub open spec fn needs_migration(m: KeyboardMapping) -> bool {
    !m.shortcut_combination.modifiers@.contains(ModifierKey::Option)
        && m.shortcut_combination.modifiers@.contains(ModifierKey::Command)
}

/// How many mappings of the list hold legacy Command shortcuts.
pub open spec fn count_needing_migration(s: Seq<KeyboardMapping>) -> nat
    decreases s.len(),
{
    if s.len() == 0 {
        0
    } else {
        count_needing_migration(s.drop_last()) + if needs_migration(s.last()) {
            1nat
        } else {
            0nat
        }
    }
}

/// A mapping after migration: the same, with a migrated shortcut where needed.
pub open spec fn migrated_mapping(before: KeyboardMapping, after: KeyboardMapping) -> bool {
    &&& after.id == before.id
    &&& after.name == before.name
    &&& after.action_type == before.action_type
    &&& after.parameters == before.parameters
    &&& after.enabled == before.enabled
    &&& after.global_scope == before.global_scope
    &&& after.description == before.description
    &&& after.shortcut_combination.key == before.shortcut_combination.key
    &&& after.shortcut_combination.modifiers@ == if needs_migration(before) {
        migrated_modifiers(before.shortcut_combination.modifiers@)
    } else {
        before.shortcut_combination.modifiers@
    }
}

/// Collection of keyboard mappings.
#[derive(Debug, Clone)]
pub struct KeyboardMappingSet {
    pub mappings: Vec<KeyboardMapping>,
}

impl KeyboardMappingSet {
    /// Create a new empty keyboard mapping set.
    pub fn new() -> (r: Self)
        ensures
            r.mappings@.len() == 0,
    {
        KeyboardMappingSet { mappings: Vec::new() }
    }

    /// Add a mapping unless it conflicts with one already in the set.
    pub fn add_mapping(&mut self, mapping: KeyboardMapping) -> (r: Result<(), KeyboardMappingError>)
        ensures
            r is Ok <==> !conflicts_with_any(mapping, old(self).mappings@),
            r is Ok ==> final(self).mappings@ == old(self).mappings@.push(mapping),
            r is Err ==> final(self).mappings@ == old(self).mappings@,
            r matches Err(e) ==> (e matches KeyboardMappingError::ConflictingShortcut(msg)
                && msg@ == display_string(
                mapping.shortcut_combination.modifiers@,
                mapping.shortcut_combination.key,
            )),
    {
        let mut i: usize = 0;
        while i < self.mappings.len()
            invariant
                self.mappings@ == old(self).mappings@,
                i <= self.mappings@.len(),
                forall|j: int| 0 <= j < i ==> !mappings_conflict(mapping, #[trigger] self.mappings@[j]),
            decreases self.mappings.len() - i,
        {
            if mapping.conflicts_with(&self.mappings[i]) {
                return Err(
                    KeyboardMappingError::ConflictingShortcut(
                        mapping.shortcut_combination.to_display_string(),
                    ),
                );
            }
            i = i + 1;
        }
        self.mappings.push(mapping);
        Ok(())
    }

    /// Remove the first mapping with the given identifier.
    pub fn remove_mapping(&mut self, id: u128) -> (removed: bool)
        ensures
            removed == exists|p: int| first_with_id(old(self).mappings@, id, p),
            removed ==> exists|p: int|
                first_with_id(old(self).mappings@, id, p) && final(self).mappings@ == old(
                    self,
                ).mappings@.remove(p),
            !removed ==> final(self).mappings@ == old(self).mappings@,
    {
        let mut i: usize = 0;
        while i < self.mappings.len()
            invariant
                self.mappings@ == old(self).mappings@,
                i <= self.mappings@.len(),
                forall|j: int| 0 <= j < i ==> (#[trigger] self.mappings@[j]).id != id,
            decreases self.mappings.len() - i,
        {
            if self.mappings[i].id == id {
                assert(first_with_id(self.mappings@, id, i as int));
                self.mappings.remove(i);
                return true;
            }
            i = i + 1;
        }
        false
    }

    /// Find the first enabled mapping bound to the given shortcut.
    pub fn find_by_shortcut(&self, combination: &ShortcutCombination) -> (r: Option<&KeyboardMapping>)
        ensures
            r is None <==> forall|j: int|
                0 <= j < self.mappings@.len() ==> !bound_to(#[trigger] self.mappings@[j], combination@),
            r matches Some(m) ==> exists|p: int|
                0 <= p < self.mappings@.len() && *m == self.mappings@[p] && bound_to(*m, combination@)
                    && forall|j: int| 0 <= j < p ==> !bound_to(#[trigger] self.mappings@[j], combination@),
    {
        let mut i: usize = 0;
        while i < self.mappings.len()
            invariant
                i <= self.mappings@.len(),
                forall|j: int| 0 <= j < i ==> !bound_to(#[trigger] self.mappings@[j], combination@),
            decreases self.mappings.len() - i,
        {
            let m = &self.mappings[i];
            if m.enabled && m.shortcut_combination == *combination {
                return Some(m);
            }
            i = i + 1;
        }
        None
    }

    /// All enabled global mappings, in order.
    pub fn get_global_mappings(&self) -> (r: Vec<&KeyboardMapping>)
        ensures
            r@.map_values(|m: &KeyboardMapping| *m) == self.mappings@.filter(
                |m: KeyboardMapping| is_enabled_global(m),
            ),
    {
        let mut r: Vec<&KeyboardMapping> = Vec::new();
        let mut i: usize = 0;
        proof {
            reveal(Seq::filter);
            assert(self.mappings@.take(0) =~= Seq::<KeyboardMapping>::empty());
            assert(r@.map_values(|m: &KeyboardMapping| *m) =~= Seq::<KeyboardMapping>::empty());
        }
        while i < self.mappings.len()
            invariant
                i <= self.mappings@.len(),
                r@.map_values(|m: &KeyboardMapping| *m) == self.mappings@.take(i as int).filter(
                    |m: KeyboardMapping| is_enabled_global(m),
                ),
            decreases self.mappings.len() - i,
        {
            let m = &self.mappings[i];
            let ghost before = r@;
            proof {
                assert(self.mappings@.take(i + 1) =~= self.mappings@.take(i as int).push(*m));
                self.mappings@.take(i as int).lemma_filter_push(
                    *m,
                    |m: KeyboardMapping| is_enabled_global(m),
                );
            }
            if m.enabled && m.global_scope {
                r.push(m);
                assert(r@.map_values(|m: &KeyboardMapping| *m) =~= before.map_values(
                    |m: &KeyboardMapping| *m,
                ).push(*m));
            }
            i = i + 1;
        }
        assert(self.mappings@.take(self.mappings@.len() as int) =~= self.mappings@);
        r
    }

    /// All enabled local mappings, in order.
    pub fn get_local_mappings(&self) -> (r: Vec<&KeyboardMapping>)
        ensures
            r@.map_values(|m: &KeyboardMapping| *m) == self.mappings@.filter(
                |m: KeyboardMapping| is_enabled_local(m),
            ),
    {
        let mut r: Vec<&KeyboardMapping> = Vec::new();
        let mut i: usize = 0;
        proof {
            reveal(Seq::filter);
            assert(self.mappings@.take(0) =~= Seq::<KeyboardMapping>::empty());
            assert(r@.map_values(|m: &KeyboardMapping| *m) =~= Seq::<KeyboardMapping>::empty());
        }
        while i < self.mappings.len()
            invariant
                i <= self.mappings@.len(),
                r@.map_values(|m: &KeyboardMapping| *m) == self.mappings@.take(i as int).filter(
                    |m: KeyboardMapping| is_enabled_local(m),
                ),
            decreases self.mappings.len() - i,
        {
            let m = &self.mappings[i];
            let ghost before = r@;
            proof {
                assert(self.mappings@.take(i + 1) =~= self.mappings@.take(i as int).push(*m));
                self.mappings@.take(i as int).lemma_filter_push(
                    *m,
                    |m: KeyboardMapping| is_enabled_local(m),
                );
            }
            if m.enabled && !m.global_scope {
                r.push(m);
                assert(r@.map_values(|m: &KeyboardMapping| *m) =~= before.map_values(
                    |m: &KeyboardMapping| *m,
                ).push(*m));
            }
            i = i + 1;
        }
        assert(self.mappings@.take(self.mappings@.len() as int) =~= self.mappings@);
        r
    }

    /// Replace every legacy Command shortcut (one without Option) by its
    /// Option form. Returns the number of mappings updated.
    pub fn migrate_legacy_command_shortcuts(&mut self) -> (updated: usize)
        ensures
            final(self).mappings@.len() == old(self).mappings@.len(),
            forall|i: int|
                0 <= i < old(self).mappings@.len() ==> migrated_mapping(
                    #[trigger] old(self).mappings@[i],
                    final(self).mappings@[i],
                ),
            updated == count_needing_migration(old(self).mappings@),
    {
        let ghost orig = self.mappings@;
        let mut updated: usize = 0;
        let mut i: usize = 0;
        while i < self.mappings.len()
            invariant
                i <= self.mappings@.len(),
                self.mappings@.len() == orig.len(),
                forall|j: int| 0 <= j < i ==> migrated_mapping(#[trigger] orig[j], self.mappings@[j]),
                forall|j: int| i <= j < orig.len() ==> #[trigger] self.mappings@[j] == orig[j],
                updated == count_needing_migration(orig.take(i as int)),
                updated <= i,
            decreases self.mappings.len() - i,
        {
            let mut m = self.mappings[i].duplicate();
            let changed = m.shortcut_combination.migrate_command_to_option();
            proof {
                assert(orig.take(i + 1).drop_last() =~= orig.take(i as int));
                assert(orig.take(i + 1).last() == orig[i as int]);
            }
            self.mappings.set(i, m);
            if changed {
                updated = updated + 1;
            }
            i = i + 1;
        }
        assert(orig.take(orig.len() as int) =~= orig);
        updated
    }
}

impl Default for KeyboardMappingSet {
    fn default() -> (r: Self)
        ensures
            r.mappings@.len() == 0,
    {
        Self::new()
    }
}

/// The number of default mappings.
pub open spec fn default_count() -> int {
    24
}

/// The shortcut of the `i`-th default mapping: Option+1 to Option+9 switch
/// workspaces, Option+Shift+1 to Option+Shift+9 move the window, Option+Enter
/// focuses the next window, Option+Shift+Tab the previous one, Option+W
/// closes, Control+Option+F toggles fullscreen, Option+Shift+F floating, and
/// Option+Space cycles the tiling layouts.
pub open spec fn default_binding(i: int) -> (Seq<ModifierKey>, Key) {
    if 0 <= i < 9 {
        (seq![ModifierKey::Option], Key::Number((i + 1) as u8))
    } else if 9 <= i < 18 {
        (seq![ModifierKey::Option, ModifierKey::Shift], Key::Number((i - 8) as u8))
    } else if i == 18 {
        (seq![ModifierKey::Option], Key::Enter)
    } else if i == 19 {
        (seq![ModifierKey::Option, ModifierKey::Shift], Key::Tab)
    } else if i == 20 {
        (seq![ModifierKey::Option], Key::Letter('w'))
    } else if i == 21 {
        (seq![ModifierKey::Control, ModifierKey::Option], Key::Letter('f'))
    } else if i == 22 {
        (seq![ModifierKey::Option, ModifierKey::Shift], Key::Letter('f'))
    } else {
        (seq![ModifierKey::Option], Key::Space)
    }
}

/// Whether `a` is the action of the `i`-th default mapping (cycling the
/// layouts is the custom action `cycle_layouts`).
pub open spec fn is_default_action(i: int, a: ActionType) -> bool {
    if 0 <= i < 9 {
        a == ActionType::SwitchWorkspace
    } else if 9 <= i < 18 {
        a == ActionType::MoveWindow
    } else if i == 18 {
        a == ActionType::FocusNext
    } else if i == 19 {
        a == ActionType::FocusPrevious
    } else if i == 20 {
        a == ActionType::CloseWindow
    } else if i == 21 {
        a == ActionType::ToggleFullscreen
    } else if i == 22 {
        a == ActionType::ToggleFloating
    } else {
        a matches ActionType::Custom(c) && c@ == "cycle_layouts"@
    }
}

/// Whether `p` are the parameters of the `i`-th default mapping: none,
/// except the empty JSON object of the custom layout action.
pub open spec fn is_default_parameters(i: int, p: ActionParameters) -> bool {
    if i == 23 {
        p matches ActionParameters::Custom(c) && c@ == "{}"@
    } else {
        p == ActionParameters::Empty
    }
}

/// The name of the `i`-th default mapping.
pub open spec fn default_name(i: int) -> Seq<char> {
    if 0 <= i < 9 {
        "Switch to Workspace "@ + decimal((i + 1) as nat)
    } else if 9 <= i < 18 {
        "Move Window to Workspace "@ + decimal((i - 8) as nat)
    } else if i == 18 {
        "Focus Next Window"@
    } else if i == 19 {
        "Focus Previous Window"@
    } else if i == 20 {
        "Close Window"@
    } else if i == 21 {
        "Toggle Fullscreen"@
    } else if i == 22 {
        "Toggle Floating"@
    } else {
        "Cycle Tiling Layouts"@
    }
}

/// The description of the `i`-th default mapping.
pub open spec fn default_description(i: int) -> Option<Seq<char>> {
    if 0 <= i < 9 {
        Some("Switch to workspace "@ + decimal((i + 1) as nat))
    } else if 9 <= i < 18 {
        Some("Move window to workspace "@ + decimal((i - 8) as nat))
    } else {
        None
    }
}

/// Whether `m` is the `i`-th default mapping (its identifier aside).
pub open spec fn is_default_mapping(m: KeyboardMapping, i: int) -> bool {
    &&& m.shortcut_combination@ == default_binding(i)
    &&& is_default_action(i, m.action_type)
    &&& is_default_parameters(i, m.parameters)
    &&& m.enabled
    &&& m.global_scope
    &&& m.name@ == default_name(i)
    &&& match default_description(i) {
        Some(d) => m.description matches Some(t) && t@ == d,
        None => m.description is None,
    }
}

proof fn lemma_default_bindings_distinct(i: int, j: int)
    requires
        0 <= j < i < default_count(),
    ensures
        default_binding(i) != default_binding(j),
{
    let (mi, ki) = default_binding(i);
    let (mj, kj) = default_binding(j);
    if mi.len() != mj.len() {
        assert(mi != mj);
    } else if mi.len() == 2 && mi[0] != mj[0] {
        assert(mi != mj);
    }
}

fn push_default(
    set: &mut KeyboardMappingSet,
    name: String,
    mods: Vec<ModifierKey>,
    key: Key,
    action: ActionType,
    params: ActionParameters,
    description: Option<String>,
)
    requires
        !is_blank(name@),
        mods@.len() > 0,
        key_is_valid(key),
        params is Empty || params is Custom,
        action_parameters_fit(action, params),
        forall|j: int|
            0 <= j < old(set).mappings@.len() ==> (#[trigger] old(set).mappings@[j]).shortcut_combination@
                != (canonical_modifiers(mods@), key),
    ensures
        final(set).mappings@.len() == old(set).mappings@.len() + 1,
        forall|j: int| 0 <= j < old(set).mappings@.len() ==> #[trigger] final(set).mappings@[j] == old(set).mappings@[j],
        ({
            let m = final(set).mappings@[old(set).mappings@.len() as int];
            &&& m.name == name
            &&& m.shortcut_combination@ == (canonical_modifiers(mods@), key)
            &&& m.action_type == action
            &&& m.parameters == params
            &&& m.enabled
            &&& m.global_scope
            &&& m.description == description
        }),
{
    let ghost cm = canonical_modifiers(mods@);
    proof {
        assert(mods@.contains(mods@[0]));
        assert(cm.len() > 0) by {
            let m0 = mods@[0];
            if m0 == ModifierKey::Command {
                assert(pick(mods@, ModifierKey::Command).len() == 1);
            } else if m0 == ModifierKey::Control {
                assert(pick(mods@, ModifierKey::Control).len() == 1);
            } else if m0 == ModifierKey::Function {
                assert(pick(mods@, ModifierKey::Function).len() == 1);
            } else if m0 == ModifierKey::Option {
                assert(pick(mods@, ModifierKey::Option).len() == 1);
            } else {
                assert(pick(mods@, ModifierKey::Shift).len() == 1);
            }
        }
    }
    let combination = ShortcutCombination::new(mods, key);
    match KeyboardMapping::new(
        name,
        combination,
        action,
        params,
        true,
        true,
        description,
    ) {
        Ok(m) => {
            let r = set.add_mapping(m);
            match r {
                Ok(()) => {},
                Err(_) => {
                    assert(false);
                },
            }
        },
        Err(_) => {
            assert(false);
        },
    }
}

fn switch_name(i: u8) -> (s: String)
    ensures
        s@ == "Switch to Workspace "@ + decimal(i as nat),
        !is_blank(s@),
{
    let mut s = from_literal("Switch to Workspace ");
    proof {
        reveal_strlit("Switch to Workspace ");
    }
    push_decimal(&mut s, i as u64);
    assert(s@[0] == 'S');
    s
}

fn switch_description(i: u8) -> (s: String)
    ensures
        s@ == "Switch to workspace "@ + decimal(i as nat),
{
    let mut s = from_literal("Switch to workspace ");
    push_decimal(&mut s, i as u64);
    s
}

fn literal_name(lit: &str) -> (s: String)
    requires
        lit@.len() > 0,
        !is_ws(lit@[0]),
    ensures
        s@ == lit@,
        !is_blank(s@),
{
    let s = from_literal(lit);
    assert(!is_ws(s@[0]));
    s
}

fn move_name(i: u8) -> (s: String)
    ensures
        s@ == "Move Window to Workspace "@ + decimal(i as nat),
        !is_blank(s@),
{
    let mut s = from_literal("Move Window to Workspace ");
    proof {
        reveal_strlit("Move Window to Workspace ");
    }
    push_decimal(&mut s, i as u64);
    assert(s@[0] == 'M');
    s
}

fn move_description(i: u8) -> (s: String)
    ensures
        s@ == "Move window to workspace "@ + decimal(i as nat),
{
    let mut s = from_literal("Move window to workspace ");
    push_decimal(&mut s, i as u64);
    s
}

/// Option, with Shift or Control added.
fn option_mods(shift: bool, control: bool) -> (v: Vec<ModifierKey>)
    ensures
        v@ == if control {
            seq![ModifierKey::Option, ModifierKey::Control]
        } else if shift {
            seq![ModifierKey::Option, ModifierKey::Shift]
        } else {
            seq![ModifierKey::Option]
        },
        canonical_modifiers(v@) == if control {
            seq![ModifierKey::Control, ModifierKey::Option]
        } else if shift {
            seq![ModifierKey::Option, ModifierKey::Shift]
        } else {
            seq![ModifierKey::Option]
        },
{
    let mut v: Vec<ModifierKey> = Vec::new();
    v.push(ModifierKey::Option);
    if control {
        v.push(ModifierKey::Control);
        proof {
            lemma_canonical_two(ModifierKey::Option, ModifierKey::Control);
        }
        assert(v@ =~= seq![ModifierKey::Option, ModifierKey::Control]);
    } else if shift {
        v.push(ModifierKey::Shift);
        proof {
            lemma_canonical_two(ModifierKey::Option, ModifierKey::Shift);
        }
        assert(v@ =~= seq![ModifierKey::Option, ModifierKey::Shift]);
    } else {
        proof {
            lemma_canonical_one(ModifierKey::Option);
        }
        assert(v@ =~= seq![ModifierKey::Option]);
    }
    v
}

/// Adds the `i`-th default mapping after the ones before it.
fn push_default_at(set: &mut KeyboardMappingSet, i: usize)
    requires
        old(set).mappings@.len() == i,
        i < default_count(),
        forall|j: int| 0 <= j < i ==> is_default_mapping(#[trigger] old(set).mappings@[j], j),
    ensures
        final(set).mappings@.len() == i + 1,
        forall|j: int| 0 <= j <= i ==> is_default_mapping(#[trigger] final(set).mappings@[j], j),
{
    proof {
        reveal_strlit("Focus Next Window");
        reveal_strlit("Focus Previous Window");
        reveal_strlit("Close Window");
        reveal_strlit("Toggle Fullscreen");
        reveal_strlit("Toggle Floating");
        reveal_strlit("Cycle Tiling Layouts");
    }
    let (name, mods, key, action, params, description) = if i < 9 {
        let n: u8 = (i + 1) as u8;
        (switch_name(n), option_mods(false, false), Key::Number(n), ActionType::SwitchWorkspace,
            ActionParameters::Empty, Some(switch_description(n)))
    } else if i < 18 {
        let n: u8 = (i - 8) as u8;
        (move_name(n), option_mods(true, false), Key::Number(n), ActionType::MoveWindow,
            ActionParameters::Empty, Some(move_description(n)))
    } else if i == 18 {
        (literal_name("Focus Next Window"), option_mods(false, false), Key::Enter, ActionType::FocusNext,
            ActionParameters::Empty, None)
    } else if i == 19 {
        (literal_name("Focus Previous Window"), option_mods(true, false), Key::Tab, ActionType::FocusPrevious,
            ActionParameters::Empty, None)
    } else if i == 20 {
        (literal_name("Close Window"), option_mods(false, false), Key::Letter('w'), ActionType::CloseWindow,
            ActionParameters::Empty, None)
    } else if i == 21 {
        (literal_name("Toggle Fullscreen"), option_mods(false, true), Key::Letter('f'), ActionType::ToggleFullscreen,
            ActionParameters::Empty, None)
    } else if i == 22 {
        (literal_name("Toggle Floating"), option_mods(true, false), Key::Letter('f'), ActionType::ToggleFloating,
            ActionParameters::Empty, None)
    } else {
        (literal_name("Cycle Tiling Layouts"), option_mods(false, false), Key::Space,
            ActionType::Custom(from_literal("cycle_layouts")), ActionParameters::Custom(from_literal("{}")), None)
    };
    assert((canonical_modifiers(mods@), key) == default_binding(i as int));
    proof {
        assert forall|j: int| 0 <= j < set.mappings@.len() implies (#[trigger] set.mappings@[j]).shortcut_combination@
            != (canonical_modifiers(mods@), key) by {
            assert(is_default_mapping(set.mappings@[j], j));
            lemma_default_bindings_distinct(i as int, j);
        }
    }
    let ghost before = set.mappings@;
    push_default(set, name, mods, key, action, params, description);
    assert forall|j: int| 0 <= j <= i implies is_default_mapping(#[trigger] set.mappings@[j], j) by {
        if j < i {
            assert(set.mappings@[j] == before[j]);
        }
    }
}

impl KeyboardMappingSet {
    /// The default mappings: Option+1 through Option+9 switch workspaces,
    /// Option+Shift+1 through Option+Shift+9 move the window to a workspace,
    /// Option+Enter focuses the next window and Option+Shift+Tab the previous
    /// one, Option+W closes the window, Control+Option+F and Option+Shift+F
    /// toggle fullscreen and floating, and Option+Space cycles the tiling
    /// layouts. Creating them always succeeds.
    pub fn create_default() -> (r: Result<Self, KeyboardMappingError>)
        ensures
            r matches Ok(set) && set.mappings@.len() == default_count() && forall|i: int|
                0 <= i < default_count() ==> is_default_mapping(#[trigger] set.mappings@[i], i),
    {
        let mut set = KeyboardMappingSet::new();
        let mut i: usize = 0;
        while i < 24
            invariant
                i <= 24,
                set.mappings@.len() == i,
                forall|j: int| 0 <= j < i ==> is_default_mapping(#[trigger] set.mappings@[j], j),
            decreases 24 - i,
        {
            push_default_at(&mut set, i);
            i = i + 1;
        }
        Ok(set)
    }
}


/// The message of a keyboard mapping error.
pub open spec fn mapping_error_message(e: KeyboardMappingError) -> Seq<char> {
    match e {
        KeyboardMappingError::EmptyName => "Mapping name cannot be empty"@,
        KeyboardMappingError::InvalidKey => "Invalid key specification"@,
        KeyboardMappingError::NoModifiers => "Shortcut must have at least one modifier key"@,
        KeyboardMappingError::ActionParameterMismatch => "Action type does not match provided parameters"@,
        KeyboardMappingError::InvalidResizeAmount => "Resize amount must be greater than 0"@,
        KeyboardMappingError::EmptyWorkspaceName => "Workspace name cannot be empty"@,
        KeyboardMappingError::EmptyMonitorId => "Monitor ID cannot be empty"@,
        KeyboardMappingError::ConflictingShortcut(s) => "Conflicting keyboard shortcut: "@ + s@,
        KeyboardMappingError::InvalidModifierCombination => "Invalid modifier key combination"@,
        KeyboardMappingError::InvalidShortcutFormat(s) => "Invalid shortcut format: "@ + s@,
    }
}

impl KeyboardMappingError {
    /// The human-readable message of this error.
    pub fn message(&self) -> (s: String)
        ensures
            s@ == mapping_error_message(*self),
    {
        match self {
            KeyboardMappingError::EmptyName => from_literal("Mapping name cannot be empty"),
            KeyboardMappingError::InvalidKey => from_literal("Invalid key specification"),
            KeyboardMappingError::NoModifiers => from_literal(
                "Shortcut must have at least one modifier key",
            ),
            KeyboardMappingError::ActionParameterMismatch => from_literal(
                "Action type does not match provided parameters",
            ),
            KeyboardMappingError::InvalidResizeAmount => from_literal(
                "Resize amount must be greater than 0",
            ),
            KeyboardMappingError::EmptyWorkspaceName => from_literal(
                "Workspace name cannot be empty",
            ),
            KeyboardMappingError::EmptyMonitorId => from_literal("Monitor ID cannot be empty"),
            KeyboardMappingError::ConflictingShortcut(s) => {
                let mut m = from_literal("Conflicting keyboard shortcut: ");
                push_str(&mut m, s.as_str());
                m
            },
            KeyboardMappingError::InvalidModifierCombination => from_literal(
                "Invalid modifier key combination",
            ),
            KeyboardMappingError::InvalidShortcutFormat(s) => {
                let mut m = from_literal("Invalid shortcut format: ");
                push_str(&mut m, s.as_str());
                m
            },
        }
    }
}

} // verus!
