//! Registration and dispatch of global keyboard shortcuts. Option (⌥) is the
//! enforced default modifier; shortcuts reserved by the system are refused.

use vstd::prelude::*;
use crate::TilleRSError;
use crate::models::keyboard_mapping::{
    ActionParameters, ActionType, KeyboardMapping, KeyboardMappingSet, ModifierKey,
    ShortcutCombination, canonical_modifiers, migrated_modifiers, display_string,
    mapping_validation, mapping_error_message, conflicts_with_any, same_mapping, first_with_id,
    bound_to, pick, canonicalize, has_modifier, Key,
};
use crate::text::{owned, push_str};

verus! {

/// Event emitted when a shortcut is triggered.
#[derive(Debug, Clone, PartialEq)]
pub struct KeyboardEvent {
    pub mapping_id: u128,
    pub action: ActionType,
    pub parameters: ActionParameters,
    pub global: bool,
}

/// Metrics for keyboard handler operations.
#[derive(Debug, Clone, Copy, Default)]
pub struct KeyboardHandlerMetrics {
    pub registered_mappings: usize,
    pub triggered_events: u64,
    pub conflicts_prevented: u64,
    pub modifier_migrations: usize,
}

/// The modifiers a shortcut gets when Option is enforced: a Command shortcut
/// without Option has Command replaced by Option; any other shortcut without
/// Option gets Option added; the result is canonical. A shortcut that has
/// Option already is kept as it is.
pub open spec fn enforced_modifiers(mods: Seq<ModifierKey>) -> Seq<ModifierKey> {
    if mods.contains(ModifierKey::Option) {
        mods
    } else if mods.contains(ModifierKey::Command) {
        migrated_modifiers(mods)
    } else {
        canonical_modifiers(mods.push(ModifierKey::Option))
    }
}

/// The message of a failed validation.
pub open spec fn validation_message(v: Result<(), crate::models::keyboard_mapping::KeyboardMappingError>) -> Seq<char> {
    match v {
        Err(e) => mapping_error_message(e),
        Ok(_) => Seq::<char>::empty(),
    }
}

/// Whether the shortcut of `m` is among the reserved ones.
pub open spec fn is_reserved(reserved: Seq<ShortcutCombination>, c: (Seq<ModifierKey>, Key)) -> bool {
    exists|i: int| 0 <= i < reserved.len() && (#[trigger] reserved[i])@ == c
}

/// The canonical form holds exactly the modifiers of the list.
pub proof fn lemma_canonical_contains(mods: Seq<ModifierKey>, m: ModifierKey)
    ensures
        canonical_modifiers(mods).contains(m) <==> mods.contains(m),
{
    let c = canonical_modifiers(mods);
    if mods.contains(m) {
        let p1 = pick(mods, ModifierKey::Command);
        let p2 = pick(mods, ModifierKey::Control);
        let p3 = pick(mods, ModifierKey::Function);
        let p4 = pick(mods, ModifierKey::Option);
        match m {
            ModifierKey::Command => assert(c[0] == m),
            ModifierKey::Control => assert(c[p1.len() as int] == m),
            ModifierKey::Function => assert(c[(p1.len() + p2.len()) as int] == m),
            ModifierKey::Option => assert(c[(p1.len() + p2.len() + p3.len()) as int] == m),
            ModifierKey::Shift => assert(c[(p1.len() + p2.len() + p3.len() + p4.len()) as int] == m),
        }
    }
    if c.contains(m) {
        let k = choose|k: int| 0 <= k < c.len() && c[k] == m;
        assert(mods.contains(c[k]));
    }
}

/// Putting a canonical list in canonical order again changes nothing.
pub proof fn lemma_canonical_idempotent(mods: Seq<ModifierKey>)
    ensures
        canonical_modifiers(canonical_modifiers(mods)) == canonical_modifiers(mods),
{
    let c = canonical_modifiers(mods);
    lemma_canonical_contains(mods, ModifierKey::Command);
    lemma_canonical_contains(mods, ModifierKey::Control);
    lemma_canonical_contains(mods, ModifierKey::Function);
    lemma_canonical_contains(mods, ModifierKey::Option);
    lemma_canonical_contains(mods, ModifierKey::Shift);
    assert(canonical_modifiers(c) =~= c);
}

/// Whether every mapping's shortcut holds the Option modifier.
pub open spec fn shortcuts_have_option(ms: Seq<KeyboardMapping>) -> bool {
    forall|i: int| 0 <= i < ms.len() ==> (#[trigger] ms[i]).shortcut_combination.modifiers@.contains(ModifierKey::Option)
}

/// Enforcing Option gives a shortcut with Option, and enforcing it again
/// changes nothing.
pub proof fn law_enforced_shortcut_has_option(mods: Seq<ModifierKey>)
    ensures
        enforced_modifiers(mods).contains(ModifierKey::Option),
        enforced_modifiers(enforced_modifiers(mods)) == enforced_modifiers(mods),
{
    if !mods.contains(ModifierKey::Option) {
        if mods.contains(ModifierKey::Command) {
            let w = crate::models::keyboard_mapping::without_command(mods).push(ModifierKey::Option);
            assert(w[w.len() - 1] == ModifierKey::Option);
            lemma_canonical_contains(w, ModifierKey::Option);
        } else {
            let w = mods.push(ModifierKey::Option);
            assert(w[w.len() - 1] == ModifierKey::Option);
            lemma_canonical_contains(w, ModifierKey::Option);
        }
    }
}

/// Migrating legacy Command shortcuts leaves none behind: a migrated
/// mapping has no legacy shortcut, so migrating it again keeps it as it is.
pub proof fn law_migration_leaves_no_legacy_shortcut(before: KeyboardMapping, after: KeyboardMapping)
    requires
        crate::models::keyboard_mapping::migrated_mapping(before, after),
    ensures
        !crate::models::keyboard_mapping::needs_migration(after),
        crate::models::keyboard_mapping::migrated_mapping(after, after),
{
    if crate::models::keyboard_mapping::needs_migration(before) {
        let w = crate::models::keyboard_mapping::without_command(before.shortcut_combination.modifiers@).push(
            ModifierKey::Option,
        );
        assert(w[w.len() - 1] == ModifierKey::Option);
        lemma_canonical_contains(w, ModifierKey::Option);
    }
}

/// Service responsible for registering and dispatching global keyboard shortcuts.
pub struct KeyboardHandler {
    mappings: KeyboardMappingSet,
    metrics: KeyboardHandlerMetrics,
    reserved_shortcuts: Vec<ShortcutCombination>,
}

impl KeyboardHandler {
    /// The registered mappings.
    pub closed spec fn registered(&self) -> Seq<KeyboardMapping> {
        self.mappings.mappings@
    }

    /// The current metrics.
    pub closed spec fn metrics_view(&self) -> KeyboardHandlerMetrics {
        self.metrics
    }

    /// The reserved shortcuts.
    pub closed spec fn reserved(&self) -> Seq<ShortcutCombination> {
        self.reserved_shortcuts@
    }

    /// Create a new keyboard handler. The reserved shortcuts are combinations
    /// of the system that mappings may not take.
    pub fn new(reserved_shortcuts: Vec<ShortcutCombination>) -> (h: Self)
        ensures
            h.registered().len() == 0,
            shortcuts_have_option(h.registered()),
            h.reserved() == reserved_shortcuts@,
            h.metrics_view() == (KeyboardHandlerMetrics {
                registered_mappings: 0,
                triggered_events: 0,
                conflicts_prevented: 0,
                modifier_migrations: 0,
            }),
    {
        KeyboardHandler {
            mappings: KeyboardMappingSet::new(),
            metrics: KeyboardHandlerMetrics {
                registered_mappings: 0,
                triggered_events: 0,
                conflicts_prevented: 0,
                modifier_migrations: 0,
            },
            reserved_shortcuts,
        }
    }

    fn is_reserved_shortcut(&self, c: &ShortcutCombination) -> (b: bool)
        ensures
            b == is_reserved(self.reserved(), c@),
    {
        let mut i: usize = 0;
        while i < self.reserved_shortcuts.len()
            invariant
                i <= self.reserved_shortcuts@.len(),
                forall|j: int| 0 <= j < i ==> (#[trigger] self.reserved_shortcuts@[j])@ != c@,
            decreases self.reserved_shortcuts.len() - i,
        {
            if self.reserved_shortcuts[i] == *c {
                return true;
            }
            i = i + 1;
        }
        false
    }

    /// Give the mapping's shortcut the Option modifier (see
    /// `enforced_modifiers`). Returns whether the shortcut changed.
    pub fn enforce_option_modifier(mapping: &mut KeyboardMapping) -> (modified: bool)
        ensures
            modified == !old(mapping).shortcut_combination.modifiers@.contains(ModifierKey::Option),
            final(mapping).shortcut_combination.modifiers@ == enforced_modifiers(
                old(mapping).shortcut_combination.modifiers@,
            ),
            final(mapping).shortcut_combination.key == old(mapping).shortcut_combination.key,
            final(mapping).id == old(mapping).id,
            final(mapping).name == old(mapping).name,
            final(mapping).action_type == old(mapping).action_type,
            final(mapping).parameters == old(mapping).parameters,
            final(mapping).enabled == old(mapping).enabled,
            final(mapping).global_scope == old(mapping).global_scope,
            final(mapping).description == old(mapping).description,
    {
        let ghost mods = mapping.shortcut_combination.modifiers@;
        let mut combination = mapping.shortcut_combination.duplicate();
        let mut modified = false;
        if combination.migrate_command_to_option() {
            modified = true;
            proof {
                let x = crate::models::keyboard_mapping::without_command(mods).push(ModifierKey::Option);
                assert(x[x.len() - 1] == ModifierKey::Option);
                lemma_canonical_contains(x, ModifierKey::Option);
            }
        }
        if !combination.has_option_modifier() {
            combination.modifiers.push(ModifierKey::Option);
            combination.modifiers = canonicalize(&combination.modifiers);
            modified = true;
        }
        if modified {
            proof {
                if mods.contains(ModifierKey::Command) {
                    lemma_canonical_idempotent(
                        crate::models::keyboard_mapping::without_command(mods).push(
                            ModifierKey::Option,
                        ),
                    );
                } else {
                    lemma_canonical_idempotent(mods.push(ModifierKey::Option));
                }
            }
            let key = combination.key;
            mapping.shortcut_combination = ShortcutCombination::new(combination.modifiers, key);
        }
        proof {
            if !mods.contains(ModifierKey::Option) && !mods.contains(ModifierKey::Command) {
                assert(mods.push(ModifierKey::Option).contains(ModifierKey::Option)) by {
                    assert(mods.push(ModifierKey::Option)[mods.len() as int] == ModifierKey::Option);
                }
            }
        }
        modified
    }

    /// Register a mapping: Option is enforced on its shortcut, a reserved
    /// shortcut is refused, then the mapping is validated and added unless it
    /// conflicts with a registered one. Returns the mapping's identifier.
    pub fn register_mapping(&mut self, mapping: KeyboardMapping) -> (r: Result<u128, TilleRSError>)
        requires
            old(self).metrics_view().conflicts_prevented < u64::MAX,
            old(self).metrics_view().modifier_migrations < usize::MAX,
        ensures
            shortcuts_have_option(old(self).registered()) ==> shortcuts_have_option(final(self).registered()),
            ({
                let mods = enforced_modifiers(mapping.shortcut_combination.modifiers@);
                let key = mapping.shortcut_combination.key;
                let migrated = !mapping.shortcut_combination.modifiers@.contains(ModifierKey::Option);
                let validation = mapping_validation(
                    mapping.name@,
                    mods,
                    key,
                    mapping.action_type,
                    mapping.parameters,
                );
                if is_reserved(old(self).reserved(), (mods, key)) {
                    &&& r matches Err(TilleRSError::ValidationError(msg)) && msg@ == "Shortcut "@
                        + display_string(mods, key) + " is reserved by the system"@
                    &&& final(self).registered() == old(self).registered()
                    &&& final(self).metrics_view() == (KeyboardHandlerMetrics {
                        conflicts_prevented: (old(self).metrics_view().conflicts_prevented + 1) as u64,
                        ..old(self).metrics_view()
                    })
                } else if validation is Err {
                    &&& r matches Err(TilleRSError::ValidationError(msg)) && msg@ == validation_message(validation)
                    &&& final(self).registered() == old(self).registered()
                    &&& final(self).metrics_view() == old(self).metrics_view()
                } else if exists|i: int|
                    0 <= i < old(self).registered().len() && mapping.enabled && (#[trigger] old(
                        self,
                    ).registered()[i]).enabled && old(self).registered()[i].shortcut_combination@
                        == (mods, key) && old(self).registered()[i].id != mapping.id {
                    &&& r matches Err(TilleRSError::ValidationError(msg)) && msg@ == "Conflicting keyboard shortcut: "@
                        + display_string(mods, key)
                    &&& final(self).registered() == old(self).registered()
                    &&& final(self).metrics_view() == old(self).metrics_view()
                } else {
                    &&& r == Ok::<u128, TilleRSError>(mapping.id)
                    &&& final(self).registered().len() == old(self).registered().len() + 1
                    &&& final(self).registered().drop_last() == old(self).registered()
                    &&& ({
                        let m = final(self).registered().last();
                        &&& m.id == mapping.id
                        &&& m.name == mapping.name
                        &&& m.shortcut_combination@ == (mods, key)
                        &&& m.action_type == mapping.action_type
                        &&& m.parameters == mapping.parameters
                        &&& m.enabled == mapping.enabled
                        &&& m.global_scope == mapping.global_scope
                        &&& m.description == mapping.description
                    })
                    &&& final(self).metrics_view() == (KeyboardHandlerMetrics {
                        registered_mappings: final(self).registered().len() as usize,
                        modifier_migrations: if migrated {
                            (old(self).metrics_view().modifier_migrations + 1) as usize
                        } else {
                            old(self).metrics_view().modifier_migrations
                        },
                        ..old(self).metrics_view()
                    })
                }
            }),
    {
        let ghost original_modifiers = mapping.shortcut_combination.modifiers@;
        let mut mapping = mapping;
        let migrated = Self::enforce_option_modifier(&mut mapping);
        if self.is_reserved_shortcut(&mapping.shortcut_combination) {
            self.metrics.conflicts_prevented = self.metrics.conflicts_prevented + 1;
            let mut msg = owned("Shortcut ");
            push_str(&mut msg, mapping.shortcut_combination.to_display_string().as_str());
            push_str(&mut msg, " is reserved by the system");
            return Err(TilleRSError::ValidationError(msg));
        }
        match mapping.validate() {
            Ok(()) => {},
            Err(e) => {
                return Err(TilleRSError::ValidationError(e.message()));
            },
        }
        let id = mapping.id;
        let ghost m = mapping;
        match self.mappings.add_mapping(mapping) {
            Ok(()) => {},
            Err(e) => {
                return Err(TilleRSError::ValidationError(e.message()));
            },
        }
        self.metrics.registered_mappings = self.mappings.mappings.len();
        if migrated {
            self.metrics.modifier_migrations = self.metrics.modifier_migrations + 1;
        }
        assert(self.mappings.mappings@.drop_last() =~= old(self).mappings.mappings@);
        proof {
            law_enforced_shortcut_has_option(original_modifiers);
            let n = self.mappings.mappings@;
            if shortcuts_have_option(old(self).registered()) {
                assert forall|i: int| 0 <= i < n.len() implies (#[trigger] n[i]).shortcut_combination.modifiers@.contains(ModifierKey::Option) by {
                    if i < n.len() - 1 {
                        assert(n[i] == old(self).registered()[i]);
                    }
                }
            }
        }
        Ok(id)
    }

    /// Remove the first mapping with the given identifier.
    pub fn unregister_mapping(&mut self, id: u128) -> (removed: bool)
        ensures
            removed == exists|p: int| first_with_id(old(self).registered(), id, p),
            removed ==> exists|p: int|
                first_with_id(old(self).registered(), id, p) && final(self).registered() == old(
                    self,
                ).registered().remove(p),
            removed ==> final(self).metrics_view() == (KeyboardHandlerMetrics {
                registered_mappings: final(self).registered().len() as usize,
                ..old(self).metrics_view()
            }),
            !removed ==> final(self).registered() == old(self).registered()
                && final(self).metrics_view() == old(self).metrics_view(),
            final(self).reserved() == old(self).reserved(),
            shortcuts_have_option(old(self).registered()) ==> shortcuts_have_option(final(self).registered()),
    {
        assert(old(self).registered() == old(self).mappings.mappings@);
        let removed = self.mappings.remove_mapping(id);
        if removed {
            self.metrics.registered_mappings = self.mappings.mappings.len();
        }
        proof {
            if removed && shortcuts_have_option(old(self).registered()) {
                let p = choose|p: int| first_with_id(old(self).registered(), id, p) && self.registered() == old(self).registered().remove(p);
                let o = old(self).registered();
                let n = self.registered();
                assert forall|i: int| 0 <= i < n.len() implies (#[trigger] n[i]).shortcut_combination.modifiers@.contains(ModifierKey::Option) by {
                    if i < p {
                        assert(n[i] == o[i]);
                    } else {
                        assert(n[i] == o[i + 1]);
                    }
                }
            }
        }
        removed
    }

    /// Trigger a shortcut. Returns the event of the first enabled mapping bound
    /// to it, if any.
    pub fn handle_shortcut(&mut self, combination: &ShortcutCombination) -> (r: Result<
        Option<KeyboardEvent>,
        TilleRSError,
    >)
        requires
            old(self).metrics_view().triggered_events < u64::MAX,
        ensures
            final(self).registered() == old(self).registered(),
            final(self).reserved() == old(self).reserved(),
            r matches Ok(None) ==> forall|j: int|
                0 <= j < old(self).registered().len() ==> !bound_to(
                    #[trigger] old(self).registered()[j],
                    combination@,
                ),
            r matches Ok(None) ==> final(self).metrics_view() == old(self).metrics_view(),
            r matches Ok(Some(ev)) ==> exists|p: int|
                0 <= p < old(self).registered().len() && bound_to(
                    #[trigger] old(self).registered()[p],
                    combination@,
                ) && (forall|j: int|
                    0 <= j < p ==> !bound_to(#[trigger] old(self).registered()[j], combination@))
                    && ev.mapping_id == old(self).registered()[p].id && ev.action == old(
                    self,
                ).registered()[p].action_type && ev.parameters == old(self).registered()[p].parameters
                    && ev.global == old(self).registered()[p].global_scope,
            r matches Ok(Some(_)) ==> final(self).metrics_view() == (KeyboardHandlerMetrics {
                triggered_events: (old(self).metrics_view().triggered_events + 1) as u64,
                ..old(self).metrics_view()
            }),
            r is Ok,
    {
        let found = self.mappings.find_by_shortcut(combination);
        match found {
            Some(m) => {
                let ev = KeyboardEvent {
                    mapping_id: m.id,
                    action: m.action_type.duplicate(),
                    parameters: m.parameters.duplicate(),
                    global: m.global_scope,
                };
                self.metrics.triggered_events = self.metrics.triggered_events + 1;
                Ok(Some(ev))
            },
            None => Ok(None),
        }
    }

    /// A copy of all mappings.
    pub fn mappings(&self) -> (r: Vec<KeyboardMapping>)
        ensures
            r@.len() == self.registered().len(),
            forall|i: int| 0 <= i < r@.len() ==> same_mapping(#[trigger] r@[i], self.registered()[i]),
    {
        let mut r: Vec<KeyboardMapping> = Vec::new();
        let mut i: usize = 0;
        while i < self.mappings.mappings.len()
            invariant
                i <= self.mappings.mappings@.len(),
                r@.len() == i,
                forall|j: int| 0 <= j < i ==> same_mapping(#[trigger] r@[j], self.mappings.mappings@[j]),
            decreases self.mappings.mappings.len() - i,
        {
            r.push(self.mappings.mappings[i].duplicate());
            i = i + 1;
        }
        r
    }

    /// The current metrics.
    pub fn metrics(&self) -> (m: KeyboardHandlerMetrics)
        ensures
            m == self.metrics_view(),
    {
        self.metrics
    }
}

} // verus!
