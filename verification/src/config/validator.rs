//! Configuration validation: the rules a configuration is held to and the
//! findings (errors, warnings and notes) each part of a configuration gives,
//! in the order the checks are made.
//!
//! Two regular expressions are used, for workspace and mapping shortcuts and
//! for bundle identifiers; they are compiled by the `regex` crate.

use vstd::prelude::*;
use crate::config::parser::{ConfigParseError, WorkspaceConfig};
use crate::models::keyboard_mapping::{
    ActionParameters, KeyboardMapping, ModifierKey, ShortcutCombination, config_string,
    shortcut_validation, mapping_error_message,
};
use crate::models::workspace::{Workspace, byte_len, byte_len_exceeds};
use crate::models::tiling_pattern::{TilingPattern, ratio_text, push_ratio};
use crate::models::window_rule::WindowRule;
use crate::models::monitor_configuration::MonitorConfiguration;
use crate::models::application_profile::ApplicationProfile;
use crate::regex_support::{regex_compile_error, regex_match, regex_check, regex_is_match};
use crate::text::{
    lowercase, to_lowercase, str_equal, owned, push_str, push_decimal, decimal, contains_seq,
    str_contains,
};

verus! {

/// A validation rule: its name, what it asks, and how severe a breach is.
#[derive(Debug, Clone)]
pub struct ValidationRule {
    pub name: String,
    pub description: String,
    pub severity: ValidationSeverity,
}

/// How severe a finding is.
#[derive(Debug, Clone, Copy, PartialEq, Eq, Structural)]
pub enum ValidationSeverity {
    Error,
    Warning,
    Info,
}

/// A finding: the rule it breaches, a message, and the entity it concerns.
#[derive(Debug, Clone)]
pub struct ValidationResult {
    pub rule: ValidationRule,
    pub message: String,
    pub entity_id: Option<u128>,
    pub entity_type: String,
}

/// A rule's name, description and severity.
pub open spec fn rule_view(r: ValidationRule) -> (Seq<char>, Seq<char>, ValidationSeverity) {
    (r.name@, r.description@, r.severity)
}

/// A finding's rule, message, entity and entity type.
pub open spec fn finding_view(r: ValidationResult) -> ((Seq<char>, Seq<char>, ValidationSeverity), Seq<char>, Option<u128>, Seq<char>) {
    (rule_view(r.rule), r.message@, r.entity_id, r.entity_type@)
}

/// The findings of a list.
pub open spec fn findings_view(s: Seq<ValidationResult>) -> Seq<((Seq<char>, Seq<char>, ValidationSeverity), Seq<char>, Option<u128>, Seq<char>)> {
    s.map_values(|r: ValidationResult| finding_view(r))
}

/// Number of validation rules.
pub open spec fn rule_count() -> nat {
    30
}

/// The validation rules, in order.
pub open spec fn rule_entry(i: int) -> (Seq<char>, Seq<char>, ValidationSeverity) {
    if i == 0 {
        ("duplicate_workspace_name"@, "Workspace names must be unique"@, ValidationSeverity::Error)
    } else if i == 1 {
        ("duplicate_keyboard_shortcut"@, "Keyboard shortcuts must be unique"@, ValidationSeverity::Error)
    } else if i == 2 {
        ("empty_workspace_name"@, "Workspace names cannot be empty"@, ValidationSeverity::Error)
    } else if i == 3 {
        ("workspace_name_too_long"@, "Workspace names should not exceed 100 characters"@, ValidationSeverity::Error)
    } else if i == 4 {
        ("invalid_keyboard_shortcut"@, "Keyboard shortcuts must follow valid format"@, ValidationSeverity::Error)
    } else if i == 5 {
        ("legacy_command_shortcut"@, "Command-based shortcuts should be migrated to Option key"@, ValidationSeverity::Warning)
    } else if i == 6 {
        ("workspace_description_too_long"@, "Workspace descriptions should not exceed 500 characters"@, ValidationSeverity::Warning)
    } else if i == 7 {
        ("duplicate_pattern_name"@, "Tiling pattern names must be unique"@, ValidationSeverity::Error)
    } else if i == 8 {
        ("invalid_main_area_ratio"@, "Main area ratio must be between 0.1 and 0.9"@, ValidationSeverity::Error)
    } else if i == 9 {
        ("negative_gap_size"@, "Gap size cannot be negative"@, ValidationSeverity::Error)
    } else if i == 10 {
        ("negative_window_margin"@, "Window margin cannot be negative"@, ValidationSeverity::Error)
    } else if i == 11 {
        ("zero_max_windows"@, "Maximum windows must be greater than zero"@, ValidationSeverity::Error)
    } else if i == 12 {
        ("high_max_windows"@, "High maximum windows count may impact performance"@, ValidationSeverity::Warning)
    } else if i == 13 {
        ("invalid_window_title_regex"@, "Window title patterns must be valid regular expressions"@, ValidationSeverity::Error)
    } else if i == 14 {
        ("negative_z_order"@, "Z-order priority cannot be negative"@, ValidationSeverity::Error)
    } else if i == 15 {
        ("negative_fixed_position"@, "Fixed position coordinates cannot be negative"@, ValidationSeverity::Error)
    } else if i == 16 {
        ("invalid_fixed_size"@, "Fixed size dimensions must be positive"@, ValidationSeverity::Error)
    } else if i == 17 {
        ("duplicate_bundle_identifier"@, "Bundle identifiers must be unique"@, ValidationSeverity::Error)
    } else if i == 18 {
        ("invalid_bundle_identifier"@, "Bundle identifiers must follow valid format"@, ValidationSeverity::Error)
    } else if i == 19 {
        ("empty_display_name"@, "Application display names cannot be empty"@, ValidationSeverity::Error)
    } else if i == 20 {
        ("invalid_scale_factor"@, "Scale factor must be positive"@, ValidationSeverity::Error)
    } else if i == 21 {
        ("unusual_scale_factor"@, "Scale factor is outside typical range"@, ValidationSeverity::Warning)
    } else if i == 22 {
        ("missing_tiling_pattern_reference"@, "References to tiling patterns must be valid"@, ValidationSeverity::Error)
    } else if i == 23 {
        ("missing_workspace_reference"@, "References to workspaces must be valid"@, ValidationSeverity::Error)
    } else if i == 24 {
        ("missing_application_profile_reference"@, "References to application profiles must be valid"@, ValidationSeverity::Error)
    } else if i == 25 {
        ("missing_keyboard_target_reference"@, "Keyboard mapping targets must be valid"@, ValidationSeverity::Error)
    } else if i == 26 {
        ("system_reserved_shortcut"@, "Shortcut may conflict with system shortcuts"@, ValidationSeverity::Warning)
    } else if i == 27 {
        ("high_workspace_count"@, "High workspace count may impact performance"@, ValidationSeverity::Info)
    } else if i == 28 {
        ("high_keyboard_mapping_count"@, "High keyboard mapping count may impact performance"@, ValidationSeverity::Info)
    } else {
        ("high_window_rule_count"@, "High window rule count may impact performance"@, ValidationSeverity::Info)
    }
}

/// A finding of rule `i`.
pub open spec fn finding(i: int, message: Seq<char>, entity: Option<u128>, entity_type: Seq<char>) -> ((Seq<char>, Seq<char>, ValidationSeverity), Seq<char>, Option<u128>, Seq<char>) {
    (rule_entry(i), message, entity, entity_type)
}

/// The finding when the condition holds, else none.
pub open spec fn finding_if(
    cond: bool,
    f: ((Seq<char>, Seq<char>, ValidationSeverity), Seq<char>, Option<u128>, Seq<char>),
) -> Seq<((Seq<char>, Seq<char>, ValidationSeverity), Seq<char>, Option<u128>, Seq<char>)> {
    if cond {
        seq![f]
    } else {
        Seq::empty()
    }
}

/// The pattern workspace and mapping shortcuts must match.
pub open spec fn shortcut_pattern() -> Seq<char> {
    "^(cmd|ctrl|opt|shift)(\\+(cmd|ctrl|opt|shift))*\\+[a-zA-Z0-9F1-F12]+$"@
}

/// The pattern bundle identifiers must match.
pub open spec fn bundle_pattern() -> Seq<char> {
    "^[a-zA-Z0-9]+([\\.-][a-zA-Z0-9]+)*$"@
}

fn shortcut_pattern_text() -> (s: &'static str)
    ensures
        s@ == shortcut_pattern(),
{
    "^(cmd|ctrl|opt|shift)(\\+(cmd|ctrl|opt|shift))*\\+[a-zA-Z0-9F1-F12]+$"
}

fn bundle_pattern_text() -> (s: &'static str)
    ensures
        s@ == bundle_pattern(),
{
    "^[a-zA-Z0-9]+([\\.-][a-zA-Z0-9]+)*$"
}

/// Whether a lowercase shortcut is reserved by the system.
pub open spec fn is_reserved(s: Seq<char>) -> bool {
    s == "cmd+space"@ ||
            s == "cmd+tab"@ ||
            s == "cmd+q"@ ||
            s == "cmd+w"@ ||
            s == "cmd+a"@ ||
            s == "cmd+s"@ ||
            s == "cmd+d"@ ||
            s == "cmd+f"@ ||
            s == "cmd+z"@ ||
            s == "cmd+x"@ ||
            s == "cmd+c"@ ||
            s == "cmd+v"@ ||
            s == "cmd+shift+z"@ ||
            s == "cmd+shift+4"@ ||
            s == "cmd+shift+3"@ ||
            s == "ctrl+space"@ ||
            s == "ctrl+up"@ ||
            s == "ctrl+down"@ ||
            s == "ctrl+left"@ ||
            s == "ctrl+right"@
}

/// The validation rules.
pub fn default_rules() -> (r: Vec<ValidationRule>)
    ensures
        r@.len() == rule_count(),
        forall|i: int| 0 <= i < rule_count() ==> rule_view(#[trigger] r@[i]) == rule_entry(i),
{
    let mut r: Vec<ValidationRule> = Vec::new();
    r.push(ValidationRule { name: owned("duplicate_workspace_name"), description: owned("Workspace names must be unique"), severity: ValidationSeverity::Error });
    r.push(ValidationRule { name: owned("duplicate_keyboard_shortcut"), description: owned("Keyboard shortcuts must be unique"), severity: ValidationSeverity::Error });
    r.push(ValidationRule { name: owned("empty_workspace_name"), description: owned("Workspace names cannot be empty"), severity: ValidationSeverity::Error });
    r.push(ValidationRule { name: owned("workspace_name_too_long"), description: owned("Workspace names should not exceed 100 characters"), severity: ValidationSeverity::Error });
    r.push(ValidationRule { name: owned("invalid_keyboard_shortcut"), description: owned("Keyboard shortcuts must follow valid format"), severity: ValidationSeverity::Error });
    r.push(ValidationRule { name: owned("legacy_command_shortcut"), description: owned("Command-based shortcuts should be migrated to Option key"), severity: ValidationSeverity::Warning });
    r.push(ValidationRule { name: owned("workspace_description_too_long"), description: owned("Workspace descriptions should not exceed 500 characters"), severity: ValidationSeverity::Warning });
    r.push(ValidationRule { name: owned("duplicate_pattern_name"), description: owned("Tiling pattern names must be unique"), severity: ValidationSeverity::Error });
    r.push(ValidationRule { name: owned("invalid_main_area_ratio"), description: owned("Main area ratio must be between 0.1 and 0.9"), severity: ValidationSeverity::Error });
    r.push(ValidationRule { name: owned("negative_gap_size"), description: owned("Gap size cannot be negative"), severity: ValidationSeverity::Error });
    r.push(ValidationRule { name: owned("negative_window_margin"), description: owned("Window margin cannot be negative"), severity: ValidationSeverity::Error });
    r.push(ValidationRule { name: owned("zero_max_windows"), description: owned("Maximum windows must be greater than zero"), severity: ValidationSeverity::Error });
    r.push(ValidationRule { name: owned("high_max_windows"), description: owned("High maximum windows count may impact performance"), severity: ValidationSeverity::Warning });
    r.push(ValidationRule { name: owned("invalid_window_title_regex"), description: owned("Window title patterns must be valid regular expressions"), severity: ValidationSeverity::Error });
    r.push(ValidationRule { name: owned("negative_z_order"), description: owned("Z-order priority cannot be negative"), severity: ValidationSeverity::Error });
    r.push(ValidationRule { name: owned("negative_fixed_position"), description: owned("Fixed position coordinates cannot be negative"), severity: ValidationSeverity::Error });
    r.push(ValidationRule { name: owned("invalid_fixed_size"), description: owned("Fixed size dimensions must be positive"), severity: ValidationSeverity::Error });
    r.push(ValidationRule { name: owned("duplicate_bundle_identifier"), description: owned("Bundle identifiers must be unique"), severity: ValidationSeverity::Error });
    r.push(ValidationRule { name: owned("invalid_bundle_identifier"), description: owned("Bundle identifiers must follow valid format"), severity: ValidationSeverity::Error });
    r.push(ValidationRule { name: owned("empty_display_name"), description: owned("Application display names cannot be empty"), severity: ValidationSeverity::Error });
    r.push(ValidationRule { name: owned("invalid_scale_factor"), description: owned("Scale factor must be positive"), severity: ValidationSeverity::Error });
    r.push(ValidationRule { name: owned("unusual_scale_factor"), description: owned("Scale factor is outside typical range"), severity: ValidationSeverity::Warning });
    r.push(ValidationRule { name: owned("missing_tiling_pattern_reference"), description: owned("References to tiling patterns must be valid"), severity: ValidationSeverity::Error });
    r.push(ValidationRule { name: owned("missing_workspace_reference"), description: owned("References to workspaces must be valid"), severity: ValidationSeverity::Error });
    r.push(ValidationRule { name: owned("missing_application_profile_reference"), description: owned("References to application profiles must be valid"), severity: ValidationSeverity::Error });
    r.push(ValidationRule { name: owned("missing_keyboard_target_reference"), description: owned("Keyboard mapping targets must be valid"), severity: ValidationSeverity::Error });
    r.push(ValidationRule { name: owned("system_reserved_shortcut"), description: owned("Shortcut may conflict with system shortcuts"), severity: ValidationSeverity::Warning });
    r.push(ValidationRule { name: owned("high_workspace_count"), description: owned("High workspace count may impact performance"), severity: ValidationSeverity::Info });
    r.push(ValidationRule { name: owned("high_keyboard_mapping_count"), description: owned("High keyboard mapping count may impact performance"), severity: ValidationSeverity::Info });
    r.push(ValidationRule { name: owned("high_window_rule_count"), description: owned("High window rule count may impact performance"), severity: ValidationSeverity::Info });
    assert forall|i: int| 0 <= i < rule_count() implies rule_view(#[trigger] r@[i]) == rule_entry(i) by {
    }
    r
}

fn reserved_text(l: &str) -> (b: bool)
    ensures
        b == is_reserved(l@),
{
    str_equal(l, "cmd+space") ||
    str_equal(l, "cmd+tab") ||
    str_equal(l, "cmd+q") ||
    str_equal(l, "cmd+w") ||
    str_equal(l, "cmd+a") ||
    str_equal(l, "cmd+s") ||
    str_equal(l, "cmd+d") ||
    str_equal(l, "cmd+f") ||
    str_equal(l, "cmd+z") ||
    str_equal(l, "cmd+x") ||
    str_equal(l, "cmd+c") ||
    str_equal(l, "cmd+v") ||
    str_equal(l, "cmd+shift+z") ||
    str_equal(l, "cmd+shift+4") ||
    str_equal(l, "cmd+shift+3") ||
    str_equal(l, "ctrl+space") ||
    str_equal(l, "ctrl+up") ||
    str_equal(l, "ctrl+down") ||
    str_equal(l, "ctrl+left") ||
    str_equal(l, "ctrl+right")
}

impl ValidationRule {
    /// A copy of the rule.
    pub fn duplicate(&self) -> (r: Self)
        ensures
            r == *self,
    {
        ValidationRule { name: self.name.clone(), description: self.description.clone(), severity: self.severity }
    }
}

/// The keys and identifiers of entities, as a map built by inserting them
/// in order would hold them.
pub open spec fn latest_id(entries: Seq<(Seq<char>, u128)>, key: Seq<char>) -> Option<u128>
    decreases entries.len(),
{
    if entries.len() == 0 {
        None
    } else if entries.last().0 == key {
        Some(entries.last().1)
    } else {
        latest_id(entries.drop_last(), key)
    }
}

/// Whether an earlier entity with the key has another identifier: the one
/// a map of keys to identifiers held when this entity's key was inserted.
pub open spec fn clashes(entries: Seq<(Seq<char>, u128)>, key: Seq<char>, id: u128) -> bool {
    latest_id(entries, key) matches Some(e) && e != id
}

/// Workspace names with their identifiers.
pub open spec fn name_entries(s: Seq<Workspace>) -> Seq<(Seq<char>, u128)> {
    s.map_values(|w: Workspace| (w.name@, w.id))
}

/// Workspace shortcuts with their identifiers.
pub open spec fn shortcut_entries(s: Seq<Workspace>) -> Seq<(Seq<char>, u128)> {
    s.map_values(|w: Workspace| (w.keyboard_shortcut@, w.id))
}

/// The byte length of a workspace's description, zero without one.
pub open spec fn description_bytes(w: Workspace) -> nat {
    match w.description {
        Some(d) => byte_len(d@),
        None => 0,
    }
}

/// The findings of one workspace, after the workspaces before it.
pub open spec fn workspace_findings_for(prev: Seq<Workspace>, w: Workspace) -> Seq<((Seq<char>, Seq<char>, ValidationSeverity), Seq<char>, Option<u128>, Seq<char>)> {
    let et = "Workspace"@;
    let id = Some(w.id);
    let sc = w.keyboard_shortcut@;
    finding_if(
        clashes(name_entries(prev), w.name@, w.id),
        finding(0, "Workspace name '"@ + w.name@ + "' is used by multiple workspaces"@, id, et),
    ) + finding_if(
        clashes(shortcut_entries(prev), sc, w.id),
        finding(1, "Keyboard shortcut '"@ + sc + "' is used by multiple workspaces"@, id, et),
    ) + finding_if(w.name@.len() == 0, finding(2, "Workspace name cannot be empty"@, id, et)) + finding_if(
        byte_len(w.name@) > 100,
        finding(3, "Workspace name '"@ + w.name@ + "' exceeds 100 characters"@, id, et),
    ) + finding_if(
        !regex_match(shortcut_pattern(), sc),
        finding(4, "Invalid keyboard shortcut format: '"@ + sc + "'"@, id, et),
    ) + finding_if(
        contains_seq(sc, "cmd+"@),
        finding(
            5,
            "Consider migrating Command-based shortcut '"@ + sc + "' to Option key for better compatibility"@,
            id,
            et,
        ),
    ) + finding_if(
        description_bytes(w) > 500,
        finding(6, "Workspace description exceeds 500 characters"@, id, et),
    )
}

/// The findings of a list of workspaces, workspace by workspace.
pub open spec fn workspace_findings(s: Seq<Workspace>) -> Seq<((Seq<char>, Seq<char>, ValidationSeverity), Seq<char>, Option<u128>, Seq<char>)>
    decreases s.len(),
{
    if s.len() == 0 {
        Seq::empty()
    } else {
        workspace_findings(s.drop_last()) + workspace_findings_for(s.drop_last(), s.last())
    }
}

/// The latest entry with a key is one of the entries with that key.
proof fn lemma_latest_id_found(entries: Seq<(Seq<char>, u128)>, key: Seq<char>, i: int)
    requires
        0 <= i < entries.len(),
        entries[i].0 == key,
    ensures
        latest_id(entries, key) matches Some(e) && exists|j: int|
            0 <= j < entries.len() && (#[trigger] entries[j]).0 == key && entries[j].1 == e,
    decreases entries.len(),
{
    let n = entries.len() - 1;
    if entries.last().0 == key {
        assert(entries[n].0 == key);
    } else {
        let d = entries.drop_last();
        assert(i < n);
        assert(d[i] == entries[i]);
        lemma_latest_id_found(d, key, i);
        let e = latest_id(d, key)->0;
        let j = choose|j: int| 0 <= j < d.len() && (#[trigger] d[j]).0 == key && d[j].1 == e;
        assert(entries[j] == d[j]);
    }
}

/// The findings of each workspace are among the findings of the list.
proof fn lemma_findings_of_one_in_all(s: Seq<Workspace>, k: int, f: ((Seq<char>, Seq<char>, ValidationSeverity), Seq<char>, Option<u128>, Seq<char>))
    requires
        0 <= k < s.len(),
        workspace_findings_for(s.take(k), s[k]).contains(f),
    ensures
        workspace_findings(s).contains(f),
    decreases s.len(),
{
    let a = workspace_findings(s.drop_last());
    let b = workspace_findings_for(s.drop_last(), s.last());
    assert(workspace_findings(s) == a + b);
    if k == s.len() - 1 {
        assert(s.take(k) =~= s.drop_last());
        let i = choose|i: int| 0 <= i < b.len() && b[i] == f;
        assert((a + b)[a.len() + i] == f);
    } else {
        assert(s.drop_last().take(k) =~= s.take(k));
        assert(s.drop_last()[k] == s[k]);
        lemma_findings_of_one_in_all(s.drop_last(), k, f);
        let i = choose|i: int| 0 <= i < a.len() && a[i] == f;
        assert((a + b)[i] == f);
    }
}

/// A keyboard shortcut taken by an earlier workspace of another identifier
/// is reported for the later workspace: when some workspace before position
/// `k` has the same shortcut, and none of those has the identifier of the
/// workspace at `k`, the findings of the list include a
/// `duplicate_keyboard_shortcut` error for it that names the shortcut.
pub proof fn law_duplicate_shortcut_reported(s: Seq<Workspace>, k: int, i: int)
    requires
        0 <= i < k < s.len(),
        s[i].keyboard_shortcut@ == s[k].keyboard_shortcut@,
        forall|j: int|
            0 <= j < k && (#[trigger] s[j]).keyboard_shortcut@ == s[k].keyboard_shortcut@ ==> s[j].id != s[k].id,
    ensures
        workspace_findings(s).contains(
            (
                ("duplicate_keyboard_shortcut"@, "Keyboard shortcuts must be unique"@, ValidationSeverity::Error),
                "Keyboard shortcut '"@ + s[k].keyboard_shortcut@ + "' is used by multiple workspaces"@,
                Some(s[k].id),
                "Workspace"@,
            ),
        ),
{
    let prev = s.take(k);
    let w = s[k];
    let sc = w.keyboard_shortcut@;
    let entries = shortcut_entries(prev);
    assert(entries[i] == (s[i].keyboard_shortcut@, s[i].id));
    lemma_latest_id_found(entries, sc, i);
    let e = latest_id(entries, sc)->0;
    let j = choose|j: int| 0 <= j < entries.len() && (#[trigger] entries[j]).0 == sc && entries[j].1 == e;
    assert(entries[j] == (s[j].keyboard_shortcut@, s[j].id));
    assert(clashes(entries, sc, w.id));
    let f = finding(1, "Keyboard shortcut '"@ + sc + "' is used by multiple workspaces"@, Some(w.id), "Workspace"@);
    let et = "Workspace"@;
    let f0 = finding_if(
        clashes(name_entries(prev), w.name@, w.id),
        finding(0, "Workspace name '"@ + w.name@ + "' is used by multiple workspaces"@, Some(w.id), et),
    );
    let all = workspace_findings_for(prev, w);
    assert(all[f0.len() as int] == f);
    lemma_findings_of_one_in_all(s, k, f);
}

/// A name taken by an earlier workspace of another identifier is reported
/// for the later workspace: when some workspace before position `k` has the
/// same name, and none of those has the identifier of the workspace at `k`,
/// the findings of the list include a `duplicate_workspace_name` error for
/// it that names the name.
pub proof fn law_duplicate_name_reported(s: Seq<Workspace>, k: int, i: int)
    requires
        0 <= i < k < s.len(),
        s[i].name@ == s[k].name@,
        forall|j: int| 0 <= j < k && (#[trigger] s[j]).name@ == s[k].name@ ==> s[j].id != s[k].id,
    ensures
        workspace_findings(s).contains(
            (
                ("duplicate_workspace_name"@, "Workspace names must be unique"@, ValidationSeverity::Error),
                "Workspace name '"@ + s[k].name@ + "' is used by multiple workspaces"@,
                Some(s[k].id),
                "Workspace"@,
            ),
        ),
{
    let prev = s.take(k);
    let w = s[k];
    let entries = name_entries(prev);
    assert(entries[i] == (s[i].name@, s[i].id));
    lemma_latest_id_found(entries, w.name@, i);
    let e = latest_id(entries, w.name@)->0;
    let j = choose|j: int| 0 <= j < entries.len() && (#[trigger] entries[j]).0 == w.name@ && entries[j].1 == e;
    assert(entries[j] == (s[j].name@, s[j].id));
    assert(clashes(entries, w.name@, w.id));
    let f = finding(0, "Workspace name '"@ + w.name@ + "' is used by multiple workspaces"@, Some(w.id), "Workspace"@);
    let all = workspace_findings_for(prev, w);
    assert(all[0] == f);
    lemma_findings_of_one_in_all(s, k, f);
}

/// An entry found for a key has that key.
proof fn lemma_latest_id_has_key(entries: Seq<(Seq<char>, u128)>, key: Seq<char>)
    requires
        latest_id(entries, key) is Some,
    ensures
        exists|j: int| 0 <= j < entries.len() && (#[trigger] entries[j]).0 == key,
    decreases entries.len(),
{
    if entries.last().0 == key {
        assert(entries[entries.len() - 1].0 == key);
    } else {
        let d = entries.drop_last();
        lemma_latest_id_has_key(d, key);
        let j = choose|j: int| 0 <= j < d.len() && (#[trigger] d[j]).0 == key;
        assert(entries[j] == d[j]);
    }
}

/// Every finding of the list is a finding of one of its workspaces.
proof fn lemma_finding_of_some_workspace(
    s: Seq<Workspace>,
    f: ((Seq<char>, Seq<char>, ValidationSeverity), Seq<char>, Option<u128>, Seq<char>),
)
    requires
        workspace_findings(s).contains(f),
    ensures
        exists|k: int| 0 <= k < s.len() && #[trigger] workspace_findings_for(s.take(k), s[k]).contains(f),
    decreases s.len(),
{
    let a = workspace_findings(s.drop_last());
    let b = workspace_findings_for(s.drop_last(), s.last());
    let i = choose|i: int| 0 <= i < (a + b).len() && (a + b)[i] == f;
    let n = s.len() - 1;
    if i < a.len() {
        assert(a[i] == f);
        lemma_finding_of_some_workspace(s.drop_last(), f);
        let k = choose|k: int|
            0 <= k < s.drop_last().len() && #[trigger] workspace_findings_for(s.drop_last().take(k), s.drop_last()[k]).contains(f);
        assert(s.drop_last().take(k) =~= s.take(k));
        assert(s.drop_last()[k] == s[k]);
        assert(workspace_findings_for(s.take(k), s[k]).contains(f));
    } else {
        assert(b[i - a.len()] == f);
        assert(s.take(n) =~= s.drop_last());
        assert(workspace_findings_for(s.take(n), s[n]).contains(f));
    }
}

proof fn lemma_in_concat<T>(a: Seq<T>, b: Seq<T>, x: T)
    requires
        (a + b).contains(x),
    ensures
        a.contains(x) || b.contains(x),
{
    let i = choose|i: int| 0 <= i < (a + b).len() && (a + b)[i] == x;
    if i < a.len() {
        assert(a[i] == x);
    } else {
        assert(b[i - a.len()] == x);
    }
}

/// A duplicate finding of one workspace comes from an earlier workspace with
/// the same shortcut (or name) and another identifier.
proof fn lemma_duplicate_finding_has_cause(
    prev: Seq<Workspace>,
    w: Workspace,
    f: ((Seq<char>, Seq<char>, ValidationSeverity), Seq<char>, Option<u128>, Seq<char>),
)
    requires
        workspace_findings_for(prev, w).contains(f),
    ensures
        f.0.0 == "duplicate_keyboard_shortcut"@ ==> clashes(shortcut_entries(prev), w.keyboard_shortcut@, w.id),
        f.0.0 == "duplicate_workspace_name"@ ==> clashes(name_entries(prev), w.name@, w.id),
{
    reveal_strlit("duplicate_workspace_name");
    reveal_strlit("duplicate_keyboard_shortcut");
    reveal_strlit("empty_workspace_name");
    reveal_strlit("workspace_name_too_long");
    reveal_strlit("invalid_keyboard_shortcut");
    reveal_strlit("legacy_command_shortcut");
    reveal_strlit("workspace_description_too_long");
    let et = "Workspace"@;
    let id = Some(w.id);
    let sc = w.keyboard_shortcut@;
    let f0 = finding_if(
        clashes(name_entries(prev), w.name@, w.id),
        finding(0, "Workspace name '"@ + w.name@ + "' is used by multiple workspaces"@, id, et),
    );
    let f1 = finding_if(
        clashes(shortcut_entries(prev), sc, w.id),
        finding(1, "Keyboard shortcut '"@ + sc + "' is used by multiple workspaces"@, id, et),
    );
    let f2 = finding_if(w.name@.len() == 0, finding(2, "Workspace name cannot be empty"@, id, et));
    let f3 = finding_if(
        byte_len(w.name@) > 100,
        finding(3, "Workspace name '"@ + w.name@ + "' exceeds 100 characters"@, id, et),
    );
    let f4 = finding_if(
        !regex_match(shortcut_pattern(), sc),
        finding(4, "Invalid keyboard shortcut format: '"@ + sc + "'"@, id, et),
    );
    let f5 = finding_if(
        contains_seq(sc, "cmd+"@),
        finding(
            5,
            "Consider migrating Command-based shortcut '"@ + sc + "' to Option key for better compatibility"@,
            id,
            et,
        ),
    );
    let f6 = finding_if(description_bytes(w) > 500, finding(6, "Workspace description exceeds 500 characters"@, id, et));
    assert(workspace_findings_for(prev, w) == f0 + f1 + f2 + f3 + f4 + f5 + f6);
    lemma_in_concat(f0 + f1 + f2 + f3 + f4 + f5, f6, f);
    if !f6.contains(f) {
        lemma_in_concat(f0 + f1 + f2 + f3 + f4, f5, f);
        if !f5.contains(f) {
            lemma_in_concat(f0 + f1 + f2 + f3, f4, f);
            if !f4.contains(f) {
                lemma_in_concat(f0 + f1 + f2, f3, f);
                if !f3.contains(f) {
                    lemma_in_concat(f0 + f1, f2, f);
                    if !f2.contains(f) {
                        lemma_in_concat(f0, f1, f);
                    }
                }
            }
        }
    }
    let dn = "duplicate_workspace_name"@;
    let ds = "duplicate_keyboard_shortcut"@;
    assert(dn.len() == 24 && ds.len() == 27);
    if f0.contains(f) {
        assert(f0[0] == f);
        assert(f.0.0 == dn);
    }
    if f1.contains(f) {
        assert(f1[0] == f);
        assert(f.0.0 == ds);
    }
    if f2.contains(f) {
        assert(f2[0] == f);
        assert(f.0.0.len() == 20);
    }
    if f3.contains(f) {
        assert(f3[0] == f);
        assert(f.0.0.len() == 23);
    }
    if f4.contains(f) {
        assert(f4[0] == f);
        assert(f.0.0.len() == 25);
    }
    if f5.contains(f) {
        assert(f5[0] == f);
        assert(f.0.0.len() == 23);
    }
    if f6.contains(f) {
        assert(f6[0] == f);
        assert(f.0.0.len() == 30);
    }
}

/// When no two workspaces of the list share a keyboard shortcut, no
/// `duplicate_keyboard_shortcut` finding is reported; when no two share a
/// name, no `duplicate_workspace_name` finding is.
pub proof fn law_distinct_workspaces_no_duplicate_findings(s: Seq<Workspace>, f: ((Seq<char>, Seq<char>, ValidationSeverity), Seq<char>, Option<u128>, Seq<char>))
    requires
        workspace_findings(s).contains(f),
    ensures
        (forall|i: int, j: int| 0 <= i < j < s.len() ==> (#[trigger] s[i]).keyboard_shortcut@ != (#[trigger] s[j]).keyboard_shortcut@)
            ==> f.0.0 != "duplicate_keyboard_shortcut"@,
        (forall|i: int, j: int| 0 <= i < j < s.len() ==> (#[trigger] s[i]).name@ != (#[trigger] s[j]).name@)
            ==> f.0.0 != "duplicate_workspace_name"@,
{
    lemma_finding_of_some_workspace(s, f);
    let k = choose|k: int| 0 <= k < s.len() && #[trigger] workspace_findings_for(s.take(k), s[k]).contains(f);
    let prev = s.take(k);
    let w = s[k];
    lemma_duplicate_finding_has_cause(prev, w, f);
    if forall|i: int, j: int| 0 <= i < j < s.len() ==> (#[trigger] s[i]).keyboard_shortcut@ != (#[trigger] s[j]).keyboard_shortcut@ {
        if clashes(shortcut_entries(prev), w.keyboard_shortcut@, w.id) {
            lemma_latest_id_has_key(shortcut_entries(prev), w.keyboard_shortcut@);
            let j = choose|j: int| 0 <= j < shortcut_entries(prev).len() && (#[trigger] shortcut_entries(prev)[j]).0 == w.keyboard_shortcut@;
            assert(shortcut_entries(prev)[j] == (s[j].keyboard_shortcut@, s[j].id));
            assert(s[j].keyboard_shortcut@ != s[k].keyboard_shortcut@);
        }
    }
    if forall|i: int, j: int| 0 <= i < j < s.len() ==> (#[trigger] s[i]).name@ != (#[trigger] s[j]).name@ {
        if clashes(name_entries(prev), w.name@, w.id) {
            lemma_latest_id_has_key(name_entries(prev), w.name@);
            let j = choose|j: int| 0 <= j < name_entries(prev).len() && (#[trigger] name_entries(prev)[j]).0 == w.name@;
            assert(name_entries(prev)[j] == (s[j].name@, s[j].id));
            assert(s[j].name@ != s[k].name@);
        }
    }
}

/// Workspace names, or shortcuts, with their identifiers.
pub open spec fn key_entries(s: Seq<Workspace>, by_name: bool) -> Seq<(Seq<char>, u128)> {
    if by_name {
        name_entries(s)
    } else {
        shortcut_entries(s)
    }
}

fn latest_workspace_id(ws: &[Workspace], k: usize, key: &str, by_name: bool) -> (r: Option<u128>)
    requires
        k <= ws@.len(),
    ensures
        r == latest_id(key_entries(ws@.take(k as int), by_name), key@),
{
    let mut j = k;
    while j > 0
        invariant
            j <= k <= ws@.len(),
            latest_id(key_entries(ws@.take(k as int), by_name), key@) == latest_id(
                key_entries(ws@.take(j as int), by_name),
                key@,
            ),
        decreases j,
    {
        let w = &ws[j - 1];
        let ghost e = key_entries(ws@.take(j as int), by_name);
        assert(e.drop_last() =~= key_entries(ws@.take(j - 1), by_name));
        assert(e.last() == if by_name { (w.name@, w.id) } else { (w.keyboard_shortcut@, w.id) });
        let hit = if by_name {
            str_equal(w.name.as_str(), key)
        } else {
            str_equal(w.keyboard_shortcut.as_str(), key)
        };
        if hit {
            return Some(w.id);
        }
        j = j - 1;
    }
    assert(key_entries(ws@.take(0), by_name) =~= Seq::<(Seq<char>, u128)>::empty());
    None
}

/// Configuration validator: the rules and the two patterns it checks with.
pub struct ConfigValidator {
    rules: Vec<ValidationRule>,
    keyboard_shortcut_regex: String,
    bundle_id_regex: String,
}

impl ConfigValidator {
    /// The validator's invariant: the rules in order, and the two patterns,
    /// which compile.
    pub closed spec fn wf(&self) -> bool {
        &&& self.rules@.len() == rule_count()
        &&& forall|i: int| 0 <= i < rule_count() ==> rule_view(#[trigger] self.rules@[i]) == rule_entry(i)
        &&& self.keyboard_shortcut_regex@ == shortcut_pattern()
        &&& self.bundle_id_regex@ == bundle_pattern()
        &&& regex_compile_error(shortcut_pattern()) is None
        &&& regex_compile_error(bundle_pattern()) is None
    }

    /// The rules.
    pub closed spec fn rules_view(&self) -> Seq<ValidationRule> {
        self.rules@
    }

    /// A validator with the rules and both patterns compiled; a pattern that
    /// does not compile is an error.
    pub fn new() -> (r: Result<Self, ConfigParseError>)
        ensures
            match regex_compile_error(shortcut_pattern()) {
                Some(e) => (r matches Err(ConfigParseError::ValidationError { message }) && message@
                    == "Failed to compile keyboard shortcut regex: "@ + e),
                None => match regex_compile_error(bundle_pattern()) {
                    Some(e) => (r matches Err(ConfigParseError::ValidationError { message }) && message@
                        == "Failed to compile bundle ID regex: "@ + e),
                    None => r matches Ok(v) && v.wf(),
                },
            },
    {
        match regex_check(shortcut_pattern_text()) {
            Ok(()) => {},
            Err(e) => {
                let mut m = owned("Failed to compile keyboard shortcut regex: ");
                push_str(&mut m, e.as_str());
                return Err(ConfigParseError::ValidationError { message: m });
            },
        }
        match regex_check(bundle_pattern_text()) {
            Ok(()) => {},
            Err(e) => {
                let mut m = owned("Failed to compile bundle ID regex: ");
                push_str(&mut m, e.as_str());
                return Err(ConfigParseError::ValidationError { message: m });
            },
        }
        Ok(
            ConfigValidator {
                rules: default_rules(),
                keyboard_shortcut_regex: owned(shortcut_pattern_text()),
                bundle_id_regex: owned(bundle_pattern_text()),
            },
        )
    }

    fn rule(&self, i: usize) -> (r: ValidationRule)
        requires
            self.wf(),
            i < rule_count(),
        ensures
            rule_view(r) == rule_entry(i as int),
    {
        self.rules[i].duplicate()
    }

    /// The first rule with a name.
    pub fn get_rule(&self, name: &str) -> (r: Option<ValidationRule>)
        ensures
            match r {
                Some(rule) => exists|i: int| 0 <= i < self.rules_view().len() && #[trigger] self.rules_view()[i] == rule
                    && rule.name@ == name@ && forall|j: int| 0 <= j < i ==> self.rules_view()[j].name@ != name@,
                None => forall|j: int| 0 <= j < self.rules_view().len() ==> self.rules_view()[j].name@ != name@,
            },
    {
        let mut i: usize = 0;
        while i < self.rules.len()
            invariant
                i <= self.rules@.len(),
                forall|j: int| 0 <= j < i ==> self.rules@[j].name@ != name@,
            decreases self.rules.len() - i,
        {
            if str_equal(self.rules[i].name.as_str(), name) {
                let r = self.rules[i].duplicate();
                assert(self.rules_view()[i as int] == r);
                return Some(r);
            }
            i = i + 1;
        }
        None
    }

    /// Whether a shortcut, lowercased, is one the system reserves.
    pub fn is_system_reserved_shortcut(&self, combination: &ShortcutCombination) -> (b: bool)
        ensures
            b == is_reserved(lowercase(config_string(combination.modifiers@, combination.key))),
    {
        let signature = combination.to_config_string();
        let lower = to_lowercase(signature.as_str());
        reserved_text(lower.as_str())
    }

    /// The findings of a list of workspaces: names and shortcuts used by
    /// other workspaces, empty or long names, shortcuts of the wrong form or
    /// still on Command, and long descriptions.
    pub fn validate_workspaces(&self, workspaces: &[Workspace]) -> (r: Vec<ValidationResult>)
        requires
            self.wf(),
        ensures
            findings_view(r@) == workspace_findings(workspaces@),
    {
        let mut results: Vec<ValidationResult> = Vec::new();
        let mut k: usize = 0;
        while k < workspaces.len()
            invariant
                self.wf(),
                k <= workspaces@.len(),
                findings_view(results@) == workspace_findings(workspaces@.take(k as int)),
            decreases workspaces.len() - k,
        {
            let ghost before = results@;
            let mut item = self.workspace_findings_at(workspaces, k);
            let ghost item_view = item@;
            results.append(&mut item);
            assert(workspaces@.take(k + 1).drop_last() =~= workspaces@.take(k as int));
            assert(findings_view(results@) =~= findings_view(before) + findings_view(item_view));
            k = k + 1;
        }
        assert(workspaces@.take(k as int) =~= workspaces@);
        results
    }

    #[verifier::rlimit(40)]
    fn workspace_findings_at(&self, workspaces: &[Workspace], k: usize) -> (r: Vec<ValidationResult>)
        requires
            self.wf(),
            k < workspaces@.len(),
        ensures
            findings_view(r@) == workspace_findings_for(workspaces@.take(k as int), workspaces@[k as int]),
    {
        let mut results: Vec<ValidationResult> = Vec::new();
        let w = &workspaces[k];
        let ghost prev = workspaces@.take(k as int);
        let ghost base = findings_view(results@);
        let sc = w.keyboard_shortcut.as_str();
        let id = Some(w.id);
        let c0 = match latest_workspace_id(workspaces, k, w.name.as_str(), true) {
            Some(e) => e != w.id,
            None => false,
        };
        if c0 {
            let mut m = owned("Workspace name '");
            push_str(&mut m, w.name.as_str());
            push_str(&mut m, "' is used by multiple workspaces");
            results.push(ValidationResult { rule: self.rule(0), message: m, entity_id: id, entity_type: owned("Workspace") });
        }
        let ghost f0 = finding_if(
            clashes(name_entries(prev), w.name@, w.id),
            finding(0, "Workspace name '"@ + w.name@ + "' is used by multiple workspaces"@, id, "Workspace"@),
        );
        assert(findings_view(results@) =~= base + f0);
        let c1 = match latest_workspace_id(workspaces, k, sc, false) {
            Some(e) => e != w.id,
            None => false,
        };
        if c1 {
            let mut m = owned("Keyboard shortcut '");
            push_str(&mut m, sc);
            push_str(&mut m, "' is used by multiple workspaces");
            results.push(ValidationResult { rule: self.rule(1), message: m, entity_id: id, entity_type: owned("Workspace") });
        }
        let ghost f1 = finding_if(
            clashes(shortcut_entries(prev), sc@, w.id),
            finding(1, "Keyboard shortcut '"@ + sc@ + "' is used by multiple workspaces"@, id, "Workspace"@),
        );
        assert(findings_view(results@) =~= base + f0 + f1);
        let c2 = w.name.as_str().unicode_len() == 0;
        if c2 {
            results.push(
                ValidationResult {
                    rule: self.rule(2),
                    message: owned("Workspace name cannot be empty"),
                    entity_id: id,
                    entity_type: owned("Workspace"),
                },
            );
        }
        let ghost f2 = finding_if(w.name@.len() == 0, finding(2, "Workspace name cannot be empty"@, id, "Workspace"@));
        assert(findings_view(results@) =~= base + f0 + f1 + f2);
        let c3 = byte_len_exceeds(&w.name, 100);
        if c3 {
            let mut m = owned("Workspace name '");
            push_str(&mut m, w.name.as_str());
            push_str(&mut m, "' exceeds 100 characters");
            results.push(ValidationResult { rule: self.rule(3), message: m, entity_id: id, entity_type: owned("Workspace") });
        }
        let ghost f3 = finding_if(
            byte_len(w.name@) > 100,
            finding(3, "Workspace name '"@ + w.name@ + "' exceeds 100 characters"@, id, "Workspace"@),
        );
        assert(findings_view(results@) =~= base + f0 + f1 + f2 + f3);
        let c4 = !regex_is_match(self.keyboard_shortcut_regex.as_str(), sc);
        if c4 {
            let mut m = owned("Invalid keyboard shortcut format: '");
            push_str(&mut m, sc);
            push_str(&mut m, "'");
            results.push(ValidationResult { rule: self.rule(4), message: m, entity_id: id, entity_type: owned("Workspace") });
        }
        let ghost f4 = finding_if(
            !regex_match(shortcut_pattern(), sc@),
            finding(4, "Invalid keyboard shortcut format: '"@ + sc@ + "'"@, id, "Workspace"@),
        );
        assert(findings_view(results@) =~= base + f0 + f1 + f2 + f3 + f4);
        let c5 = str_contains(sc, "cmd+");
        if c5 {
            let mut m = owned("Consider migrating Command-based shortcut '");
            push_str(&mut m, sc);
            push_str(&mut m, "' to Option key for better compatibility");
            results.push(ValidationResult { rule: self.rule(5), message: m, entity_id: id, entity_type: owned("Workspace") });
        }
        let ghost f5 = finding_if(
            contains_seq(sc@, "cmd+"@),
            finding(
                5,
                "Consider migrating Command-based shortcut '"@ + sc@ + "' to Option key for better compatibility"@,
                id,
                "Workspace"@,
            ),
        );
        assert(findings_view(results@) =~= base + f0 + f1 + f2 + f3 + f4 + f5);
        let c6 = match &w.description {
            Some(d) => byte_len_exceeds(d, 500),
            None => false,
        };
        if c6 {
            results.push(
                ValidationResult {
                    rule: self.rule(6),
                    message: owned("Workspace description exceeds 500 characters"),
                    entity_id: id,
                    entity_type: owned("Workspace"),
                },
            );
        }
        let ghost f6 = finding_if(
            description_bytes(*w) > 500,
            finding(6, "Workspace description exceeds 500 characters"@, id, "Workspace"@),
        );
        assert(findings_view(results@) =~= base + f0 + f1 + f2 + f3 + f4 + f5 + f6);
        assert(workspace_findings_for(prev, *w) =~= f0 + f1 + f2 + f3 + f4 + f5 + f6);
        results
    }
}

/// The findings of a list of entities, entity by entity, each after the
/// entities before it.
pub open spec fn each_findings<T>(s: Seq<T>, f: spec_fn(Seq<T>, T) -> Seq<((Seq<char>, Seq<char>, ValidationSeverity), Seq<char>, Option<u128>, Seq<char>)>) -> Seq<((Seq<char>, Seq<char>, ValidationSeverity), Seq<char>, Option<u128>, Seq<char>)>
    decreases s.len(),
{
    if s.len() == 0 {
        Seq::empty()
    } else {
        each_findings(s.drop_last(), f) + f(s.drop_last(), s.last())
    }
}

/// Pattern names with their identifiers.
pub open spec fn pattern_entries(s: Seq<TilingPattern>) -> Seq<(Seq<char>, u128)> {
    s.map_values(|p: TilingPattern| (p.name@, p.id))
}

/// The findings of one tiling pattern, after the patterns before it.
pub open spec fn pattern_findings_for(prev: Seq<TilingPattern>, p: TilingPattern) -> Seq<((Seq<char>, Seq<char>, ValidationSeverity), Seq<char>, Option<u128>, Seq<char>)> {
    pattern_findings_given(pattern_entries(prev), p)
}

/// The findings of one tiling pattern, given the names seen before it.
pub open spec fn pattern_findings_given(seen: Seq<(Seq<char>, u128)>, p: TilingPattern) -> Seq<((Seq<char>, Seq<char>, ValidationSeverity), Seq<char>, Option<u128>, Seq<char>)> {
    let et = "TilingPattern"@;
    let id = Some(p.id);
    finding_if(
        clashes(seen, p.name@, p.id),
        finding(7, "Tiling pattern name '"@ + p.name@ + "' is used by multiple patterns"@, id, et),
    ) + finding_if(
        !(100 <= p.main_area_ratio <= 900),
        finding(
            8,
            "Main area ratio "@ + ratio_text(p.main_area_ratio as nat) + " must be between 0.1 and 0.9"@,
            id,
            et,
        ),
    ) + finding_if(p.max_windows == 0, finding(11, "Maximum windows must be greater than zero"@, id, et))
        + finding_if(
        p.max_windows > 50,
        finding(
            12,
            "High maximum windows count ("@ + decimal(p.max_windows as nat) + ") may impact performance"@,
            id,
            et,
        ),
    )
}

/// The finding of a window rule's title pattern that does not compile.
pub open spec fn title_findings(r: WindowRule) -> Seq<((Seq<char>, Seq<char>, ValidationSeverity), Seq<char>, Option<u128>, Seq<char>)> {
    match r.window_title_pattern {
        Some(p) => match regex_compile_error(p@) {
            Some(e) => seq![finding(13, "Invalid window title regex '"@ + p@ + "': "@ + e, Some(r.id), "WindowRule"@)],
            None => Seq::empty(),
        },
        None => Seq::empty(),
    }
}

/// The finding of a window rule's fixed geometry with a zero dimension.
pub open spec fn geometry_findings(r: WindowRule) -> Seq<((Seq<char>, Seq<char>, ValidationSeverity), Seq<char>, Option<u128>, Seq<char>)> {
    match r.fixed_geometry {
        Some(g) => finding_if(
            g.width == 0 || g.height == 0,
            finding(16, "Fixed geometry dimensions must be positive"@, Some(r.id), "WindowRule"@),
        ),
        None => Seq::empty(),
    }
}

/// The findings of one window rule.
pub open spec fn window_rule_findings_for(prev: Seq<WindowRule>, r: WindowRule) -> Seq<((Seq<char>, Seq<char>, ValidationSeverity), Seq<char>, Option<u128>, Seq<char>)> {
    title_findings(r) + geometry_findings(r)
}

/// A mapping's shortcut, as written in configuration.
pub open spec fn signature(m: KeyboardMapping) -> Seq<char> {
    config_string(m.shortcut_combination.modifiers@, m.shortcut_combination.key)
}

/// Mapping shortcuts with their identifiers.
pub open spec fn mapping_entries(s: Seq<KeyboardMapping>) -> Seq<(Seq<char>, u128)> {
    s.map_values(|m: KeyboardMapping| (signature(m), m.id))
}

/// The findings of one keyboard mapping, after the mappings before it.
pub open spec fn mapping_findings_for(prev: Seq<KeyboardMapping>, m: KeyboardMapping) -> Seq<((Seq<char>, Seq<char>, ValidationSeverity), Seq<char>, Option<u128>, Seq<char>)> {
    mapping_findings_given(mapping_entries(prev), m)
}

/// The findings of one keyboard mapping, given the shortcuts seen before it.
pub open spec fn mapping_findings_given(seen: Seq<(Seq<char>, u128)>, m: KeyboardMapping) -> Seq<((Seq<char>, Seq<char>, ValidationSeverity), Seq<char>, Option<u128>, Seq<char>)> {
    let et = "KeyboardMapping"@;
    let id = Some(m.id);
    let sig = signature(m);
    let mods = m.shortcut_combination.modifiers@;
    finding_if(
        clashes(seen, sig, m.id),
        finding(1, "Keyboard shortcut '"@ + sig + "' is used by multiple mappings"@, id, et),
    ) + (match shortcut_validation(mods, m.shortcut_combination.key) {
        Err(e) => seq![finding(4, "Invalid keyboard shortcut '"@ + sig + "': "@ + mapping_error_message(e), id, et)],
        Ok(_) => finding_if(
            !regex_match(shortcut_pattern(), sig),
            finding(4, "Invalid keyboard shortcut format: '"@ + sig + "'"@, id, et),
        ),
    }) + finding_if(
        mods.contains(ModifierKey::Command) && !mods.contains(ModifierKey::Option),
        finding(5, "Consider migrating Command-based shortcut '"@ + sig + "' to Option key"@, id, et),
    ) + finding_if(
        is_reserved(lowercase(sig)),
        finding(26, "Shortcut '"@ + sig + "' may conflict with system shortcuts"@, id, et),
    )
}

/// Bundle identifiers with their profiles' identifiers.
pub open spec fn bundle_entries(s: Seq<ApplicationProfile>) -> Seq<(Seq<char>, u128)> {
    s.map_values(|p: ApplicationProfile| (p.bundle_identifier@, p.id))
}

/// The findings of one application profile, after the profiles before it.
pub open spec fn profile_findings_for(prev: Seq<ApplicationProfile>, p: ApplicationProfile) -> Seq<((Seq<char>, Seq<char>, ValidationSeverity), Seq<char>, Option<u128>, Seq<char>)> {
    profile_findings_given(bundle_entries(prev), p)
}

/// The findings of one application profile, given the bundle identifiers
/// seen before it.
pub open spec fn profile_findings_given(seen: Seq<(Seq<char>, u128)>, p: ApplicationProfile) -> Seq<((Seq<char>, Seq<char>, ValidationSeverity), Seq<char>, Option<u128>, Seq<char>)> {
    let et = "ApplicationProfile"@;
    let id = Some(p.id);
    let b = p.bundle_identifier@;
    finding_if(
        clashes(seen, b, p.id),
        finding(17, "Bundle identifier '"@ + b + "' is used by multiple profiles"@, id, et),
    ) + finding_if(
        !regex_match(bundle_pattern(), b),
        finding(18, "Invalid bundle identifier format: '"@ + b + "'"@, id, et),
    ) + finding_if(
        p.display_name@.len() == 0,
        finding(19, "Application display name cannot be empty"@, id, et),
    )
}

/// The findings of one monitor configuration.
pub open spec fn monitor_findings_for(prev: Seq<MonitorConfiguration>, c: MonitorConfiguration) -> Seq<((Seq<char>, Seq<char>, ValidationSeverity), Seq<char>, Option<u128>, Seq<char>)> {
    let et = "MonitorConfiguration"@;
    let id = Some(c.id);
    finding_if(
        c.scale_factor == 0,
        finding(20, "Scale factor "@ + ratio_text(c.scale_factor as nat) + " must be positive"@, id, et),
    ) + finding_if(
        c.scale_factor < 500 || c.scale_factor > 3000,
        finding(
            21,
            "Unusual scale factor "@ + ratio_text(c.scale_factor as nat) + ", typical range is 0.5-3.0"@,
            id,
            et,
        ),
    )
}

/// Keys and identifiers, by their contents.
pub open spec fn pairs_view(v: Seq<(String, u128)>) -> Seq<(Seq<char>, u128)> {
    v.map_values(|e: (String, u128)| (e.0@, e.1))
}

/// The identifier last recorded for a key.
fn latest_in(seen: &Vec<(String, u128)>, key: &str) -> (r: Option<u128>)
    ensures
        r == latest_id(pairs_view(seen@), key@),
{
    let mut j = seen.len();
    assert(pairs_view(seen@).take(j as int) =~= pairs_view(seen@));
    while j > 0
        invariant
            j <= seen@.len(),
            latest_id(pairs_view(seen@), key@) == latest_id(pairs_view(seen@).take(j as int), key@),
        decreases j,
    {
        let ghost e = pairs_view(seen@).take(j as int);
        assert(e.drop_last() =~= pairs_view(seen@).take(j - 1));
        if str_equal(seen[j - 1].0.as_str(), key) {
            return Some(seen[j - 1].1);
        }
        j = j - 1;
    }
    None
}

/// Records a key and identifier.
fn record(seen: &mut Vec<(String, u128)>, key: &str, id: u128)
    ensures
        pairs_view(final(seen)@) == pairs_view(old(seen)@).push((key@, id)),
{
    seen.push((owned(key), id));
    assert(pairs_view(seen@) =~= pairs_view(old(seen)@).push((key@, id)));
}

impl ConfigValidator {
    fn pattern_findings_at(&self, seen: &Vec<(String, u128)>, p: &TilingPattern) -> (r: Vec<ValidationResult>)
        requires
            self.wf(),
        ensures
            findings_view(r@) == pattern_findings_given(pairs_view(seen@), *p),
    {
        let mut results: Vec<ValidationResult> = Vec::new();
        let id = Some(p.id);
        let ghost base = findings_view(results@);
        let c0 = match latest_in(seen, p.name.as_str()) {
            Some(e) => e != p.id,
            None => false,
        };
        if c0 {
            let mut m = owned("Tiling pattern name '");
            push_str(&mut m, p.name.as_str());
            push_str(&mut m, "' is used by multiple patterns");
            results.push(ValidationResult { rule: self.rule(7), message: m, entity_id: id, entity_type: owned("TilingPattern") });
        }
        let ghost f0 = finding_if(
            clashes(pairs_view(seen@), p.name@, p.id),
            finding(7, "Tiling pattern name '"@ + p.name@ + "' is used by multiple patterns"@, id, "TilingPattern"@),
        );
        assert(findings_view(results@) =~= base + f0);
        let c1 = !(100 <= p.main_area_ratio && p.main_area_ratio <= 900);
        if c1 {
            let mut m = owned("Main area ratio ");
            push_ratio(&mut m, p.main_area_ratio);
            push_str(&mut m, " must be between 0.1 and 0.9");
            results.push(ValidationResult { rule: self.rule(8), message: m, entity_id: id, entity_type: owned("TilingPattern") });
        }
        let ghost f1 = finding_if(
            !(100 <= p.main_area_ratio <= 900),
            finding(
                8,
                "Main area ratio "@ + ratio_text(p.main_area_ratio as nat) + " must be between 0.1 and 0.9"@,
                id,
                "TilingPattern"@,
            ),
        );
        assert(findings_view(results@) =~= base + f0 + f1);
        if p.max_windows == 0 {
            results.push(
                ValidationResult {
                    rule: self.rule(11),
                    message: owned("Maximum windows must be greater than zero"),
                    entity_id: id,
                    entity_type: owned("TilingPattern"),
                },
            );
        }
        let ghost f2 = finding_if(
            p.max_windows == 0,
            finding(11, "Maximum windows must be greater than zero"@, id, "TilingPattern"@),
        );
        assert(findings_view(results@) =~= base + f0 + f1 + f2);
        if p.max_windows > 50 {
            let mut m = owned("High maximum windows count (");
            push_decimal(&mut m, p.max_windows as u64);
            push_str(&mut m, ") may impact performance");
            results.push(ValidationResult { rule: self.rule(12), message: m, entity_id: id, entity_type: owned("TilingPattern") });
        }
        let ghost f3 = finding_if(
            p.max_windows > 50,
            finding(
                12,
                "High maximum windows count ("@ + decimal(p.max_windows as nat) + ") may impact performance"@,
                id,
                "TilingPattern"@,
            ),
        );
        assert(findings_view(results@) =~= base + f0 + f1 + f2 + f3);
        results
    }

    /// The findings of a list of tiling patterns: names used by other
    /// patterns, ratios out of range, and window limits of zero or above 50.
    pub fn validate_tiling_patterns(&self, patterns: &[TilingPattern]) -> (r: Vec<ValidationResult>)
        requires
            self.wf(),
        ensures
            findings_view(r@) == each_findings(patterns@, |prev: Seq<TilingPattern>, p: TilingPattern| pattern_findings_for(prev, p)),
    {
        let mut results: Vec<ValidationResult> = Vec::new();
        let mut seen: Vec<(String, u128)> = Vec::new();
        let mut k: usize = 0;
        assert(pairs_view(seen@) =~= pattern_entries(patterns@.take(0)));
        while k < patterns.len()
            invariant
                self.wf(),
                k <= patterns@.len(),
                pairs_view(seen@) == pattern_entries(patterns@.take(k as int)),
                findings_view(results@) == each_findings(patterns@.take(k as int), |prev: Seq<TilingPattern>, p: TilingPattern| pattern_findings_for(prev, p)),
            decreases patterns.len() - k,
        {
            let p = &patterns[k];
            let ghost before = results@;
            let mut item = self.pattern_findings_at(&seen, p);
            let ghost item_view = item@;
            results.append(&mut item);
            record(&mut seen, p.name.as_str(), p.id);
            assert(patterns@.take(k + 1).drop_last() =~= patterns@.take(k as int));
            assert(findings_view(results@) =~= findings_view(before) + findings_view(item_view));
            assert(pattern_entries(patterns@.take(k + 1)) =~= pattern_entries(patterns@.take(k as int)).push((p.name@, p.id)));
            k = k + 1;
        }
        assert(patterns@.take(k as int) =~= patterns@);
        results
    }

    fn window_rule_findings_at(&self, r: &WindowRule) -> (out: Vec<ValidationResult>)
        requires
            self.wf(),
        ensures
            findings_view(out@) == window_rule_findings_for(Seq::empty(), *r),
    {
        let mut results: Vec<ValidationResult> = Vec::new();
        let id = Some(r.id);
        let ghost base = findings_view(results@);
        if let Some(pattern) = &r.window_title_pattern {
            match regex_check(pattern.as_str()) {
                Ok(()) => {},
                Err(e) => {
                    let mut m = owned("Invalid window title regex '");
                    push_str(&mut m, pattern.as_str());
                    push_str(&mut m, "': ");
                    push_str(&mut m, e.as_str());
                    results.push(
                        ValidationResult { rule: self.rule(13), message: m, entity_id: id, entity_type: owned("WindowRule") },
                    );
                },
            }
        }
        let ghost f0 = title_findings(*r);
        assert(findings_view(results@) =~= base + f0);
        if let Some(g) = &r.fixed_geometry {
            if g.width == 0 || g.height == 0 {
                results.push(
                    ValidationResult {
                        rule: self.rule(16),
                        message: owned("Fixed geometry dimensions must be positive"),
                        entity_id: id,
                        entity_type: owned("WindowRule"),
                    },
                );
            }
        }
        let ghost f1 = geometry_findings(*r);
        assert(findings_view(results@) =~= base + f0 + f1);
        results
    }

    /// The findings of a list of window rules: title patterns that do not
    /// compile, and fixed geometry with a zero dimension.
    pub fn validate_window_rules(&self, rules: &[WindowRule]) -> (r: Vec<ValidationResult>)
        requires
            self.wf(),
        ensures
            findings_view(r@) == each_findings(rules@, |prev: Seq<WindowRule>, x: WindowRule| window_rule_findings_for(prev, x)),
    {
        let mut results: Vec<ValidationResult> = Vec::new();
        let mut k: usize = 0;
        while k < rules.len()
            invariant
                self.wf(),
                k <= rules@.len(),
                findings_view(results@) == each_findings(rules@.take(k as int), |prev: Seq<WindowRule>, x: WindowRule| window_rule_findings_for(prev, x)),
            decreases rules.len() - k,
        {
            let ghost before = results@;
            let mut item = self.window_rule_findings_at(&rules[k]);
            let ghost item_view = item@;
            results.append(&mut item);
            assert(rules@.take(k + 1).drop_last() =~= rules@.take(k as int));
            assert(window_rule_findings_for(rules@.take(k as int), rules@[k as int]) == window_rule_findings_for(Seq::empty(), rules@[k as int]));
            assert(findings_view(results@) =~= findings_view(before) + findings_view(item_view));
            k = k + 1;
        }
        assert(rules@.take(k as int) =~= rules@);
        results
    }
}

impl ConfigValidator {
    #[verifier::rlimit(30)]
    fn mapping_findings_at(&self, seen: &Vec<(String, u128)>, mapping: &KeyboardMapping) -> (r: Vec<ValidationResult>)
        requires
            self.wf(),
        ensures
            findings_view(r@) == mapping_findings_given(pairs_view(seen@), *mapping),
    {
        let mut results: Vec<ValidationResult> = Vec::new();
        let id = Some(mapping.id);
        let sc = &mapping.shortcut_combination;
        let sig = sc.to_config_string();
        let ghost base = findings_view(results@);
        let ghost sg = signature(*mapping);
        let ghost mods = mapping.shortcut_combination.modifiers@;
        let c0 = match latest_in(seen, sig.as_str()) {
            Some(e) => e != mapping.id,
            None => false,
        };
        if c0 {
            let mut m = owned("Keyboard shortcut '");
            push_str(&mut m, sig.as_str());
            push_str(&mut m, "' is used by multiple mappings");
            results.push(ValidationResult { rule: self.rule(1), message: m, entity_id: id, entity_type: owned("KeyboardMapping") });
        }
        let ghost f0 = finding_if(
            clashes(pairs_view(seen@), sg, mapping.id),
            finding(1, "Keyboard shortcut '"@ + sg + "' is used by multiple mappings"@, id, "KeyboardMapping"@),
        );
        assert(findings_view(results@) =~= base + f0);
        match sc.validate() {
            Err(err) => {
                let mut m = owned("Invalid keyboard shortcut '");
                push_str(&mut m, sig.as_str());
                push_str(&mut m, "': ");
                let em = err.message();
                push_str(&mut m, em.as_str());
                results.push(ValidationResult { rule: self.rule(4), message: m, entity_id: id, entity_type: owned("KeyboardMapping") });
            },
            Ok(()) => {
                if !regex_is_match(self.keyboard_shortcut_regex.as_str(), sig.as_str()) {
                    let mut m = owned("Invalid keyboard shortcut format: '");
                    push_str(&mut m, sig.as_str());
                    push_str(&mut m, "'");
                    results.push(
                        ValidationResult { rule: self.rule(4), message: m, entity_id: id, entity_type: owned("KeyboardMapping") },
                    );
                }
            },
        }
        let ghost f1 = match shortcut_validation(mods, mapping.shortcut_combination.key) {
            Err(e) => seq![finding(4, "Invalid keyboard shortcut '"@ + sg + "': "@ + mapping_error_message(e), id, "KeyboardMapping"@)],
            Ok(_) => finding_if(
                !regex_match(shortcut_pattern(), sg),
                finding(4, "Invalid keyboard shortcut format: '"@ + sg + "'"@, id, "KeyboardMapping"@),
            ),
        };
        assert(findings_view(results@) =~= base + f0 + f1);
        let c2 = sc.contains_modifier(&ModifierKey::Command) && !sc.has_option_modifier();
        if c2 {
            let mut m = owned("Consider migrating Command-based shortcut '");
            push_str(&mut m, sig.as_str());
            push_str(&mut m, "' to Option key");
            results.push(ValidationResult { rule: self.rule(5), message: m, entity_id: id, entity_type: owned("KeyboardMapping") });
        }
        let ghost f2 = finding_if(
            mods.contains(ModifierKey::Command) && !mods.contains(ModifierKey::Option),
            finding(5, "Consider migrating Command-based shortcut '"@ + sg + "' to Option key"@, id, "KeyboardMapping"@),
        );
        assert(findings_view(results@) =~= base + f0 + f1 + f2);
        if self.is_system_reserved_shortcut(sc) {
            let mut m = owned("Shortcut '");
            push_str(&mut m, sig.as_str());
            push_str(&mut m, "' may conflict with system shortcuts");
            results.push(ValidationResult { rule: self.rule(26), message: m, entity_id: id, entity_type: owned("KeyboardMapping") });
        }
        let ghost f3 = finding_if(
            is_reserved(lowercase(sg)),
            finding(26, "Shortcut '"@ + sg + "' may conflict with system shortcuts"@, id, "KeyboardMapping"@),
        );
        assert(findings_view(results@) =~= base + f0 + f1 + f2 + f3);
        results
    }

    /// The findings of a list of keyboard mappings: shortcuts used by other
    /// mappings, shortcuts that are not valid or of the wrong form, shortcuts
    /// still on Command, and shortcuts the system reserves.
    pub fn validate_keyboard_mappings(&self, mappings: &[KeyboardMapping]) -> (r: Vec<ValidationResult>)
        requires
            self.wf(),
        ensures
            findings_view(r@) == each_findings(mappings@, |prev: Seq<KeyboardMapping>, m: KeyboardMapping| mapping_findings_for(prev, m)),
    {
        let mut results: Vec<ValidationResult> = Vec::new();
        let mut seen: Vec<(String, u128)> = Vec::new();
        let mut k: usize = 0;
        assert(pairs_view(seen@) =~= mapping_entries(mappings@.take(0)));
        while k < mappings.len()
            invariant
                self.wf(),
                k <= mappings@.len(),
                pairs_view(seen@) == mapping_entries(mappings@.take(k as int)),
                findings_view(results@) == each_findings(mappings@.take(k as int), |prev: Seq<KeyboardMapping>, m: KeyboardMapping| mapping_findings_for(prev, m)),
            decreases mappings.len() - k,
        {
            let m = &mappings[k];
            let ghost before = results@;
            let mut item = self.mapping_findings_at(&seen, m);
            let ghost item_view = item@;
            results.append(&mut item);
            let sig = m.shortcut_combination.to_config_string();
            record(&mut seen, sig.as_str(), m.id);
            assert(mappings@.take(k + 1).drop_last() =~= mappings@.take(k as int));
            assert(findings_view(results@) =~= findings_view(before) + findings_view(item_view));
            assert(mapping_entries(mappings@.take(k + 1)) =~= mapping_entries(mappings@.take(k as int)).push((signature(*m), m.id)));
            k = k + 1;
        }
        assert(mappings@.take(k as int) =~= mappings@);
        results
    }

    fn profile_findings_at(&self, seen: &Vec<(String, u128)>, p: &ApplicationProfile) -> (r: Vec<ValidationResult>)
        requires
            self.wf(),
        ensures
            findings_view(r@) == profile_findings_given(pairs_view(seen@), *p),
    {
        let mut results: Vec<ValidationResult> = Vec::new();
        let id = Some(p.id);
        let b = p.bundle_identifier.as_str();
        let ghost base = findings_view(results@);
        let c0 = match latest_in(seen, b) {
            Some(e) => e != p.id,
            None => false,
        };
        if c0 {
            let mut m = owned("Bundle identifier '");
            push_str(&mut m, b);
            push_str(&mut m, "' is used by multiple profiles");
            results.push(ValidationResult { rule: self.rule(17), message: m, entity_id: id, entity_type: owned("ApplicationProfile") });
        }
        let ghost f0 = finding_if(
            clashes(pairs_view(seen@), b@, p.id),
            finding(17, "Bundle identifier '"@ + b@ + "' is used by multiple profiles"@, id, "ApplicationProfile"@),
        );
        assert(findings_view(results@) =~= base + f0);
        if !regex_is_match(self.bundle_id_regex.as_str(), b) {
            let mut m = owned("Invalid bundle identifier format: '");
            push_str(&mut m, b);
            push_str(&mut m, "'");
            results.push(ValidationResult { rule: self.rule(18), message: m, entity_id: id, entity_type: owned("ApplicationProfile") });
        }
        let ghost f1 = finding_if(
            !regex_match(bundle_pattern(), b@),
            finding(18, "Invalid bundle identifier format: '"@ + b@ + "'"@, id, "ApplicationProfile"@),
        );
        assert(findings_view(results@) =~= base + f0 + f1);
        if p.display_name.as_str().unicode_len() == 0 {
            results.push(
                ValidationResult {
                    rule: self.rule(19),
                    message: owned("Application display name cannot be empty"),
                    entity_id: id,
                    entity_type: owned("ApplicationProfile"),
                },
            );
        }
        let ghost f2 = finding_if(
            p.display_name@.len() == 0,
            finding(19, "Application display name cannot be empty"@, id, "ApplicationProfile"@),
        );
        assert(findings_view(results@) =~= base + f0 + f1 + f2);
        results
    }

    /// The findings of a list of application profiles: bundle identifiers
    /// used by other profiles or of the wrong form, and empty names.
    pub fn validate_application_profiles(&self, profiles: &[ApplicationProfile]) -> (r: Vec<ValidationResult>)
        requires
            self.wf(),
        ensures
            findings_view(r@) == each_findings(profiles@, |prev: Seq<ApplicationProfile>, p: ApplicationProfile| profile_findings_for(prev, p)),
    {
        let mut results: Vec<ValidationResult> = Vec::new();
        let mut seen: Vec<(String, u128)> = Vec::new();
        let mut k: usize = 0;
        assert(pairs_view(seen@) =~= bundle_entries(profiles@.take(0)));
        while k < profiles.len()
            invariant
                self.wf(),
                k <= profiles@.len(),
                pairs_view(seen@) == bundle_entries(profiles@.take(k as int)),
                findings_view(results@) == each_findings(profiles@.take(k as int), |prev: Seq<ApplicationProfile>, p: ApplicationProfile| profile_findings_for(prev, p)),
            decreases profiles.len() - k,
        {
            let p = &profiles[k];
            let ghost before = results@;
            let mut item = self.profile_findings_at(&seen, p);
            let ghost item_view = item@;
            results.append(&mut item);
            record(&mut seen, p.bundle_identifier.as_str(), p.id);
            assert(profiles@.take(k + 1).drop_last() =~= profiles@.take(k as int));
            assert(findings_view(results@) =~= findings_view(before) + findings_view(item_view));
            assert(bundle_entries(profiles@.take(k + 1)) =~= bundle_entries(profiles@.take(k as int)).push((p.bundle_identifier@, p.id)));
            k = k + 1;
        }
        assert(profiles@.take(k as int) =~= profiles@);
        results
    }

    fn monitor_findings_at(&self, c: &MonitorConfiguration) -> (r: Vec<ValidationResult>)
        requires
            self.wf(),
        ensures
            findings_view(r@) == monitor_findings_for(Seq::empty(), *c),
    {
        let mut results: Vec<ValidationResult> = Vec::new();
        let id = Some(c.id);
        let ghost base = findings_view(results@);
        if c.scale_factor == 0 {
            let mut m = owned("Scale factor ");
            push_ratio(&mut m, c.scale_factor);
            push_str(&mut m, " must be positive");
            results.push(ValidationResult { rule: self.rule(20), message: m, entity_id: id, entity_type: owned("MonitorConfiguration") });
        }
        let ghost f0 = finding_if(
            c.scale_factor == 0,
            finding(20, "Scale factor "@ + ratio_text(c.scale_factor as nat) + " must be positive"@, id, "MonitorConfiguration"@),
        );
        assert(findings_view(results@) =~= base + f0);
        if c.scale_factor < 500 || c.scale_factor > 3000 {
            let mut m = owned("Unusual scale factor ");
            push_ratio(&mut m, c.scale_factor);
            push_str(&mut m, ", typical range is 0.5-3.0");
            results.push(ValidationResult { rule: self.rule(21), message: m, entity_id: id, entity_type: owned("MonitorConfiguration") });
        }
        let ghost f1 = finding_if(
            c.scale_factor < 500 || c.scale_factor > 3000,
            finding(
                21,
                "Unusual scale factor "@ + ratio_text(c.scale_factor as nat) + ", typical range is 0.5-3.0"@,
                id,
                "MonitorConfiguration"@,
            ),
        );
        assert(findings_view(results@) =~= base + f0 + f1);
        results
    }

    /// The findings of a list of monitor configurations: scale factors of
    /// zero, and scale factors outside 0.5 to 3.
    pub fn validate_monitor_configurations(&self, configs: &[MonitorConfiguration]) -> (r: Vec<ValidationResult>)
        requires
            self.wf(),
        ensures
            findings_view(r@) == each_findings(configs@, |prev: Seq<MonitorConfiguration>, c: MonitorConfiguration| monitor_findings_for(prev, c)),
    {
        let mut results: Vec<ValidationResult> = Vec::new();
        let mut k: usize = 0;
        while k < configs.len()
            invariant
                self.wf(),
                k <= configs@.len(),
                findings_view(results@) == each_findings(configs@.take(k as int), |prev: Seq<MonitorConfiguration>, c: MonitorConfiguration| monitor_findings_for(prev, c)),
            decreases configs.len() - k,
        {
            let ghost before = results@;
            let mut item = self.monitor_findings_at(&configs[k]);
            let ghost item_view = item@;
            results.append(&mut item);
            assert(configs@.take(k + 1).drop_last() =~= configs@.take(k as int));
            assert(monitor_findings_for(configs@.take(k as int), configs@[k as int]) == monitor_findings_for(Seq::empty(), configs@[k as int]));
            assert(findings_view(results@) =~= findings_view(before) + findings_view(item_view));
            k = k + 1;
        }
        assert(configs@.take(k as int) =~= configs@);
        results
    }
}

/// Whether some pattern has the identifier.
pub open spec fn has_pattern_id(s: Seq<TilingPattern>, id: u128) -> bool {
    exists|i: int| 0 <= i < s.len() && (#[trigger] s[i]).id == id
}

/// Whether some workspace has the identifier.
pub open spec fn has_workspace_id(s: Seq<Workspace>, id: u128) -> bool {
    exists|i: int| 0 <= i < s.len() && (#[trigger] s[i]).id == id
}

/// Whether some profile has the identifier.
pub open spec fn has_profile_id(s: Seq<ApplicationProfile>, id: u128) -> bool {
    exists|i: int| 0 <= i < s.len() && (#[trigger] s[i]).id == id
}

/// The finding of a workspace whose tiling pattern does not exist.
pub open spec fn workspace_reference_findings(c: WorkspaceConfig, w: Workspace) -> Seq<((Seq<char>, Seq<char>, ValidationSeverity), Seq<char>, Option<u128>, Seq<char>)> {
    finding_if(
        !has_pattern_id(c.patterns@, w.tiling_pattern_id),
        finding(22, "Workspace '"@ + w.name@ + "' references non-existent tiling pattern"@, Some(w.id), "Workspace"@),
    )
}

/// The findings of a window rule whose workspace or profile does not exist.
pub open spec fn rule_reference_findings(c: WorkspaceConfig, r: WindowRule) -> Seq<((Seq<char>, Seq<char>, ValidationSeverity), Seq<char>, Option<u128>, Seq<char>)> {
    finding_if(
        !has_workspace_id(c.workspaces@, r.workspace_id),
        finding(23, "Window rule references non-existent workspace"@, Some(r.id), "WindowRule"@),
    ) + match r.application_profile_id {
        Some(p) => finding_if(
            !has_profile_id(c.application_profiles@, p),
            finding(24, "Window rule references non-existent application profile"@, Some(r.id), "WindowRule"@),
        ),
        None => Seq::empty(),
    }
}

/// The finding of a mapping whose target workspace does not exist.
pub open spec fn mapping_reference_findings(c: WorkspaceConfig, m: KeyboardMapping) -> Seq<((Seq<char>, Seq<char>, ValidationSeverity), Seq<char>, Option<u128>, Seq<char>)> {
    match m.parameters {
        ActionParameters::WorkspaceId(t) => finding_if(
            !has_workspace_id(c.workspaces@, t),
            finding(
                25,
                "Keyboard mapping '"@ + signature(m) + "' references non-existent workspace"@,
                Some(m.id),
                "KeyboardMapping"@,
            ),
        ),
        _ => Seq::empty(),
    }
}

/// The findings of a monitor configuration whose workspace or patterns do
/// not exist.
pub open spec fn monitor_reference_findings(c: WorkspaceConfig, m: MonitorConfiguration) -> Seq<((Seq<char>, Seq<char>, ValidationSeverity), Seq<char>, Option<u128>, Seq<char>)> {
    let et = "MonitorConfiguration"@;
    finding_if(
        !has_workspace_id(c.workspaces@, m.workspace_id),
        finding(23, "Monitor configuration references non-existent workspace"@, Some(m.id), et),
    ) + finding_if(
        !has_pattern_id(c.patterns@, m.primary_pattern_id),
        finding(22, "Monitor configuration references non-existent primary tiling pattern"@, Some(m.id), et),
    ) + match m.secondary_pattern_id {
        Some(sp) => finding_if(
            !has_pattern_id(c.patterns@, sp),
            finding(22, "Monitor configuration references non-existent secondary tiling pattern"@, Some(m.id), et),
        ),
        None => Seq::empty(),
    }
}

/// The findings of references to entities that do not exist: workspaces,
/// then window rules, mappings and monitor configurations.
pub open spec fn cross_reference_findings(c: WorkspaceConfig) -> Seq<((Seq<char>, Seq<char>, ValidationSeverity), Seq<char>, Option<u128>, Seq<char>)> {
    each_findings(c.workspaces@, |prev: Seq<Workspace>, w: Workspace| workspace_reference_findings(c, w))
        + each_findings(c.window_rules@, |prev: Seq<WindowRule>, r: WindowRule| rule_reference_findings(c, r))
        + each_findings(c.keyboard_mappings@, |prev: Seq<KeyboardMapping>, m: KeyboardMapping| mapping_reference_findings(c, m))
        + each_findings(c.monitor_configs@, |prev: Seq<MonitorConfiguration>, m: MonitorConfiguration| monitor_reference_findings(c, m))
}

/// The notes on sizes that may slow the window manager down.
pub open spec fn performance_findings(c: WorkspaceConfig) -> Seq<((Seq<char>, Seq<char>, ValidationSeverity), Seq<char>, Option<u128>, Seq<char>)> {
    let et = "Configuration"@;
    finding_if(
        c.workspaces@.len() > 20,
        finding(27, "High workspace count ("@ + decimal(c.workspaces@.len()) + ") may impact performance"@, None, et),
    ) + finding_if(
        c.keyboard_mappings@.len() > 100,
        finding(
            28,
            "High keyboard mapping count ("@ + decimal(c.keyboard_mappings@.len()) + ") may impact performance"@,
            None,
            et,
        ),
    ) + finding_if(
        c.window_rules@.len() > 200,
        finding(
            29,
            "High window rule count ("@ + decimal(c.window_rules@.len())
                + ") may impact window detection performance"@,
            None,
            et,
        ),
    )
}

/// All findings of a configuration, part by part.
pub open spec fn config_findings(c: WorkspaceConfig) -> Seq<((Seq<char>, Seq<char>, ValidationSeverity), Seq<char>, Option<u128>, Seq<char>)> {
    workspace_findings(c.workspaces@)
        + each_findings(c.patterns@, |prev: Seq<TilingPattern>, p: TilingPattern| pattern_findings_for(prev, p))
        + each_findings(c.window_rules@, |prev: Seq<WindowRule>, x: WindowRule| window_rule_findings_for(prev, x))
        + each_findings(c.keyboard_mappings@, |prev: Seq<KeyboardMapping>, m: KeyboardMapping| mapping_findings_for(prev, m))
        + each_findings(c.application_profiles@, |prev: Seq<ApplicationProfile>, p: ApplicationProfile| profile_findings_for(prev, p))
        + each_findings(c.monitor_configs@, |prev: Seq<MonitorConfiguration>, m: MonitorConfiguration| monitor_findings_for(prev, m))
        + cross_reference_findings(c) + performance_findings(c)
}

fn has_pattern(s: &Vec<TilingPattern>, id: u128) -> (b: bool)
    ensures
        b == has_pattern_id(s@, id),
{
    let mut i: usize = 0;
    while i < s.len()
        invariant
            i <= s@.len(),
            forall|j: int| 0 <= j < i ==> s@[j].id != id,
        decreases s.len() - i,
    {
        if s[i].id == id {
            return true;
        }
        i = i + 1;
    }
    false
}

fn has_workspace(s: &Vec<Workspace>, id: u128) -> (b: bool)
    ensures
        b == has_workspace_id(s@, id),
{
    let mut i: usize = 0;
    while i < s.len()
        invariant
            i <= s@.len(),
            forall|j: int| 0 <= j < i ==> s@[j].id != id,
        decreases s.len() - i,
    {
        if s[i].id == id {
            return true;
        }
        i = i + 1;
    }
    false
}

fn has_profile(s: &Vec<ApplicationProfile>, id: u128) -> (b: bool)
    ensures
        b == has_profile_id(s@, id),
{
    let mut i: usize = 0;
    while i < s.len()
        invariant
            i <= s@.len(),
            forall|j: int| 0 <= j < i ==> s@[j].id != id,
        decreases s.len() - i,
    {
        if s[i].id == id {
            return true;
        }
        i = i + 1;
    }
    false
}

impl ConfigValidator {
    fn rule_reference_findings_at(&self, config: &WorkspaceConfig, r: &WindowRule) -> (out: Vec<ValidationResult>)
        requires
            self.wf(),
        ensures
            findings_view(out@) == rule_reference_findings(*config, *r),
    {
        let mut results: Vec<ValidationResult> = Vec::new();
        let ghost base = findings_view(results@);
        if !has_workspace(&config.workspaces, r.workspace_id) {
            results.push(
                ValidationResult {
                    rule: self.rule(23),
                    message: owned("Window rule references non-existent workspace"),
                    entity_id: Some(r.id),
                    entity_type: owned("WindowRule"),
                },
            );
        }
        let ghost f0 = finding_if(
            !has_workspace_id(config.workspaces@, r.workspace_id),
            finding(23, "Window rule references non-existent workspace"@, Some(r.id), "WindowRule"@),
        );
        assert(findings_view(results@) =~= base + f0);
        if let Some(pid) = r.application_profile_id {
            if !has_profile(&config.application_profiles, pid) {
                results.push(
                    ValidationResult {
                        rule: self.rule(24),
                        message: owned("Window rule references non-existent application profile"),
                        entity_id: Some(r.id),
                        entity_type: owned("WindowRule"),
                    },
                );
            }
        }
        assert(findings_view(results@) =~= rule_reference_findings(*config, *r));
        results
    }

    fn monitor_reference_findings_at(&self, config: &WorkspaceConfig, m: &MonitorConfiguration) -> (out: Vec<ValidationResult>)
        requires
            self.wf(),
        ensures
            findings_view(out@) == monitor_reference_findings(*config, *m),
    {
        let mut results: Vec<ValidationResult> = Vec::new();
        let ghost base = findings_view(results@);
        let et = "MonitorConfiguration";
        if !has_workspace(&config.workspaces, m.workspace_id) {
            results.push(
                ValidationResult {
                    rule: self.rule(23),
                    message: owned("Monitor configuration references non-existent workspace"),
                    entity_id: Some(m.id),
                    entity_type: owned(et),
                },
            );
        }
        let ghost f0 = finding_if(
            !has_workspace_id(config.workspaces@, m.workspace_id),
            finding(23, "Monitor configuration references non-existent workspace"@, Some(m.id), et@),
        );
        assert(findings_view(results@) =~= base + f0);
        if !has_pattern(&config.patterns, m.primary_pattern_id) {
            results.push(
                ValidationResult {
                    rule: self.rule(22),
                    message: owned("Monitor configuration references non-existent primary tiling pattern"),
                    entity_id: Some(m.id),
                    entity_type: owned(et),
                },
            );
        }
        let ghost f1 = finding_if(
            !has_pattern_id(config.patterns@, m.primary_pattern_id),
            finding(22, "Monitor configuration references non-existent primary tiling pattern"@, Some(m.id), et@),
        );
        assert(findings_view(results@) =~= base + f0 + f1);
        if let Some(sp) = m.secondary_pattern_id {
            if !has_pattern(&config.patterns, sp) {
                results.push(
                    ValidationResult {
                        rule: self.rule(22),
                        message: owned("Monitor configuration references non-existent secondary tiling pattern"),
                        entity_id: Some(m.id),
                        entity_type: owned(et),
                    },
                );
            }
        }
        assert(findings_view(results@) =~= monitor_reference_findings(*config, *m));
        results
    }

    /// The findings of references to entities that do not exist: a
    /// workspace's tiling pattern, a window rule's workspace and profile, a
    /// mapping's target workspace, a monitor configuration's workspace and
    /// patterns.
    pub fn validate_cross_references(&self, config: &WorkspaceConfig) -> (r: Vec<ValidationResult>)
        requires
            self.wf(),
        ensures
            findings_view(r@) == cross_reference_findings(*config),
    {
        let mut results: Vec<ValidationResult> = Vec::new();
        let ws = &config.workspaces;
        let mut k: usize = 0;
        while k < ws.len()
            invariant
                self.wf(),
                ws == &config.workspaces,
                k <= ws@.len(),
                findings_view(results@) == each_findings(ws@.take(k as int), |prev: Seq<Workspace>, w: Workspace| workspace_reference_findings(*config, w)),
            decreases ws.len() - k,
        {
            let w = &ws[k];
            let ghost before = findings_view(results@);
            if !has_pattern(&config.patterns, w.tiling_pattern_id) {
                let mut m = owned("Workspace '");
                push_str(&mut m, w.name.as_str());
                push_str(&mut m, "' references non-existent tiling pattern");
                results.push(ValidationResult { rule: self.rule(22), message: m, entity_id: Some(w.id), entity_type: owned("Workspace") });
            }
            assert(ws@.take(k + 1).drop_last() =~= ws@.take(k as int));
            assert(findings_view(results@) =~= before + workspace_reference_findings(*config, *w));
            k = k + 1;
        }
        assert(ws@.take(k as int) =~= ws@);
        let ghost part0 = findings_view(results@);
        let rules = &config.window_rules;
        let mut k: usize = 0;
        while k < rules.len()
            invariant
                self.wf(),
                rules == &config.window_rules,
                k <= rules@.len(),
                findings_view(results@) == part0 + each_findings(rules@.take(k as int), |prev: Seq<WindowRule>, r: WindowRule| rule_reference_findings(*config, r)),
            decreases rules.len() - k,
        {
            let ghost before = findings_view(results@);
            let mut item = self.rule_reference_findings_at(config, &rules[k]);
            let ghost iv = findings_view(item@);
            let ghost r0 = results@;
            results.append(&mut item);
            assert(findings_view(results@) =~= findings_view(r0) + iv);
            assert(rules@.take(k + 1).drop_last() =~= rules@.take(k as int));
            k = k + 1;
        }
        assert(rules@.take(k as int) =~= rules@);
        let ghost part1 = findings_view(results@);
        let maps = &config.keyboard_mappings;
        let mut k: usize = 0;
        while k < maps.len()
            invariant
                self.wf(),
                maps == &config.keyboard_mappings,
                k <= maps@.len(),
                findings_view(results@) == part1 + each_findings(maps@.take(k as int), |prev: Seq<KeyboardMapping>, m: KeyboardMapping| mapping_reference_findings(*config, m)),
            decreases maps.len() - k,
        {
            let m = &maps[k];
            let ghost before = findings_view(results@);
            if let ActionParameters::WorkspaceId(t) = &m.parameters {
                if !has_workspace(&config.workspaces, *t) {
                    let sig = m.shortcut_combination.to_config_string();
                    let mut msg = owned("Keyboard mapping '");
                    push_str(&mut msg, sig.as_str());
                    push_str(&mut msg, "' references non-existent workspace");
                    results.push(
                        ValidationResult { rule: self.rule(25), message: msg, entity_id: Some(m.id), entity_type: owned("KeyboardMapping") },
                    );
                }
            }
            assert(maps@.take(k + 1).drop_last() =~= maps@.take(k as int));
            assert(findings_view(results@) =~= before + mapping_reference_findings(*config, *m));
            k = k + 1;
        }
        assert(maps@.take(k as int) =~= maps@);
        let ghost part2 = findings_view(results@);
        let mons = &config.monitor_configs;
        let mut k: usize = 0;
        while k < mons.len()
            invariant
                self.wf(),
                mons == &config.monitor_configs,
                k <= mons@.len(),
                findings_view(results@) == part2 + each_findings(mons@.take(k as int), |prev: Seq<MonitorConfiguration>, m: MonitorConfiguration| monitor_reference_findings(*config, m)),
            decreases mons.len() - k,
        {
            let mut item = self.monitor_reference_findings_at(config, &mons[k]);
            let ghost iv = findings_view(item@);
            let ghost r0 = results@;
            results.append(&mut item);
            assert(findings_view(results@) =~= findings_view(r0) + iv);
            assert(mons@.take(k + 1).drop_last() =~= mons@.take(k as int));
            k = k + 1;
        }
        assert(mons@.take(k as int) =~= mons@);
        assert(findings_view(results@) =~= cross_reference_findings(*config));
        results
    }

    /// The notes on the numbers of workspaces, mappings and window rules
    /// that may slow the window manager down.
    pub fn validate_performance_implications(&self, config: &WorkspaceConfig) -> (r: Vec<ValidationResult>)
        requires
            self.wf(),
        ensures
            findings_view(r@) == performance_findings(*config),
    {
        let mut results: Vec<ValidationResult> = Vec::new();
        let ghost base = findings_view(results@);
        let et = "Configuration";
        if config.workspaces.len() > 20 {
            let mut m = owned("High workspace count (");
            push_decimal(&mut m, config.workspaces.len() as u64);
            push_str(&mut m, ") may impact performance");
            results.push(ValidationResult { rule: self.rule(27), message: m, entity_id: None, entity_type: owned(et) });
        }
        let ghost f0 = finding_if(
            config.workspaces@.len() > 20,
            finding(27, "High workspace count ("@ + decimal(config.workspaces@.len()) + ") may impact performance"@, None, et@),
        );
        assert(findings_view(results@) =~= base + f0);
        if config.keyboard_mappings.len() > 100 {
            let mut m = owned("High keyboard mapping count (");
            push_decimal(&mut m, config.keyboard_mappings.len() as u64);
            push_str(&mut m, ") may impact performance");
            results.push(ValidationResult { rule: self.rule(28), message: m, entity_id: None, entity_type: owned(et) });
        }
        let ghost f1 = finding_if(
            config.keyboard_mappings@.len() > 100,
            finding(
                28,
                "High keyboard mapping count ("@ + decimal(config.keyboard_mappings@.len()) + ") may impact performance"@,
                None,
                et@,
            ),
        );
        assert(findings_view(results@) =~= base + f0 + f1);
        if config.window_rules.len() > 200 {
            let mut m = owned("High window rule count (");
            push_decimal(&mut m, config.window_rules.len() as u64);
            push_str(&mut m, ") may impact window detection performance");
            results.push(ValidationResult { rule: self.rule(29), message: m, entity_id: None, entity_type: owned(et) });
        }
        assert(findings_view(results@) =~= performance_findings(*config));
        results
    }

    /// All findings of a configuration: each part's, then references, then sizes.
    pub fn validate_full_config(&self, config: &WorkspaceConfig) -> (r: Vec<ValidationResult>)
        requires
            self.wf(),
        ensures
            findings_view(r@) == config_findings(*config),
    {
        let mut results = self.validate_workspaces(config.workspaces.as_slice());
        let ghost v0 = findings_view(results@);
        let mut part = self.validate_tiling_patterns(config.patterns.as_slice());
        let ghost p1 = findings_view(part@);
        let ghost r0 = results@;
        results.append(&mut part);
        assert(findings_view(results@) =~= findings_view(r0) + p1);
        let mut part = self.validate_window_rules(config.window_rules.as_slice());
        let ghost p2 = findings_view(part@);
        let ghost r0 = results@;
        results.append(&mut part);
        assert(findings_view(results@) =~= findings_view(r0) + p2);
        let mut part = self.validate_keyboard_mappings(config.keyboard_mappings.as_slice());
        let ghost p3 = findings_view(part@);
        let ghost r0 = results@;
        results.append(&mut part);
        assert(findings_view(results@) =~= findings_view(r0) + p3);
        let mut part = self.validate_application_profiles(config.application_profiles.as_slice());
        let ghost p4 = findings_view(part@);
        let ghost r0 = results@;
        results.append(&mut part);
        assert(findings_view(results@) =~= findings_view(r0) + p4);
        let mut part = self.validate_monitor_configurations(config.monitor_configs.as_slice());
        let ghost p5 = findings_view(part@);
        let ghost r0 = results@;
        results.append(&mut part);
        assert(findings_view(results@) =~= findings_view(r0) + p5);
        let mut part = self.validate_cross_references(config);
        let ghost p6 = findings_view(part@);
        let ghost r0 = results@;
        results.append(&mut part);
        assert(findings_view(results@) =~= findings_view(r0) + p6);
        let mut part = self.validate_performance_implications(config);
        let ghost p7 = findings_view(part@);
        let ghost r0 = results@;
        results.append(&mut part);
        assert(findings_view(results@) =~= findings_view(r0) + p7);
        assert(findings_view(results@) =~= config_findings(*config));
        results
    }
}

} // verus!
