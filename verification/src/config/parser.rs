//! Loading configuration: the contents of a configuration file, the checks
//! made while loading it, and the migration of Command-based shortcuts to
//! Option-based ones. Reading files and TOML happen outside; the values
//! they give are checked and migrated here.

use vstd::prelude::*;
use crate::models::workspace::Workspace;
use crate::models::tiling_pattern::TilingPattern;
use crate::models::window_rule::WindowRule;
use crate::models::monitor_configuration::MonitorConfiguration;
use crate::models::keyboard_mapping::KeyboardMapping;
use crate::models::application_profile::ApplicationProfile;
use crate::models::keyboard_mapping::{ActionParameters, config_string};
use crate::models::tiling_pattern::{ratio_text, push_ratio};
use crate::models::workspace::{byte_len, byte_len_exceeds};
use crate::regex_support::{regex_compile_error, regex_match, regex_check, regex_is_match};
use crate::text::{
    owned, push_str, str_equal, contains_seq, str_contains, starts_with, str_starts_with, replace_all,
    replace_str, uuid_text, uuid_string,
};

verus! {

/// Errors of loading a configuration.
#[derive(Debug, Clone, PartialEq, Eq)]
pub enum ConfigParseError {
    /// Reading the file failed
    IoError(String),
    /// The TOML text could not be read
    TomlError(String),
    ValidationError { message: String },
    MigrationError { message: String },
}

/// The message of a configuration loading error.
pub open spec fn parse_error_message(e: ConfigParseError) -> Seq<char> {
    match e {
        ConfigParseError::IoError(m) => "File IO error: "@ + m@,
        ConfigParseError::TomlError(m) => "TOML parsing error: "@ + m@,
        ConfigParseError::ValidationError { message } => "Validation error: "@ + message@,
        ConfigParseError::MigrationError { message } => "Migration error: "@ + message@,
    }
}

impl ConfigParseError {
    /// The human-readable message of this error.
    pub fn message(&self) -> (m: String)
        ensures
            m@ == parse_error_message(*self),
    {
        match self {
            ConfigParseError::IoError(s) => {
                let mut m = owned("File IO error: ");
                push_str(&mut m, s.as_str());
                m
            },
            ConfigParseError::TomlError(s) => {
                let mut m = owned("TOML parsing error: ");
                push_str(&mut m, s.as_str());
                m
            },
            ConfigParseError::ValidationError { message } => {
                let mut m = owned("Validation error: ");
                push_str(&mut m, message.as_str());
                m
            },
            ConfigParseError::MigrationError { message } => {
                let mut m = owned("Migration error: ");
                push_str(&mut m, message.as_str());
                m
            },
        }
    }
}

/// The contents of a configuration.
#[derive(Debug, Clone)]
pub struct WorkspaceConfig {
    pub workspaces: Vec<Workspace>,
    pub patterns: Vec<TilingPattern>,
    pub window_rules: Vec<WindowRule>,
    pub monitor_configs: Vec<MonitorConfiguration>,
    pub keyboard_mappings: Vec<KeyboardMapping>,
    pub application_profiles: Vec<ApplicationProfile>,
}

/// A configuration file: its format version and contents.
#[derive(Debug, Clone)]
pub struct ConfigFile {
    pub version: String,
    pub config: WorkspaceConfig,
}

/// The first problem of a list of entities, each checked after the
/// entities before it.
pub open spec fn first_problem<T>(s: Seq<T>, f: spec_fn(Seq<T>, T) -> Option<Seq<char>>) -> Option<Seq<char>>
    decreases s.len(),
{
    if s.len() == 0 {
        None
    } else {
        match first_problem(s.drop_last(), f) {
            Some(m) => Some(m),
            None => f(s.drop_last(), s.last()),
        }
    }
}

/// Whether an earlier workspace has the name.
pub open spec fn name_seen(prev: Seq<Workspace>, name: Seq<char>) -> bool {
    exists|j: int| 0 <= j < prev.len() && (#[trigger] prev[j]).name@ == name
}

/// Whether an earlier workspace has the shortcut.
pub open spec fn shortcut_seen(prev: Seq<Workspace>, sc: Seq<char>) -> bool {
    exists|j: int| 0 <= j < prev.len() && (#[trigger] prev[j]).keyboard_shortcut@ == sc
}

/// The problem of a workspace while loading, after the workspaces before it.
pub open spec fn workspace_load_problem(prev: Seq<Workspace>, w: Workspace) -> Option<Seq<char>> {
    if name_seen(prev, w.name@) {
        Some("Duplicate workspace name: "@ + w.name@)
    } else if shortcut_seen(prev, w.keyboard_shortcut@) {
        Some("Duplicate keyboard shortcut: "@ + w.keyboard_shortcut@)
    } else if w.name@.len() == 0 {
        Some("Workspace name cannot be empty"@)
    } else if byte_len(w.name@) > 100 {
        Some("Workspace name too long: "@ + w.name@ + " (max 100 chars)"@)
    } else {
        None
    }
}

/// The problem of a tiling pattern while loading.
pub open spec fn pattern_load_problem(prev: Seq<TilingPattern>, p: TilingPattern) -> Option<Seq<char>> {
    if !(100 <= p.main_area_ratio <= 900) {
        Some("Main area ratio "@ + ratio_text(p.main_area_ratio as nat) + " must be between 0.1 and 0.9"@)
    } else if p.max_windows == 0 {
        Some("Max windows must be positive"@)
    } else {
        None
    }
}

/// The pattern mapping shortcuts must match while loading.
pub open spec fn load_shortcut_pattern() -> Seq<char> {
    "^(cmd|ctrl|opt|shift)(\\+(cmd|ctrl|opt|shift))*\\+[a-zA-Z0-9F1-F12]+$"@
}

/// The problem of a shortcut's form.
pub open spec fn shortcut_format_problem(sc: Seq<char>) -> Option<Seq<char>> {
    match regex_compile_error(load_shortcut_pattern()) {
        Some(e) => Some("Invalid regex: "@ + e),
        None => if !regex_match(load_shortcut_pattern(), sc) {
            Some("Invalid shortcut format: "@ + sc)
        } else {
            None
        },
    }
}

/// A mapping's shortcut, as written in configuration.
pub open spec fn mapping_text(m: KeyboardMapping) -> Seq<char> {
    config_string(m.shortcut_combination.modifiers@, m.shortcut_combination.key)
}

/// Whether an earlier mapping has the shortcut.
pub open spec fn mapping_seen(prev: Seq<KeyboardMapping>, sc: Seq<char>) -> bool {
    exists|j: int| 0 <= j < prev.len() && mapping_text(#[trigger] prev[j]) == sc
}

/// The problem of a keyboard mapping while loading.
pub open spec fn mapping_load_problem(prev: Seq<KeyboardMapping>, m: KeyboardMapping) -> Option<Seq<char>> {
    if mapping_seen(prev, mapping_text(m)) {
        Some("Duplicate shortcut combination: "@ + mapping_text(m))
    } else {
        shortcut_format_problem(mapping_text(m))
    }
}

/// The warnings loading mappings gives: one per Command-based shortcut.
pub open spec fn command_warnings(s: Seq<KeyboardMapping>) -> Seq<Seq<char>>
    decreases s.len(),
{
    if s.len() == 0 {
        Seq::empty()
    } else {
        command_warnings(s.drop_last()) + if contains_seq(mapping_text(s.last()), "cmd+"@) {
            seq!["Command-based shortcut detected: "@ + mapping_text(s.last()) + ". Consider migrating to Option key."@]
        } else {
            Seq::empty()
        }
    }
}

/// The number of mappings that pass loading's checks before the first that
/// has a problem, or all.
pub open spec fn checked_mappings(s: Seq<KeyboardMapping>) -> nat
    decreases s.len(),
{
    if s.len() == 0 {
        0
    } else if first_problem(s.drop_last(), |p: Seq<KeyboardMapping>, m: KeyboardMapping| mapping_load_problem(p, m)) is Some {
        checked_mappings(s.drop_last())
    } else if mapping_load_problem(s.drop_last(), s.last()) is Some {
        (s.len() - 1) as nat
    } else {
        s.len()
    }
}

/// Whether an earlier profile has the bundle identifier.
pub open spec fn bundle_seen(prev: Seq<ApplicationProfile>, b: Seq<char>) -> bool {
    exists|j: int| 0 <= j < prev.len() && (#[trigger] prev[j]).bundle_identifier@ == b
}

/// The problem of an application profile while loading.
pub open spec fn profile_load_problem(prev: Seq<ApplicationProfile>, p: ApplicationProfile) -> Option<Seq<char>> {
    if bundle_seen(prev, p.bundle_identifier@) {
        Some("Duplicate bundle identifier: "@ + p.bundle_identifier@)
    } else {
        None
    }
}

/// The problem of a monitor configuration while loading.
pub open spec fn monitor_load_problem(prev: Seq<MonitorConfiguration>, c: MonitorConfiguration) -> Option<Seq<char>> {
    if c.scale_factor == 0 {
        Some("Scale factor must be positive"@)
    } else {
        None
    }
}

/// Whether some pattern has the identifier.
pub open spec fn pattern_known(s: Seq<TilingPattern>, id: u128) -> bool {
    exists|i: int| 0 <= i < s.len() && (#[trigger] s[i]).id == id
}

/// Whether some workspace has the identifier.
pub open spec fn workspace_known(s: Seq<Workspace>, id: u128) -> bool {
    exists|i: int| 0 <= i < s.len() && (#[trigger] s[i]).id == id
}

/// The first reference to an entity that does not exist: a workspace's
/// tiling pattern, then a mapping's target workspace.
pub open spec fn reference_problem(c: WorkspaceConfig) -> Option<Seq<char>> {
    match first_problem(c.workspaces@, |p: Seq<Workspace>, w: Workspace| workspace_reference_problem(c, w)) {
        Some(m) => Some(m),
        None => first_problem(c.keyboard_mappings@, |p: Seq<KeyboardMapping>, m: KeyboardMapping| mapping_reference_problem(c, m)),
    }
}

/// A shortcut moved from Command to Option: a leading `cmd+` makes every
/// `cmd+` an `opt+`; else every `+cmd+` becomes `+opt+`.
pub open spec fn migrated_shortcut(sc: Seq<char>) -> Seq<char> {
    if starts_with(sc, "cmd+"@) {
        replace_all(sc, "cmd+"@, "opt+"@)
    } else if contains_seq(sc, "+cmd+"@) {
        replace_all(sc, "+cmd+"@, "+opt+"@)
    } else {
        sc
    }
}

/// Loads and checks configuration, collecting migration warnings.
pub struct ConfigParser {
    migration_warnings: Vec<String>,
}

/// The contents of a list of strings.
pub open spec fn texts(v: Seq<String>) -> Seq<Seq<char>> {
    v.map_values(|s: String| s@)
}

/// The error of a problem found while loading.
pub open spec fn is_load_error<T>(r: Result<T, ConfigParseError>, problem: Option<Seq<char>>) -> bool {
    match problem {
        Some(m) => r matches Err(ConfigParseError::ValidationError { message }) && message@ == m,
        None => r is Ok,
    }
}

impl ConfigParser {
    /// The warnings collected so far.
    pub closed spec fn warnings(&self) -> Seq<Seq<char>> {
        texts(self.migration_warnings@)
    }

    /// A parser with no warnings.
    pub fn new() -> (p: Self)
        ensures
            p.warnings().len() == 0,
    {
        let p = ConfigParser { migration_warnings: Vec::new() };
        assert(p.warnings() =~= Seq::<Seq<char>>::empty());
        p
    }

    /// The warnings collected so far.
    pub fn get_migration_warnings(&self) -> (r: &[String])
        ensures
            texts(r@) == self.warnings(),
    {
        self.migration_warnings.as_slice()
    }

    fn warn(&mut self, message: String)
        ensures
            final(self).warnings() == old(self).warnings().push(message@),
    {
        self.migration_warnings.push(message);
        assert(final(self).warnings() =~= old(self).warnings().push(message@));
    }

    /// Checks workspaces: no name or shortcut twice, names not empty and at
    /// most 100 bytes.
    pub fn validate_workspaces(&self, workspaces: &[Workspace]) -> (r: Result<(), ConfigParseError>)
        ensures
            is_load_error(r, first_problem(workspaces@, |p: Seq<Workspace>, w: Workspace| workspace_load_problem(p, w))),
    {
        let mut k: usize = 0;
        while k < workspaces.len()
            invariant
                k <= workspaces@.len(),
                first_problem(workspaces@.take(k as int), |p: Seq<Workspace>, w: Workspace| workspace_load_problem(p, w)) is None,
            decreases workspaces.len() - k,
        {
            let w = &workspaces[k];
            let ghost prev = workspaces@.take(k as int);
            assert(workspaces@.take(k + 1).drop_last() =~= prev);
            let mut j: usize = 0;
            while j < k
                invariant
                    j <= k < workspaces@.len(),
                    prev == workspaces@.take(k as int),
                    *w == workspaces@[k as int],
                    first_problem(prev, |p: Seq<Workspace>, w: Workspace| workspace_load_problem(p, w)) is None,
                    forall|i: int| 0 <= i < j ==> (#[trigger] prev[i]).name@ != w.name@,
                decreases k - j,
            {
                if str_equal(workspaces[j].name.as_str(), w.name.as_str()) {
                    assert(prev[j as int].name@ == w.name@);
                    let mut m = owned("Duplicate workspace name: ");
                    push_str(&mut m, w.name.as_str());
                    proof {
                        lemma_first_problem_at(workspaces@, k as int, |p: Seq<Workspace>, w: Workspace| workspace_load_problem(p, w));
                    }
                    return Err(ConfigParseError::ValidationError { message: m });
                }
                j = j + 1;
            }
            let mut j: usize = 0;
            while j < k
                invariant
                    j <= k < workspaces@.len(),
                    prev == workspaces@.take(k as int),
                    *w == workspaces@[k as int],
                    first_problem(prev, |p: Seq<Workspace>, w: Workspace| workspace_load_problem(p, w)) is None,
                    !name_seen(prev, w.name@),
                    forall|i: int| 0 <= i < j ==> (#[trigger] prev[i]).keyboard_shortcut@ != w.keyboard_shortcut@,
                decreases k - j,
            {
                if str_equal(workspaces[j].keyboard_shortcut.as_str(), w.keyboard_shortcut.as_str()) {
                    assert(prev[j as int].keyboard_shortcut@ == w.keyboard_shortcut@);
                    let mut m = owned("Duplicate keyboard shortcut: ");
                    push_str(&mut m, w.keyboard_shortcut.as_str());
                    proof {
                        lemma_first_problem_at(workspaces@, k as int, |p: Seq<Workspace>, w: Workspace| workspace_load_problem(p, w));
                    }
                    return Err(ConfigParseError::ValidationError { message: m });
                }
                j = j + 1;
            }
            if w.name.as_str().unicode_len() == 0 {
                proof {
                    lemma_first_problem_at(workspaces@, k as int, |p: Seq<Workspace>, w: Workspace| workspace_load_problem(p, w));
                }
                return Err(ConfigParseError::ValidationError { message: owned("Workspace name cannot be empty") });
            }
            if byte_len_exceeds(&w.name, 100) {
                let mut m = owned("Workspace name too long: ");
                push_str(&mut m, w.name.as_str());
                push_str(&mut m, " (max 100 chars)");
                proof {
                    lemma_first_problem_at(workspaces@, k as int, |p: Seq<Workspace>, w: Workspace| workspace_load_problem(p, w));
                }
                return Err(ConfigParseError::ValidationError { message: m });
            }
            k = k + 1;
        }
        assert(workspaces@.take(k as int) =~= workspaces@);
        Ok(())
    }
}

impl ConfigParser {
    /// Checks tiling patterns: ratios between 0.1 and 0.9, positive window limits.
    pub fn validate_patterns(&self, patterns: &[TilingPattern]) -> (r: Result<(), ConfigParseError>)
        ensures
            is_load_error(r, first_problem(patterns@, |p: Seq<TilingPattern>, x: TilingPattern| pattern_load_problem(p, x))),
    {
        let mut k: usize = 0;
        while k < patterns.len()
            invariant
                k <= patterns@.len(),
                first_problem(patterns@.take(k as int), |p: Seq<TilingPattern>, x: TilingPattern| pattern_load_problem(p, x)) is None,
            decreases patterns.len() - k,
        {
            let p = &patterns[k];
            proof {
                lemma_first_problem_at(patterns@, k as int, |p: Seq<TilingPattern>, x: TilingPattern| pattern_load_problem(p, x));
            }
            if !(100 <= p.main_area_ratio && p.main_area_ratio <= 900) {
                let mut m = owned("Main area ratio ");
                push_ratio(&mut m, p.main_area_ratio);
                push_str(&mut m, " must be between 0.1 and 0.9");
                return Err(ConfigParseError::ValidationError { message: m });
            }
            if p.max_windows == 0 {
                return Err(ConfigParseError::ValidationError { message: owned("Max windows must be positive") });
            }
            k = k + 1;
        }
        assert(patterns@.take(k as int) =~= patterns@);
        Ok(())
    }

    /// Checks a shortcut's form against the shortcut pattern.
    pub fn validate_shortcut_format(&self, combination: &str) -> (r: Result<(), ConfigParseError>)
        ensures
            is_load_error(r, shortcut_format_problem(combination@)),
    {
        let pattern = "^(cmd|ctrl|opt|shift)(\\+(cmd|ctrl|opt|shift))*\\+[a-zA-Z0-9F1-F12]+$";
        match regex_check(pattern) {
            Ok(()) => {},
            Err(e) => {
                let mut m = owned("Invalid regex: ");
                push_str(&mut m, e.as_str());
                return Err(ConfigParseError::ValidationError { message: m });
            },
        }
        if !regex_is_match(pattern, combination) {
            let mut m = owned("Invalid shortcut format: ");
            push_str(&mut m, combination);
            return Err(ConfigParseError::ValidationError { message: m });
        }
        Ok(())
    }

    /// Checks keyboard mappings: no shortcut twice and every shortcut of the
    /// right form; each checked Command-based shortcut adds a warning.
    pub fn validate_keyboard_mappings(&mut self, mappings: &[KeyboardMapping]) -> (r: Result<(), ConfigParseError>)
        ensures
            is_load_error(r, first_problem(mappings@, |p: Seq<KeyboardMapping>, m: KeyboardMapping| mapping_load_problem(p, m))),
            final(self).warnings() == old(self).warnings() + command_warnings(
                mappings@.take(checked_mappings(mappings@) as int),
            ),
    {
        let mut texts_seen: Vec<String> = Vec::new();
        let mut k: usize = 0;
        assert(mappings@.take(0) =~= Seq::<KeyboardMapping>::empty());
        while k < mappings.len()
            invariant
                k <= mappings@.len(),
                texts_seen@.len() == k,
                forall|i: int| 0 <= i < k ==> (#[trigger] texts_seen@[i])@ == mapping_text(mappings@[i]),
                first_problem(mappings@.take(k as int), |p: Seq<KeyboardMapping>, m: KeyboardMapping| mapping_load_problem(p, m)) is None,
                checked_mappings(mappings@.take(k as int)) == k,
                self.warnings() == old(self).warnings() + command_warnings(mappings@.take(k as int)),
            decreases mappings.len() - k,
        {
            let m = &mappings[k];
            let ghost prev = mappings@.take(k as int);
            assert(mappings@.take(k + 1).drop_last() =~= prev);
            proof {
                lemma_first_problem_at(mappings@, k as int, |p: Seq<KeyboardMapping>, m: KeyboardMapping| mapping_load_problem(p, m));
            }
            let sig = m.shortcut_combination.to_config_string();
            let mut j: usize = 0;
            while j < k
                invariant
                    j <= k < mappings@.len(),
                    texts_seen@.len() == k,
                    prev == mappings@.take(k as int),
                    sig@ == mapping_text(mappings@[k as int]),
                    forall|i: int| 0 <= i < k ==> (#[trigger] texts_seen@[i])@ == mapping_text(mappings@[i]),
                    forall|i: int| 0 <= i < j ==> mapping_text(#[trigger] prev[i]) != sig@,
                    first_problem(prev, |p: Seq<KeyboardMapping>, m: KeyboardMapping| mapping_load_problem(p, m)) is None,
                    self.warnings() == old(self).warnings() + command_warnings(prev),
                decreases k - j,
            {
                if str_equal(texts_seen[j].as_str(), sig.as_str()) {
                    assert(mapping_text(prev[j as int]) == sig@);
                    proof {
                        lemma_checked_stop(mappings@, k as int);
                    }
                    let mut msg = owned("Duplicate shortcut combination: ");
                    push_str(&mut msg, sig.as_str());
                    return Err(ConfigParseError::ValidationError { message: msg });
                }
                j = j + 1;
            }
            match self.validate_shortcut_format(sig.as_str()) {
                Ok(()) => {},
                Err(e) => {
                    proof {
                        lemma_checked_stop(mappings@, k as int);
                    }
                    return Err(e);
                },
            }
            proof {
                lemma_checked_prefix(mappings@, k as int);
            }
            if str_contains(sig.as_str(), "cmd+") {
                let mut w = owned("Command-based shortcut detected: ");
                push_str(&mut w, sig.as_str());
                push_str(&mut w, ". Consider migrating to Option key.");
                self.warn(w);
            }
            texts_seen.push(sig);
            k = k + 1;
        }
        assert(mappings@.take(k as int) =~= mappings@);
        Ok(())
    }

    /// Checks application profiles: no bundle identifier twice.
    pub fn validate_application_profiles(&self, profiles: &[ApplicationProfile]) -> (r: Result<(), ConfigParseError>)
        ensures
            is_load_error(r, first_problem(profiles@, |p: Seq<ApplicationProfile>, x: ApplicationProfile| profile_load_problem(p, x))),
    {
        let mut k: usize = 0;
        while k < profiles.len()
            invariant
                k <= profiles@.len(),
                first_problem(profiles@.take(k as int), |p: Seq<ApplicationProfile>, x: ApplicationProfile| profile_load_problem(p, x)) is None,
            decreases profiles.len() - k,
        {
            let p = &profiles[k];
            let ghost prev = profiles@.take(k as int);
            proof {
                lemma_first_problem_at(profiles@, k as int, |p: Seq<ApplicationProfile>, x: ApplicationProfile| profile_load_problem(p, x));
            }
            let mut j: usize = 0;
            while j < k
                invariant
                    j <= k < profiles@.len(),
                    prev == profiles@.take(k as int),
                    *p == profiles@[k as int],
                    first_problem(prev, |p: Seq<ApplicationProfile>, x: ApplicationProfile| profile_load_problem(p, x)) is None,
                    forall|i: int| 0 <= i < j ==> (#[trigger] prev[i]).bundle_identifier@ != p.bundle_identifier@,
                decreases k - j,
            {
                if str_equal(profiles[j].bundle_identifier.as_str(), p.bundle_identifier.as_str()) {
                    assert(prev[j as int].bundle_identifier@ == p.bundle_identifier@);
                    proof {
                        lemma_first_problem_at(profiles@, k as int, |p: Seq<ApplicationProfile>, x: ApplicationProfile| profile_load_problem(p, x));
                    }
                    let mut m = owned("Duplicate bundle identifier: ");
                    push_str(&mut m, p.bundle_identifier.as_str());
                    return Err(ConfigParseError::ValidationError { message: m });
                }
                j = j + 1;
            }
            k = k + 1;
        }
        assert(profiles@.take(k as int) =~= profiles@);
        Ok(())
    }

    /// Checks monitor configurations: positive scale factors.
    pub fn validate_monitor_configurations(&self, configs: &[MonitorConfiguration]) -> (r: Result<(), ConfigParseError>)
        ensures
            is_load_error(r, first_problem(configs@, |p: Seq<MonitorConfiguration>, c: MonitorConfiguration| monitor_load_problem(p, c))),
    {
        let mut k: usize = 0;
        while k < configs.len()
            invariant
                k <= configs@.len(),
                first_problem(configs@.take(k as int), |p: Seq<MonitorConfiguration>, c: MonitorConfiguration| monitor_load_problem(p, c)) is None,
            decreases configs.len() - k,
        {
            proof {
                lemma_first_problem_at(configs@, k as int, |p: Seq<MonitorConfiguration>, c: MonitorConfiguration| monitor_load_problem(p, c));
            }
            if configs[k].scale_factor == 0 {
                return Err(ConfigParseError::ValidationError { message: owned("Scale factor must be positive") });
            }
            k = k + 1;
        }
        assert(configs@.take(k as int) =~= configs@);
        Ok(())
    }
}

/// The shortcut a workspace has after migration: moved to Option when it
/// holds `cmd+`.
pub open spec fn workspace_shortcut_after(sc: Seq<char>) -> Seq<char> {
    if contains_seq(sc, "cmd+"@) {
        migrated_shortcut(sc)
    } else {
        sc
    }
}

/// The warnings of migrating workspaces' shortcuts, one per changed shortcut.
pub open spec fn shortcut_migration_warnings(s: Seq<Workspace>) -> Seq<Seq<char>>
    decreases s.len(),
{
    if s.len() == 0 {
        Seq::empty()
    } else {
        let w = s.last();
        let after = workspace_shortcut_after(w.keyboard_shortcut@);
        shortcut_migration_warnings(s.drop_last()) + if after != w.keyboard_shortcut@ {
            seq!["Migrated workspace '"@ + w.name@ + "' shortcut: "@ + w.keyboard_shortcut@ + " → "@ + after]
        } else {
            Seq::empty()
        }
    }
}

/// Whether two workspaces agree on everything but their shortcut.
pub open spec fn same_but_shortcut(a: Workspace, b: Workspace) -> bool {
    a == (Workspace { keyboard_shortcut: a.keyboard_shortcut, ..b })
}

/// The first problem loading a configuration finds: workspaces, patterns,
/// mappings, profiles, monitors, then references.
pub open spec fn config_load_problem(c: WorkspaceConfig) -> Option<Seq<char>> {
    let ws = first_problem(c.workspaces@, |p: Seq<Workspace>, w: Workspace| workspace_load_problem(p, w));
    let ps = first_problem(c.patterns@, |p: Seq<TilingPattern>, x: TilingPattern| pattern_load_problem(p, x));
    let ms = first_problem(c.keyboard_mappings@, |p: Seq<KeyboardMapping>, m: KeyboardMapping| mapping_load_problem(p, m));
    let prs = first_problem(c.application_profiles@, |p: Seq<ApplicationProfile>, x: ApplicationProfile| profile_load_problem(p, x));
    let mons = first_problem(c.monitor_configs@, |p: Seq<MonitorConfiguration>, x: MonitorConfiguration| monitor_load_problem(p, x));
    if ws is Some {
        ws
    } else if ps is Some {
        ps
    } else if ms is Some {
        ms
    } else if prs is Some {
        prs
    } else if mons is Some {
        mons
    } else {
        reference_problem(c)
    }
}

/// The problem of a workspace's pattern reference.
pub open spec fn workspace_reference_problem(c: WorkspaceConfig, w: Workspace) -> Option<Seq<char>> {
    if !pattern_known(c.patterns@, w.tiling_pattern_id) {
        Some("Workspace '"@ + w.name@ + "' references non-existent tiling pattern: "@ + uuid_text(w.tiling_pattern_id))
    } else {
        None
    }
}

/// The problem of a mapping's target reference.
pub open spec fn mapping_reference_problem(c: WorkspaceConfig, m: KeyboardMapping) -> Option<Seq<char>> {
    match m.parameters {
        ActionParameters::WorkspaceId(t) => if !workspace_known(c.workspaces@, t) {
            Some("Keyboard mapping references non-existent workspace: "@ + uuid_text(t))
        } else {
            None
        },
        _ => None,
    }
}

impl ConfigParser {
    /// Checks references: each workspace's tiling pattern and each mapping's
    /// target workspace exist.
    pub fn validate_cross_references(&self, config: &WorkspaceConfig) -> (r: Result<(), ConfigParseError>)
        ensures
            is_load_error(r, reference_problem(*config)),
    {
        let ws = &config.workspaces;
        let mut k: usize = 0;
        while k < ws.len()
            invariant
                ws == &config.workspaces,
                k <= ws@.len(),
                first_problem(ws@.take(k as int), |p: Seq<Workspace>, w: Workspace| workspace_reference_problem(*config, w)) is None,
            decreases ws.len() - k,
        {
            let w = &ws[k];
            proof {
                lemma_first_problem_at(ws@, k as int, |p: Seq<Workspace>, w: Workspace| workspace_reference_problem(*config, w));
            }
            let mut found = false;
            let mut i: usize = 0;
            while i < config.patterns.len()
                invariant
                    i <= config.patterns@.len(),
                    found == exists|j: int| 0 <= j < i && (#[trigger] config.patterns@[j]).id == w.tiling_pattern_id,
                decreases config.patterns.len() - i,
            {
                if config.patterns[i].id == w.tiling_pattern_id {
                    found = true;
                }
                i = i + 1;
            }
            if !found {
                let mut m = owned("Workspace '");
                push_str(&mut m, w.name.as_str());
                push_str(&mut m, "' references non-existent tiling pattern: ");
                let idt = uuid_string(w.tiling_pattern_id);
                push_str(&mut m, idt.as_str());
                return Err(ConfigParseError::ValidationError { message: m });
            }
            k = k + 1;
        }
        assert(ws@.take(k as int) =~= ws@);
        let maps = &config.keyboard_mappings;
        let mut k: usize = 0;
        while k < maps.len()
            invariant
                maps == &config.keyboard_mappings,
                k <= maps@.len(),
                first_problem(config.workspaces@, |p: Seq<Workspace>, w: Workspace| workspace_reference_problem(*config, w)) is None,
                first_problem(maps@.take(k as int), |p: Seq<KeyboardMapping>, m: KeyboardMapping| mapping_reference_problem(*config, m)) is None,
            decreases maps.len() - k,
        {
            let m = &maps[k];
            proof {
                lemma_first_problem_at(maps@, k as int, |p: Seq<KeyboardMapping>, m: KeyboardMapping| mapping_reference_problem(*config, m));
            }
            if let ActionParameters::WorkspaceId(t) = &m.parameters {
                let mut found = false;
                let mut i: usize = 0;
                while i < config.workspaces.len()
                    invariant
                        i <= config.workspaces@.len(),
                        found == exists|j: int| 0 <= j < i && (#[trigger] config.workspaces@[j]).id == *t,
                    decreases config.workspaces.len() - i,
                {
                    if config.workspaces[i].id == *t {
                        found = true;
                    }
                    i = i + 1;
                }
                if !found {
                    let mut msg = owned("Keyboard mapping references non-existent workspace: ");
                    let idt = uuid_string(*t);
                    push_str(&mut msg, idt.as_str());
                    return Err(ConfigParseError::ValidationError { message: msg });
                }
            }
            k = k + 1;
        }
        assert(maps@.take(k as int) =~= maps@);
        Ok(())
    }

    /// Checks a configuration as loading does, part by part; checking the
    /// mappings adds their warnings.
    pub fn validate_config(&mut self, config: &WorkspaceConfig) -> (r: Result<(), ConfigParseError>)
        ensures
            is_load_error(r, config_load_problem(*config)),
            ({
                let ws = first_problem(config.workspaces@, |p: Seq<Workspace>, w: Workspace| workspace_load_problem(p, w));
                let ps = first_problem(config.patterns@, |p: Seq<TilingPattern>, x: TilingPattern| pattern_load_problem(p, x));
                final(self).warnings() == if ws is Some || ps is Some {
                    old(self).warnings()
                } else {
                    old(self).warnings() + command_warnings(
                        config.keyboard_mappings@.take(checked_mappings(config.keyboard_mappings@) as int),
                    )
                }
            }),
    {
        self.validate_workspaces(config.workspaces.as_slice())?;
        self.validate_patterns(config.patterns.as_slice())?;
        self.validate_keyboard_mappings(config.keyboard_mappings.as_slice())?;
        self.validate_application_profiles(config.application_profiles.as_slice())?;
        self.validate_monitor_configurations(config.monitor_configs.as_slice())?;
        self.validate_cross_references(config)?;
        Ok(())
    }

    /// A shortcut moved from Command to Option.
    pub fn migrate_shortcut_combination(&self, combination: &str) -> (r: Result<String, ConfigParseError>)
        ensures
            r matches Ok(s) && s@ == migrated_shortcut(combination@),
    {
        proof {
            reveal_strlit("cmd+");
            reveal_strlit("+cmd+");
        }
        if str_starts_with(combination, "cmd+") {
            Ok(replace_str(combination, "cmd+", "opt+"))
        } else if str_contains(combination, "+cmd+") {
            Ok(replace_str(combination, "+cmd+", "+opt+"))
        } else {
            Ok(owned(combination))
        }
    }

    /// Moves workspaces' Command-based shortcuts to Option, with a warning
    /// for each changed shortcut and a closing one when any changed.
    pub fn migrate_keyboard_shortcuts(&mut self, config: WorkspaceConfig) -> (r: Result<WorkspaceConfig, ConfigParseError>)
        ensures
            r matches Ok(c) && {
                &&& c.workspaces@.len() == config.workspaces@.len()
                &&& forall|i: int| 0 <= i < c.workspaces@.len() ==> same_but_shortcut(
                    #[trigger] c.workspaces@[i],
                    config.workspaces@[i],
                ) && c.workspaces@[i].keyboard_shortcut@ == workspace_shortcut_after(
                    config.workspaces@[i].keyboard_shortcut@,
                )
                &&& c.patterns == config.patterns
                &&& c.window_rules == config.window_rules
                &&& c.monitor_configs == config.monitor_configs
                &&& c.keyboard_mappings == config.keyboard_mappings
                &&& c.application_profiles == config.application_profiles
            },
            ({
                let w = shortcut_migration_warnings(config.workspaces@);
                final(self).warnings() == old(self).warnings() + w + if w.len() > 0 {
                    seq!["Configuration migration completed. Command-based shortcuts converted to Option-based."@]
                } else {
                    Seq::empty()
                }
            }),
    {
        let mut config = config;
        let ghost orig = config.workspaces@;
        let ghost orig_cfg = config;
        let mut migration_needed = false;
        let mut k: usize = 0;
        while k < config.workspaces.len()
            invariant
                k <= orig.len(),
                config.workspaces@.len() == orig.len(),
                forall|i: int| 0 <= i < k ==> same_but_shortcut(#[trigger] config.workspaces@[i], orig[i])
                    && config.workspaces@[i].keyboard_shortcut@ == workspace_shortcut_after(orig[i].keyboard_shortcut@),
                forall|i: int| k <= i < orig.len() ==> #[trigger] config.workspaces@[i] == orig[i],
                self.warnings() == old(self).warnings() + shortcut_migration_warnings(orig.take(k as int)),
                migration_needed == (shortcut_migration_warnings(orig.take(k as int)).len() > 0),
                config.patterns == orig_cfg.patterns,
                config.window_rules == orig_cfg.window_rules,
                config.monitor_configs == orig_cfg.monitor_configs,
                config.keyboard_mappings == orig_cfg.keyboard_mappings,
                config.application_profiles == orig_cfg.application_profiles,
            decreases orig.len() - k,
        {
            assert(orig.take(k + 1).drop_last() =~= orig.take(k as int));
            let old_shortcut = config.workspaces[k].keyboard_shortcut.clone();
            if str_contains(old_shortcut.as_str(), "cmd+") {
                let new_shortcut = match self.migrate_shortcut_combination(old_shortcut.as_str()) {
                    Ok(s) => s,
                    Err(e) => {
                        return Err(e);
                    },
                };
                let changed = !str_equal(new_shortcut.as_str(), old_shortcut.as_str());
                if changed {
                    let mut w = owned("Migrated workspace '");
                    push_str(&mut w, config.workspaces[k].name.as_str());
                    push_str(&mut w, "' shortcut: ");
                    push_str(&mut w, old_shortcut.as_str());
                    push_str(&mut w, " → ");
                    push_str(&mut w, new_shortcut.as_str());
                    self.warn(w);
                    migration_needed = true;
                }
                let mut ws = config.workspaces.remove(k);
                ws.keyboard_shortcut = new_shortcut;
                config.workspaces.insert(k, ws);
            }
            k = k + 1;
        }
        assert(orig.take(k as int) =~= orig);
        if migration_needed {
            self.warn(owned("Configuration migration completed. Command-based shortcuts converted to Option-based."));
        }
        Ok(config)
    }
}

impl Default for ConfigParser {
    fn default() -> (p: Self)
        ensures
            p.warnings().len() == 0,
    {
        ConfigParser::new()
    }
}

/// Taking one more mapping without a problem, when those before have
/// none, checks one more.
proof fn lemma_checked_prefix(s: Seq<KeyboardMapping>, k: int)
    requires
        0 <= k < s.len(),
        first_problem(s.take(k), |p: Seq<KeyboardMapping>, m: KeyboardMapping| mapping_load_problem(p, m)) is None,
        mapping_load_problem(s.take(k), s[k]) is None,
    ensures
        checked_mappings(s.take(k + 1)) == k + 1,
{
    assert(s.take(k + 1).drop_last() =~= s.take(k));
}

/// Loading's checks stop at the first mapping with a problem.
proof fn lemma_checked_stop(s: Seq<KeyboardMapping>, k: int)
    requires
        0 <= k < s.len(),
        first_problem(s.take(k), |p: Seq<KeyboardMapping>, m: KeyboardMapping| mapping_load_problem(p, m)) is None,
        mapping_load_problem(s.take(k), s[k]) is Some,
    ensures
        checked_mappings(s) == k,
        first_problem(s, |p: Seq<KeyboardMapping>, m: KeyboardMapping| mapping_load_problem(p, m)) == mapping_load_problem(s.take(k), s[k]),
    decreases s.len(),
{
    lemma_first_problem_at(s, k, |p: Seq<KeyboardMapping>, m: KeyboardMapping| mapping_load_problem(p, m));
    if k == s.len() - 1 {
        assert(s.drop_last() =~= s.take(k));
    } else {
        assert(s.drop_last().take(k) =~= s.take(k));
        assert(s.drop_last()[k] == s[k]);
        lemma_checked_stop(s.drop_last(), k);
    }
}

/// The problem of the first entity, when the entities before it have none,
/// is the first problem of the list.
pub proof fn lemma_first_problem_at<T>(s: Seq<T>, k: int, f: spec_fn(Seq<T>, T) -> Option<Seq<char>>)
    requires
        0 <= k < s.len(),
        first_problem(s.take(k), f) is None,
    ensures
        f(s.take(k), s[k]) is Some ==> first_problem(s, f) == f(s.take(k), s[k]),
        f(s.take(k), s[k]) is None ==> first_problem(s.take(k + 1), f) is None,
    decreases s.len(),
{
    assert(s.take(k + 1).drop_last() =~= s.take(k));
    if k == s.len() - 1 {
        assert(s.take(k + 1) =~= s);
        assert(s.drop_last() =~= s.take(k));
    } else {
        assert(s.drop_last().take(k) =~= s.take(k));
        assert(s.drop_last()[k] == s[k]);
        lemma_first_problem_at(s.drop_last(), k, f);
        if f(s.take(k), s[k]) is Some {
            assert(first_problem(s.drop_last(), f) is Some);
        }
    }
}

} // verus!
