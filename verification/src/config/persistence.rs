//! Where the configuration lives and how it is kept: the paths of the
//! configuration files and their backups, which backups are removed when
//! there are too many, which validation findings stop a save, and the
//! contents of the files written on first start.
//!
//! Reading and writing the files is done by the caller with these paths and
//! decisions.

use vstd::prelude::*;
use crate::text;
use crate::config::parser::{ConfigParseError, ConfigParser, WorkspaceConfig, texts};
use crate::config::validator::{
    ConfigValidator, ValidationResult, ValidationSeverity, finding_view, findings_view, config_findings,
};
use crate::models::tiling_pattern::{LayoutAlgorithm, ResizeBehavior, TilingPattern};
use crate::models::workspace::{Workspace, WorkspaceState};

verus! {

/// An error while keeping the configuration.
#[derive(Debug)]
pub enum PersistenceError {
    IoError(String),
    SerializationError(String),
    ParseError(ConfigParseError),
    ValidationError { validation_errors: Vec<ValidationResult> },
    BackupError { message: String },
    LockError { message: String },
    MigrationError { message: String },
}

/// `name` appended to the path `base` as one more component (`name` is a
/// relative file or directory name).
pub open spec fn joined(base: Seq<char>, name: Seq<char>) -> Seq<char> {
    if base.len() == 0 {
        name
    } else if base.last() == '/' {
        base + name
    } else {
        base + seq!['/'] + name
    }
}

/// Appends the relative name `name` to the path `base` (`Path::join`).
pub fn join_path(base: &str, name: &str) -> (p: String)
    ensures
        p@ == joined(base@, name@),
{
    let cs = text::chars_of(base);
    let mut p = text::owned(base);
    if cs.len() > 0 && cs[cs.len() - 1] != '/' {
        text::push_char(&mut p, '/');
    }
    text::push_str(&mut p, name);
    p
}

/// The user's home directory (`dirs::home_dir`), as text: `None` when there
/// is none or it is not valid UTF-8. It depends on the environment; nothing
/// is promised of it.
#[verifier::external_body]
pub(crate) fn home_dir() -> (r: Option<String>) {
    match dirs::home_dir() {
        Some(p) => p.into_os_string().into_string().ok(),
        None => None,
    }
}

/// The home directory, or the current directory when there is none.
pub open spec fn home_or_here(home: Option<String>) -> Seq<char> {
    match home {
        Some(h) => h@,
        None => "."@,
    }
}

/// The configuration directory under a home directory: `.config/tillers`.
pub open spec fn config_dir_for(home: Option<String>) -> Seq<char> {
    joined(joined(home_or_here(home), ".config"@), "tillers"@)
}

/// The configuration directory under a home directory (or under the
/// current directory when there is none).
pub fn config_dir_under(home: &Option<String>) -> (d: String)
    ensures
        d@ == config_dir_for(*home),
{
    let base = match home {
        Some(h) => text::owned(h.as_str()),
        None => text::owned("."),
    };
    let dot_config = join_path(base.as_str(), ".config");
    join_path(dot_config.as_str(), "tillers")
}

/// Where and how the configuration is kept.
#[derive(Debug, Clone)]
pub struct PersistenceConfig {
    pub config_dir: String,
    pub backup_dir: String,
    pub max_backups: usize,
    pub enable_validation: bool,
    pub atomic_writes: bool,
    pub file_permissions: u32,
}

/// Whether a persistence configuration is the default one for a home
/// directory: the configuration in `~/.config/tillers`, backups in its
/// `backups` directory, at most 10 backups, validation on, atomic writes,
/// files readable and writable by their owner only (mode 0o600).
pub open spec fn is_default_for(c: PersistenceConfig, home: Option<String>) -> bool {
    &&& c.config_dir@ == config_dir_for(home)
    &&& c.backup_dir@ == joined(config_dir_for(home), "backups"@)
    &&& c.max_backups == 10
    &&& c.enable_validation
    &&& c.atomic_writes
    &&& c.file_permissions == 0o600
}

impl PersistenceConfig {
    /// The default configuration for a home directory.
    pub fn for_home(home: Option<String>) -> (c: Self)
        ensures
            is_default_for(c, home),
    {
        let config_dir = config_dir_under(&home);
        let backup_dir = join_path(config_dir.as_str(), "backups");
        PersistenceConfig {
            config_dir,
            backup_dir,
            max_backups: 10,
            enable_validation: true,
            atomic_writes: true,
            file_permissions: 0o600,
        }
    }

    /// The path of a file in the configuration directory.
    pub fn config_file(&self, filename: &str) -> (p: String)
        ensures
            p@ == joined(self.config_dir@, filename@),
    {
        join_path(self.config_dir.as_str(), filename)
    }

    /// The path of the backup of a file taken at a time (in seconds since the
    /// Unix epoch).
    pub fn backup_file(&self, filename: &str, timestamp: u64) -> (p: String)
        ensures
            p@ == joined(self.backup_dir@, backup_name(filename@, timestamp)),
    {
        let name = backup_file_name(filename, timestamp);
        join_path(self.backup_dir.as_str(), name.as_str())
    }
}

impl Default for PersistenceConfig {
    /// The default configuration for the user's home directory.
    fn default() -> (c: Self)
        ensures
            exists|home: Option<String>| is_default_for(c, home),
    {
        let home = home_dir();
        let ghost h = home;
        let c = Self::for_home(home);
        assert(is_default_for(c, h));
        c
    }
}

/// The name of the backup of a file taken at a time:
/// `<file>.<seconds>.backup`.
pub open spec fn backup_name(filename: Seq<char>, timestamp: u64) -> Seq<char> {
    filename + "."@ + text::decimal(timestamp as nat) + ".backup"@
}

/// The name of the backup of a file taken at a time (in seconds since the
/// Unix epoch).
pub fn backup_file_name(filename: &str, timestamp: u64) -> (n: String)
    ensures
        n@ == backup_name(filename@, timestamp),
{
    let mut n = text::owned(filename);
    text::push_str(&mut n, ".");
    text::push_decimal(&mut n, timestamp);
    text::push_str(&mut n, ".backup");
    n
}

/// The extension of a file name: what follows its last dot, when that dot
/// is not the first character.
pub open spec fn extension_of(name: Seq<char>) -> Option<Seq<char>> {
    if exists|k: int| 0 < k < name.len() && name[k] == '.' {
        let k = choose|k: int| 0 < k < name.len() && name[k] == '.'
            && forall|j: int| k < j < name.len() ==> name[j] != '.';
        Some(name.subrange(k + 1, name.len() as int))
    } else {
        None
    }
}

/// Whether a file name has the extension `backup`.
pub fn has_backup_extension(name: &str) -> (b: bool)
    ensures
        b == (extension_of(name@) == Some("backup"@)),
{
    let cs = text::chars_of(name);
    let n = cs.len();
    let mut k: usize = n;
    while k > 1 && cs[k - 1] != '.'
        invariant
            k <= n,
            n == name@.len(),
            cs@ == name@,
            forall|j: int| k <= j < n ==> cs@[j] != '.',
        decreases k,
    {
        k = k - 1;
    }
    // now k <= 1, or cs[k - 1] is the last dot
    let ghost s = name@;
    if k > 1 {
        let dot = k - 1;
        proof {
            assert(0 < dot < s.len() && s[dot as int] == '.');
            let c = choose|c: int| 0 < c < s.len() && s[c] == '.'
                && forall|j: int| c < j < s.len() ==> s[j] != '.';
            assert(0 < dot < s.len() && s[dot as int] == '.'
                && forall|j: int| dot < j < s.len() ==> s[j] != '.');
            if c < dot {
                assert(s[dot as int] != '.');
            } else if c > dot {
                assert(s[c] != '.');
            }
        }
        let mut ext: Vec<char> = Vec::new();
        let mut i: usize = k;
        while i < n
            invariant
                k <= i <= n,
                n == s.len(),
                cs@ == s,
                ext@ == s.subrange(k as int, i as int),
            decreases n - i,
        {
            ext.push(cs[i]);
            i = i + 1;
            assert(ext@ =~= s.subrange(k as int, i as int));
        }
        let backup = text::chars_of("backup");
        text::chars_equal(&ext, &backup)
    } else {
        proof {
            assert forall|j: int| 0 < j < s.len() implies s[j] != '.' by {
                if j < k {
                    assert(j == 0 || k == 1);
                }
            }
        }
        false
    }
}

/// How many backups come before backup `i` when the backups are ordered
/// newest first (a stable order: of two backups modified at the same time,
/// the one listed first comes first), counting the first `k` listed.
pub open spec fn rank_upto(times: Seq<i128>, i: int, k: int) -> nat
    decreases k,
{
    if k <= 0 {
        0
    } else {
        rank_upto(times, i, k - 1) + if times[k - 1] > times[i] || (k - 1 < i && times[k - 1] == times[i]) {
            1nat
        } else {
            0nat
        }
    }
}

/// The position of backup `i` when the backups are ordered newest first.
pub open spec fn rank(times: Seq<i128>, i: int) -> nat {
    rank_upto(times, i, times.len() as int)
}

/// The names of the first `k` backups listed that fall beyond the `max`
/// newest ones.
pub open spec fn removed_upto(backups: Seq<(String, i128)>, max: nat, k: int) -> Seq<Seq<char>>
    decreases k,
{
    if k <= 0 {
        seq![]
    } else if rank(backups.map_values(|b: (String, i128)| b.1), k - 1) >= max {
        removed_upto(backups, max, k - 1).push(backups[k - 1].0@)
    } else {
        removed_upto(backups, max, k - 1)
    }
}

/// The backups to remove so that the `max` newest remain: those beyond the
/// `max` newest (by modification time, the one listed first winning a tie),
/// in the order listed. Each backup is its path and its modification time.
pub fn backups_to_remove(backups: &Vec<(String, i128)>, max_backups: usize) -> (r: Vec<String>)
    ensures
        texts(r@) == removed_upto(backups@, max_backups as nat, backups@.len() as int),
{
    let ghost times = backups@.map_values(|b: (String, i128)| b.1);
    let n = backups.len();
    let mut out: Vec<String> = Vec::new();
    let mut i: usize = 0;
    while i < n
        invariant
            i <= n,
            n == backups@.len(),
            times == backups@.map_values(|b: (String, i128)| b.1),
            texts(out@) == removed_upto(backups@, max_backups as nat, i as int),
        decreases n - i,
    {
        let ti = backups[i].1;
        let mut count: usize = 0;
        let mut j: usize = 0;
        while j < n
            invariant
                i < n,
                j <= n,
                n == backups@.len(),
                times == backups@.map_values(|b: (String, i128)| b.1),
                ti == times[i as int],
                count == rank_upto(times, i as int, j as int),
                count <= j,
            decreases n - j,
        {
            let tj = backups[j].1;
            if tj > ti || (j < i && tj == ti) {
                count = count + 1;
            }
            j = j + 1;
        }
        if count >= max_backups {
            let ghost before = out@;
            out.push(backups[i].0.clone());
            assert(texts(out@) =~= texts(before).push(backups@[i as int].0@));
        }
        i = i + 1;
    }
    out
}

/// Whether a finding is an error (not a warning or a note).
pub open spec fn is_error_finding(f: ((Seq<char>, Seq<char>, ValidationSeverity), Seq<char>, Option<u128>, Seq<char>)) -> bool {
    f.0.2 == ValidationSeverity::Error
}

/// The error findings of a list, in order.
pub open spec fn error_findings(
    fs: Seq<((Seq<char>, Seq<char>, ValidationSeverity), Seq<char>, Option<u128>, Seq<char>)>,
) -> Seq<((Seq<char>, Seq<char>, ValidationSeverity), Seq<char>, Option<u128>, Seq<char>)>
    decreases fs.len(),
{
    if fs.len() == 0 {
        seq![]
    } else if is_error_finding(fs.last()) {
        error_findings(fs.drop_last()).push(fs.last())
    } else {
        error_findings(fs.drop_last())
    }
}

fn copy_finding(r: &ValidationResult) -> (c: ValidationResult)
    ensures
        finding_view(c) == finding_view(*r),
{
    ValidationResult {
        rule: r.rule.duplicate(),
        message: r.message.clone(),
        entity_id: r.entity_id,
        entity_type: r.entity_type.clone(),
    }
}

/// The error findings of a list of findings, in order.
pub fn errors_only(results: &Vec<ValidationResult>) -> (r: Vec<ValidationResult>)
    ensures
        findings_view(r@) == error_findings(findings_view(results@)),
{
    let mut out: Vec<ValidationResult> = Vec::new();
    let mut i: usize = 0;
    while i < results.len()
        invariant
            i <= results@.len(),
            findings_view(out@) == error_findings(findings_view(results@.take(i as int))),
        decreases results@.len() - i,
    {
        let ghost pre = results@.take(i as int);
        let ghost before = out@;
        if results[i].rule.severity == ValidationSeverity::Error {
            out.push(copy_finding(&results[i]));
            assert(findings_view(out@) =~= findings_view(before).push(finding_view(results@[i as int])));
        }
        i = i + 1;
        assert(findings_view(results@.take(i as int)) =~= findings_view(pre).push(finding_view(results@[i - 1])));
        assert(findings_view(results@.take(i as int)).drop_last() =~= findings_view(pre));
    }
    assert(results@.take(i as int) =~= results@);
    out
}

/// The configuration store: where it keeps the configuration, the parser
/// that reads it (and collects the migration warnings) and the validator
/// that checks it.
pub struct ConfigPersistence {
    pub config: PersistenceConfig,
    pub parser: ConfigParser,
    pub validator: ConfigValidator,
}

impl ConfigPersistence {
    /// A store with a fresh parser and validator; the validator's failure to
    /// start is a parse error.
    pub fn new(config: PersistenceConfig) -> (r: Result<Self, PersistenceError>)
        ensures
            match r {
                Ok(p) => p.validator.wf() && p.parser.warnings().len() == 0,
                Err(PersistenceError::ParseError(_)) => true,
                Err(_) => false,
            },
    {
        let parser = ConfigParser::new();
        match ConfigValidator::new() {
            Ok(validator) => Ok(ConfigPersistence { config, parser, validator }),
            Err(e) => Err(PersistenceError::ParseError(e)),
        }
    }

    /// The migration warnings collected while reading.
    pub fn get_migration_warnings(&self) -> (r: &[String])
        ensures
            texts(r@) == self.parser.warnings(),
    {
        self.parser.get_migration_warnings()
    }

    /// Checks a configuration: the error findings, if any, refuse it.
    pub fn validate_config(&self, config: &WorkspaceConfig) -> (r: Result<(), PersistenceError>)
        requires
            self.validator.wf(),
        ensures
            error_findings(config_findings(*config)).len() == 0 ==> r is Ok,
            error_findings(config_findings(*config)).len() > 0 ==> (r matches Err(PersistenceError::ValidationError { validation_errors })
                && findings_view(validation_errors@) == error_findings(config_findings(*config))),
    {
        let results = self.validator.validate_full_config(config);
        let errors = errors_only(&results);
        if errors.len() > 0 {
            Err(PersistenceError::ValidationError { validation_errors: errors })
        } else {
            Ok(())
        }
    }
}

/// The files written on first start, in order.
pub open spec fn initial_file_names() -> Seq<Seq<char>> {
    seq!["workspaces.toml"@, "patterns.toml"@, "keybindings.toml"@, "applications.toml"@, "monitors.toml"@]
}

/// The files backed up before a whole configuration is written, in order.
pub open spec fn backed_up_file_names() -> Seq<Seq<char>> {
    initial_file_names().push("window_rules.toml"@)
}

/// The files written on first start, in order.
pub fn initial_files() -> (v: Vec<&'static str>)
    ensures
        v@.map_values(|s: &'static str| s@) == initial_file_names(),
{
    let v = vec!["workspaces.toml", "patterns.toml", "keybindings.toml", "applications.toml", "monitors.toml"];
    assert(v@.map_values(|s: &'static str| s@) =~= initial_file_names());
    v
}

/// The files backed up before a whole configuration is written, in order.
pub fn backed_up_files() -> (v: Vec<&'static str>)
    ensures
        v@.map_values(|s: &'static str| s@) == backed_up_file_names(),
{
    let v = vec!["workspaces.toml", "patterns.toml", "keybindings.toml", "applications.toml", "monitors.toml", "window_rules.toml"];
    assert(v@.map_values(|s: &'static str| s@) =~= backed_up_file_names());
    v
}

/// Whether a workspace is the one written on first start: "Default", on
/// Option+1, arranged automatically, created and last used at `now`.
pub open spec fn is_initial_workspace(w: Workspace, id: u128, pattern_id: u128, created: i64, used: i64) -> bool {
    &&& w.id == id
    &&& w.name@ == "Default"@
    &&& w.description matches Some(d) && d@ == "Default workspace"@
    &&& w.keyboard_shortcut@ == "opt+1"@
    &&& w.tiling_pattern_id == pattern_id
    &&& w.monitor_assignments@.len() == 0
    &&& w.auto_arrange
    &&& w.created_at == created
    &&& w.last_used == Some(used)
    &&& w.state == WorkspaceState::Inactive
}

/// The workspace written on first start, with the given ids and times.
pub fn initial_workspace(id: u128, pattern_id: u128, created: i64, used: i64) -> (w: Workspace)
    ensures
        is_initial_workspace(w, id, pattern_id, created, used),
{
    Workspace {
        id,
        name: text::owned("Default"),
        description: Some(text::owned("Default workspace")),
        keyboard_shortcut: text::owned("opt+1"),
        tiling_pattern_id: pattern_id,
        monitor_assignments: Vec::new(),
        auto_arrange: true,
        created_at: created,
        last_used: Some(used),
        state: WorkspaceState::default(),
    }
}

/// The workspaces written on first start: the one default workspace, with
/// fresh ids, created and last used now.
pub fn initial_workspaces() -> (v: Vec<Workspace>)
    ensures
        v.len() == 1,
        exists|id: u128, p: u128, c: i64, u: i64| #[trigger] is_initial_workspace(v@[0], id, p, c, u),
{
    let id = crate::ids::new_id();
    let pattern_id = crate::ids::new_id();
    let created = crate::ids::now_millis();
    let used = crate::ids::now_millis();
    let w = initial_workspace(id, pattern_id, created, used);
    let v = vec![w];
    assert(is_initial_workspace(v@[0], id, pattern_id, created, used));
    v
}

/// Whether a pattern is the one written on first start: "Two Column", in
/// columns, 0.6 of the width for the main area, gaps of 10, margins of 5, at
/// most 10 windows, shrinking.
pub open spec fn is_initial_pattern(p: TilingPattern, id: u128) -> bool {
    &&& p.id == id
    &&& p.name@ == "Two Column"@
    &&& p.layout_algorithm == LayoutAlgorithm::Columns
    &&& p.main_area_ratio == 600
    &&& p.gap_size == 10
    &&& p.window_margin == 5
    &&& p.max_windows == 10
    &&& p.resize_behavior == ResizeBehavior::Shrink
}

/// The pattern written on first start, with the given id.
pub fn initial_pattern(id: u128) -> (p: TilingPattern)
    ensures
        is_initial_pattern(p, id),
{
    TilingPattern {
        id,
        name: text::owned("Two Column"),
        layout_algorithm: LayoutAlgorithm::Columns,
        main_area_ratio: 600,
        gap_size: 10,
        window_margin: 5,
        max_windows: 10,
        resize_behavior: ResizeBehavior::Shrink,
    }
}

/// The patterns written on first start: the one default pattern, with a
/// fresh id.
pub fn initial_patterns() -> (v: Vec<TilingPattern>)
    ensures
        v.len() == 1,
        exists|id: u128| #[trigger] is_initial_pattern(v@[0], id),
{
    let id = crate::ids::new_id();
    let p = initial_pattern(id);
    let v = vec![p];
    assert(is_initial_pattern(v@[0], id));
    v
}

/// Counting the first `k` backups, a newer backup has fewer backups before
/// it than an older one, and one fewer still once the newer one is counted.
proof fn lemma_rank_upto_newer(times: Seq<i128>, i: int, j: int, k: int)
    requires
        0 <= i < times.len(),
        0 <= j < times.len(),
        times[i] > times[j],
        0 <= k <= times.len(),
    ensures
        rank_upto(times, j, k) >= rank_upto(times, i, k) + if k > i { 1int } else { 0int },
    decreases k,
{
    if k > 0 {
        lemma_rank_upto_newer(times, i, j, k - 1);
    }
}

/// Cleaning up backups never removes a backup newer than one it keeps: a
/// newer backup comes before an older one in the newest-first order.
pub proof fn law_cleanup_keeps_newer(times: Seq<i128>, i: int, j: int, max: nat)
    requires
        0 <= i < times.len(),
        0 <= j < times.len(),
        times[i] > times[j],
    ensures
        rank(times, i) < rank(times, j),
        rank(times, j) < max ==> rank(times, i) < max,
{
    lemma_rank_upto_newer(times, i, j, times.len() as int);
}

} // verus!
