//! The command-line interface: the commands and their options, and what
//! each command prints.
//!
//! Parsing the arguments, gathering what a command reports (health,
//! permission checks, system facts) and printing are done by the caller.
//! Most commands only report what they would do.

use vstd::prelude::*;
use crate::text::{self, decimal, uuid_text};
use crate::config::parser::texts;
use crate::error_recovery::{HealthStatus, health_description, string_views};
use crate::models::workspace::{Workspace, WorkspaceState};

verus! {

/// The command line: global flags and a command.
#[derive(Debug)]
pub struct TilleRSCli {
    /// Verbose output
    pub verbose: bool,
    /// Configuration file path
    pub config: Option<String>,
    /// Machine-readable JSON output
    pub json: bool,
    pub command: Commands,
}

/// The commands.
#[derive(Debug)]
pub enum Commands {
    Workspace(WorkspaceCommands),
    Window(WindowCommands),
    Config(ConfigCommands),
    Permissions(PermissionCommands),
    Diagnostics(DiagnosticsCommands),
    Service(ServiceCommands),
}

/// Workspace management.
#[derive(Debug)]
pub struct WorkspaceCommands {
    pub action: WorkspaceActions,
}

#[derive(Debug)]
pub enum WorkspaceActions {
    /// List all workspaces
    List,
    /// Create a workspace
    Create { name: String, description: Option<String>, shortcut: Option<String>, auto_arrange: bool },
    /// Delete a workspace (by name or id)
    Delete { workspace: String, force: bool },
    /// Switch to a workspace (by name or id)
    Switch { workspace: String },
    /// Show a workspace (by name or id)
    Show { workspace: String },
}

/// Window management.
#[derive(Debug)]
pub struct WindowCommands {
    pub action: WindowActions,
}

#[derive(Debug)]
pub enum WindowActions {
    /// List all windows
    List,
    /// Show a window
    Show { window_id: u32 },
    /// Move a window to a workspace
    Move { window_id: u32, workspace: String },
    /// Apply a tiling pattern (to the current workspace when none is named)
    Tile { pattern: String, workspace: Option<String> },
}

/// Configuration management.
#[derive(Debug)]
pub struct ConfigCommands {
    pub action: ConfigActions,
}

#[derive(Debug)]
pub enum ConfigActions {
    Show,
    Validate { file: Option<String> },
    SetValue { key: String, value: String },
    Get { key: String },
    Reset { force: bool },
    Export { output: Option<String> },
    Import { file: String, merge: bool },
}

/// Permission management.
#[derive(Debug)]
pub struct PermissionCommands {
    pub action: PermissionActions,
}

#[derive(Debug)]
pub enum PermissionActions {
    /// Check the permission status
    Status,
    /// Request one permission, or all required ones
    Request { permission: Option<String> },
    /// Show how to grant the missing permissions
    Instructions,
}

/// Diagnostics.
#[derive(Debug)]
pub struct DiagnosticsCommands {
    pub action: DiagnosticsActions,
}

#[derive(Debug)]
pub enum DiagnosticsActions {
    Health,
    System,
    ApiCheck,
    Logs { output: Option<String>, lines: usize },
    Benchmark { benchmark_type: String, iterations: usize },
}

/// Service management.
#[derive(Debug)]
pub struct ServiceCommands {
    pub action: ServiceActions,
}

#[derive(Debug)]
pub enum ServiceActions {
    Start,
    Stop,
    Restart,
    Status,
    Install,
    Uninstall,
}

/// What a command prints: lines of text, or one of the JSON reports.
#[derive(Debug)]
pub enum CommandOutput {
    /// These lines, each printed on its own
    Text(Vec<String>),
    /// The workspaces, as pretty JSON
    WorkspacesJson,
    /// The permission status, as JSON
    PermissionStatusJson,
    /// The health report, as JSON
    HealthJson,
}

/// The lines of a text output.
pub open spec fn printed(o: CommandOutput) -> Option<Seq<Seq<char>>> {
    match o {
        CommandOutput::Text(v) => Some(texts(v@)),
        _ => None,
    }
}

/// `true` or `false`.
pub open spec fn bool_text(b: bool) -> Seq<char> {
    if b { "true"@ } else { "false"@ }
}

/// A text in single quotes.
pub open spec fn quoted(s: Seq<char>) -> Seq<char> {
    "'"@ + s + "'"@
}

/// An optional text, or a default.
pub open spec fn text_or(o: Option<String>, d: Seq<char>) -> Seq<char> {
    match o {
        Some(s) => s@,
        None => d,
    }
}

/// The text `{:?}` writes for a list of strings.
pub uninterp spec fn debug_list_text(items: Seq<Seq<char>>) -> Seq<char>;

/// Formats a list of strings as `{:?}` does (std's `Debug` for `Vec<String>`:
/// brackets, quoted and escaped items, comma-separated). The escaping is not
/// written out: the result is named `debug_list_text`.
#[verifier::external_body]
fn debug_list(items: &Vec<String>) -> (s: String)
    ensures
        s@ == debug_list_text(texts(items@)),
{
    format!("{:?}", items)
}

fn push_bool(out: &mut String, b: bool)
    ensures
        final(out)@ == old(out)@ + bool_text(b),
{
    if b {
        text::push_str(out, "true");
    } else {
        text::push_str(out, "false");
    }
}

fn line(parts: &str) -> (s: String)
    ensures
        s@ == parts@,
{
    text::owned(parts)
}

fn quoted_string(s: &str) -> (q: String)
    ensures
        q@ == quoted(s@),
{
    let mut q = text::owned("'");
    text::push_str(&mut q, s);
    text::push_str(&mut q, "'");
    q
}

fn quoted_line(before: &str, s: &str, after: &str) -> (r: String)
    ensures
        r@ == before@ + quoted(s@) + after@,
{
    let mut r = text::owned(before);
    let q = quoted_string(s);
    text::push_str(&mut r, q.as_str());
    text::push_str(&mut r, after);
    r
}

fn opt_or<'a>(o: &'a Option<String>, d: &'a str) -> (s: &'a str)
    ensures
        s@ == text_or(*o, d@),
{
    match o {
        Some(x) => x.as_str(),
        None => d,
    }
}

/// The line of a listed workspace: its id, its name and whether it is active.
pub open spec fn workspace_line(w: Workspace) -> Seq<char> {
    "  "@ + uuid_text(w.id) + " - "@ + w.name@ + " ("@
        + (if w.state == WorkspaceState::Active { "active"@ } else { "inactive"@ }) + ")"@
}

/// What a workspace command prints (the JSON list aside).
pub open spec fn workspace_lines(action: WorkspaceActions, workspaces: Seq<Workspace>) -> Seq<Seq<char>> {
    match action {
        WorkspaceActions::List => if workspaces.len() == 0 {
            seq!["No workspaces found."@]
        } else {
            seq!["Workspaces:"@] + workspaces.map_values(|w: Workspace| workspace_line(w))
        },
        WorkspaceActions::Create { name, description, shortcut, auto_arrange } =>
            seq!["Workspace "@ + quoted(name@) + " would be created with:"@]
            + (match description { Some(d) => seq!["  Description: "@ + d@], None => seq![] })
            + (match shortcut { Some(s) => seq!["  Shortcut: "@ + s@], None => seq![] })
            + seq!["  Auto-arrange: "@ + bool_text(auto_arrange)],
        WorkspaceActions::Delete { workspace, force } =>
            (if force { seq![] } else { seq!["Are you sure you want to delete workspace "@ + quoted(workspace@) + "? (y/N)"@] })
            + seq!["Workspace "@ + quoted(workspace@) + " would be deleted"@],
        WorkspaceActions::Switch { workspace } => seq!["Would switch to workspace "@ + quoted(workspace@)],
        WorkspaceActions::Show { workspace } => seq!["Workspace details for "@ + quoted(workspace@) + " would be displayed here"@],
    }
}

/// What a window command prints.
pub open spec fn window_lines(action: WindowActions, json: bool) -> Seq<Seq<char>> {
    match action {
        WindowActions::List => if json {
            seq!["{\"windows\": []}"@]
        } else {
            seq!["Windows:"@, "  (Window list would be displayed here)"@]
        },
        WindowActions::Show { window_id } => seq!["Window "@ + decimal(window_id as nat) + " details would be displayed here"@],
        WindowActions::Move { window_id, workspace } =>
            seq!["Would move window "@ + decimal(window_id as nat) + " to workspace "@ + quoted(workspace@)],
        WindowActions::Tile { pattern, workspace } =>
            seq!["Would apply tiling pattern "@ + quoted(pattern@) + " to workspace "@ + quoted(text_or(workspace, "current"@))],
    }
}

/// What a configuration command prints.
pub open spec fn config_lines(action: ConfigActions, json: bool) -> Seq<Seq<char>> {
    match action {
        ConfigActions::Show => if json {
            seq!["{\"config\": {\"placeholder\": true}}"@]
        } else {
            seq!["Current Configuration:"@, "  (Configuration would be displayed here)"@]
        },
        ConfigActions::Validate { file } =>
            seq!["Configuration validation would be performed for: "@ + text_or(file, "default config"@)],
        ConfigActions::SetValue { key, value } => seq!["Would set "@ + key@ + " = "@ + value@],
        ConfigActions::Get { key } => seq!["Value for "@ + quoted(key@) + " would be displayed here"@],
        ConfigActions::Reset { force } =>
            (if force { seq![] } else { seq!["Are you sure you want to reset configuration to defaults? (y/N)"@] })
            + seq!["Configuration would be reset to defaults"@],
        ConfigActions::Export { output } => seq!["Configuration would be exported to: "@ + text_or(output, "stdout"@)],
        ConfigActions::Import { file, merge } =>
            seq!["Would import configuration from: "@ + file@ + " (merge: "@ + bool_text(merge) + ")"@],
    }
}

/// What a service command prints.
pub open spec fn service_line(action: ServiceActions) -> Seq<char> {
    match action {
        ServiceActions::Start => "TilleRS service would be started"@,
        ServiceActions::Stop => "TilleRS service would be stopped"@,
        ServiceActions::Restart => "TilleRS service would be restarted"@,
        ServiceActions::Status => "Service status would be displayed here"@,
        ServiceActions::Install => "TilleRS would be installed as a system service"@,
        ServiceActions::Uninstall => "TilleRS system service would be uninstalled"@,
    }
}

/// What the permission status prints.
pub open spec fn permission_status_lines(h: HealthStatus) -> Seq<Seq<char>> {
    seq![
        "Permission Status:"@,
        "  Permissions granted: "@ + bool_text(h.permissions_granted),
        "  Active circuit breakers: "@ + debug_list_text(string_views(h.active_circuit_breakers@)),
        "  System health: "@ + health_description(h),
    ]
}

/// The line of one permission instruction, numbered from 1, after a blank line.
pub open spec fn instruction_line(i: int, instruction: Seq<char>) -> Seq<char> {
    "\n"@ + decimal((i + 1) as nat) + ". "@ + instruction
}

/// What the permission instructions print.
pub open spec fn instruction_lines(instructions: Seq<Seq<char>>) -> Seq<Seq<char>> {
    if instructions.len() == 0 {
        seq!["All required permissions are granted!"@]
    } else {
        seq!["Permission Setup Instructions:"@]
            + Seq::new(instructions.len(), |i: int| instruction_line(i, instructions[i]))
    }
}

/// What the health check prints.
pub open spec fn health_lines(h: HealthStatus, workspace_count: usize) -> Seq<Seq<char>> {
    let names = string_views(h.active_circuit_breakers@);
    seq![
        "=== TilleRS Health Check ==="@,
        "Status: "@ + (if h.permissions_granted && names.len() == 0 { "HEALTHY"@ } else { "UNHEALTHY"@ }),
        "Permissions: "@ + (if h.permissions_granted { "OK"@ } else { "MISSING"@ }),
        "Circuit breakers: "@ + (if names.len() == 0 { "None"@ } else { debug_list_text(names) }),
        "Workspaces: "@ + decimal(workspace_count as nat),
        "Description: "@ + health_description(h),
    ]
}

/// What the system information prints.
pub open spec fn system_lines(version: Seq<char>, rust_version: Seq<char>, os: Seq<char>, arch: Seq<char>) -> Seq<Seq<char>> {
    seq![
        "=== System Information ==="@,
        "TilleRS version: "@ + version,
        "Rust version: "@ + rust_version,
        "Target OS: "@ + os,
        "Target architecture: "@ + arch,
    ]
}

/// What a diagnostics command that needs no report prints.
pub open spec fn diagnostics_lines(action: DiagnosticsActions) -> Option<Seq<Seq<char>>> {
    match action {
        DiagnosticsActions::Health => None,
        DiagnosticsActions::System => None,
        DiagnosticsActions::ApiCheck => Some(seq!["API connectivity check would be performed here"@]),
        DiagnosticsActions::Logs { output, lines } =>
            Some(seq!["Would export "@ + decimal(lines as nat) + " log lines to: "@ + text_or(output, "stdout"@)]),
        DiagnosticsActions::Benchmark { benchmark_type, iterations } =>
            Some(seq!["Would run "@ + benchmark_type@ + " benchmark with "@ + decimal(iterations as nat) + " iterations"@]),
    }
}

/// Runs commands for the command line, in text or JSON.
#[derive(Debug)]
pub struct TilleRSCliExecutor {
    json_output: bool,
}

impl TilleRSCliExecutor {
    /// Whether the executor prints JSON.
    pub closed spec fn json_view(&self) -> bool {
        self.json_output
    }

    /// An executor printing text, or JSON when asked.
    pub fn new(json_output: bool) -> (e: Self)
        ensures
            e.json_view() == json_output,
    {
        TilleRSCliExecutor { json_output }
    }

    /// What a workspace command prints, given the workspaces.
    pub fn execute_workspace_command(&self, cmd: &WorkspaceCommands, workspaces: &Vec<Workspace>) -> (o: CommandOutput)
        ensures
            (cmd.action is List && self.json_view()) ==> o is WorkspacesJson,
            !(cmd.action is List && self.json_view()) ==> printed(o) == Some(workspace_lines(cmd.action, workspaces@)),
    {
        let mut out: Vec<String> = Vec::new();
        match &cmd.action {
            WorkspaceActions::List => {
                if self.json_output {
                    return CommandOutput::WorkspacesJson;
                }
                if workspaces.len() == 0 {
                    out.push(line("No workspaces found."));
                } else {
                    out.push(line("Workspaces:"));
                    let mut i: usize = 0;
                    while i < workspaces.len()
                        invariant
                            i <= workspaces@.len(),
                            workspaces@.len() > 0,
                            texts(out@) == seq!["Workspaces:"@] + workspaces@.take(i as int).map_values(|w: Workspace| workspace_line(w)),
                        decreases workspaces@.len() - i,
                    {
                        let w = &workspaces[i];
                        let mut l = text::owned("  ");
                        let id_text = text::uuid_string(w.id);
                        text::push_str(&mut l, id_text.as_str());
                        text::push_str(&mut l, " - ");
                        text::push_str(&mut l, w.name.as_str());
                        text::push_str(&mut l, " (");
                        if w.is_active() {
                            text::push_str(&mut l, "active");
                        } else {
                            text::push_str(&mut l, "inactive");
                        }
                        text::push_str(&mut l, ")");
                        let ghost before = out@;
                        out.push(l);
                        i = i + 1;
                        assert(texts(out@) =~= texts(before).push(workspace_line(workspaces@[i - 1])));
                        assert(workspaces@.take(i as int).map_values(|w: Workspace| workspace_line(w))
                            =~= workspaces@.take(i - 1).map_values(|w: Workspace| workspace_line(w)).push(workspace_line(workspaces@[i - 1])));
                    }
                    assert(workspaces@.take(i as int) =~= workspaces@);
                }
            },
            WorkspaceActions::Create { name, description, shortcut, auto_arrange } => {
                out.push(quoted_line("Workspace ", name.as_str(), " would be created with:"));
                let ghost l1 = "Workspace "@ + quoted(name@) + " would be created with:"@;
                let ghost dpart: Seq<Seq<char>> = match description { Some(d) => seq!["  Description: "@ + d@], None => seq![] };
                let ghost spart: Seq<Seq<char>> = match shortcut { Some(s) => seq!["  Shortcut: "@ + s@], None => seq![] };
                assert(texts(out@) =~= seq![l1]);
                match description {
                    Some(d) => {
                        let mut l = text::owned("  Description: ");
                        text::push_str(&mut l, d.as_str());
                        let ghost before = out@;
                        out.push(l);
                        assert(texts(out@) =~= texts(before).push(l@));
                    },
                    None => {},
                }
                assert(texts(out@) =~= seq![l1] + dpart);
                match shortcut {
                    Some(s) => {
                        let mut l = text::owned("  Shortcut: ");
                        text::push_str(&mut l, s.as_str());
                        let ghost before = out@;
                        out.push(l);
                        assert(texts(out@) =~= texts(before).push(l@));
                    },
                    None => {},
                }
                assert(texts(out@) =~= seq![l1] + dpart + spart);
                let mut l = text::owned("  Auto-arrange: ");
                push_bool(&mut l, *auto_arrange);
                let ghost before = out@;
                out.push(l);
                assert(texts(out@) =~= texts(before).push(l@));
                assert(texts(out@) =~= seq![l1] + dpart + spart + seq!["  Auto-arrange: "@ + bool_text(*auto_arrange)]);
                assert(workspace_lines(cmd.action, workspaces@) == seq![l1] + dpart + spart + seq!["  Auto-arrange: "@ + bool_text(*auto_arrange)]);
            },
            WorkspaceActions::Delete { workspace, force } => {
                if !*force {
                    out.push(quoted_line("Are you sure you want to delete workspace ", workspace.as_str(), "? (y/N)"));
                }
                out.push(quoted_line("Workspace ", workspace.as_str(), " would be deleted"));
                assert(texts(out@) =~= workspace_lines(cmd.action, workspaces@));
            },
            WorkspaceActions::Switch { workspace } => {
                let mut l = text::owned("Would switch to workspace ");
                let q = quoted_string(workspace.as_str());
                text::push_str(&mut l, q.as_str());
                out.push(l);
                assert(texts(out@) =~= workspace_lines(cmd.action, workspaces@));
            },
            WorkspaceActions::Show { workspace } => {
                out.push(quoted_line("Workspace details for ", workspace.as_str(), " would be displayed here"));
                assert(texts(out@) =~= workspace_lines(cmd.action, workspaces@));
            },
        }
        CommandOutput::Text(out)
    }

    /// What a window command prints.
    pub fn execute_window_command(&self, cmd: &WindowCommands) -> (o: CommandOutput)
        ensures
            printed(o) == Some(window_lines(cmd.action, self.json_view())),
    {
        let mut out: Vec<String> = Vec::new();
        match &cmd.action {
            WindowActions::List => {
                if self.json_output {
                    out.push(line("{\"windows\": []}"));
                } else {
                    out.push(line("Windows:"));
                    out.push(line("  (Window list would be displayed here)"));
                }
            },
            WindowActions::Show { window_id } => {
                let mut l = text::owned("Window ");
                text::push_decimal(&mut l, *window_id as u64);
                text::push_str(&mut l, " details would be displayed here");
                out.push(l);
                assert(texts(out@) =~= window_lines(cmd.action, self.json_view()));
            },
            WindowActions::Move { window_id, workspace } => {
                let mut l = text::owned("Would move window ");
                text::push_decimal(&mut l, *window_id as u64);
                text::push_str(&mut l, " to workspace ");
                let q = quoted_string(workspace.as_str());
                text::push_str(&mut l, q.as_str());
                out.push(l);
                assert(texts(out@) =~= window_lines(cmd.action, self.json_view()));
            },
            WindowActions::Tile { pattern, workspace } => {
                let mut l = quoted_line("Would apply tiling pattern ", pattern.as_str(), " to workspace ");
                let q = quoted_string(opt_or(workspace, "current"));
                text::push_str(&mut l, q.as_str());
                out.push(l);
                assert(texts(out@) =~= window_lines(cmd.action, self.json_view()));
            },
        }
        assert(texts(out@) =~= window_lines(cmd.action, self.json_view()));
        CommandOutput::Text(out)
    }

    /// What a configuration command prints.
    pub fn execute_config_command(&self, cmd: &ConfigCommands) -> (o: CommandOutput)
        ensures
            printed(o) == Some(config_lines(cmd.action, self.json_view())),
    {
        let mut out: Vec<String> = Vec::new();
        match &cmd.action {
            ConfigActions::Show => {
                if self.json_output {
                    out.push(line("{\"config\": {\"placeholder\": true}}"));
                } else {
                    out.push(line("Current Configuration:"));
                    out.push(line("  (Configuration would be displayed here)"));
                }
            },
            ConfigActions::Validate { file } => {
                let mut l = text::owned("Configuration validation would be performed for: ");
                text::push_str(&mut l, opt_or(file, "default config"));
                out.push(l);
            },
            ConfigActions::SetValue { key, value } => {
                let mut l = text::owned("Would set ");
                text::push_str(&mut l, key.as_str());
                text::push_str(&mut l, " = ");
                text::push_str(&mut l, value.as_str());
                out.push(l);
            },
            ConfigActions::Get { key } => {
                out.push(quoted_line("Value for ", key.as_str(), " would be displayed here"));
            },
            ConfigActions::Reset { force } => {
                if !*force {
                    out.push(line("Are you sure you want to reset configuration to defaults? (y/N)"));
                }
                out.push(line("Configuration would be reset to defaults"));
            },
            ConfigActions::Export { output } => {
                let mut l = text::owned("Configuration would be exported to: ");
                text::push_str(&mut l, opt_or(output, "stdout"));
                out.push(l);
            },
            ConfigActions::Import { file, merge } => {
                let mut l = text::owned("Would import configuration from: ");
                text::push_str(&mut l, file.as_str());
                text::push_str(&mut l, " (merge: ");
                push_bool(&mut l, *merge);
                text::push_str(&mut l, ")");
                out.push(l);
            },
        }
        assert(texts(out@) =~= config_lines(cmd.action, self.json_view()));
        CommandOutput::Text(out)
    }

    /// What a service command prints.
    pub fn execute_service_command(&self, cmd: &ServiceCommands) -> (o: CommandOutput)
        ensures
            printed(o) == Some(seq![service_line(cmd.action)]),
    {
        let l = match &cmd.action {
            ServiceActions::Start => line("TilleRS service would be started"),
            ServiceActions::Stop => line("TilleRS service would be stopped"),
            ServiceActions::Restart => line("TilleRS service would be restarted"),
            ServiceActions::Status => line("Service status would be displayed here"),
            ServiceActions::Install => line("TilleRS would be installed as a system service"),
            ServiceActions::Uninstall => line("TilleRS system service would be uninstalled"),
        };
        let out = vec![l];
        assert(texts(out@) =~= seq![service_line(cmd.action)]);
        CommandOutput::Text(out)
    }

    /// What the permission status prints, given the health report.
    pub fn permission_status_output(&self, health: &HealthStatus) -> (o: CommandOutput)
        ensures
            self.json_view() ==> o is PermissionStatusJson,
            !self.json_view() ==> printed(o) == Some(permission_status_lines(*health)),
    {
        if self.json_output {
            return CommandOutput::PermissionStatusJson;
        }
        let mut out: Vec<String> = Vec::new();
        out.push(line("Permission Status:"));
        let mut l = text::owned("  Permissions granted: ");
        push_bool(&mut l, health.permissions_granted);
        out.push(l);
        let mut l = text::owned("  Active circuit breakers: ");
        let d = debug_list(&health.active_circuit_breakers);
        proof {
            assert(texts(health.active_circuit_breakers@) =~= string_views(health.active_circuit_breakers@));
        }
        text::push_str(&mut l, d.as_str());
        out.push(l);
        let mut l = text::owned("  System health: ");
        let desc = health.description();
        text::push_str(&mut l, desc.as_str());
        out.push(l);
        assert(texts(out@) =~= permission_status_lines(*health));
        CommandOutput::Text(out)
    }

    /// What requesting one named permission prints.
    pub fn permission_request_output(&self, permission: &str) -> (o: CommandOutput)
        ensures
            printed(o) == Some(seq!["Would request "@ + permission@ + " permission"@]),
    {
        let mut l = text::owned("Would request ");
        text::push_str(&mut l, permission);
        text::push_str(&mut l, " permission");
        let out = vec![l];
        assert(texts(out@) =~= seq!["Would request "@ + permission@ + " permission"@]);
        CommandOutput::Text(out)
    }

    /// What requesting all required permissions prints, given whether they
    /// are all granted afterwards.
    pub fn permission_recovery_output(&self, granted: bool) -> (o: CommandOutput)
        ensures
            printed(o) == Some(seq![if granted {
                "All required permissions are granted"@
            } else {
                "Some permissions are missing - please check System Preferences"@
            }]),
    {
        let l = if granted {
            line("All required permissions are granted")
        } else {
            line("Some permissions are missing - please check System Preferences")
        };
        let out = vec![l];
        assert(texts(out@) =~= seq![if granted {
            "All required permissions are granted"@
        } else {
            "Some permissions are missing - please check System Preferences"@
        }]);
        CommandOutput::Text(out)
    }

    /// What the permission instructions print, given the instructions for
    /// the missing permissions.
    pub fn permission_instructions_output(&self, instructions: &Vec<String>) -> (o: CommandOutput)
        requires
            instructions.len() < u64::MAX,
        ensures
            printed(o) == Some(instruction_lines(texts(instructions@))),
    {
        let mut out: Vec<String> = Vec::new();
        if instructions.len() == 0 {
            out.push(line("All required permissions are granted!"));
            assert(texts(out@) =~= instruction_lines(texts(instructions@)));
            return CommandOutput::Text(out);
        }
        out.push(line("Permission Setup Instructions:"));
        let ghost ins = texts(instructions@);
        let mut i: usize = 0;
        while i < instructions.len()
            invariant
                i <= instructions@.len(),
                instructions@.len() < u64::MAX,
                ins == texts(instructions@),
                texts(out@) == seq!["Permission Setup Instructions:"@]
                    + Seq::new(i as nat, |k: int| instruction_line(k, ins[k])),
            decreases instructions@.len() - i,
        {
            let mut l = text::owned("\n");
            text::push_decimal(&mut l, (i + 1) as u64);
            text::push_str(&mut l, ". ");
            text::push_str(&mut l, instructions[i].as_str());
            let ghost before = out@;
            assert(l@ == instruction_line(i as int, ins[i as int]));
            out.push(l);
            assert(texts(out@) =~= texts(before).push(instruction_line(i as int, ins[i as int])));
            assert(Seq::new((i + 1) as nat, |k: int| instruction_line(k, ins[k]))
                =~= Seq::new(i as nat, |k: int| instruction_line(k, ins[k])).push(instruction_line(i as int, ins[i as int])));
            i = i + 1;
        }
        assert(texts(out@) =~= instruction_lines(texts(instructions@)));
        CommandOutput::Text(out)
    }

    /// What a permission command that needs no report prints: only the
    /// request for one named permission. `None` for the others, whose output
    /// comes from `permission_status_output`, `permission_recovery_output`
    /// and `permission_instructions_output`.
    pub fn execute_permission_command(&self, cmd: &PermissionCommands) -> (o: Option<CommandOutput>)
        ensures
            match cmd.action {
                PermissionActions::Request { permission: Some(p) } =>
                    o matches Some(x) && printed(x) == Some(seq!["Would request "@ + p@ + " permission"@]),
                _ => o is None,
            },
    {
        match &cmd.action {
            PermissionActions::Request { permission: Some(p) } => Some(self.permission_request_output(p.as_str())),
            _ => None,
        }
    }

    /// What the health check prints, given the health report and the number
    /// of workspaces.
    pub fn health_check_output(&self, health: &HealthStatus, workspace_count: usize) -> (o: CommandOutput)
        ensures
            self.json_view() ==> o is HealthJson,
            !self.json_view() ==> printed(o) == Some(health_lines(*health, workspace_count)),
    {
        if self.json_output {
            return CommandOutput::HealthJson;
        }
        let mut out: Vec<String> = Vec::new();
        out.push(line("=== TilleRS Health Check ==="));
        let mut l = text::owned("Status: ");
        if health.is_healthy() {
            text::push_str(&mut l, "HEALTHY");
        } else {
            text::push_str(&mut l, "UNHEALTHY");
        }
        out.push(l);
        let mut l = text::owned("Permissions: ");
        if health.permissions_granted {
            text::push_str(&mut l, "OK");
        } else {
            text::push_str(&mut l, "MISSING");
        }
        out.push(l);
        let mut l = text::owned("Circuit breakers: ");
        proof {
            assert(texts(health.active_circuit_breakers@) =~= string_views(health.active_circuit_breakers@));
        }
        if health.active_circuit_breakers.len() == 0 {
            text::push_str(&mut l, "None");
        } else {
            let d = debug_list(&health.active_circuit_breakers);
            text::push_str(&mut l, d.as_str());
        }
        out.push(l);
        let mut l = text::owned("Workspaces: ");
        text::push_decimal(&mut l, workspace_count as u64);
        out.push(l);
        let mut l = text::owned("Description: ");
        let desc = health.description();
        text::push_str(&mut l, desc.as_str());
        out.push(l);
        assert(texts(out@) =~= health_lines(*health, workspace_count));
        CommandOutput::Text(out)
    }

    /// What the system information prints, given the version of TilleRS and
    /// of Rust, and the target's operating system and architecture.
    pub fn system_info_output(&self, version: &str, rust_version: &str, os: &str, arch: &str) -> (o: CommandOutput)
        ensures
            printed(o) == Some(system_lines(version@, rust_version@, os@, arch@)),
    {
        let mut out: Vec<String> = Vec::new();
        out.push(line("=== System Information ==="));
        let mut l = text::owned("TilleRS version: ");
        text::push_str(&mut l, version);
        out.push(l);
        let mut l = text::owned("Rust version: ");
        text::push_str(&mut l, rust_version);
        out.push(l);
        let mut l = text::owned("Target OS: ");
        text::push_str(&mut l, os);
        out.push(l);
        let mut l = text::owned("Target architecture: ");
        text::push_str(&mut l, arch);
        out.push(l);
        assert(texts(out@) =~= system_lines(version@, rust_version@, os@, arch@));
        CommandOutput::Text(out)
    }

    /// What a diagnostics command that needs no report prints. `None` for
    /// the health check and the system information, whose output comes from
    /// `health_check_output` and `system_info_output`.
    pub fn execute_diagnostics_command(&self, cmd: &DiagnosticsCommands) -> (o: Option<CommandOutput>)
        ensures
            match diagnostics_lines(cmd.action) {
                Some(ls) => o matches Some(x) && printed(x) == Some(ls),
                None => o is None,
            },
    {
        let l = match &cmd.action {
            DiagnosticsActions::Health => {
                return None;
            },
            DiagnosticsActions::System => {
                return None;
            },
            DiagnosticsActions::ApiCheck => line("API connectivity check would be performed here"),
            DiagnosticsActions::Logs { output, lines } => {
                let mut l = text::owned("Would export ");
                text::push_decimal(&mut l, *lines as u64);
                text::push_str(&mut l, " log lines to: ");
                text::push_str(&mut l, opt_or(output, "stdout"));
                l
            },
            DiagnosticsActions::Benchmark { benchmark_type, iterations } => {
                let mut l = text::owned("Would run ");
                text::push_str(&mut l, benchmark_type.as_str());
                text::push_str(&mut l, " benchmark with ");
                text::push_decimal(&mut l, *iterations as u64);
                text::push_str(&mut l, " iterations");
                l
            },
        };
        let out = vec![l];
        assert(texts(out@) =~= diagnostics_lines(cmd.action).unwrap());
        Some(CommandOutput::Text(out))
    }
}

} // verus!
