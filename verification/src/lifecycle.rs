//! Application lifecycle: its configuration, the operation mode chosen from
//! the command line, and which parts a mode starts. Running the modes,
//! signals, background tasks and persistence happen outside.

use vstd::prelude::*;
use crate::text::str_equal;

verus! {

/// Application lifecycle configuration.
#[derive(Debug, Clone, Copy, PartialEq, Eq)]
pub struct LifecycleConfig {
    /// Whether to start in background mode
    pub start_in_background: bool,
    /// Whether to show system tray
    pub show_system_tray: bool,
    /// Whether to auto-start on system boot
    pub auto_start: bool,
    /// Graceful shutdown timeout (seconds)
    pub shutdown_timeout_secs: u64,
    /// Health check interval (seconds)
    pub health_check_interval_secs: u64,
    /// State persistence interval (seconds)
    pub state_persistence_interval_secs: u64,
    /// Log rotation settings
    pub log_rotation_enabled: bool,
    /// Maximum log file size (MB)
    pub max_log_size_mb: u64,
}

/// The default lifecycle configuration.
pub open spec fn default_lifecycle_config() -> LifecycleConfig {
    LifecycleConfig {
        start_in_background: true,
        show_system_tray: true,
        auto_start: false,
        shutdown_timeout_secs: 30,
        health_check_interval_secs: 30,
        state_persistence_interval_secs: 300,
        log_rotation_enabled: true,
        max_log_size_mb: 100,
    }
}

impl Default for LifecycleConfig {
    fn default() -> (c: Self)
        ensures
            c == default_lifecycle_config(),
    {
        LifecycleConfig {
            start_in_background: true,
            show_system_tray: true,
            auto_start: false,
            shutdown_timeout_secs: 30,
            health_check_interval_secs: 30,
            state_persistence_interval_secs: 300,
            log_rotation_enabled: true,
            max_log_size_mb: 100,
        }
    }
}

/// Application operation mode.
#[derive(Debug, Clone, Copy, PartialEq, Eq, Structural)]
pub enum OperationMode {
    /// Interactive CLI mode
    Cli,
    /// Background daemon mode
    Daemon,
    /// Foreground service mode
    Service,
}

/// The name of a mode.
pub open spec fn mode_name(m: OperationMode) -> Seq<char> {
    match m {
        OperationMode::Cli => "Cli"@,
        OperationMode::Daemon => "Daemon"@,
        OperationMode::Service => "Service"@,
    }
}

impl OperationMode {
    /// The name of the mode, as recorded in the application state.
    pub fn name(&self) -> (r: &'static str)
        ensures
            r@ == mode_name(*self),
    {
        match self {
            OperationMode::Cli => "Cli",
            OperationMode::Daemon => "Daemon",
            OperationMode::Service => "Service",
        }
    }
}

/// Whether an argument names a command of the command line interface.
pub open spec fn is_cli_command(a: Seq<char>) -> bool {
    a == "workspace"@ || a == "window"@ || a == "config"@ || a == "permissions"@ || a
        == "diagnostics"@ || a == "service"@
}

/// Whether an argument starts with a dash.
pub open spec fn is_flag(a: Seq<char>) -> bool {
    a.len() > 0 && a[0] == '-'
}

/// Whether some argument is one of two words.
pub open spec fn has_arg(args: Seq<Seq<char>>, a: Seq<char>, b: Seq<char>) -> bool {
    exists|i: int| 0 <= i < args.len() && (args[i] == a || args[i] == b)
}

/// The operation mode for a command line (the program name first): a
/// command selects the command line interface; else `--daemon` or `-d`
/// the daemon, `--service` the service; no arguments the daemon; anything
/// else the command line interface.
pub open spec fn mode_for_args(args: Seq<Seq<char>>) -> OperationMode {
    if args.len() > 1 && !is_flag(args[1]) && is_cli_command(args[1]) {
        OperationMode::Cli
    } else if has_arg(args, "--daemon"@, "-d"@) {
        OperationMode::Daemon
    } else if has_arg(args, "--service"@, "--service"@) {
        OperationMode::Service
    } else if args.len() == 1 {
        OperationMode::Daemon
    } else {
        OperationMode::Cli
    }
}

/// The contents of a list of strings.
pub open spec fn arg_views(args: Seq<String>) -> Seq<Seq<char>> {
    args.map_values(|s: String| s@)
}

fn any_arg(args: &Vec<String>, a: &str, b: &str) -> (r: bool)
    ensures
        r == has_arg(arg_views(args@), a@, b@),
{
    let mut i: usize = 0;
    while i < args.len()
        invariant
            i <= args@.len(),
            forall|j: int| 0 <= j < i ==> !(arg_views(args@)[j] == a@ || arg_views(args@)[j] == b@),
        decreases args.len() - i,
    {
        assert(arg_views(args@)[i as int] == args@[i as int]@);
        if str_equal(args[i].as_str(), a) || str_equal(args[i].as_str(), b) {
            return true;
        }
        i = i + 1;
    }
    false
}

fn is_command(a: &str) -> (r: bool)
    ensures
        r == is_cli_command(a@),
{
    str_equal(a, "workspace") || str_equal(a, "window") || str_equal(a, "config") || str_equal(
        a,
        "permissions",
    ) || str_equal(a, "diagnostics") || str_equal(a, "service")
}

/// The operation mode for a command line (the program name first).
pub fn determine_operation_mode(args: &Vec<String>) -> (m: OperationMode)
    ensures
        m == mode_for_args(arg_views(args@)),
{
    let ghost v = arg_views(args@);
    if args.len() > 1 {
        assert(v[1] == args@[1]@);
        let first = args[1].as_str();
        let flag = match first.chars().next() {
            Some(c) => c == '-',
            None => false,
        };
        if !flag && is_command(first) {
            return OperationMode::Cli;
        }
    }
    if any_arg(args, "--daemon", "-d") {
        OperationMode::Daemon
    } else if any_arg(args, "--service", "--service") {
        OperationMode::Service
    } else if args.len() == 1 {
        OperationMode::Daemon
    } else {
        OperationMode::Cli
    }
}

/// Whether a mode starts the system tray: when the configuration shows it
/// and the mode is not the command line interface.
pub fn starts_system_tray(config: &LifecycleConfig, mode: OperationMode) -> (b: bool)
    ensures
        b == (config.show_system_tray && mode != OperationMode::Cli),
{
    config.show_system_tray && mode != OperationMode::Cli
}

} // verus!
