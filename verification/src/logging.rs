//! Logging configuration: levels, formats, outputs, presets, settings read
//! from the environment, and the filter directives and output target that
//! the subscriber is built from.

use vstd::prelude::*;
use crate::text::{lowercase, to_lowercase, str_equal, owned, push_str};

verus! {

/// Log levels supported by TilleRS.
#[derive(Debug, Clone, Copy, PartialEq, Eq, Structural)]
pub enum LogLevel {
    Trace,
    Debug,
    Info,
    Warn,
    Error,
}

/// Log output formats.
#[derive(Debug, Clone, Copy, PartialEq, Eq, Structural)]
pub enum LogFormat {
    /// Human-readable format for development
    Pretty,
    /// Compact format for production
    Compact,
    /// JSON format for log aggregation
    Json,
}

/// Log output destinations.
#[derive(Debug, Clone, Copy, PartialEq, Eq, Structural)]
pub enum LogOutput {
    /// Standard output
    Stdout,
    /// File output
    File,
    /// Both stdout and file
    Both,
}

/// Logging configuration for TilleRS.
#[derive(Debug, Clone)]
pub struct LogConfig {
    /// Log level (trace, debug, info, warn, error)
    pub level: LogLevel,
    /// Log format (json, pretty, compact)
    pub format: LogFormat,
    /// Output destination (stdout, file)
    pub output: LogOutput,
    /// File path for file output
    pub file_path: Option<String>,
    /// Include source file and line numbers
    pub include_source: bool,
    /// Include thread names
    pub include_thread_names: bool,
    /// Performance tracing enabled
    pub performance_tracing: bool,
}

/// The level named by a lowercase word.
pub open spec fn level_named(n: Seq<char>) -> Option<LogLevel> {
    if n == "trace"@ {
        Some(LogLevel::Trace)
    } else if n == "debug"@ {
        Some(LogLevel::Debug)
    } else if n == "info"@ {
        Some(LogLevel::Info)
    } else if n == "warn"@ {
        Some(LogLevel::Warn)
    } else if n == "error"@ {
        Some(LogLevel::Error)
    } else {
        None
    }
}

/// The format named by a lowercase word.
pub open spec fn format_named(n: Seq<char>) -> Option<LogFormat> {
    if n == "pretty"@ {
        Some(LogFormat::Pretty)
    } else if n == "compact"@ {
        Some(LogFormat::Compact)
    } else if n == "json"@ {
        Some(LogFormat::Json)
    } else {
        None
    }
}

/// The output named by a lowercase word.
pub open spec fn output_named(n: Seq<char>) -> Option<LogOutput> {
    if n == "stdout"@ {
        Some(LogOutput::Stdout)
    } else if n == "file"@ {
        Some(LogOutput::File)
    } else if n == "both"@ {
        Some(LogOutput::Both)
    } else {
        None
    }
}

/// The lowercase name of a level.
pub open spec fn level_name(l: LogLevel) -> Seq<char> {
    match l {
        LogLevel::Trace => "trace"@,
        LogLevel::Debug => "debug"@,
        LogLevel::Info => "info"@,
        LogLevel::Warn => "warn"@,
        LogLevel::Error => "error"@,
    }
}

impl LogLevel {
    /// Parses a level name, ignoring case.
    pub fn parse(s: &str) -> (r: Result<LogLevel, String>)
        ensures
            match level_named(lowercase(s@)) {
                Some(l) => r == Ok::<LogLevel, String>(l),
                None => r matches Err(m) && m@ == "Invalid log level: "@ + s@,
            },
    {
        let lower = to_lowercase(s);
        let l = lower.as_str();
        if str_equal(l, "trace") {
            Ok(LogLevel::Trace)
        } else if str_equal(l, "debug") {
            Ok(LogLevel::Debug)
        } else if str_equal(l, "info") {
            Ok(LogLevel::Info)
        } else if str_equal(l, "warn") {
            Ok(LogLevel::Warn)
        } else if str_equal(l, "error") {
            Ok(LogLevel::Error)
        } else {
            let mut m = owned("Invalid log level: ");
            push_str(&mut m, s);
            Err(m)
        }
    }

    /// The lowercase name of the level.
    pub fn name(&self) -> (r: &'static str)
        ensures
            r@ == level_name(*self),
    {
        match self {
            LogLevel::Trace => "trace",
            LogLevel::Debug => "debug",
            LogLevel::Info => "info",
            LogLevel::Warn => "warn",
            LogLevel::Error => "error",
        }
    }
}

impl LogFormat {
    /// Parses a format name, ignoring case.
    pub fn parse(s: &str) -> (r: Result<LogFormat, String>)
        ensures
            match format_named(lowercase(s@)) {
                Some(f) => r == Ok::<LogFormat, String>(f),
                None => r matches Err(m) && m@ == "Invalid log format: "@ + s@,
            },
    {
        let lower = to_lowercase(s);
        let l = lower.as_str();
        if str_equal(l, "pretty") {
            Ok(LogFormat::Pretty)
        } else if str_equal(l, "compact") {
            Ok(LogFormat::Compact)
        } else if str_equal(l, "json") {
            Ok(LogFormat::Json)
        } else {
            let mut m = owned("Invalid log format: ");
            push_str(&mut m, s);
            Err(m)
        }
    }
}

impl LogOutput {
    /// Parses an output name, ignoring case.
    pub fn parse(s: &str) -> (r: Result<LogOutput, String>)
        ensures
            match output_named(lowercase(s@)) {
                Some(o) => r == Ok::<LogOutput, String>(o),
                None => r matches Err(m) && m@ == "Invalid log output: "@ + s@,
            },
    {
        let lower = to_lowercase(s);
        let l = lower.as_str();
        if str_equal(l, "stdout") {
            Ok(LogOutput::Stdout)
        } else if str_equal(l, "file") {
            Ok(LogOutput::File)
        } else if str_equal(l, "both") {
            Ok(LogOutput::Both)
        } else {
            let mut m = owned("Invalid log output: ");
            push_str(&mut m, s);
            Err(m)
        }
    }
}

impl core::str::FromStr for LogLevel {
    type Err = String;

    fn from_str(s: &str) -> Result<Self, Self::Err> {
        LogLevel::parse(s)
    }
}

impl core::str::FromStr for LogFormat {
    type Err = String;

    fn from_str(s: &str) -> Result<Self, Self::Err> {
        LogFormat::parse(s)
    }
}

impl core::str::FromStr for LogOutput {
    type Err = String;

    fn from_str(s: &str) -> Result<Self, Self::Err> {
        LogOutput::parse(s)
    }
}

/// The settings of a configuration other than its file path.
pub open spec fn settings(
    c: LogConfig,
) -> (LogLevel, LogFormat, LogOutput, bool, bool, bool) {
    (c.level, c.format, c.output, c.include_source, c.include_thread_names, c.performance_tracing)
}

/// Whether a flag's text reads as true, ignoring case.
pub open spec fn flag_is_true(v: Seq<char>) -> bool {
    lowercase(v) == "true"@
}

fn read_flag(v: &str) -> (b: bool)
    ensures
        b == flag_is_true(v@),
{
    let lower = to_lowercase(v);
    str_equal(lower.as_str(), "true")
}

impl Default for LogConfig {
    fn default() -> (c: Self)
        ensures
            settings(c) == (LogLevel::Info, LogFormat::Pretty, LogOutput::Stdout, false, true, false),
            c.file_path is None,
    {
        LogConfig {
            level: LogLevel::Info,
            format: LogFormat::Pretty,
            output: LogOutput::Stdout,
            file_path: None,
            include_source: false,
            include_thread_names: true,
            performance_tracing: false,
        }
    }
}

impl LogConfig {
    /// A development-friendly configuration.
    pub fn development() -> (c: Self)
        ensures
            settings(c) == (LogLevel::Debug, LogFormat::Pretty, LogOutput::Stdout, true, true, true),
            c.file_path is None,
    {
        LogConfig {
            level: LogLevel::Debug,
            format: LogFormat::Pretty,
            output: LogOutput::Stdout,
            file_path: None,
            include_source: true,
            include_thread_names: true,
            performance_tracing: true,
        }
    }

    /// A production configuration, logging JSON to a file.
    pub fn production() -> (c: Self)
        ensures
            settings(c) == (LogLevel::Warn, LogFormat::Json, LogOutput::File, false, false, false),
            c.file_path matches Some(p) && p@ == "/var/log/tillers.log"@,
    {
        LogConfig {
            level: LogLevel::Warn,
            format: LogFormat::Json,
            output: LogOutput::File,
            file_path: Some(owned("/var/log/tillers.log")),
            include_source: false,
            include_thread_names: false,
            performance_tracing: false,
        }
    }

    /// The default configuration with the settings found in the environment
    /// applied: level, format and output where they parse, the file path as
    /// given, and the source and performance flags set to whether their
    /// text reads `true`. A setting that is absent leaves the default.
    pub fn from_env(
        level: Option<&str>,
        format: Option<&str>,
        output: Option<&str>,
        file_path: Option<&str>,
        include_source: Option<&str>,
        performance: Option<&str>,
    ) -> (c: Self)
        ensures
            c.level == match level {
                Some(v) => match level_named(lowercase(v@)) {
                    Some(l) => l,
                    None => LogLevel::Info,
                },
                None => LogLevel::Info,
            },
            c.format == match format {
                Some(v) => match format_named(lowercase(v@)) {
                    Some(f) => f,
                    None => LogFormat::Pretty,
                },
                None => LogFormat::Pretty,
            },
            c.output == match output {
                Some(v) => match output_named(lowercase(v@)) {
                    Some(o) => o,
                    None => LogOutput::Stdout,
                },
                None => LogOutput::Stdout,
            },
            match file_path {
                Some(p) => c.file_path matches Some(q) && q@ == p@,
                None => c.file_path is None,
            },
            c.include_source == match include_source {
                Some(v) => flag_is_true(v@),
                None => false,
            },
            c.include_thread_names,
            c.performance_tracing == match performance {
                Some(v) => flag_is_true(v@),
                None => false,
            },
    {
        let mut config = LogConfig::default();
        if let Some(v) = level {
            if let Ok(l) = LogLevel::parse(v) {
                config.level = l;
            }
        }
        if let Some(v) = format {
            if let Ok(f) = LogFormat::parse(v) {
                config.format = f;
            }
        }
        if let Some(v) = output {
            if let Ok(o) = LogOutput::parse(v) {
                config.output = o;
            }
        }
        if let Some(p) = file_path {
            config.file_path = Some(owned(p));
        }
        if let Some(v) = include_source {
            config.include_source = read_flag(v);
        }
        if let Some(v) = performance {
            config.performance_tracing = read_flag(v);
        }
        config
    }
}

/// The filter directives for a configuration: the crate at the configured
/// level and, with performance tracing, the busy services at trace level.
pub open spec fn filter_directives(c: LogConfig) -> Seq<char> {
    let base = "tillers="@ + level_name(c.level);
    if c.performance_tracing {
        base + ",tillers::services::workspace_manager=trace"@
            + ",tillers::services::window_manager=trace"@ + ",tillers::services::tiling_engine=trace"@
    } else {
        base
    }
}

/// Builds the filter directives for a configuration.
pub fn create_filter_directives(config: &LogConfig) -> (r: String)
    ensures
        r@ == filter_directives(*config),
{
    let mut f = owned("tillers=");
    push_str(&mut f, config.level.name());
    if config.performance_tracing {
        push_str(&mut f, ",tillers::services::workspace_manager=trace");
        push_str(&mut f, ",tillers::services::window_manager=trace");
        push_str(&mut f, ",tillers::services::tiling_engine=trace");
    }
    f
}

/// Where log lines go.
#[derive(Debug, Clone)]
pub enum LogTarget {
    /// Standard output
    Stdout,
    /// The file at the path
    File(String),
}

/// Chooses where log lines go. File output needs a path; output to both is
/// served on standard output.
pub fn log_target(config: &LogConfig) -> (r: Result<LogTarget, String>)
    ensures
        match (config.output, config.file_path) {
            (LogOutput::Stdout, _) => r matches Ok(LogTarget::Stdout),
            (LogOutput::File, Some(p)) => r matches Ok(LogTarget::File(q)) && q@ == p@,
            (LogOutput::Both, Some(_)) => r matches Ok(LogTarget::Stdout),
            (_, None) => r matches Err(m) && m@ == "File path required for file output"@,
        },
{
    match (config.output, &config.file_path) {
        (LogOutput::Stdout, _) => Ok(LogTarget::Stdout),
        (LogOutput::File, Some(p)) => Ok(LogTarget::File(owned(p.as_str()))),
        (LogOutput::Both, Some(_)) => Ok(LogTarget::Stdout),
        (_, None) => Err(owned("File path required for file output")),
    }
}

} // verus!
