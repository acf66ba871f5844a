use vstd::prelude::*;

use crate::platform::{spec_is_desktop, BuildMode, Platform};

verus! {

#[verifier::external_type_specification]
#[verifier::external_body]
pub struct ExUtcOffset(time::UtcOffset);

#[verifier::external_type_specification]
#[verifier::external_body]
pub struct ExComponentRange(time::error::ComponentRange);

#[verifier::external_type_specification]
#[verifier::external_body]
pub struct ExOwnedFormatItem(time::format_description::OwnedFormatItem);

#[verifier::external_type_specification]
#[verifier::external_body]
pub struct ExInvalidFormatDescription(time::error::InvalidFormatDescription);

/// Whether `time` accepts `s` as a version 1 format description.
pub uninterp spec fn format_description_parses(s: Seq<char>) -> bool;

/// The whole-hour offset from UTC at which log timestamps are shown.
pub const LOG_UTC_OFFSET_HOURS: i8 = 8;

/// The name of the log file inside the application's config directory.
pub const LOG_FILE_NAME: &'static str = "lsar.log";

/// The tracing target whose records are kept.
pub const LOG_TARGET: &'static str = "lsar_lib";

/// Severity of a record, from the most verbose to the least.
#[derive(Clone, Copy, Debug, PartialEq, Eq, Structural)]
pub enum Severity {
    Trace,
    Debug,
    Info,
    Warn,
    Error,
}

/// Rank of a severity: higher is more severe.
pub open spec fn spec_rank(s: Severity) -> int {
    match s {
        Severity::Trace => 0,
        Severity::Debug => 1,
        Severity::Info => 2,
        Severity::Warn => 3,
        Severity::Error => 4,
    }
}

impl Severity {
    pub fn rank(&self) -> (r: u8)
        ensures
            r as int == spec_rank(*self),
    {
        match self {
            Severity::Trace => 0,
            Severity::Debug => 1,
            Severity::Info => 2,
            Severity::Warn => 3,
            Severity::Error => 4,
        }
    }
}

/// Shape of the timestamp written with each record.
#[derive(Clone, Copy, Debug, PartialEq, Eq, Structural)]
pub enum TimeFormat {
    /// `[hour]:[minute]:[second].[subsecond digits:3]`
    TimeOfDay,
    /// `[year]-[month]-[day] [hour]:[minute]:[second].[subsecond digits:3]`
    DateTime,
}

pub open spec fn spec_pattern(f: TimeFormat) -> Seq<char> {
    match f {
        TimeFormat::TimeOfDay => "[hour]:[minute]:[second].[subsecond digits:3]"@,
        TimeFormat::DateTime => "[year]-[month]-[day] [hour]:[minute]:[second].[subsecond digits:3]"@,
    }
}

impl TimeFormat {
    /// The format description, in the `time` crate's syntax.
    pub fn pattern(&self) -> (r: &'static str)
        ensures
            r@ == spec_pattern(*self),
    {
        match self {
            TimeFormat::TimeOfDay => "[hour]:[minute]:[second].[subsecond digits:3]",
            TimeFormat::DateTime => "[year]-[month]-[day] [hour]:[minute]:[second].[subsecond digits:3]",
        }
    }
}

/// Where records go.
#[derive(Clone, Copy, Debug, PartialEq, Eq, Structural)]
pub enum LogDestination {
    /// The process's standard-error stream.
    Stderr,
    /// A freshly created file, `LOG_FILE_NAME` in the config directory, owned by the sink.
    ConfigFile,
}

/// How records are encoded.
#[derive(Clone, Copy, Debug, PartialEq, Eq, Structural)]
pub enum LogEncoding {
    /// Human-readable lines.
    Text,
    /// One structured JSON record per line.
    Json,
}

/// Everything that decides the one process-wide log sink.
#[derive(Clone, Copy, Debug, PartialEq, Eq, Structural)]
pub struct LogSinkConfig {
    pub time_format: TimeFormat,
    pub utc_offset_hours: i8,
    pub destination: LogDestination,
    pub encoding: LogEncoding,
    pub min_severity: Severity,
    pub with_file: bool,
    pub with_line_number: bool,
    pub with_target: bool,
}

/// The sink that a build mode and platform call for.
pub open spec fn spec_log_sink_config(mode: BuildMode, platform: Platform) -> LogSinkConfig {
    LogSinkConfig {
        time_format: if mode == BuildMode::Development {
            TimeFormat::TimeOfDay
        } else {
            TimeFormat::DateTime
        },
        utc_offset_hours: LOG_UTC_OFFSET_HOURS,
        destination: if mode == BuildMode::Production && spec_is_desktop(platform) {
            LogDestination::ConfigFile
        } else {
            LogDestination::Stderr
        },
        encoding: if mode == BuildMode::Development {
            LogEncoding::Text
        } else {
            LogEncoding::Json
        },
        min_severity: Severity::Trace,
        with_file: true,
        with_line_number: true,
        with_target: false,
    }
}

/// Whether a sink built from `c` keeps a record of severity `s`.
pub open spec fn spec_admits(c: LogSinkConfig, s: Severity) -> bool {
    spec_rank(s) >= spec_rank(c.min_severity)
}

/// Chooses the log sink for a build mode and platform.
pub fn log_sink_config(mode: BuildMode, platform: Platform) -> (r: LogSinkConfig)
    ensures
        r == spec_log_sink_config(mode, platform),
{
    let development = matches!(mode, BuildMode::Development);
    let destination = if !development && platform.is_desktop() {
        LogDestination::ConfigFile
    } else {
        LogDestination::Stderr
    };
    LogSinkConfig {
        time_format: if development {
            TimeFormat::TimeOfDay
        } else {
            TimeFormat::DateTime
        },
        utc_offset_hours: LOG_UTC_OFFSET_HOURS,
        destination,
        encoding: if development {
            LogEncoding::Text
        } else {
            LogEncoding::Json
        },
        min_severity: Severity::Trace,
        with_file: true,
        with_line_number: true,
        with_target: false,
    }
}

impl LogSinkConfig {
    /// Whether a record of severity `s` reaches this sink.
    pub fn admits(&self, s: Severity) -> (r: bool)
        ensures
            r == spec_admits(*self, s),
    {
        s.rank() >= self.min_severity.rank()
    }

    /// The timestamp format as a `time` format description; fails where
    /// `time` rejects the pattern.
    pub fn timestamp_format(&self) -> (r: Result<
        time::format_description::OwnedFormatItem,
        LogSetupError,
    >)
        ensures
            r is Ok <==> format_description_parses(spec_pattern(self.time_format)),
            r is Err ==> r == Err::<time::format_description::OwnedFormatItem, LogSetupError>(
                LogSetupError::InvalidTimeFormat,
            ),
    {
        match parse_format_description(self.time_format.pattern()) {
            Ok(f) => Ok(f),
            Err(_) => Err(LogSetupError::InvalidTimeFormat),
        }
    }

    /// The offset as a `time` value; fails where `time` rejects the hour count.
    pub fn utc_offset(&self) -> (r: Result<time::UtcOffset, LogSetupError>)
        ensures
            r is Ok <==> -25 <= self.utc_offset_hours <= 25,
            r is Err ==> r == Err::<time::UtcOffset, LogSetupError>(LogSetupError::InvalidOffset),
    {
        match utc_offset_from_hours(self.utc_offset_hours) {
            Ok(o) => Ok(o),
            Err(_) => Err(LogSetupError::InvalidOffset),
        }
    }
}

/// Relies on time::format_description::parse_owned::<1>: parses a format
/// description; whether it succeeds depends on the text alone.
#[verifier::external_body]
fn parse_format_description(s: &str) -> (r: Result<
    time::format_description::OwnedFormatItem,
    time::error::InvalidFormatDescription,
>)
    ensures
        r is Ok <==> format_description_parses(s@),
{
    time::format_description::parse_owned::<1>(s)
}

/// Relies on time::UtcOffset::from_hms: with zero minutes and seconds it
/// succeeds exactly when the hour count lies in -25..=25.
#[verifier::external_body]
fn utc_offset_from_hours(hours: i8) -> (r: Result<time::UtcOffset, time::error::ComponentRange>)
    ensures
        r is Ok <==> -25 <= hours <= 25,
{
    time::UtcOffset::from_hms(hours, 0, 0)
}

/// Why the logging pipeline could not be set up.
#[derive(Clone, Copy, Debug, PartialEq, Eq, Structural)]
pub enum LogSetupError {
    /// A sink is already installed for this process.
    AlreadyInstalled,
    /// The configured UTC offset is out of range.
    InvalidOffset,
    /// The timestamp pattern is not a valid format description.
    InvalidTimeFormat,
}

/// Where a record of severity `s` goes, given the installed sink.
pub open spec fn spec_route(active: Option<LogSinkConfig>, s: Severity) -> Option<LogDestination> {
    match active {
        Some(c) => if spec_admits(c, s) {
            Some(c.destination)
        } else {
            None
        },
        None => None,
    }
}

/// The process-wide slot for the one active log sink.
pub struct LogRegistry {
    active: Option<LogSinkConfig>,
}

impl LogRegistry {
    pub closed spec fn active(&self) -> Option<LogSinkConfig> {
        self.active
    }

    /// A registry with no sink installed.
    pub fn new() -> (r: LogRegistry)
        ensures
            r.active() is None,
    {
        LogRegistry { active: None }
    }

    /// Installs `config` as the sink, unless one is already installed.
    pub fn install(&mut self, config: LogSinkConfig) -> (r: Result<(), LogSetupError>)
        ensures
            old(self).active() is None ==> r is Ok && final(self).active() == Some(config),
            old(self).active() is Some ==> r == Err::<(), LogSetupError>(
                LogSetupError::AlreadyInstalled,
            ) && final(self).active() == old(self).active(),
    {
        if self.active.is_some() {
            Err(LogSetupError::AlreadyInstalled)
        } else {
            self.active = Some(config);
            Ok(())
        }
    }

    /// The sink a record of severity `s` is written to, if any sink is installed
    /// and it keeps that severity.
    pub fn route(&self, s: Severity) -> (r: Option<LogDestination>)
        ensures
            r == spec_route(self.active(), s),
    {
        match &self.active {
            Some(c) => if c.admits(s) {
                Some(c.destination)
            } else {
                None
            },
            None => None,
        }
    }
}

/// Whatever the build mode and platform, once the chosen sink is installed
/// every record, of any severity, is written to that one sink.
pub proof fn lemma_one_sink_takes_every_record(mode: BuildMode, platform: Platform, s: Severity)
    ensures
        spec_log_sink_config(mode, platform).min_severity == Severity::Trace,
        spec_route(Some(spec_log_sink_config(mode, platform)), s) == Some(
            spec_log_sink_config(mode, platform).destination,
        ),
{
}

} // verus!
