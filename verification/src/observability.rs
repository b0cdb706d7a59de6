//! Setting up logging: what an application configures, and what follows
//! from it and from the environment.

mod sealed;

use vstd::prelude::*;
use vstd::string::StringExecFns;

use crate::observability::sealed::ConfigurationSealed;

verus! {

/// The most verbose level of events that is let through.
#[derive(Debug, Clone, Copy, PartialEq, Eq, Structural)]
pub enum LogLevel {
    /// Nothing is let through.
    Off,
    /// Errors only.
    Error,
    /// Warnings and what is more severe.
    Warn,
    /// Informational events and what is more severe.
    Info,
    /// Debugging events and what is more severe.
    Debug,
    /// Everything.
    Trace,
}

/// How events are written to stderr.
#[derive(Debug, Clone, Copy, PartialEq, Eq, Structural)]
pub enum StderrLogFormat {
    /// A compact format for everyday use.
    Compact,
    /// A verbose format with timestamps and targets.
    Full,
}

/// What an [`Initializer`] stands for in contracts.
pub ghost struct InitializerView {
    /// The prefix of the names of the environment variables.
    pub env_var_prefix: Seq<char>,
    /// The level of logging to stderr where the environment sets none.
    pub stderr_default_level: LogLevel,
    /// The format of logging to stderr, where one was configured.
    pub stderr_logging_format: Option<StderrLogFormat>,
}

/// Gathers the configuration of logging before it is set up.
#[derive(Debug, Clone)]
pub struct Initializer {
    env_var_prefix: String,
    stderr_default_level: LogLevel,
    stderr_logging_format: Option<StderrLogFormat>,
}

impl View for Initializer {
    type V = InitializerView;

    closed spec fn view(&self) -> InitializerView {
        InitializerView {
            env_var_prefix: self.env_var_prefix@,
            stderr_default_level: self.stderr_default_level,
            stderr_logging_format: self.stderr_logging_format,
        }
    }
}

/// A configuration that can be applied to an [`Initializer`].
pub trait Configuration: ConfigurationSealed {
    /// What the initializer `before` becomes under this configuration.
    spec fn applied(&self, before: InitializerView) -> InitializerView;

    /// Applies the configuration to `initializer`.
    fn apply_to(&self, initializer: &mut Initializer)
        ensures
            final(initializer)@ == self.applied(old(initializer)@),
    ;
}

impl<C: Configuration> Configuration for &C {
    open spec fn applied(&self, before: InitializerView) -> InitializerView {
        (**self).applied(before)
    }

    fn apply_to(&self, initializer: &mut Initializer) {
        (**self).apply_to(initializer);
    }
}

impl Initializer {
    /// An initializer whose environment variables start with
    /// `env_var_prefix`. It logs to stderr from the level `Info` on, in no
    /// configured format.
    pub fn new(env_var_prefix: &str) -> (initializer: Initializer)
        ensures
            initializer@ == (InitializerView {
                env_var_prefix: env_var_prefix@,
                stderr_default_level: LogLevel::Info,
                stderr_logging_format: None,
            }),
    {
        Initializer {
            env_var_prefix: String::from_str(env_var_prefix),
            stderr_default_level: LogLevel::Info,
            stderr_logging_format: None,
        }
    }

    /// The initializer under `configuration`.
    pub fn apply<C: Configuration>(self, configuration: C) -> (initializer: Initializer)
        ensures
            initializer@ == configuration.applied(self@),
    {
        let mut initializer = self;
        configuration.apply_to(&mut initializer);
        initializer
    }
}

/// What reading an environment variable gives.
#[derive(Debug, Clone)]
pub enum EnvValue {
    /// The variable is not set.
    Unset,
    /// The variable is set to something that is no Unicode text.
    NotUnicode,
    /// The variable is set to this text.
    Text(String),
}

/// What an [`EnvValue`] stands for in contracts.
pub ghost enum EnvValueView {
    /// The variable is not set.
    Unset,
    /// The variable is set to something that is no Unicode text.
    NotUnicode,
    /// The variable is set to this text.
    Text(Seq<char>),
}

impl View for EnvValue {
    type V = EnvValueView;

    open spec fn view(&self) -> EnvValueView {
        match self {
            EnvValue::Unset => EnvValueView::Unset,
            EnvValue::NotUnicode => EnvValueView::NotUnicode,
            EnvValue::Text(text) => EnvValueView::Text(text@),
        }
    }
}

/// The format in which to log to stderr, and whether to warn that the
/// environment asked for a format that there is not.
#[derive(Debug, Clone, Copy, PartialEq, Eq, Structural)]
pub struct FormatChoice {
    /// The format.
    pub format: StderrLogFormat,
    /// Whether the environment asked for an unsupported format.
    pub unsupported: bool,
}

/// The format that follows from the configured format and from the value of
/// the format variable. A configured format wins, and the environment is
/// then not looked at. Else the values "full" and "compact" choose their
/// format, and anything else gives the compact format; where the variable is
/// set to anything else, the choice is marked as unsupported.
pub open spec fn chosen_format(
    configured: Option<StderrLogFormat>,
    value: EnvValueView,
) -> FormatChoice {
    match configured {
        Some(format) => FormatChoice { format, unsupported: false },
        None => match value {
            EnvValueView::Unset => FormatChoice {
                format: StderrLogFormat::Compact,
                unsupported: false,
            },
            EnvValueView::NotUnicode => FormatChoice {
                format: StderrLogFormat::Compact,
                unsupported: true,
            },
            EnvValueView::Text(text) => if text == "full"@ {
                FormatChoice { format: StderrLogFormat::Full, unsupported: false }
            } else if text == "compact"@ {
                FormatChoice { format: StderrLogFormat::Compact, unsupported: false }
            } else {
                FormatChoice { format: StderrLogFormat::Compact, unsupported: true }
            },
        },
    }
}

/// The level from which on events are exported where the environment sets
/// no other.
pub const EXPORT_DEFAULT_LEVEL: LogLevel = LogLevel::Info;

/// The filter directives under which logs are exported whatever the
/// environment says: they keep the events of the export itself out of what
/// is exported.
pub fn export_log_directives() -> (directives: Vec<&'static str>)
    ensures
        directives@.len() == 5,
        directives@[0]@ == "hyper=off"@,
        directives@[1]@ == "opentelemetry=off"@,
        directives@[2]@ == "tonic=off"@,
        directives@[3]@ == "h2=off"@,
        directives@[4]@ == "reqwest=off"@,
{
    let mut directives: Vec<&'static str> = Vec::new();
    directives.push("hyper=off");
    directives.push("opentelemetry=off");
    directives.push("tonic=off");
    directives.push("h2=off");
    directives.push("reqwest=off");
    directives
}

/// Which variable sets the filter of what is exported of one kind of signal.
#[derive(Debug, Clone, Copy, PartialEq, Eq, Structural)]
pub enum ExportFilter {
    /// The variable of that kind of signal.
    Signal,
    /// The variable of all kinds of signals.
    General,
}

/// Whether a kind of signal is exported, and under the filter of which
/// variable: it is exported where its own variable or the general one is
/// set, and its own variable comes first.
pub open spec fn chosen_export(general_set: bool, signal_set: bool) -> Option<ExportFilter> {
    if signal_set {
        Some(ExportFilter::Signal)
    } else if general_set {
        Some(ExportFilter::General)
    } else {
        None
    }
}

/// Whether a kind of signal is exported, and under the filter of which
/// variable, given whether the general variable and the variable of that
/// kind are set.
pub fn choose_export(general_set: bool, signal_set: bool) -> (choice: Option<ExportFilter>)
    ensures
        choice == chosen_export(general_set, signal_set),
{
    if general_set || signal_set {
        Some(
            if signal_set {
                ExportFilter::Signal
            } else {
                ExportFilter::General
            },
        )
    } else {
        None
    }
}

impl Initializer {
    /// The prefix of the names of the environment variables.
    pub fn env_var_prefix(&self) -> (prefix: &str)
        ensures
            prefix@ == self@.env_var_prefix,
    {
        self.env_var_prefix.as_str()
    }

    /// The level of logging to stderr where the environment sets none.
    pub fn stderr_default_level(&self) -> (level: LogLevel)
        ensures
            level == self@.stderr_default_level,
    {
        self.stderr_default_level
    }

    /// The format of logging to stderr, where one was configured.
    pub fn stderr_logging_format(&self) -> (format: Option<StderrLogFormat>)
        ensures
            format == self@.stderr_logging_format,
    {
        self.stderr_logging_format
    }

    /// The name of a variable: the prefix and `suffix`.
    fn variable(&self, suffix: &str) -> (name: String)
        ensures
            name@ == self@.env_var_prefix + suffix@,
    {
        let mut name = self.env_var_prefix.clone();
        name.append(suffix);
        name
    }

    /// The name of the variable that filters what is logged to stderr.
    pub fn stderr_filter_variable(&self) -> (name: String)
        ensures
            name@ == self@.env_var_prefix + "_LOG"@,
    {
        self.variable("_LOG")
    }

    /// The name of the variable that sets the format of logging to stderr.
    pub fn stderr_format_variable(&self) -> (name: String)
        ensures
            name@ == self@.env_var_prefix + "_LOG_FORMAT"@,
    {
        self.variable("_LOG_FORMAT")
    }

    /// The name of the variable that filters what is exported, of every
    /// kind of signal.
    pub fn otlp_variable(&self) -> (name: String)
        ensures
            name@ == self@.env_var_prefix + "_LOG_OTLP"@,
    {
        self.variable("_LOG_OTLP")
    }

    /// The name of the variable that filters the traces that are exported.
    pub fn otlp_traces_variable(&self) -> (name: String)
        ensures
            name@ == self@.env_var_prefix + "_LOG_OTLP_TRACES"@,
    {
        self.variable("_LOG_OTLP_TRACES")
    }

    /// The name of the variable that filters the logs that are exported.
    pub fn otlp_logs_variable(&self) -> (name: String)
        ensures
            name@ == self@.env_var_prefix + "_LOG_OTLP_LOGS"@,
    {
        self.variable("_LOG_OTLP_LOGS")
    }

    /// The format in which to log to stderr, given what the format variable
    /// holds.
    pub fn stderr_format(&self, value: &EnvValue) -> (choice: FormatChoice)
        ensures
            choice == chosen_format(self@.stderr_logging_format, value@),
    {
        match self.stderr_logging_format {
            Some(format) => FormatChoice { format, unsupported: false },
            None => match value {
                EnvValue::Unset => FormatChoice {
                    format: StderrLogFormat::Compact,
                    unsupported: false,
                },
                EnvValue::NotUnicode => FormatChoice {
                    format: StderrLogFormat::Compact,
                    unsupported: true,
                },
                EnvValue::Text(text) => {
                    if text.as_str().eq("full") {
                        FormatChoice { format: StderrLogFormat::Full, unsupported: false }
                    } else if text.as_str().eq("compact") {
                        FormatChoice { format: StderrLogFormat::Compact, unsupported: false }
                    } else {
                        FormatChoice { format: StderrLogFormat::Compact, unsupported: true }
                    }
                },
            },
        }
    }

    /// The warning for an unsupported format in the format variable.
    pub fn unsupported_format_warning(&self) -> (warning: String)
        ensures
            warning@ == "WARNING: Unsupported log format in '"@ + self@.env_var_prefix
                + "_LOG_FORMAT"@ + "' environment variable."@,
    {
        let mut warning = String::from_str("WARNING: Unsupported log format in '");
        warning.append(self.stderr_format_variable().as_str());
        warning.append("' environment variable.");
        warning
    }
}

/// The format of logging to stderr, as an argument of the command line.
#[derive(Debug, Clone, Copy, PartialEq, Eq, Structural)]
pub enum LogFormatArg {
    /// The compact format.
    Compact,
    /// The full format.
    Full,
}

/// The level of logging to stderr, as an argument of the command line.
#[derive(Debug, Clone, Copy, PartialEq, Eq, Structural)]
pub enum LogLevelArg {
    /// Turns logging off.
    Off,
    /// The level of errors.
    Error,
    /// The level of warnings.
    Warn,
    /// The level of informational events.
    Info,
    /// The level of debugging events.
    Debug,
    /// The level of tracing events.
    Trace,
}

impl LogFormatArg {
    /// The format that the argument asks for.
    pub open spec fn format_spec(self) -> StderrLogFormat {
        match self {
            LogFormatArg::Compact => StderrLogFormat::Compact,
            LogFormatArg::Full => StderrLogFormat::Full,
        }
    }
}

impl LogLevelArg {
    /// The level that the argument asks for.
    pub open spec fn level_spec(self) -> LogLevel {
        match self {
            LogLevelArg::Off => LogLevel::Off,
            LogLevelArg::Error => LogLevel::Error,
            LogLevelArg::Warn => LogLevel::Warn,
            LogLevelArg::Info => LogLevel::Info,
            LogLevelArg::Debug => LogLevel::Debug,
            LogLevelArg::Trace => LogLevel::Trace,
        }
    }
}

/// The logging arguments of a command line: a format and a level, each of
/// which may be left out.
#[derive(Debug, Clone)]
pub struct LoggingArgs {
    log_format: Option<LogFormatArg>,
    log_level: Option<LogLevelArg>,
}

impl LoggingArgs {
    /// The format argument, as contracts see it.
    pub closed spec fn log_format_spec(&self) -> Option<LogFormatArg> {
        self.log_format
    }

    /// The level argument, as contracts see it.
    pub closed spec fn log_level_spec(&self) -> Option<LogLevelArg> {
        self.log_level
    }

    /// The arguments with the given format and level.
    pub fn new(log_format: Option<LogFormatArg>, log_level: Option<LogLevelArg>) -> (args:
        LoggingArgs)
        ensures
            args.log_format_spec() == log_format,
            args.log_level_spec() == log_level,
    {
        LoggingArgs { log_format, log_level }
    }
}

impl ConfigurationSealed for LoggingArgs {

}

impl Configuration for LoggingArgs {
    /// A format that was given replaces the configured format, and a level
    /// that was given replaces the default level. What was left out changes
    /// nothing.
    open spec fn applied(&self, before: InitializerView) -> InitializerView {
        InitializerView {
            env_var_prefix: before.env_var_prefix,
            stderr_default_level: match self.log_level_spec() {
                Some(level) => level.level_spec(),
                None => before.stderr_default_level,
            },
            stderr_logging_format: match self.log_format_spec() {
                Some(format) => Some(format.format_spec()),
                None => before.stderr_logging_format,
            },
        }
    }

    fn apply_to(&self, initializer: &mut Initializer) {
        if let Some(log_format) = &self.log_format {
            initializer.stderr_logging_format = Some(
                match log_format {
                    LogFormatArg::Compact => StderrLogFormat::Compact,
                    LogFormatArg::Full => StderrLogFormat::Full,
                },
            );
        }
        if let Some(log_level) = &self.log_level {
            initializer.stderr_default_level = match log_level {
                LogLevelArg::Off => LogLevel::Off,
                LogLevelArg::Error => LogLevel::Error,
                LogLevelArg::Warn => LogLevel::Warn,
                LogLevelArg::Info => LogLevel::Info,
                LogLevelArg::Debug => LogLevel::Debug,
                LogLevelArg::Trace => LogLevel::Trace,
            };
        }
    }
}

} // verus!
