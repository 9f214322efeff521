//! Fluent assembly of the logger configuration, and its one-shot
//! registration.

use vstd::prelude::*;

use crate::aws::Aws;
use crate::aws_builder::AwsBuilder;
use crate::level::Level;
use crate::loggify::Loggify;
use crate::registry::register_outcome;
use crate::registry::RegistrationError;
use crate::registry::Registry;

verus! {

/// Builder for the logger configuration.
pub struct LogBuilder {
    pub aws: Option<AwsBuilder>,
    pub exclude: Vec<String>,
    pub level: Level,
    pub time_format: String,
    pub log_target: bool,
    pub color: bool,
}

impl LogBuilder {
    /// A builder holding the defaults: threshold `Info`, no exclusions,
    /// `dd.mm.YYYY HH:MM:SS` timestamps, target surfacing off,
    /// colorized output, no remote mirror.
    pub fn new() -> (r: Self)
        ensures
            r.aws is None,
            r.exclude@ == Seq::<String>::empty(),
            r.level == Level::Info,
            r.time_format@ == "%d.%m.%Y %H:%M:%S"@,
            !r.log_target,
            r.color,
    {
        LogBuilder {
            aws: None,
            exclude: Vec::new(),
            level: Level::Info,
            time_format: String::from_str("%d.%m.%Y %H:%M:%S"),
            log_target: false,
            color: true,
        }
    }

    /// Adds one more target string to exclude from logging.
    pub fn add_exclude(self, name: String) -> (r: Self)
        ensures
            r.exclude@ == self.exclude@.push(name),
            r.aws == self.aws,
            r.level == self.level,
            r.time_format == self.time_format,
            r.log_target == self.log_target,
            r.color == self.color,
    {
        let mut exclude = self.exclude;
        exclude.push(name);
        LogBuilder { exclude, ..self }
    }

    /// Sets the minimum severity.
    pub fn set_level(self, level: Level) -> (r: Self)
        ensures
            r.level == level,
            r.aws == self.aws,
            r.exclude == self.exclude,
            r.time_format == self.time_format,
            r.log_target == self.log_target,
            r.color == self.color,
    {
        LogBuilder { level, ..self }
    }

    /// Sets the strftime-style time format pattern.
    pub fn set_time_format(self, format: String) -> (r: Self)
        ensures
            r.time_format == format,
            r.aws == self.aws,
            r.exclude == self.exclude,
            r.level == self.level,
            r.log_target == self.log_target,
            r.color == self.color,
    {
        LogBuilder { time_format: format, ..self }
    }

    /// Defines whether each record's target is surfaced on the
    /// diagnostic channel, to find out what to exclude.
    pub fn set_log_target(self, state: bool) -> (r: Self)
        ensures
            r.log_target == state,
            r.aws == self.aws,
            r.exclude == self.exclude,
            r.level == self.level,
            r.time_format == self.time_format,
            r.color == self.color,
    {
        LogBuilder { log_target: state, ..self }
    }

    /// Disables colorized output.
    pub fn disable_color(self) -> (r: Self)
        ensures
            !r.color,
            r.aws == self.aws,
            r.exclude == self.exclude,
            r.level == self.level,
            r.time_format == self.time_format,
            r.log_target == self.log_target,
    {
        LogBuilder { color: false, ..self }
    }

    /// Attaches a remote-sink configuration.
    pub fn add_aws(self, aws: AwsBuilder) -> (r: Self)
        ensures
            r.aws == Some(aws),
            r.exclude == self.exclude,
            r.level == self.level,
            r.time_format == self.time_format,
            r.log_target == self.log_target,
            r.color == self.color,
    {
        LogBuilder { aws: Some(aws), ..self }
    }

    /// The logger this builder assembles.
    pub open spec fn assembled(self) -> Loggify {
        Loggify {
            exclude: self.exclude,
            level: self.level,
            time_format: self.time_format,
            log_target: self.log_target,
            color: self.color,
            aws: match self.aws {
                None => None,
                Some(b) => Some(
                    Aws {
                        region: b.region,
                        log_group_name: b.log_group_name,
                        log_stream_name: b.log_stream_name,
                    },
                ),
            },
        }
    }

    /// Assembles the logger and registers it as the process's single
    /// active sink; the registry's threshold becomes the configured
    /// minimum severity. A second build in the same process fails with
    /// a `RegistrationError` and leaves the first registration active.
    pub fn build(self, registry: &mut Registry) -> (r: Result<(), RegistrationError>)
        ensures
            register_outcome(*old(registry), *final(registry), self.assembled(), r),
    {
        let aws = match self.aws {
            None => None,
            Some(b) => Some(b.build()),
        };
        let logger = Loggify {
            exclude: self.exclude,
            level: self.level,
            time_format: self.time_format,
            log_target: self.log_target,
            color: self.color,
            aws,
        };
        registry.register(logger)
    }
}

impl Default for LogBuilder {
    /// The same defaults as `new`.
    fn default() -> (r: Self)
        ensures
            r.aws is None,
            r.exclude@ == Seq::<String>::empty(),
            r.level == Level::Info,
            r.time_format@ == "%d.%m.%Y %H:%M:%S"@,
            !r.log_target,
            r.color,
    {
        LogBuilder::new()
    }
}

} // verus!
