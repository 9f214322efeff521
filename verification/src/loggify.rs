//! The logger instance: the filter policy and the formatter, composed
//! over one immutable configuration.
//!
//! A `Loggify` value decides whether a record is emitted (`enabled`) and
//! renders an accepted record into exactly one output line (`render`,
//! `log_line`). The shell that implements the logging facade's
//! capability set delegates both decisions here, writes the returned
//! line to standard output, and forwards the plain message text to the
//! remote sink when one is configured.

use std::io::Write;

use vstd::prelude::*;

use crate::aws::Aws;
use crate::level::label_color_spec;
use crate::level::label_spec;
use crate::level::severity_rank;
use crate::level::Level;
use crate::log_builder::LogBuilder;
use crate::registry::RegistrationError;
use crate::registry::Registry;
use crate::text::esc_free;
use crate::text::is_excluded;
use crate::text::is_substring;
use crate::text::lemma_esc_free_concat;
use crate::text::some_excluded;
use crate::time::format_spec;
use crate::time::format_timestamp;
use crate::time::lemma_format_spec_esc_free;
use crate::time::now_utc;
use crate::time::Timestamp;

verus! {

/// The logger instance. Built once by `LogBuilder`, immutable
/// thereafter.
#[derive(Clone, Debug)]
pub struct Loggify {
    /// Records whose target contains any of these strings are excluded.
    pub exclude: Vec<String>,
    /// The minimum severity: less severe records are not emitted.
    pub level: Level,
    /// The strftime-style pattern the timestamp is rendered under.
    pub time_format: String,
    /// Whether each record's target is surfaced on the diagnostic
    /// channel, to help an operator decide what to exclude.
    pub log_target: bool,
    /// Whether the output line is colorized.
    pub color: bool,
    /// The optional remote mirror.
    pub aws: Option<Aws>,
}

/// The escape sequence that opens the muted timestamp color.
pub open spec fn time_color() -> Seq<char> {
    "\u{1b}[90m"@
}

/// The escape sequence that opens the bold message color.
pub open spec fn message_color() -> Seq<char> {
    "\u{1b}[97m\u{1b}[1m"@
}

/// The escape sequence that closes a colored segment.
pub open spec fn color_reset() -> Seq<char> {
    "\u{1b}[m"@
}

/// The plain output line: `[<timestamp>] > <label> > <message>`.
pub open spec fn plain_line(time_text: Seq<char>, level: Level, message: Seq<char>) -> Seq<char> {
    "["@ + time_text + "] > "@ + label_spec(level) + " > "@ + message
}

/// The colorized output line: the same three segments, the timestamp
/// muted, the label bold in its severity's color, the message bold.
pub open spec fn colored_line(time_text: Seq<char>, level: Level, message: Seq<char>) -> Seq<
    char,
> {
    "["@ + time_color() + time_text + color_reset() + "] > "@ + label_color_spec(level)
        + label_spec(level) + color_reset() + " > "@ + message_color() + message + color_reset()
}

/// A configuration assembled from the builder's defaults, with the
/// given minimum severity.
pub open spec fn is_default_config(c: Loggify, level: Level) -> bool {
    &&& c.level == level
    &&& c.exclude@.len() == 0
    &&& c.time_format@ == "%d.%m.%Y %H:%M:%S"@
    &&& !c.log_target
    &&& c.color
    &&& c.aws is None
}

/// Relies on std's standard error stream: surfaces a record's target on
/// the operator-diagnostic channel.
#[verifier::external_body]
fn print_target(target: &str) {
    let _ = writeln!(std::io::stderr(), "target = {}", target);
}

impl Loggify {
    /// Whether a record of severity `record_level` addressed to
    /// `target` is emitted: the severity must be at least as severe as
    /// the configured minimum, and no exclusion string may occur inside
    /// the target.
    pub open spec fn enabled_spec(self, record_level: Level, target: Seq<char>) -> bool {
        severity_rank(record_level) <= severity_rank(self.level) && !some_excluded(
            self.exclude.deep_view(),
            target,
        )
    }

    /// The one line rendered for an accepted record.
    pub open spec fn line_spec(self, level: Level, message: Seq<char>, ts: Timestamp) -> Seq<
        char,
    > {
        let time_text = format_spec(self.time_format@, ts);
        if self.color {
            colored_line(time_text, level, message)
        } else {
            plain_line(time_text, level, message)
        }
    }

    /// Decides whether the record is emitted. When target surfacing is
    /// configured the target is additionally printed on the diagnostic
    /// channel, which never influences the returned value.
    pub fn enabled(&self, record_level: Level, target: &str) -> (r: bool)
        ensures
            r == self.enabled_spec(record_level, target@),
    {
        if self.log_target {
            print_target(target);
        }
        let pass = record_level.at_least_as_severe_as(self.level);
        let excluded = is_excluded(&self.exclude, target);
        pass && !excluded
    }

    /// Renders the record as one line, colorized or plain per the
    /// configuration.
    pub fn render(&self, level: Level, message: &str, ts: &Timestamp) -> (line: String)
        ensures
            line@ == self.line_spec(level, message@, *ts),
    {
        let time_text = format_timestamp(self.time_format.as_str(), ts);
        let mut line = String::new();
        line.append("[");
        if self.color {
            line.append("\u{1b}[90m");
            line.append(time_text.as_str());
            line.append("\u{1b}[m");
        } else {
            line.append(time_text.as_str());
        }
        line.append("] > ");
        if self.color {
            line.append(level.label_color());
        }
        line.append(level.label());
        if self.color {
            line.append("\u{1b}[m");
        }
        line.append(" > ");
        if self.color {
            line.append("\u{1b}[97m\u{1b}[1m");
        }
        line.append(message);
        if self.color {
            line.append("\u{1b}[m");
        }
        proof {
            assert(line@ =~= self.line_spec(level, message@, *ts));
        }
        line
    }

    /// One full emission decision: re-checks `enabled` defensively,
    /// then renders the record with the wall clock's current time.
    /// Returns the line to write, or `None` for a record that is not
    /// emitted.
    pub fn log_line(&self, level: Level, target: &str, message: &str) -> (r: Option<String>)
        ensures
            r is Some <==> self.enabled_spec(level, target@),
            r matches Some(line) ==> exists|ts: Timestamp|
                ts.wf() && line@ == self.line_spec(level, message@, ts),
    {
        if !self.enabled(level, target) {
            return None;
        }
        let ts = now_utc();
        let line = self.render(level, message, &ts);
        Some(line)
    }

    /// Registers a logger built from the defaults: threshold `Info`, no
    /// exclusions, plain `dd.mm.YYYY HH:MM:SS` timestamps, colorized
    /// output, no remote mirror.
    pub fn init(registry: &mut Registry) -> (r: Result<(), RegistrationError>)
        ensures
            old(registry).active is Some ==> r is Err && *final(registry) == *old(registry),
            old(registry).active is None ==> r is Ok && final(registry).threshold == Some(
                Level::Info,
            ) && (final(registry).active matches Some(c) && is_default_config(c, Level::Info)),
    {
        LogBuilder::new().build(registry)
    }

    /// Same as `init`, but with the given minimum severity.
    pub fn init_with_level(level: Level, registry: &mut Registry) -> (r: Result<
        (),
        RegistrationError,
    >)
        ensures
            old(registry).active is Some ==> r is Err && *final(registry) == *old(registry),
            old(registry).active is None ==> r is Ok && final(registry).threshold == Some(level)
                && (final(registry).active matches Some(c) && is_default_config(c, level)),
    {
        LogBuilder::new().set_level(level).build(registry)
    }
}

/// Law: whenever no exclusion string occurs inside the target, a record
/// is enabled exactly when its severity rank is at most the threshold's
/// rank, under the fixed order `Error > Warn > Info > Debug > Trace`.
pub proof fn lemma_enabled_is_rank_comparison(c: Loggify, record_level: Level, target: Seq<char>)
    requires
        !some_excluded(c.exclude.deep_view(), target),
    ensures
        c.enabled_spec(record_level, target) == (severity_rank(record_level) <= severity_rank(
            c.level,
        )),
{
}

/// Law: when any exclusion string occurs inside the target, the record
/// is not enabled, whatever its severity.
pub proof fn lemma_excluded_target_never_enabled(
    c: Loggify,
    record_level: Level,
    target: Seq<char>,
)
    requires
        some_excluded(c.exclude.deep_view(), target),
    ensures
        !c.enabled_spec(record_level, target),
{
}

/// Law: under the default threshold `Info`, a `Debug` record is not
/// enabled and an `Info` record is.
pub proof fn lemma_default_threshold_is_info(c: Loggify, target: Seq<char>)
    requires
        c.level == Level::Info,
        c.exclude@.len() == 0,
    ensures
        !c.enabled_spec(Level::Debug, target),
        c.enabled_spec(Level::Info, target),
{
    assert(!some_excluded(c.exclude.deep_view(), target));
}

/// Law: with color disabled, the rendered line holds no escape
/// character, as long as the pattern and the message hold none (the
/// digits a timestamp expands to never do).
pub proof fn lemma_plain_line_esc_free(
    c: Loggify,
    level: Level,
    message: Seq<char>,
    ts: Timestamp,
)
    requires
        !c.color,
        esc_free(c.time_format@),
        esc_free(message),
    ensures
        esc_free(c.line_spec(level, message, ts)),
{
    let time_text = format_spec(c.time_format@, ts);
    lemma_format_spec_esc_free(c.time_format@, ts);
    crate::level::lemma_label_shape(level);
    reveal_strlit("[");
    reveal_strlit("] > ");
    reveal_strlit(" > ");
    assert(esc_free("["@));
    assert(esc_free("] > "@));
    assert(esc_free(" > "@));
    lemma_esc_free_concat("["@, time_text);
    lemma_esc_free_concat("["@ + time_text, "] > "@);
    lemma_esc_free_concat("["@ + time_text + "] > "@, label_spec(level));
    lemma_esc_free_concat("["@ + time_text + "] > "@ + label_spec(level), " > "@);
    lemma_esc_free_concat("["@ + time_text + "] > "@ + label_spec(level) + " > "@, message);
}

/// Law: with color enabled, the plain message text still appears as a
/// contiguous substring of the rendered line.
pub proof fn lemma_colored_line_contains_message(
    c: Loggify,
    level: Level,
    message: Seq<char>,
    ts: Timestamp,
)
    requires
        c.color,
    ensures
        is_substring(message, c.line_spec(level, message, ts)),
{
    let time_text = format_spec(c.time_format@, ts);
    let line = c.line_spec(level, message, ts);
    let prefix = "["@ + time_color() + time_text + color_reset() + "] > "@ + label_color_spec(
        level,
    ) + label_spec(level) + color_reset() + " > "@ + message_color();
    let i = prefix.len() as int;
    assert(line.subrange(i, i + message.len()) =~= message);
    assert(is_substring(message, line));
}

} // verus!
