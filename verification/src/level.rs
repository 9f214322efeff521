//! The severity order of log records, their five-character labels and the
//! escape sequences used to color them.

use vstd::prelude::*;

verus! {

/// Severity of a log record, `Error` most severe.
#[derive(Clone, Copy, Debug, PartialEq, Eq, Structural)]
pub enum Level {
    Error,
    Warn,
    Info,
    Debug,
    Trace,
}

/// Position of a severity in the fixed total order
/// `Error > Warn > Info > Debug > Trace`: the most severe has the
/// smallest rank.
pub open spec fn severity_rank(level: Level) -> nat {
    match level {
        Level::Error => 1,
        Level::Warn => 2,
        Level::Info => 3,
        Level::Debug => 4,
        Level::Trace => 5,
    }
}

/// The fixed five-character label that keeps the level column aligned.
pub open spec fn label_spec(level: Level) -> Seq<char> {
    match level {
        Level::Error => "Error"@,
        Level::Warn => "Warn "@,
        Level::Info => "Info "@,
        Level::Debug => "Debug"@,
        Level::Trace => "Trace"@,
    }
}

/// Escape sequence that opens the bold, severity-specific color of the
/// level label: red for `Error`, yellow for `Warn`, cyan for `Info`,
/// magenta for `Debug`, blue for `Trace`.
pub open spec fn label_color_spec(level: Level) -> Seq<char> {
    match level {
        Level::Error => "\u{1b}[31m\u{1b}[1m"@,
        Level::Warn => "\u{1b}[33m\u{1b}[1m"@,
        Level::Info => "\u{1b}[36m\u{1b}[1m"@,
        Level::Debug => "\u{1b}[35m\u{1b}[1m"@,
        Level::Trace => "\u{1b}[34m\u{1b}[1m"@,
    }
}

/// Every label is exactly five characters long and holds no escape
/// character.
pub proof fn lemma_label_shape(level: Level)
    ensures
        label_spec(level).len() == 5,
        crate::text::esc_free(label_spec(level)),
{
    reveal_strlit("Error");
    reveal_strlit("Warn ");
    reveal_strlit("Info ");
    reveal_strlit("Debug");
    reveal_strlit("Trace");
}

impl Level {
    /// Numeric rank of the severity, `Error` smallest.
    pub fn rank(self) -> (r: u8)
        ensures
            r as nat == severity_rank(self),
    {
        match self {
            Level::Error => 1,
            Level::Warn => 2,
            Level::Info => 3,
            Level::Debug => 4,
            Level::Trace => 5,
        }
    }

    /// Whether a record of severity `self` passes a minimum-severity
    /// threshold of `min`.
    pub fn at_least_as_severe_as(self, min: Level) -> (r: bool)
        ensures
            r == (severity_rank(self) <= severity_rank(min)),
    {
        self.rank() <= min.rank()
    }

    /// The five-character label of the severity.
    pub fn label(self) -> (r: &'static str)
        ensures
            r@ == label_spec(self),
    {
        match self {
            Level::Error => "Error",
            Level::Warn => "Warn ",
            Level::Info => "Info ",
            Level::Debug => "Debug",
            Level::Trace => "Trace",
        }
    }

    /// The escape sequence that opens this severity's label color.
    pub fn label_color(self) -> (r: &'static str)
        ensures
            r@ == label_color_spec(self),
    {
        match self {
            Level::Error => "\u{1b}[31m\u{1b}[1m",
            Level::Warn => "\u{1b}[33m\u{1b}[1m",
            Level::Info => "\u{1b}[36m\u{1b}[1m",
            Level::Debug => "\u{1b}[35m\u{1b}[1m",
            Level::Trace => "\u{1b}[34m\u{1b}[1m",
        }
    }
}

} // verus!
