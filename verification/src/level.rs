//! The verbosity of the log.

use crate::number::{decimal_value, is_decimal};
use vstd::prelude::*;

verus! {

/// How much the program logs, from least to most.
#[derive(Clone, Copy, Debug, PartialEq, Eq, Structural)]
pub enum LogLevel {
    Error,
    Warn,
    Info,
    Debug,
    Trace,
}

/// Level used when the setting is missing or names no level.
pub const DEFAULT_LEVEL: &'static str = "warn";

/// `c` with an ASCII capital turned into its small letter.
pub open spec fn ascii_lower(c: char) -> char {
    if 'A' <= c && c <= 'Z' {
        ((c as u8) + 32) as char
    } else {
        c
    }
}

/// `a` and `b` are the same but for the case of ASCII letters.
pub open spec fn same_ignoring_case(a: Seq<char>, b: Seq<char>) -> bool {
    &&& a.len() == b.len()
    &&& forall|i: int| 0 <= i < a.len() ==> ascii_lower(#[trigger] a[i]) == ascii_lower(b[i])
}

/// The level with number `n`: 1 is the quietest, 5 the most verbose.
pub open spec fn level_of_number(n: nat) -> Option<LogLevel> {
    if n == 1 {
        Some(LogLevel::Error)
    } else if n == 2 {
        Some(LogLevel::Warn)
    } else if n == 3 {
        Some(LogLevel::Info)
    } else if n == 4 {
        Some(LogLevel::Debug)
    } else if n == 5 {
        Some(LogLevel::Trace)
    } else {
        None
    }
}

/// The level that `text` spells, in any mix of capitals and small letters.
pub open spec fn level_of_name(text: Seq<char>) -> Option<LogLevel> {
    if same_ignoring_case(text, "error"@) {
        Some(LogLevel::Error)
    } else if same_ignoring_case(text, "warn"@) {
        Some(LogLevel::Warn)
    } else if same_ignoring_case(text, "info"@) {
        Some(LogLevel::Info)
    } else if same_ignoring_case(text, "debug"@) {
        Some(LogLevel::Debug)
    } else if same_ignoring_case(text, "trace"@) {
        Some(LogLevel::Trace)
    } else {
        None
    }
}

/// The level that `text` stands for: a decimal number from 1 to 5, or else
/// a level's name.
pub open spec fn level_of_text(text: Seq<char>) -> Option<LogLevel> {
    if is_decimal(text) && level_of_number(decimal_value(text)) is Some {
        level_of_number(decimal_value(text))
    } else {
        level_of_name(text)
    }
}

/// The level in force when parsing gave `parsed`.
pub open spec fn level_or_default(parsed: Option<LogLevel>) -> LogLevel {
    match parsed {
        Some(level) => level,
        None => LogLevel::Warn,
    }
}

/// The level that a setting selects.
pub open spec fn level_of_setting(setting: Option<String>) -> LogLevel {
    match setting {
        Some(text) => level_or_default(level_of_text(text@)),
        None => LogLevel::Warn,
    }
}

/// Trusted: calls `tracing::Level::from_str` and maps the level it returns
/// to a [`LogLevel`], a failure to `None`.
///
/// The contract restates that function: it first reads the text as an
/// unsigned decimal number and accepts 1 to 5, in the order error, warn,
/// info, debug, trace; failing that, it compares the text with the five
/// names, ignoring the case of ASCII letters.
#[verifier::external_body]
fn level_from_str(text: &str) -> (level: Option<LogLevel>)
    ensures
        level == level_of_text(text@),
{
    match <tracing::Level as std::str::FromStr>::from_str(text) {
        Ok(tracing::Level::ERROR) => Some(LogLevel::Error),
        Ok(tracing::Level::WARN) => Some(LogLevel::Warn),
        Ok(tracing::Level::INFO) => Some(LogLevel::Info),
        Ok(tracing::Level::DEBUG) => Some(LogLevel::Debug),
        Ok(_) => Some(LogLevel::Trace),
        Err(_) => None,
    }
}

/// The default level's name spells the default level.
pub proof fn lemma_default_level()
    ensures
        level_of_text(DEFAULT_LEVEL@) == Some(LogLevel::Warn),
{
    reveal_strlit("warn");
    reveal_strlit("error");
    let text = DEFAULT_LEVEL@;
    assert(text[0] == 'w');
    assert(!is_decimal(text)) by {
        assert(crate::number::unsigned_digits(text) == text);
        assert(!crate::number::is_digit(text[0]));
    }
    assert(!same_ignoring_case(text, "error"@));
    assert(same_ignoring_case(text, "warn"@));
}

impl LogLevel {
    /// The level that `text` stands for, if any.
    pub fn parse(text: &str) -> (level: Option<LogLevel>)
        ensures
            level == level_of_text(text@),
    {
        level_from_str(text)
    }

    /// The level in force when parsing gave `parsed`: an unreadable setting
    /// falls back to warnings.
    pub fn or_default(parsed: Option<LogLevel>) -> (level: LogLevel)
        ensures
            level == level_or_default(parsed),
    {
        match parsed {
            Some(level) => level,
            None => LogLevel::Warn,
        }
    }

    /// The level that a setting selects; warnings where it is unset.
    pub fn from_setting(setting: &Option<String>) -> (level: LogLevel)
        ensures
            level == level_of_setting(*setting),
    {
        match setting {
            Some(text) => LogLevel::or_default(LogLevel::parse(text.as_str())),
            None => {
                proof {
                    lemma_default_level();
                }
                LogLevel::or_default(LogLevel::parse(DEFAULT_LEVEL))
            },
        }
    }

    /// The level's number: 1 is the quietest, 5 the most verbose.
    pub fn number(&self) -> (n: u8)
        ensures
            level_of_number(n as nat) == Some(*self),
    {
        match self {
            LogLevel::Error => 1,
            LogLevel::Warn => 2,
            LogLevel::Info => 3,
            LogLevel::Debug => 4,
            LogLevel::Trace => 5,
        }
    }
}

} // verus!
