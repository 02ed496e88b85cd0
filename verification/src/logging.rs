//! Log lines: the text of one log record, plain or as a JSON object, and the
//! level that a verbosity count stands for.
//!
//! A record arrives as texts: the time, the level as it is to be shown, the
//! message and, where the build keeps it, the place the record comes from.

use crate::json::{json_compact, JsonModel, JsonValue};
use vstd::prelude::*;
use vstd::string::StringExecFns;

verus! {

/// How much is logged.
#[derive(Clone, Copy, Debug, PartialEq, Eq, Structural)]
pub enum LogLevel {
    Info,
    Debug,
    Trace,
}

/// The level for a verbosity count: nothing asked for gives `Info`, one step
/// `Debug`, anything more `Trace`.
pub open spec fn level_of(verbosity: u8) -> LogLevel {
    if verbosity == 0 {
        LogLevel::Info
    } else if verbosity == 1 {
        LogLevel::Debug
    } else {
        LogLevel::Trace
    }
}

/// Where a record comes from.
#[derive(Debug, PartialEq, Eq)]
pub struct LogOrigin {
    /// The module that logged.
    pub target: String,
    /// The line in its source, if known.
    pub line: Option<u32>,
}

/// One log record, as texts.
#[derive(Debug, PartialEq, Eq)]
pub struct LogRecord {
    /// When the record was made.
    pub timestamp: String,
    /// The level, as it is to be shown.
    pub level: String,
    /// Where the record comes from, in builds that keep it.
    pub origin: Option<LogOrigin>,
    /// What is reported.
    pub message: String,
}

/// The mathematical form of a [`LogOrigin`].
pub struct OriginModel {
    pub target: Seq<char>,
    pub line: Option<u32>,
}

/// The mathematical form of a [`LogRecord`].
pub struct RecordModel {
    pub timestamp: Seq<char>,
    pub level: Seq<char>,
    pub origin: Option<OriginModel>,
    pub message: Seq<char>,
}

impl View for LogOrigin {
    type V = OriginModel;

    open spec fn view(&self) -> OriginModel {
        OriginModel { target: self.target@, line: self.line }
    }
}

impl View for LogRecord {
    type V = RecordModel;

    open spec fn view(&self) -> RecordModel {
        RecordModel {
            timestamp: self.timestamp@,
            level: self.level@,
            origin: match self.origin {
                Some(origin) => Some(origin@),
                None => None,
            },
            message: self.message@,
        }
    }
}

/// The character of a decimal digit.
pub open spec fn digit_char(digit: nat) -> char {
    if digit == 0 {
        '0'
    } else if digit == 1 {
        '1'
    } else if digit == 2 {
        '2'
    } else if digit == 3 {
        '3'
    } else if digit == 4 {
        '4'
    } else if digit == 5 {
        '5'
    } else if digit == 6 {
        '6'
    } else if digit == 7 {
        '7'
    } else if digit == 8 {
        '8'
    } else {
        '9'
    }
}

/// A number in decimal digits, without sign or leading zeros.
pub open spec fn decimal(n: nat) -> Seq<char>
    decreases n,
{
    if n < 10 {
        seq![digit_char(n)]
    } else {
        decimal(n / 10) + seq![digit_char(n % 10)]
    }
}

/// The line of a record's origin as it is shown in a plain line: 0 where it
/// is not known.
pub open spec fn line_or_zero(line: Option<u32>) -> nat {
    match line {
        Some(n) => n as nat,
        None => 0,
    }
}

/// The plain line for a record: time, then level and origin in square
/// brackets, then the message.
pub open spec fn plain_line(record: RecordModel) -> Seq<char> {
    match record.origin {
        Some(origin) => record.timestamp + " ["@ + record.level + ":"@ + origin.target + ":"@
            + decimal(line_or_zero(origin.line)) + "] - "@ + record.message,
        None => record.timestamp + " ["@ + record.level + "] - "@ + record.message,
    }
}

/// The JSON text of a text.
pub open spec fn json_string(text: Seq<char>) -> Seq<char> {
    json_compact(JsonModel::String(text))
}

/// The JSON text of a line number: its digits, or `null` where it is not
/// known.
pub open spec fn json_line_number(line: Option<u32>) -> Seq<char> {
    match line {
        Some(n) => decimal(n as nat),
        None => "null"@,
    }
}

/// The members that say where a record comes from, or nothing.
pub open spec fn json_origin(origin: Option<OriginModel>) -> Seq<char> {
    match origin {
        Some(origin) => ",\"target\":"@ + json_string(origin.target) + ",\"line\":"@
            + json_line_number(origin.line),
        None => Seq::empty(),
    }
}

/// The JSON line for a record: an object with the members `timestamp`,
/// `level`, then `target` and `line` where the origin is kept, then
/// `message`.
pub open spec fn json_line(record: RecordModel) -> Seq<char> {
    "{\"timestamp\":"@ + json_string(record.timestamp) + ",\"level\":"@ + json_string(
        record.level,
    ) + json_origin(record.origin) + ",\"message\":"@ + json_string(record.message) + "}"@
}

/// The line for a record in the form chosen.
pub open spec fn formatted(use_json: bool, record: RecordModel) -> Seq<char> {
    if use_json {
        json_line(record)
    } else {
        plain_line(record)
    }
}

/// Whether the level of a line is shown in colour: never in a JSON line, and
/// in a plain line where colours are asked for.
pub fn shows_colors(use_colors: bool, use_json: bool) -> (colored: bool)
    ensures
        colored == (use_colors && !use_json),
{
    use_colors && !use_json
}

/// The level for a verbosity count.
pub fn log_level(verbosity: u8) -> (level: LogLevel)
    ensures
        level == level_of(verbosity),
{
    match verbosity {
        0 => LogLevel::Info,
        1 => LogLevel::Debug,
        _ => LogLevel::Trace,
    }
}

impl LogLevel {
    /// Whether the level shows more than `Info` does.
    pub fn is_debugging(&self) -> (more: bool)
        ensures
            more == (*self != LogLevel::Info),
    {
        match self {
            LogLevel::Info => false,
            _ => true,
        }
    }
}

/// One decimal digit as text.
fn digit_text(digit: u32) -> (out: &'static str)
    requires
        digit < 10,
    ensures
        out@ == seq![digit_char(digit as nat)],
{
    proof {
        reveal_strlit("0");
        reveal_strlit("1");
        reveal_strlit("2");
        reveal_strlit("3");
        reveal_strlit("4");
        reveal_strlit("5");
        reveal_strlit("6");
        reveal_strlit("7");
        reveal_strlit("8");
        reveal_strlit("9");
    }
    match digit {
        0 => "0",
        1 => "1",
        2 => "2",
        3 => "3",
        4 => "4",
        5 => "5",
        6 => "6",
        7 => "7",
        8 => "8",
        _ => "9",
    }
}

/// A number in decimal digits.
pub fn decimal_text(n: u32) -> (out: String)
    ensures
        out@ == decimal(n as nat),
    decreases n,
{
    if n < 10 {
        String::from_str(digit_text(n))
    } else {
        decimal_text(n / 10).concat(digit_text(n % 10))
    }
}

/// Formats a record as a plain line.
pub fn default_format(record: &LogRecord) -> (line: String)
    ensures
        line@ == plain_line(record@),
{
    let mut line = String::from_str(record.timestamp.as_str());
    line.append(" [");
    line.append(record.level.as_str());
    match &record.origin {
        Some(origin) => {
            let number = match origin.line {
                Some(n) => decimal_text(n),
                None => decimal_text(0),
            };
            line.append(":");
            line.append(origin.target.as_str());
            line.append(":");
            line.append(number.as_str());
        },
        None => {},
    }
    line.append("] - ");
    line.append(record.message.as_str());
    line
}

/// Formats a record as a JSON object on one line.
pub fn json_format(record: &LogRecord) -> (line: String)
    ensures
        line@ == json_line(record@),
{
    let mut line = String::from_str("{\"timestamp\":");
    line.append(JsonValue::text(record.timestamp.as_str()).to_compact().as_str());
    line.append(",\"level\":");
    line.append(JsonValue::text(record.level.as_str()).to_compact().as_str());
    match &record.origin {
        Some(origin) => {
            line.append(",\"target\":");
            line.append(JsonValue::text(origin.target.as_str()).to_compact().as_str());
            line.append(",\"line\":");
            match origin.line {
                Some(n) => line.append(decimal_text(n).as_str()),
                None => line.append("null"),
            }
        },
        None => {},
    }
    line.append(",\"message\":");
    line.append(JsonValue::text(record.message.as_str()).to_compact().as_str());
    line.append("}");
    line
}

/// Formats a record in the form chosen.
pub fn format_record(use_json: bool, record: &LogRecord) -> (line: String)
    ensures
        line@ == formatted(use_json, record@),
{
    if use_json {
        json_format(record)
    } else {
        default_format(record)
    }
}

} // verus!
