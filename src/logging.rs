//! Severity levels of the structured log lines that the core reports.
use vstd::prelude::*;
use crate::text::{push_str, str_equals};

verus! {

/// Severity of a log line.
#[derive(Clone, Copy, Debug, PartialEq, Eq, Structural)]
pub enum LogLevel {
    DEBUG,
    INFO,
    ERROR,
    WARN,
}

/// The label written in a log line for each level.
pub open spec fn level_label(l: LogLevel) -> Seq<char> {
    match l {
        LogLevel::DEBUG => "DEBUG"@,
        LogLevel::INFO => "INFO"@,
        LogLevel::ERROR => "ERROR"@,
        LogLevel::WARN => "WARN"@,
    }
}

/// The level that a lower-case name selects; unknown names log as `INFO`.
pub open spec fn level_of_name(s: Seq<char>) -> LogLevel {
    if s == "info"@ {
        LogLevel::INFO
    } else if s == "error"@ {
        LogLevel::ERROR
    } else if s == "warn"@ {
        LogLevel::WARN
    } else if s == "debug"@ {
        LogLevel::DEBUG
    } else {
        LogLevel::INFO
    }
}

impl LogLevel {
    /// The label written in a log line.
    pub fn as_str(&self) -> (r: &'static str)
        ensures
            r@ == level_label(*self),
    {
        match self {
            LogLevel::DEBUG => "DEBUG",
            LogLevel::INFO => "INFO",
            LogLevel::ERROR => "ERROR",
            LogLevel::WARN => "WARN",
        }
    }

    /// The level that a lower-case name selects, `INFO` when none does.
    pub fn from_name(s: &str) -> (r: LogLevel)
        ensures
            r == level_of_name(s@),
    {
        if str_equals(s, "info") {
            LogLevel::INFO
        } else if str_equals(s, "error") {
            LogLevel::ERROR
        } else if str_equals(s, "warn") {
            LogLevel::WARN
        } else if str_equals(s, "debug") {
            LogLevel::DEBUG
        } else {
            LogLevel::INFO
        }
    }
}

/// The character of a decimal digit.
pub open spec fn digit_char(d: nat) -> char {
    if d == 0 {
        '0'
    } else if d == 1 {
        '1'
    } else if d == 2 {
        '2'
    } else if d == 3 {
        '3'
    } else if d == 4 {
        '4'
    } else if d == 5 {
        '5'
    } else if d == 6 {
        '6'
    } else if d == 7 {
        '7'
    } else if d == 8 {
        '8'
    } else {
        '9'
    }
}

/// `n` in decimal, without leading zeros.
pub open spec fn decimal(n: nat) -> Seq<char>
    decreases n,
{
    if n < 10 {
        seq![digit_char(n)]
    } else {
        decimal(n / 10).push(digit_char(n % 10))
    }
}

/// Relies on `ToString` for `u32`: the number in decimal.
#[verifier::external_body]
fn decimal_text(n: u32) -> (r: String)
    ensures
        r@ == decimal(n as nat),
{
    n.to_string()
}

/// Where log lines go, and how they are laid out: one file per day in the log
/// directory.
pub struct Logger {
    log_dir: String,
}

impl View for Logger {
    type V = Seq<char>;

    closed spec fn view(&self) -> Seq<char> {
        self.log_dir@
    }
}

impl Logger {
    /// A logger writing under `log_dir`.
    pub fn new(log_dir: String) -> (r: Logger)
        ensures
            r@ == log_dir@,
    {
        Logger { log_dir }
    }

    /// The log directory.
    pub fn log_dir(&self) -> (r: &str)
        ensures
            r@ == self@,
    {
        self.log_dir.as_str()
    }

    /// Name of the log file of a day, given as its date.
    pub fn log_file_name(date: &str) -> (r: String)
        ensures
            r@ == date@ + ".log"@,
    {
        let mut s = date.to_owned();
        push_str(&mut s, ".log");
        s
    }

    /// A log line: time, bracketed level, message.
    pub fn log_line(timestamp: &str, level: LogLevel, message: &str) -> (r: String)
        ensures
            r@ == timestamp@ + " ["@ + level_label(level) + "] "@ + message@ + "\n"@,
    {
        let mut s = timestamp.to_owned();
        push_str(&mut s, " [");
        push_str(&mut s, level.as_str());
        push_str(&mut s, "] ");
        push_str(&mut s, message);
        push_str(&mut s, "\n");
        s
    }

    /// An error line: time, the place in the source, message.
    pub fn error_line(
        timestamp: &str,
        file_name: &str,
        function_name: &str,
        line_number: u32,
        message: &str,
    ) -> (r: String)
        ensures
            r@ == timestamp@ + " [ERROR] f@"@ + file_name@ + " | fn@->"@ + function_name@
                + " | line@"@ + decimal(line_number as nat) + " "@ + message@ + "\n"@,
    {
        let mut s = timestamp.to_owned();
        push_str(&mut s, " [ERROR] f@");
        push_str(&mut s, file_name);
        push_str(&mut s, " | fn@->");
        push_str(&mut s, function_name);
        push_str(&mut s, " | line@");
        let n = decimal_text(line_number);
        push_str(&mut s, n.as_str());
        push_str(&mut s, " ");
        push_str(&mut s, message);
        push_str(&mut s, "\n");
        s
    }
}

} // verus!
