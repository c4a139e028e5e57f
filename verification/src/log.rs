//! Log events, and the line that the console shows for one.

use vstd::prelude::*;
use vstd::string::StringExecFns;

verus! {

/// Which side of a connection a log event comes from.
#[derive(Debug, Clone, Copy, PartialEq, Eq, Structural)]
pub enum LogStage {
    SERVER,
    CLIENT,
}

/// How serious a log event is.
#[derive(Debug, Clone, Copy, PartialEq, Eq, Structural)]
pub enum LogLevel {
    INFO,
    WARN,
    ERROR,
}

impl LogStage {
    /// The stage as the console shows it.
    pub open spec fn label(self) -> Seq<char> {
        match self {
            LogStage::SERVER => "SERVER"@,
            LogStage::CLIENT => "CLIENT"@,
        }
    }

    /// The stage as the console shows it.
    pub fn name(&self) -> (text: &'static str)
        ensures
            text@ == self.label(),
    {
        match self {
            LogStage::SERVER => "SERVER",
            LogStage::CLIENT => "CLIENT",
        }
    }
}

impl LogLevel {
    /// The level as the console shows it.
    pub open spec fn label(self) -> Seq<char> {
        match self {
            LogLevel::INFO => "INFO"@,
            LogLevel::WARN => "WARN"@,
            LogLevel::ERROR => "ERROR"@,
        }
    }

    /// The level as the console shows it.
    pub fn name(&self) -> (text: &'static str)
        ensures
            text@ == self.label(),
    {
        match self {
            LogLevel::INFO => "INFO",
            LogLevel::WARN => "WARN",
            LogLevel::ERROR => "ERROR",
        }
    }
}

/// The line that the console shows for a log event when no log handler was
/// given: the stage and the level in square brackets, a colon, a space, and the
/// message.
pub open spec fn console_line(stage: LogStage, level: LogLevel, message: Seq<char>) -> Seq<char> {
    "["@ + stage.label() + "]["@ + level.label() + "]: "@ + message
}

/// The line that the console shows for a log event when no log handler was
/// given.
pub fn console_text(stage: LogStage, level: LogLevel, message: &str) -> (line: String)
    ensures
        line@ == console_line(stage, level, message@),
{
    let mut line = String::from_str("[");
    line.append(stage.name());
    line.append("][");
    line.append(level.name());
    line.append("]: ");
    line.append(message);
    line
}

} // verus!
