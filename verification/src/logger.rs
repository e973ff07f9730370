//! The logging capability: a severity-tagged, fire-and-forget sink.
//!
//! Every component hands diagnostic lines to one injected [`Logger`] rather
//! than to a free-standing global.  The sink only records; it never blocks
//! and never fails the request it describes.

use vstd::prelude::*;

use vstd::string::StringExecFns;

verus! {

/// Severity of one diagnostic line.
#[derive(Clone, Copy, PartialEq, Eq, Structural, Debug)]
pub enum LogLevel {
    /// Routine progress.
    Info,
    /// A step that went right.
    Success,
    /// Something suspect that did not stop the request.
    Warning,
    /// A step that failed.
    Error,
}

/// The short tag a severity is printed with.
pub open spec fn level_tag(level: LogLevel) -> Seq<char> {
    match level {
        LogLevel::Info => "[i]"@,
        LogLevel::Success => "[s]"@,
        LogLevel::Warning => "[w]"@,
        LogLevel::Error => "[e]"@,
    }
}

impl LogLevel {
    /// The short tag this severity is printed with.
    pub fn as_str(&self) -> (tag: &'static str)
        ensures
            tag@ == level_tag(*self),
    {
        match self {
            LogLevel::Info => "[i]",
            LogLevel::Success => "[s]",
            LogLevel::Warning => "[w]",
            LogLevel::Error => "[e]",
        }
    }
}

/// One recorded diagnostic line.
pub struct LogEntry {
    /// How serious the line is.
    pub level: LogLevel,
    /// The line itself.
    pub text: String,
}

/// The injected logging capability.  It accepts a severity and a line and
/// records them in order; nothing is ever dropped or reordered.
pub struct Logger {
    /// Everything emitted so far, oldest first.
    pub entries: Vec<LogEntry>,
}

/// A diagnostic line as the driver's print sink shows it: the service name,
/// the severity tag, and the text.
pub open spec fn rendered_line(level: LogLevel, text: Seq<char>) -> Seq<char> {
    "[erebus] "@ + level_tag(level) + " -> "@ + text
}

impl Logger {
    /// A fresh sink with nothing recorded.
    pub fn new() -> (logger: Logger)
        ensures
            logger.entries@.len() == 0,
    {
        Logger { entries: Vec::new() }
    }

    /// Records one line at the given severity, after everything already
    /// recorded.
    pub fn emit(&mut self, level: LogLevel, text: String)
        ensures
            final(self).entries@.len() == old(self).entries@.len() + 1,
            final(self).entries@.subrange(0, old(self).entries@.len() as int) == old(
                self,
            ).entries@,
            final(self).entries@.last().level == level,
            final(self).entries@.last().text@ == text@,
    {
        let ghost before = self.entries@;
        self.entries.push(LogEntry { level, text });
        proof {
            assert(self.entries@.subrange(0, before.len() as int) =~= before);
        }
    }

    /// Renders one recorded line as the driver's print sink would show it.
    pub fn render(&self, index: usize) -> (line: String)
        requires
            index < self.entries@.len(),
        ensures
            line@ == rendered_line(self.entries@[index as int].level, self.entries@[
                index as int].text@),
    {
        let entry = &self.entries[index];
        let mut line = String::from_str("[erebus] ");
        line.append(entry.level.as_str());
        line.append(" -> ");
        line.append(entry.text.as_str());
        line
    }
}

} // verus!
