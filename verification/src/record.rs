use vstd::prelude::*;

verus! {

/// Severity of a log call, from most to least severe.
#[derive(Clone, Copy, Debug, PartialEq, Eq, Structural)]
pub enum Level {
    Error,
    Warn,
    Info,
    Debug,
    Trace,
}

/// The mathematical content of a captured record: its severity and the
/// characters of its fully formatted message.
pub ghost struct RecordModel {
    pub level: Level,
    pub message: Seq<char>,
}

/// Captured log record: an immutable (level, message) pair, created when the
/// sink receives a log event and never mutated afterwards.
#[derive(Debug, Clone, PartialEq, Eq)]
pub struct Record {
    level: Level,
    message: String,
}

impl View for Record {
    type V = RecordModel;

    closed spec fn view(&self) -> RecordModel {
        RecordModel { level: self.level, message: self.message@ }
    }
}

impl Record {
    pub(crate) fn new(level: Level, message: String) -> (record: Record)
        ensures
            record@ == (RecordModel { level, message: message@ }),
    {
        Record { level, message }
    }

    /// get logged level.
    pub fn level(&self) -> (level: Level)
        ensures
            level == self@.level,
    {
        self.level
    }

    /// get log message.
    pub fn message(&self) -> (message: &str)
        ensures
            message@ == self@.message,
    {
        self.message.as_str()
    }
}

} // verus!
