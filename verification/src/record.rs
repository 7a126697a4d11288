//! Log records: what the agent wants logged, as values.

use crate::level::Level;
use vstd::prelude::*;
use vstd::string::StringExecFns;

verus! {

/// One line for the log.
#[derive(Debug, PartialEq, Eq)]
pub struct LogRecord {
    pub level: Level,
    pub message: String,
}

/// A log record as a mathematical value.
pub ghost struct LogRecordView {
    pub level: Level,
    pub message: Seq<char>,
}

impl View for LogRecord {
    type V = LogRecordView;

    open spec fn view(&self) -> LogRecordView {
        LogRecordView { level: self.level, message: self.message@ }
    }
}

impl DeepView for LogRecord {
    type V = LogRecordView;

    open spec fn deep_view(&self) -> LogRecordView {
        self@
    }
}

impl LogRecord {
    /// A record with a fixed text.
    pub fn fixed(level: Level, text: &str) -> (record: LogRecord)
        ensures
            record@ == (LogRecordView { level, message: text@ }),
    {
        LogRecord { level, message: String::from_str(text) }
    }
}

} // verus!
