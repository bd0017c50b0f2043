//! Log records: a line of text and the sink it is meant for.

use vstd::prelude::*;
use vstd::string::*;

verus! {

/// The log a record is written to.
#[derive(Clone, Copy, Debug, PartialEq, Eq, Structural)]
pub enum LogSink {
    /// The informational log.
    Info,
    /// The log of warnings: something went wrong, and the application goes on.
    Warning,
    /// The error log.
    Error,
}

/// What a `LogRecord` stands for.
pub struct RecordModel {
    pub sink: LogSink,
    pub text: Seq<char>,
}

/// One line for one sink.
#[derive(Clone, Debug, PartialEq, Eq)]
pub struct LogRecord {
    pub sink: LogSink,
    pub text: String,
}

impl View for LogRecord {
    type V = RecordModel;

    open spec fn view(&self) -> RecordModel {
        RecordModel { sink: self.sink, text: self.text@ }
    }
}

impl LogRecord {
    /// The record that sends `prefix` followed by `body` to `sink`.
    pub fn tagged(sink: LogSink, prefix: &str, body: &str) -> (record: LogRecord)
        ensures
            record@ == (RecordModel { sink, text: prefix@ + body@ }),
    {
        LogRecord { sink, text: String::from_str(prefix).concat(body) }
    }
}

} // verus!
