//! Relaying the backend's output into the host's logs.
//!
//! The relay decides, event by event, what is logged and when relaying ends.
//! Receiving the events and writing the records is left to its caller.

use vstd::prelude::*;
use vstd::string::*;
use vstd::utf8::encode_utf8;
use crate::log::{LogRecord, LogSink, RecordModel};
use crate::text::{decode_lossy, i32_to_decimal, signed_decimal, utf8_lossy};

verus! {

/// What an `OutputEvent` stands for.
pub enum EventModel {
    StandardOutput(Seq<u8>),
    StandardError(Seq<u8>),
    Terminated(Option<i32>),
}

/// Something the backend process produced.
#[derive(Clone, Debug, PartialEq, Eq)]
pub enum OutputEvent {
    /// A chunk written to its standard output.
    StandardOutput(Vec<u8>),
    /// A chunk written to its standard error.
    StandardError(Vec<u8>),
    /// The process has ended, with this exit code if one could be had.
    Terminated(Option<i32>),
}

impl View for OutputEvent {
    type V = EventModel;

    open spec fn view(&self) -> EventModel {
        match self {
            OutputEvent::StandardOutput(bytes) => EventModel::StandardOutput(bytes@),
            OutputEvent::StandardError(bytes) => EventModel::StandardError(bytes@),
            OutputEvent::Terminated(code) => EventModel::Terminated(*code),
        }
    }
}

/// The tag in front of every line from the backend's standard output, and of
/// the line that reports its end.
pub open spec fn output_tag() -> Seq<char> {
    "[Backend] "@
}

/// The tag in front of every line from the backend's standard error.
pub open spec fn error_tag() -> Seq<char> {
    "[Backend Error] "@
}

/// How an exit code is written: `Some(<numeral>)`, or `None` where the code
/// could not be had.
pub open spec fn exit_code_text(code: Option<i32>) -> Seq<char> {
    match code {
        Some(c) => "Some("@ + signed_decimal(c as int) + ")"@,
        None => "None"@,
    }
}

/// The line that reports the end of the backend process.
pub open spec fn termination_text(code: Option<i32>) -> Seq<char> {
    output_tag() + "Process terminated with code: "@ + exit_code_text(code)
}

/// The record for a line of the backend's standard output.
pub open spec fn output_record(line: Seq<char>) -> RecordModel {
    RecordModel { sink: LogSink::Info, text: output_tag() + line }
}

/// The record for a line of the backend's standard error.
pub open spec fn error_record(line: Seq<char>) -> RecordModel {
    RecordModel { sink: LogSink::Error, text: error_tag() + line }
}

/// The record for the end of the backend process.
pub open spec fn termination_record(code: Option<i32>) -> RecordModel {
    RecordModel { sink: LogSink::Info, text: termination_text(code) }
}

/// The record an event is relayed as. Output chunks are decoded as UTF-8,
/// malformed parts replaced.
pub open spec fn record_of(event: EventModel) -> RecordModel {
    match event {
        EventModel::StandardOutput(bytes) => output_record(utf8_lossy(bytes)),
        EventModel::StandardError(bytes) => error_record(utf8_lossy(bytes)),
        EventModel::Terminated(code) => termination_record(code),
    }
}

/// One step of the relay: whether it has finished afterwards, and the record
/// it forwards. A relay that has finished forwards nothing.
pub open spec fn relay_step(finished: bool, event: EventModel) -> (bool, Option<RecordModel>) {
    if finished {
        (true, None)
    } else {
        (event is Terminated, Some(record_of(event)))
    }
}

/// The records forwarded, in order, when `events` arrive in order.
pub open spec fn forwarded(finished: bool, events: Seq<EventModel>) -> Seq<RecordModel>
    decreases events.len(),
{
    if events.len() == 0 {
        Seq::empty()
    } else {
        let (next, out) = relay_step(finished, events[0]);
        let tail = forwarded(next, events.drop_first());
        match out {
            Some(record) => seq![record] + tail,
            None => tail,
        }
    }
}

/// None of the first `upto` events reports the end of the process.
pub open spec fn none_terminated(events: Seq<EventModel>, upto: int) -> bool {
    forall|i: int| 0 <= i < upto && i < events.len() ==> !(events[i] is Terminated)
}

/// The record for a line the backend wrote to its standard output.
pub fn stdout_record(line: &str) -> (record: LogRecord)
    ensures
        record@ == output_record(line@),
{
    LogRecord::tagged(LogSink::Info, "[Backend] ", line)
}

/// The record for a line the backend wrote to its standard error.
pub fn stderr_record(line: &str) -> (record: LogRecord)
    ensures
        record@ == error_record(line@),
{
    LogRecord::tagged(LogSink::Error, "[Backend Error] ", line)
}

/// Writes an exit code as `Some(<numeral>)` or `None`.
pub fn exit_code_to_text(code: Option<i32>) -> (text: String)
    ensures
        text@ == exit_code_text(code),
{
    match code {
        Some(c) => String::from_str("Some(").concat(i32_to_decimal(c).as_str()).concat(")"),
        None => String::from_str("None"),
    }
}

/// The record for the end of the backend process.
pub fn terminated_record(code: Option<i32>) -> (record: LogRecord)
    ensures
        record@ == termination_record(code),
{
    let body = String::from_str("Process terminated with code: ").concat(
        exit_code_to_text(code).as_str(),
    );
    let record = LogRecord::tagged(LogSink::Info, "[Backend] ", body.as_str());
    assert(record@.text =~= termination_text(code));
    record
}

/// The record an event is relayed as. A chunk that is the UTF-8 encoding of a
/// line is relayed as that line, unchanged, behind its tag.
pub fn record_for_event(event: &OutputEvent) -> (record: LogRecord)
    ensures
        record@ == record_of(event@),
        forall|line: Seq<char>|
            event@ == EventModel::StandardOutput(#[trigger] encode_utf8(line)) ==> record@
                == output_record(line),
        forall|line: Seq<char>|
            event@ == EventModel::StandardError(#[trigger] encode_utf8(line)) ==> record@
                == error_record(line),
{
    match event {
        OutputEvent::StandardOutput(bytes) => stdout_record(decode_lossy(bytes).as_str()),
        OutputEvent::StandardError(bytes) => stderr_record(decode_lossy(bytes).as_str()),
        OutputEvent::Terminated(code) => terminated_record(*code),
    }
}

/// The relay's memory: whether the end of the process has been relayed.
#[derive(Clone, Copy, Debug, PartialEq, Eq)]
pub struct LogRelay {
    finished: bool,
}

impl View for LogRelay {
    type V = bool;

    closed spec fn view(&self) -> bool {
        self.finished
    }
}

impl LogRelay {
    /// A relay that has seen nothing yet.
    pub fn new() -> (relay: LogRelay)
        ensures
            !relay@,
    {
        LogRelay { finished: false }
    }

    /// Whether the end of the process has been relayed. A finished relay is
    /// to be given no further events, and forwards none.
    pub fn is_finished(&self) -> (finished: bool)
        ensures
            finished == self@,
    {
        self.finished
    }

    /// Takes the next event and returns the record to write, if any.
    pub fn relay(&mut self, event: &OutputEvent) -> (out: Option<LogRecord>)
        ensures
            final(self)@ == relay_step(old(self)@, event@).0,
            match out {
                Some(record) => relay_step(old(self)@, event@).1 == Some(record@),
                None => relay_step(old(self)@, event@).1 is None,
            },
    {
        if self.finished {
            None
        } else {
            let record = record_for_event(event);
            self.finished = match event {
                OutputEvent::Terminated(_) => true,
                _ => false,
            };
            Some(record)
        }
    }
}

/// A relay that has finished forwards nothing.
pub proof fn lemma_finished_relay_is_silent(events: Seq<EventModel>)
    ensures
        forwarded(true, events) == Seq::<RecordModel>::empty(),
    decreases events.len(),
{
    if events.len() > 0 {
        lemma_finished_relay_is_silent(events.drop_first());
    }
}

/// A relay started afresh forwards one record for each event up to and
/// including the first that reports the end of the process, in the order of
/// arrival, each to the sink of its kind, and nothing after that. Here `cut`
/// counts those events: all of them where none reports the end.
pub proof fn law_relay_until_termination(events: Seq<EventModel>, cut: int)
    requires
        0 <= cut <= events.len(),
        none_terminated(events, cut - 1),
        cut == events.len() || (cut >= 1 && events[cut - 1] is Terminated),
    ensures
        forwarded(false, events).len() == cut,
        forall|i: int| 0 <= i < cut ==> #[trigger] forwarded(false, events)[i] == record_of(events[i]),
    decreases events.len(),
{
    if events.len() > 0 {
        let rest = events.drop_first();
        let tail = forwarded(events[0] is Terminated, rest);
        assert(forwarded(false, events) == seq![record_of(events[0])] + tail);
        if events[0] is Terminated {
            lemma_finished_relay_is_silent(rest);
            assert(cut == 1) by {
                if cut > 1 {
                    assert(!(events[0] is Terminated));
                }
                if cut == 0 {
                    assert(cut == events.len());
                }
            }
        } else {
            assert(cut >= 1);
            assert(none_terminated(rest, cut - 2)) by {
                assert forall|i: int| 0 <= i < cut - 2 && i < rest.len() implies !(rest[i] is Terminated) by {
                    assert(rest[i] == events[i + 1]);
                }
            }
            if cut > 1 {
                assert(rest[cut - 2] == events[cut - 1]);
            }
            law_relay_until_termination(rest, cut - 1);
            assert forall|i: int| 0 <= i < cut implies #[trigger] forwarded(false, events)[i]
                == record_of(events[i]) by {
                if i > 0 {
                    assert(forwarded(false, events)[i] == tail[i - 1]);
                    assert(rest[i - 1] == events[i]);
                }
            }
        }
    }
}

} // verus!
