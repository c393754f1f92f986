//! The identity registry: the one-slot record of the backend process that was
//! started last, as it is read from and written to its file.

use vstd::prelude::*;
use vstd::string::*;
use crate::decimal::{
    decimal_digits, decimal_text, lemma_decimal_digits_value, lemma_parse_decimal_digits,
    parse_decimal, parse_u32,
};
use crate::text::{
    is_blank, is_blank_text, lemma_trimmed_is_identity, option_text,
    trim, trimmed,
};

verus! {

/// The durable fact "process `pid`, started at `started_at` and launched through
/// `command_hint`, is our backend".
#[derive(Clone, Debug, PartialEq, Eq)]
pub struct BackendPidRecord {
    /// The process id; a record that is read from the registry has a positive one.
    pub pid: u32,
    /// The start time of the process as the operating system reported it.
    pub started_at: Option<String>,
    /// The program or script that was started.
    pub command_hint: Option<String>,
}

/// An identity record as a mathematical value.
pub struct BackendPidRecordView {
    pub pid: u32,
    pub started_at: Option<Seq<char>>,
    pub command_hint: Option<Seq<char>>,
}

impl View for BackendPidRecord {
    type V = BackendPidRecordView;

    open spec fn view(&self) -> BackendPidRecordView {
        BackendPidRecordView {
            pid: self.pid,
            started_at: option_text(self.started_at),
            command_hint: option_text(self.command_hint),
        }
    }
}

/// The model of an optional record.
pub open spec fn option_record(record: Option<BackendPidRecord>) -> Option<BackendPidRecordView> {
    match record {
        Some(r) => Some(r@),
        None => None,
    }
}

/// The record that a registry file in the old format holds: the file's text,
/// white space at its ends apart, is a positive process id in decimal notation,
/// and nothing else is known of the process.
pub open spec fn legacy_record(raw: Seq<char>) -> Option<BackendPidRecordView> {
    match parse_decimal(trimmed(raw), u32::MAX as nat) {
        Some(pid) => if pid > 0 {
            Some(BackendPidRecordView { pid: pid as u32, started_at: None, command_hint: None })
        } else {
            None
        },
        None => None,
    }
}

/// The record that the registry holds, given the text `raw` of its file and
/// what reading that text as a structured record gave. A blank file holds
/// none. A structured record counts if its process id is positive; a text that
/// is no structured record is read in the old format.
pub open spec fn stored_record(
    raw: Seq<char>,
    structured: Option<BackendPidRecordView>,
) -> Option<BackendPidRecordView> {
    if is_blank(raw) {
        None
    } else {
        match structured {
            Some(record) => if record.pid > 0 {
                Some(record)
            } else {
                None
            },
            None => legacy_record(raw),
        }
    }
}

/// The text that is written to the registry for `record`: its structured form
/// where there is one, else the bare process id, which a reader of the old
/// format still understands.
pub open spec fn registry_content(
    record: BackendPidRecordView,
    serialized: Option<Seq<char>>,
) -> Seq<char> {
    match serialized {
        Some(text) => text,
        None => decimal_digits(record.pid as nat),
    }
}

/// A blank registry file holds no record, whatever else is said of it.
pub proof fn lemma_blank_registry_is_absent(
    raw: Seq<char>,
    structured: Option<BackendPidRecordView>,
)
    requires
        is_blank(raw),
    ensures
        stored_record(raw, structured) is None,
{
}

/// Every record that the registry holds has a positive process id.
pub proof fn lemma_stored_record_is_positive(
    raw: Seq<char>,
    structured: Option<BackendPidRecordView>,
)
    ensures
        stored_record(raw, structured) matches Some(record) ==> record.pid > 0,
{
}

/// A bare process id that was written for lack of a structured form is read
/// back as a record of that process with nothing else known.
pub proof fn lemma_bare_pid_reads_back(record: BackendPidRecordView)
    requires
        record.pid > 0,
    ensures
        stored_record(registry_content(record, None), None) == Some(
            BackendPidRecordView { pid: record.pid, started_at: None, command_hint: None },
        ),
{
    let text = decimal_digits(record.pid as nat);
    lemma_decimal_digits_value(record.pid as nat);
    assert(crate::decimal::is_digit(text[0]));
    assert(crate::decimal::is_digit(text[text.len() - 1]));
    lemma_trimmed_is_identity(text);
    lemma_parse_decimal_digits(record.pid as nat, u32::MAX as nat);
}

/// The record that the registry holds. `raw` is the text of the registry file
/// and `structured` what reading it as a structured record gave, `None` where
/// it is no such record.
pub fn read_backend_pid_record(raw: &str, structured: Option<BackendPidRecord>) -> (record: Option<
    BackendPidRecord,
>)
    ensures
        option_record(record) == stored_record(raw@, option_record(structured)),
        record matches Some(r) ==> r.pid > 0,
{
    if is_blank_text(raw) {
        return None;
    }
    match structured {
        Some(found) => {
            if found.pid > 0 {
                Some(found)
            } else {
                None
            }
        },
        None => {
            match parse_u32(trim(raw)) {
                Some(pid) => {
                    if pid > 0 {
                        Some(BackendPidRecord { pid, started_at: None, command_hint: None })
                    } else {
                        None
                    }
                },
                None => None,
            }
        },
    }
}

/// The text to write to the registry for `record`. `serialized` is the record's
/// structured form, `None` where it could not be produced.
pub fn persist_backend_pid_record(record: &BackendPidRecord, serialized: Option<String>) -> (content:
    String)
    ensures
        content@ == registry_content(record@, option_text(serialized)),
{
    match serialized {
        Some(text) => text,
        None => decimal_text(record.pid),
    }
}

} // verus!
