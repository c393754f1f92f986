//! Questions put to the operating system's process table, and how its answers
//! are read.

use vstd::prelude::*;
use vstd::string::*;
use vstd::utf8::{decode_utf8, valid_utf8};
use crate::decimal::{decimal_digits, decimal_text};
use crate::text::{is_blank, is_blank_text, texts_of, trim, trimmed};

verus! {

/// The program that lists processes.
pub const PROCESS_LISTER: &'static str = "ps";

/// The field that holds a process's start time, printed without a heading.
pub const FIELD_START_SIGNATURE: &'static str = "lstart=";

/// The field that holds a process's full command line, printed without a heading.
pub const FIELD_COMMAND_LINE: &'static str = "command=";

/// The signal that asks a process to end.
pub const SIGNAL_TERMINATE: &'static str = "-TERM";

/// The program that sends signals.
pub const SIGNAL_SENDER: &'static str = "kill";

/// A program to run, with its arguments.
#[derive(Clone, Debug, PartialEq, Eq)]
pub struct ProcessQuery {
    pub program: String,
    pub args: Vec<String>,
}

/// The arguments that make the process lister print one field of one process.
pub open spec fn field_query_args(pid: u32, field: Seq<char>) -> Seq<Seq<char>> {
    seq!["-p"@, decimal_digits(pid as nat), "-o"@, field]
}

/// What the process lister's answer says of the field that was asked for:
/// the printed text without the white space around it, or nothing if the lister
/// failed, printed no valid UTF-8, or printed only white space.
pub open spec fn process_field(succeeded: bool, stdout: Seq<u8>) -> Option<Seq<char>> {
    if succeeded && valid_utf8(stdout) && !is_blank(decode_utf8(stdout)) {
        Some(trimmed(decode_utf8(stdout)))
    } else {
        None
    }
}

/// `String::from_utf8` of the standard library. It is claimed to succeed on
/// exactly the byte strings that are valid UTF-8, and then to give the text that
/// they encode.
#[verifier::external_body]
fn string_from_utf8(bytes: Vec<u8>) -> (text: Option<String>)
    ensures
        text is Some <==> valid_utf8(bytes@),
        text matches Some(s) ==> s@ == decode_utf8(bytes@),
{
    String::from_utf8(bytes).ok()
}

/// The query that prints the field `field` of the process `pid`.
pub fn process_field_query(pid: u32, field: &str) -> (query: ProcessQuery)
    ensures
        query.program@ == PROCESS_LISTER@,
        texts_of(query.args@) == field_query_args(pid, field@),
{
    let mut args: Vec<String> = Vec::new();
    args.push(String::from_str("-p"));
    args.push(decimal_text(pid));
    args.push(String::from_str("-o"));
    args.push(String::from_str(field));
    assert(texts_of(args@) =~= field_query_args(pid, field@));
    ProcessQuery { program: String::from_str(PROCESS_LISTER), args }
}

/// Reads the answer to a query for one field. `succeeded` says whether the
/// lister ended with success, `stdout` is what it printed.
pub fn read_process_field(succeeded: bool, stdout: Vec<u8>) -> (value: Option<String>)
    ensures
        crate::text::option_text(value) == process_field(succeeded, stdout@),
{
    if !succeeded {
        return None;
    }
    match string_from_utf8(stdout) {
        Some(raw) => {
            if is_blank_text(raw.as_str()) {
                None
            } else {
                Some(String::from_str(trim(raw.as_str())))
            }
        },
        None => None,
    }
}

/// The query for the start-time signature of the process `pid`.
pub fn read_process_start_signature(pid: u32) -> (query: ProcessQuery)
    ensures
        query.program@ == PROCESS_LISTER@,
        texts_of(query.args@) == field_query_args(pid, FIELD_START_SIGNATURE@),
{
    process_field_query(pid, FIELD_START_SIGNATURE)
}

/// The query for the full command line of the process `pid`.
pub fn read_process_command_line(pid: u32) -> (query: ProcessQuery)
    ensures
        query.program@ == PROCESS_LISTER@,
        texts_of(query.args@) == field_query_args(pid, FIELD_COMMAND_LINE@),
{
    process_field_query(pid, FIELD_COMMAND_LINE)
}

/// The command that asks the process `pid` to end.
pub fn terminate_command(pid: u32) -> (query: ProcessQuery)
    ensures
        query.program@ == SIGNAL_SENDER@,
        texts_of(query.args@) == seq![SIGNAL_TERMINATE@, decimal_digits(pid as nat)],
{
    let mut args: Vec<String> = Vec::new();
    args.push(String::from_str(SIGNAL_TERMINATE));
    args.push(decimal_text(pid));
    assert(texts_of(args@) =~= seq![SIGNAL_TERMINATE@, decimal_digits(pid as nat)]);
    ProcessQuery { program: String::from_str(SIGNAL_SENDER), args }
}

} // verus!
