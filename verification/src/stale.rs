//! The stale process reconciler: whether the process that the identity registry
//! names is still the backend that was started, and may therefore be asked to
//! end. Process ids are reused, so a remembered id alone proves nothing: the
//! live process must look like the backend, carry the expected flags, match the
//! recorded command, and have been started at the recorded time.

use vstd::prelude::*;
use vstd::string::*;
use crate::paths::{file_name, path_file_name};
use crate::registry::{option_record, stored_record, BackendPidRecord, BackendPidRecordView};
use crate::text::{
    borrowed, contains, contains_text, is_blank, is_blank_text, lowercase_of, option_str,
    option_text, same_text, to_lowercase,
};

verus! {

/// Name of the production binary.
pub const BACKEND_BINARY_NAME: &'static str = "oko-backend-aarch64-apple-darwin";

/// Name of the development script.
pub const BACKEND_SCRIPT_NAME: &'static str = "backend_sidecar.py";

/// The flag that names the address on which the backend listens.
pub const FLAG_HOST: &'static str = "--host";

/// The flag that names the port on which the backend listens.
pub const FLAG_PORT: &'static str = "--port";

/// The loop-back address to which the backend is bound.
pub const LOOPBACK_ADDRESS: &'static str = "127.0.0.1";

/// The part of a command hint that is looked for in a command line: the name of
/// the file that the hint ends in, or the whole hint if it ends in none.
pub open spec fn hint_basename(hint: Seq<char>) -> Seq<char> {
    match file_name(hint) {
        Some(name) => name,
        None => hint,
    }
}

/// Whether a lowercase basename is found in a lowercase command line. An empty
/// basename is found nowhere.
pub open spec fn basename_occurs(command_line_lower: Seq<char>, basename_lower: Seq<char>) -> bool {
    basename_lower.len() > 0 && contains(command_line_lower, basename_lower)
}

/// Whether a command line, given in lowercase, agrees with the recorded command
/// hint. No hint and a blank hint agree with every command line; any other
/// hint agrees if its basename, in lowercase, is part of the command line.
pub open spec fn hint_matches(command_line_lower: Seq<char>, hint: Option<Seq<char>>) -> bool {
    match hint {
        None => true,
        Some(value) => is_blank(value) || basename_occurs(
            command_line_lower,
            lowercase_of(hint_basename(value)),
        ),
    }
}

/// Whether a lowercase command line names the production binary or the
/// development script.
pub open spec fn has_known_identity(command_line_lower: Seq<char>) -> bool {
    contains(command_line_lower, BACKEND_BINARY_NAME@) || contains(
        command_line_lower,
        BACKEND_SCRIPT_NAME@,
    )
}

/// Whether a lowercase command line carries the flags with which the backend is
/// started: a host flag, the loop-back address and a port flag.
pub open spec fn has_expected_flags(command_line_lower: Seq<char>) -> bool {
    &&& contains(command_line_lower, FLAG_HOST@)
    &&& contains(command_line_lower, LOOPBACK_ADDRESS@)
    &&& contains(command_line_lower, FLAG_PORT@)
}

/// Whether a command line, given in lowercase, is that of the backend as it was
/// recorded.
pub open spec fn lowered_command_is_backend(
    command_line_lower: Seq<char>,
    hint: Option<Seq<char>>,
) -> bool {
    &&& has_known_identity(command_line_lower)
    &&& has_expected_flags(command_line_lower)
    &&& hint_matches(command_line_lower, hint)
}

/// Whether a command line is that of the backend as it was recorded; letter case
/// makes no difference.
pub open spec fn is_backend_command(command_line: Seq<char>, hint: Option<Seq<char>>) -> bool {
    lowered_command_is_backend(lowercase_of(command_line), hint)
}

/// Whether a record carries a start-time signature that the live process must
/// match. A blank signature counts as none.
pub open spec fn carries_start_signature(record: BackendPidRecordView) -> bool {
    record.started_at matches Some(expected) && !is_blank(expected)
}

/// Whether the live process was started when the recorded one was. A record
/// without a signature is taken to match; with one, the live signature must be
/// known and equal to it.
pub open spec fn start_matches(record: BackendPidRecordView, live_start: Option<Seq<char>>) -> bool {
    carries_start_signature(record) ==> live_start == record.started_at
}

/// Whether the process table shows a live process whose command line is that of
/// the backend as it was recorded. `command_line` is `None` where the table
/// knows no process of the recorded id.
pub open spec fn live_command_is_backend(
    record: BackendPidRecordView,
    command_line: Option<Seq<char>>,
) -> bool {
    command_line matches Some(line) && is_backend_command(line, record.command_hint)
}

/// Whether the recorded process may be asked to end. `command_line` and
/// `live_start` are what the process table says of the recorded process id now,
/// `None` where it says nothing.
pub open spec fn should_terminate(
    record: BackendPidRecordView,
    command_line: Option<Seq<char>>,
    live_start: Option<Seq<char>>,
) -> bool {
    live_command_is_backend(record, command_line) && start_matches(record, live_start)
}

/// Tells whether a lowercase basename is found in a lowercase command line.
pub fn hint_basename_occurs(command_line_lower: &str, basename_lower: &str) -> (found: bool)
    ensures
        found == basename_occurs(command_line_lower@, basename_lower@),
{
    basename_lower.unicode_len() > 0 && contains_text(command_line_lower, basename_lower)
}

/// Tells whether a command line, given in lowercase, agrees with the recorded
/// command hint.
pub fn command_hint_matches(command_line_lower: &str, command_hint: Option<&str>) -> (matches: bool)
    ensures
        matches == hint_matches(command_line_lower@, option_str(command_hint)),
{
    match command_hint {
        None => true,
        Some(value) => {
            if is_blank_text(value) {
                return true;
            }
            let basename = match path_file_name(value) {
                Some(name) => name,
                None => value,
            };
            let basename_lower = to_lowercase(basename);
            hint_basename_occurs(command_line_lower, basename_lower.as_str())
        },
    }
}

/// Tells whether a command line, given in lowercase, is that of the backend as
/// it was recorded.
pub fn lowered_command_is_embedded_backend(
    command_line_lower: &str,
    command_hint: Option<&str>,
) -> (is_backend: bool)
    ensures
        is_backend == lowered_command_is_backend(command_line_lower@, option_str(command_hint)),
{
    let has_known_identity = contains_text(command_line_lower, BACKEND_BINARY_NAME)
        || contains_text(command_line_lower, BACKEND_SCRIPT_NAME);
    let has_expected_flags = contains_text(command_line_lower, FLAG_HOST) && contains_text(
        command_line_lower,
        LOOPBACK_ADDRESS,
    ) && contains_text(command_line_lower, FLAG_PORT);
    has_known_identity && has_expected_flags && command_hint_matches(
        command_line_lower,
        command_hint,
    )
}

/// Tells whether a command line is that of the backend as it was recorded.
pub fn is_embedded_backend_command(command_line: &str, command_hint: Option<&str>) -> (is_backend:
    bool)
    ensures
        is_backend == is_backend_command(command_line@, option_str(command_hint)),
{
    let command_line_lower = to_lowercase(command_line);
    lowered_command_is_embedded_backend(command_line_lower.as_str(), command_hint)
}

/// Tells whether a record carries a start-time signature that the live process
/// must match.
pub fn needs_start_signature(record: &BackendPidRecord) -> (needed: bool)
    ensures
        needed == carries_start_signature(record@),
{
    match &record.started_at {
        Some(expected) => !is_blank_text(expected.as_str()),
        None => false,
    }
}

/// Tells whether the live process was started when the recorded one was.
pub fn start_signature_matches(record: &BackendPidRecord, live_start: Option<&str>) -> (matches: bool)
    ensures
        matches == start_matches(record@, option_str(live_start)),
{
    if !needs_start_signature(record) {
        return true;
    }
    match (&record.started_at, live_start) {
        (Some(expected), Some(actual)) => same_text(actual, expected.as_str()),
        _ => false,
    }
}

/// Tells whether the process table shows a live process whose command line is
/// that of the backend as it was recorded.
pub fn live_command_matches(record: &BackendPidRecord, command_line: Option<&str>) -> (matches: bool)
    ensures
        matches == live_command_is_backend(record@, option_str(command_line)),
{
    match command_line {
        Some(line) => is_embedded_backend_command(line, borrowed(&record.command_hint)),
        None => false,
    }
}

/// Tells whether the recorded process may be asked to end, given what the
/// process table says of the recorded process id now.
pub fn should_terminate_stale_backend(
    record: &BackendPidRecord,
    command_line: Option<&str>,
    live_start: Option<&str>,
) -> (terminate: bool)
    ensures
        terminate == should_terminate(record@, option_str(command_line), option_str(live_start)),
{
    live_command_matches(record, command_line) && start_signature_matches(record, live_start)
}

/// How far the check of a registry record has come.
#[derive(Clone, Debug, PartialEq, Eq)]
pub enum StaleCheck {
    /// The command line of the recorded process is being asked for.
    AwaitingCommandLine { record: BackendPidRecord },
    /// The command line was that of the backend; the start-time signature of the
    /// recorded process is being asked for.
    AwaitingStartSignature { record: BackendPidRecord },
    /// The check has ended; `signal` is the process to ask to end, if any.
    Finished { signal: Option<u32> },
}

/// What the caller of the check has to do at a stage of it.
#[derive(Clone, Copy, Debug, PartialEq, Eq, Structural)]
pub enum StaleAction {
    /// Ask the process table for the command line of `pid` and hand the answer
    /// to `stale_check_step`.
    QueryCommandLine { pid: u32 },
    /// Ask the process table for the start-time signature of `pid` and hand the
    /// answer to `stale_check_step`.
    QueryStartSignature { pid: u32 },
    /// The check has ended. Ask the process `signal` to end, if there is one;
    /// then delete the registry record, whether or not a process was asked to
    /// end.
    DiscardRecord { signal: Option<u32> },
}

/// The state of a check as a mathematical value.
pub enum StaleCheckView {
    AwaitingCommandLine { record: BackendPidRecordView },
    AwaitingStartSignature { record: BackendPidRecordView },
    Finished { signal: Option<u32> },
}

impl View for StaleCheck {
    type V = StaleCheckView;

    open spec fn view(&self) -> StaleCheckView {
        match self {
            StaleCheck::AwaitingCommandLine { record } => StaleCheckView::AwaitingCommandLine {
                record: record@,
            },
            StaleCheck::AwaitingStartSignature { record } => StaleCheckView::AwaitingStartSignature {
                record: record@,
            },
            StaleCheck::Finished { signal } => StaleCheckView::Finished { signal: *signal },
        }
    }
}

/// How the check of what the registry held begins: without a record it has
/// ended already, with no process to signal; with one, the command line of its
/// process is asked for.
pub open spec fn stale_check_begin(record: Option<BackendPidRecordView>) -> StaleCheckView {
    match record {
        None => StaleCheckView::Finished { signal: None },
        Some(r) => StaleCheckView::AwaitingCommandLine { record: r },
    }
}

/// What the caller has to do at a stage of a check.
pub open spec fn stale_check_action_of(check: StaleCheckView) -> StaleAction {
    match check {
        StaleCheckView::AwaitingCommandLine { record } => StaleAction::QueryCommandLine {
            pid: record.pid,
        },
        StaleCheckView::AwaitingStartSignature { record } => StaleAction::QueryStartSignature {
            pid: record.pid,
        },
        StaleCheckView::Finished { signal } => StaleAction::DiscardRecord { signal },
    }
}

/// How the check goes on when the process table has answered; `answer` is
/// `None` where it had nothing to say.
///
/// A command line that is missing or is not that of the backend ends the check
/// with no process to signal. One that is the backend's ends it with the
/// recorded process to signal, unless the record carries a start-time
/// signature: then that of the live process is asked for, and the process is
/// signalled only if the record carries a signature and the two are equal. A
/// check that has ended stays as it ended.
pub open spec fn stale_check_next(check: StaleCheckView, answer: Option<Seq<char>>) -> StaleCheckView {
    match check {
        StaleCheckView::AwaitingCommandLine { record } => {
            if !live_command_is_backend(record, answer) {
                StaleCheckView::Finished { signal: None }
            } else if carries_start_signature(record) {
                StaleCheckView::AwaitingStartSignature { record }
            } else {
                StaleCheckView::Finished { signal: Some(record.pid) }
            }
        },
        StaleCheckView::AwaitingStartSignature { record } => {
            if carries_start_signature(record) && answer == record.started_at {
                StaleCheckView::Finished { signal: Some(record.pid) }
            } else {
                StaleCheckView::Finished { signal: None }
            }
        },
        StaleCheckView::Finished { signal } => check,
    }
}

/// Where a whole check ends up when the process table answers `command_line`
/// and then `live_start` to the questions put to it.
pub open spec fn stale_check_end(
    record: Option<BackendPidRecordView>,
    command_line: Option<Seq<char>>,
    live_start: Option<Seq<char>>,
) -> StaleCheckView {
    stale_check_next(stale_check_next(stale_check_begin(record), command_line), live_start)
}

/// The process that is signalled for a record, if any, when the process table
/// says `command_line` and `live_start` of the recorded process id.
pub open spec fn signalled_process(
    record: Option<BackendPidRecordView>,
    command_line: Option<Seq<char>>,
    live_start: Option<Seq<char>>,
) -> Option<u32> {
    match record {
        Some(r) => if should_terminate(r, command_line, live_start) {
            Some(r.pid)
        } else {
            None
        },
        None => None,
    }
}

/// A check has ended after at most two answers, and it signals the recorded
/// process exactly when that process may be asked to end, and never any other
/// process. The start-time signature is asked for only of a process whose
/// command line is the backend's, and only if the record carries a signature.
pub proof fn lemma_stale_check_end(
    record: Option<BackendPidRecordView>,
    command_line: Option<Seq<char>>,
    live_start: Option<Seq<char>>,
)
    ensures
        stale_check_end(record, command_line, live_start) == (StaleCheckView::Finished {
            signal: signalled_process(record, command_line, live_start),
        }),
        stale_check_next(stale_check_begin(record), command_line) is AwaitingStartSignature
            <==> (record matches Some(r) && live_command_is_backend(r, command_line)
            && carries_start_signature(r)),
{
}

/// Every check ends with the registry record discarded, whatever the process
/// table answers.
pub proof fn lemma_record_is_always_discarded(
    record: Option<BackendPidRecordView>,
    command_line: Option<Seq<char>>,
    live_start: Option<Seq<char>>,
)
    ensures
        stale_check_action_of(stale_check_end(record, command_line, live_start)) is DiscardRecord,
{
    lemma_stale_check_end(record, command_line, live_start);
}

/// A process whose command line names neither the production binary nor the
/// development script, or does not hold the loop-back address, is never
/// signalled.
pub proof fn lemma_unknown_command_never_signals(
    record: BackendPidRecordView,
    command_line: Seq<char>,
    live_start: Option<Seq<char>>,
)
    requires
        !has_known_identity(lowercase_of(command_line)) || !contains(
            lowercase_of(command_line),
            LOOPBACK_ADDRESS@,
        ),
    ensures
        !should_terminate(record, Some(command_line), live_start),
        stale_check_end(Some(record), Some(command_line), live_start) == (StaleCheckView::Finished {
            signal: None,
        }),
{
    lemma_stale_check_end(Some(record), Some(command_line), live_start);
}

/// A process whose command line does not hold the basename of the recorded
/// command hint, letter case apart, is never signalled.
pub proof fn lemma_hint_mismatch_never_signals(
    record: BackendPidRecordView,
    command_line: Seq<char>,
    live_start: Option<Seq<char>>,
)
    requires
        record.command_hint matches Some(hint) && !is_blank(hint) && !contains(
            lowercase_of(command_line),
            lowercase_of(hint_basename(hint)),
        ),
    ensures
        !should_terminate(record, Some(command_line), live_start),
        stale_check_end(Some(record), Some(command_line), live_start) == (StaleCheckView::Finished {
            signal: None,
        }),
{
    lemma_stale_check_end(Some(record), Some(command_line), live_start);
}

/// A process whose command line lacks the host flag or the port flag is never
/// signalled, whatever the record and the start-time signatures say.
pub proof fn lemma_missing_flag_never_signals(
    record: BackendPidRecordView,
    command_line: Seq<char>,
    live_start: Option<Seq<char>>,
)
    requires
        !contains(lowercase_of(command_line), FLAG_HOST@) || !contains(
            lowercase_of(command_line),
            FLAG_PORT@,
        ),
    ensures
        !should_terminate(record, Some(command_line), live_start),
        stale_check_end(Some(record), Some(command_line), live_start) == (StaleCheckView::Finished {
            signal: None,
        }),
{
    lemma_stale_check_end(Some(record), Some(command_line), live_start);
}

/// A process whose start-time signature is not the recorded one is never
/// signalled, however much its command line looks like the backend's.
pub proof fn lemma_start_mismatch_never_signals(
    record: BackendPidRecordView,
    command_line: Option<Seq<char>>,
    live_start: Option<Seq<char>>,
)
    requires
        carries_start_signature(record),
        live_start != record.started_at,
    ensures
        !should_terminate(record, command_line, live_start),
        stale_check_end(Some(record), command_line, live_start) == (StaleCheckView::Finished {
            signal: None,
        }),
{
    lemma_stale_check_end(Some(record), command_line, live_start);
}

/// A process that the process table does not know is never signalled.
pub proof fn lemma_dead_process_never_signals(
    record: BackendPidRecordView,
    live_start: Option<Seq<char>>,
)
    ensures
        !should_terminate(record, None, live_start),
        stale_check_end(Some(record), None, live_start) == (StaleCheckView::Finished {
            signal: None,
        }),
{
    lemma_stale_check_end(Some(record), None, live_start);
}

/// A registry file that is blank is discarded: it holds no record, so its
/// check ends at once, with no process to signal and the file to delete.
pub proof fn lemma_blank_registry_is_discarded(
    raw: Seq<char>,
    structured: Option<BackendPidRecordView>,
)
    requires
        is_blank(raw),
    ensures
        stored_record(raw, structured) is None,
        stale_check_action_of(stale_check_begin(stored_record(raw, structured)))
            == (StaleAction::DiscardRecord { signal: None }),
{
}

/// Begins the check of what the registry held.
pub fn terminate_stale_backend_by_pid_file(record: Option<BackendPidRecord>) -> (check: StaleCheck)
    ensures
        check@ == stale_check_begin(option_record(record)),
{
    match record {
        None => StaleCheck::Finished { signal: None },
        Some(found) => StaleCheck::AwaitingCommandLine { record: found },
    }
}

/// Tells what the caller has to do at a stage of a check.
pub fn stale_check_action(check: &StaleCheck) -> (action: StaleAction)
    ensures
        action == stale_check_action_of(check@),
{
    match check {
        StaleCheck::AwaitingCommandLine { record } => StaleAction::QueryCommandLine {
            pid: record.pid,
        },
        StaleCheck::AwaitingStartSignature { record } => StaleAction::QueryStartSignature {
            pid: record.pid,
        },
        StaleCheck::Finished { signal } => StaleAction::DiscardRecord { signal: *signal },
    }
}

/// Goes on with a check when the process table has answered the question that
/// was put last; `answer` is `None` where it had nothing to say.
pub fn stale_check_step(check: StaleCheck, answer: Option<String>) -> (next: StaleCheck)
    ensures
        next@ == stale_check_next(check@, option_text(answer)),
{
    match check {
        StaleCheck::AwaitingCommandLine { record } => {
            if !live_command_matches(&record, borrowed(&answer)) {
                StaleCheck::Finished { signal: None }
            } else if needs_start_signature(&record) {
                StaleCheck::AwaitingStartSignature { record }
            } else {
                StaleCheck::Finished { signal: Some(record.pid) }
            }
        },
        StaleCheck::AwaitingStartSignature { record } => {
            let same = match (&answer, &record.started_at) {
                (Some(actual), Some(expected)) => same_text(actual.as_str(), expected.as_str()),
                _ => false,
            };
            if needs_start_signature(&record) && same {
                StaleCheck::Finished { signal: Some(record.pid) }
            } else {
                StaleCheck::Finished { signal: None }
            }
        },
        StaleCheck::Finished { signal } => StaleCheck::Finished { signal },
    }
}

} // verus!
