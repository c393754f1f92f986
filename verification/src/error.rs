//! The failures that the supervisor reports to its caller, and the text in which
//! each is shown to the user.

use vstd::prelude::*;
use vstd::string::*;

verus! {

/// Why an operation of the supervisor failed. A `detail` is the operating
/// system's own account of the failure.
#[derive(Clone, Debug, PartialEq, Eq)]
pub enum SupervisorError {
    /// The directory of the profile file could not be created.
    CreateConfigDir { detail: String },
    /// The profile could not be turned into text.
    SerializeProfile { detail: String },
    /// The profile file could not be written.
    SaveProfile { detail: String },
    /// The requested mode is neither `embedded` nor `remote`.
    UnsupportedMode { mode: String },
    /// No loop-back port could be reserved.
    ReservePort { detail: String },
    /// The reserved port could not be read back.
    ReadPort { detail: String },
    /// The user's runtime directory could not be created.
    CreateRuntimeDir { detail: String },
    /// The directory of the backend's database could not be created.
    CreateDbDir { detail: String },
    /// The directory of the backend's scan results could not be created.
    CreateDataDir { detail: String },
    /// The directory of the backend's log could not be created.
    CreateLogDir { detail: String },
    /// A first run found no default configuration to copy.
    TemplateNotFound,
    /// The default configuration could not be copied.
    CopyTemplate { template: String, detail: String },
    /// Neither the backend binary nor the development script was found.
    BackendNotFound,
    /// The backend's log file could not be opened.
    OpenLog { path: String, detail: String },
    /// The handle of the backend's log file could not be duplicated.
    CloneLog { path: String, detail: String },
    /// The operating system refused to start the backend.
    Spawn { detail: String },
    /// The machine is not a macOS system on Apple Silicon.
    UnsupportedPlatform,
}

pub const MSG_CREATE_CONFIG_DIR: &'static str = "Failed to create config dir: ";

pub const MSG_SERIALIZE_PROFILE: &'static str = "Failed to serialize profile: ";

pub const MSG_SAVE_PROFILE: &'static str = "Failed to save profile: ";

pub const MSG_UNSUPPORTED_MODE: &'static str = "Unsupported runtime mode: ";

pub const MSG_RESERVE_PORT: &'static str = "Failed to reserve local port: ";

pub const MSG_READ_PORT: &'static str = "Failed to read local port: ";

pub const MSG_CREATE_RUNTIME_DIR: &'static str = "Failed to create runtime dir: ";

pub const MSG_CREATE_DB_DIR: &'static str = "Failed to create runtime DB dir: ";

pub const MSG_CREATE_DATA_DIR: &'static str = "Failed to create runtime data dir: ";

pub const MSG_CREATE_LOG_DIR: &'static str = "Failed to create backend log dir: ";

pub const MSG_TEMPLATE_NOT_FOUND: &'static str =
    "Default dashboard template not found for first desktop run";

pub const MSG_COPY_TEMPLATE: &'static str =
    "Failed to create user dashboard config from template ";

pub const MSG_BACKEND_NOT_FOUND: &'static str =
    "Embedded backend binary not found. Build sidecar and place it into src/frontend/src-tauri/binaries";

pub const MSG_OPEN_LOG: &'static str = "Failed to open backend log file ";

pub const MSG_CLONE_LOG: &'static str = "Failed to clone backend log handle ";

pub const MSG_SPAWN: &'static str = "Failed to start embedded backend: ";

pub const MSG_UNSUPPORTED_PLATFORM: &'static str =
    "This desktop target is configured only for macOS Apple Silicon (aarch64).";

pub const MSG_SEPARATOR: &'static str = ": ";

/// A failure as a mathematical value.
pub enum SupervisorErrorView {
    CreateConfigDir { detail: Seq<char> },
    SerializeProfile { detail: Seq<char> },
    SaveProfile { detail: Seq<char> },
    UnsupportedMode { mode: Seq<char> },
    ReservePort { detail: Seq<char> },
    ReadPort { detail: Seq<char> },
    CreateRuntimeDir { detail: Seq<char> },
    CreateDbDir { detail: Seq<char> },
    CreateDataDir { detail: Seq<char> },
    CreateLogDir { detail: Seq<char> },
    TemplateNotFound,
    CopyTemplate { template: Seq<char>, detail: Seq<char> },
    BackendNotFound,
    OpenLog { path: Seq<char>, detail: Seq<char> },
    CloneLog { path: Seq<char>, detail: Seq<char> },
    Spawn { detail: Seq<char> },
    UnsupportedPlatform,
}

impl View for SupervisorError {
    type V = SupervisorErrorView;

    open spec fn view(&self) -> SupervisorErrorView {
        match self {
            SupervisorError::CreateConfigDir { detail } => SupervisorErrorView::CreateConfigDir {
                detail: detail@,
            },
            SupervisorError::SerializeProfile { detail } => SupervisorErrorView::SerializeProfile {
                detail: detail@,
            },
            SupervisorError::SaveProfile { detail } => SupervisorErrorView::SaveProfile {
                detail: detail@,
            },
            SupervisorError::UnsupportedMode { mode } => SupervisorErrorView::UnsupportedMode {
                mode: mode@,
            },
            SupervisorError::ReservePort { detail } => SupervisorErrorView::ReservePort {
                detail: detail@,
            },
            SupervisorError::ReadPort { detail } => SupervisorErrorView::ReadPort { detail: detail@ },
            SupervisorError::CreateRuntimeDir { detail } => SupervisorErrorView::CreateRuntimeDir {
                detail: detail@,
            },
            SupervisorError::CreateDbDir { detail } => SupervisorErrorView::CreateDbDir {
                detail: detail@,
            },
            SupervisorError::CreateDataDir { detail } => SupervisorErrorView::CreateDataDir {
                detail: detail@,
            },
            SupervisorError::CreateLogDir { detail } => SupervisorErrorView::CreateLogDir {
                detail: detail@,
            },
            SupervisorError::TemplateNotFound => SupervisorErrorView::TemplateNotFound,
            SupervisorError::CopyTemplate { template, detail } => SupervisorErrorView::CopyTemplate {
                template: template@,
                detail: detail@,
            },
            SupervisorError::BackendNotFound => SupervisorErrorView::BackendNotFound,
            SupervisorError::OpenLog { path, detail } => SupervisorErrorView::OpenLog {
                path: path@,
                detail: detail@,
            },
            SupervisorError::CloneLog { path, detail } => SupervisorErrorView::CloneLog {
                path: path@,
                detail: detail@,
            },
            SupervisorError::Spawn { detail } => SupervisorErrorView::Spawn { detail: detail@ },
            SupervisorError::UnsupportedPlatform => SupervisorErrorView::UnsupportedPlatform,
        }
    }
}

impl SupervisorErrorView {
    /// The text shown to the user for this failure.
    pub open spec fn message_text(self) -> Seq<char> {
        match self {
            SupervisorErrorView::CreateConfigDir { detail } => MSG_CREATE_CONFIG_DIR@ + detail,
            SupervisorErrorView::SerializeProfile { detail } => MSG_SERIALIZE_PROFILE@ + detail,
            SupervisorErrorView::SaveProfile { detail } => MSG_SAVE_PROFILE@ + detail,
            SupervisorErrorView::UnsupportedMode { mode } => MSG_UNSUPPORTED_MODE@ + mode,
            SupervisorErrorView::ReservePort { detail } => MSG_RESERVE_PORT@ + detail,
            SupervisorErrorView::ReadPort { detail } => MSG_READ_PORT@ + detail,
            SupervisorErrorView::CreateRuntimeDir { detail } => MSG_CREATE_RUNTIME_DIR@ + detail,
            SupervisorErrorView::CreateDbDir { detail } => MSG_CREATE_DB_DIR@ + detail,
            SupervisorErrorView::CreateDataDir { detail } => MSG_CREATE_DATA_DIR@ + detail,
            SupervisorErrorView::CreateLogDir { detail } => MSG_CREATE_LOG_DIR@ + detail,
            SupervisorErrorView::TemplateNotFound => MSG_TEMPLATE_NOT_FOUND@,
            SupervisorErrorView::CopyTemplate { template, detail } => MSG_COPY_TEMPLATE@ + template
                + MSG_SEPARATOR@ + detail,
            SupervisorErrorView::BackendNotFound => MSG_BACKEND_NOT_FOUND@,
            SupervisorErrorView::OpenLog { path, detail } => MSG_OPEN_LOG@ + path + MSG_SEPARATOR@
                + detail,
            SupervisorErrorView::CloneLog { path, detail } => MSG_CLONE_LOG@ + path + MSG_SEPARATOR@
                + detail,
            SupervisorErrorView::Spawn { detail } => MSG_SPAWN@ + detail,
            SupervisorErrorView::UnsupportedPlatform => MSG_UNSUPPORTED_PLATFORM@,
        }
    }
}

impl SupervisorError {
    /// The text shown to the user for this failure.
    pub fn message(&self) -> (text: String)
        ensures
            text@ == self@.message_text(),
    {
        match self {
            SupervisorError::CreateConfigDir { detail } => described(MSG_CREATE_CONFIG_DIR, detail),
            SupervisorError::SerializeProfile { detail } => described(
                MSG_SERIALIZE_PROFILE,
                detail,
            ),
            SupervisorError::SaveProfile { detail } => described(MSG_SAVE_PROFILE, detail),
            SupervisorError::UnsupportedMode { mode } => described(MSG_UNSUPPORTED_MODE, mode),
            SupervisorError::ReservePort { detail } => described(MSG_RESERVE_PORT, detail),
            SupervisorError::ReadPort { detail } => described(MSG_READ_PORT, detail),
            SupervisorError::CreateRuntimeDir { detail } => described(
                MSG_CREATE_RUNTIME_DIR,
                detail,
            ),
            SupervisorError::CreateDbDir { detail } => described(MSG_CREATE_DB_DIR, detail),
            SupervisorError::CreateDataDir { detail } => described(MSG_CREATE_DATA_DIR, detail),
            SupervisorError::CreateLogDir { detail } => described(MSG_CREATE_LOG_DIR, detail),
            SupervisorError::TemplateNotFound => String::from_str(MSG_TEMPLATE_NOT_FOUND),
            SupervisorError::CopyTemplate { template, detail } => described_subject(
                MSG_COPY_TEMPLATE,
                template,
                detail,
            ),
            SupervisorError::BackendNotFound => String::from_str(MSG_BACKEND_NOT_FOUND),
            SupervisorError::OpenLog { path, detail } => described_subject(
                MSG_OPEN_LOG,
                path,
                detail,
            ),
            SupervisorError::CloneLog { path, detail } => described_subject(
                MSG_CLONE_LOG,
                path,
                detail,
            ),
            SupervisorError::Spawn { detail } => described(MSG_SPAWN, detail),
            SupervisorError::UnsupportedPlatform => String::from_str(MSG_UNSUPPORTED_PLATFORM),
        }
    }
}

/// `prefix` followed by `detail`.
fn described(prefix: &str, detail: &String) -> (text: String)
    ensures
        text@ == prefix@ + detail@,
{
    let mut text = String::from_str(prefix);
    text.append(detail.as_str());
    text
}

/// `prefix`, the thing that the failure is about, a colon and `detail`.
fn described_subject(prefix: &str, subject: &String, detail: &String) -> (text: String)
    ensures
        text@ == prefix@ + subject@ + MSG_SEPARATOR@ + detail@,
{
    let mut text = String::from_str(prefix);
    text.append(subject.as_str());
    text.append(MSG_SEPARATOR);
    text.append(detail.as_str());
    text
}

} // verus!
