//! Where the supervisor keeps its files: the profile, the user's runtime
//! directory and what lies in it, and the places where the backend program and
//! the default configuration are looked for.

use vstd::prelude::*;
use vstd::string::*;
use crate::paths::{join_path, joined};
use crate::text::texts_of;

verus! {

/// Name of the profile file inside the application's configuration directory.
pub const PROFILE_FILE_NAME: &'static str = "desktop-runtime.json";

/// Directory used below the temporary directory when the platform names no
/// configuration directory.
pub const FALLBACK_CONFIG_DIR_NAME: &'static str = "oko-desktop";

/// The bundled backend binary, below the resource directory.
pub const EMBEDDED_BACKEND_RESOURCE: &'static str = "binaries/oko-backend-aarch64-apple-darwin";

/// The bundled default configuration, below the resource directory.
pub const DEFAULT_DASHBOARD_RESOURCE: &'static str = "resources/dashboard.default.yaml";

/// Name of the user's runtime directory inside the home directory.
pub const USER_RUNTIME_DIR_NAME: &'static str = ".oko";

/// The user's configuration file, below the runtime directory.
pub const USER_CONFIG_FILE_NAME: &'static str = "dashboard.yaml";

/// The directory of the backend's persisted data, below the runtime directory.
pub const USER_DATA_DIR_NAME: &'static str = "data";

/// The backend's database, below the runtime directory.
pub const USER_BACKEND_DB_FILE: &'static str = "data/dashboard.sqlite3";

/// The backend's scan results, below the runtime directory.
pub const USER_LAN_SCAN_RESULT_FILE: &'static str = "data/lan_scan_result.json";

/// The directory of the backend's log, below the runtime directory.
pub const USER_LOG_DIR_NAME: &'static str = "logs";

/// The backend's log, below the runtime directory.
pub const USER_BACKEND_LOG_FILE: &'static str = "logs/backend.log";

/// The identity registry, below the runtime directory.
pub const USER_BACKEND_PID_FILE: &'static str = "backend.pid";

/// The files of the user's runtime directory that the backend is told about.
#[derive(Clone, Debug, PartialEq, Eq)]
pub struct RuntimePaths {
    pub runtime_dir: String,
    pub config_path: String,
    pub db_file: String,
    pub lan_result_file: String,
    pub backend_log_file: String,
}

/// The files of a runtime directory as mathematical values.
pub struct RuntimePathsView {
    pub runtime_dir: Seq<char>,
    pub config_path: Seq<char>,
    pub db_file: Seq<char>,
    pub lan_result_file: Seq<char>,
    pub backend_log_file: Seq<char>,
}

impl View for RuntimePaths {
    type V = RuntimePathsView;

    open spec fn view(&self) -> RuntimePathsView {
        RuntimePathsView {
            runtime_dir: self.runtime_dir@,
            config_path: self.config_path@,
            db_file: self.db_file@,
            lan_result_file: self.lan_result_file@,
            backend_log_file: self.backend_log_file@,
        }
    }
}

/// The files of the runtime directory `runtime_dir`.
pub open spec fn runtime_paths_of(runtime_dir: Seq<char>) -> RuntimePathsView {
    RuntimePathsView {
        runtime_dir,
        config_path: joined(runtime_dir, USER_CONFIG_FILE_NAME@),
        db_file: joined(runtime_dir, USER_BACKEND_DB_FILE@),
        lan_result_file: joined(runtime_dir, USER_LAN_SCAN_RESULT_FILE@),
        backend_log_file: joined(runtime_dir, USER_BACKEND_LOG_FILE@),
    }
}

/// The application's configuration directory: the one that the platform names,
/// or a directory of the application's own below the temporary directory.
pub open spec fn config_dir_of(platform_dir: Option<Seq<char>>, temp_dir: Seq<char>) -> Seq<char> {
    match platform_dir {
        Some(dir) => dir,
        None => joined(temp_dir, FALLBACK_CONFIG_DIR_NAME@),
    }
}

/// The user's runtime directory: `.oko` in the home directory, or in the
/// temporary directory for a user without one.
pub open spec fn runtime_dir_of(home: Option<Seq<char>>, temp_dir: Seq<char>) -> Seq<char> {
    match home {
        Some(dir) => joined(dir, USER_RUNTIME_DIR_NAME@),
        None => joined(temp_dir, USER_RUNTIME_DIR_NAME@),
    }
}

/// The places where the default configuration is looked for, first choice
/// first: an explicitly named file, the bundled resource, then three places
/// relative to the working directory.
pub open spec fn template_candidates(
    explicit: Option<Seq<char>>,
    resource_dir: Option<Seq<char>>,
    working_dir: Option<Seq<char>>,
) -> Seq<Seq<char>> {
    let first = match explicit {
        Some(path) => seq![path],
        None => seq![],
    };
    let second = match resource_dir {
        Some(dir) => seq![joined(dir, DEFAULT_DASHBOARD_RESOURCE@)],
        None => seq![],
    };
    let third = match working_dir {
        Some(dir) => seq![
            joined(dir, "../../dashboard.yaml"@),
            joined(dir, "../dashboard.yaml"@),
            joined(dir, "dashboard.yaml"@),
        ],
        None => seq![],
    };
    first + second + third
}

/// The places where the backend binary is looked for, first choice first: an
/// explicitly named file, then the bundled resource.
pub open spec fn binary_candidates(
    explicit: Option<Seq<char>>,
    resource_dir: Option<Seq<char>>,
) -> Seq<Seq<char>> {
    let first = match explicit {
        Some(path) => seq![path],
        None => seq![],
    };
    let second = match resource_dir {
        Some(dir) => seq![joined(dir, EMBEDDED_BACKEND_RESOURCE@)],
        None => seq![],
    };
    first + second
}

/// The places where the development script is looked for, first choice first.
pub open spec fn script_candidates(working_dir: Option<Seq<char>>) -> Seq<Seq<char>> {
    match working_dir {
        Some(dir) => seq![
            joined(dir, "../desktop/backend_sidecar.py"@),
            joined(dir, "../../src/desktop/backend_sidecar.py"@),
            joined(dir, "src/desktop/backend_sidecar.py"@),
        ],
        None => seq![],
    }
}

/// The application's configuration directory.
pub fn app_config_dir(platform_dir: Option<&str>, temp_dir: &str) -> (dir: String)
    ensures
        dir@ == config_dir_of(crate::text::option_str(platform_dir), temp_dir@),
{
    match platform_dir {
        Some(dir) => String::from_str(dir),
        None => join_path(temp_dir, FALLBACK_CONFIG_DIR_NAME),
    }
}

/// The profile file inside the configuration directory.
pub fn runtime_profile_path(config_dir: &str) -> (path: String)
    ensures
        path@ == joined(config_dir@, PROFILE_FILE_NAME@),
{
    join_path(config_dir, PROFILE_FILE_NAME)
}

/// The user's runtime directory.
pub fn user_runtime_dir(home: Option<&str>, temp_dir: &str) -> (dir: String)
    ensures
        dir@ == runtime_dir_of(crate::text::option_str(home), temp_dir@),
{
    match home {
        Some(dir) => join_path(dir, USER_RUNTIME_DIR_NAME),
        None => join_path(temp_dir, USER_RUNTIME_DIR_NAME),
    }
}

/// The identity registry inside the runtime directory.
pub fn backend_pid_file(runtime_dir: &str) -> (path: String)
    ensures
        path@ == joined(runtime_dir@, USER_BACKEND_PID_FILE@),
{
    join_path(runtime_dir, USER_BACKEND_PID_FILE)
}

/// The files of the runtime directory `runtime_dir`.
pub fn runtime_paths(runtime_dir: &str) -> (paths: RuntimePaths)
    ensures
        paths@ == runtime_paths_of(runtime_dir@),
{
    RuntimePaths {
        runtime_dir: String::from_str(runtime_dir),
        config_path: join_path(runtime_dir, USER_CONFIG_FILE_NAME),
        db_file: join_path(runtime_dir, USER_BACKEND_DB_FILE),
        lan_result_file: join_path(runtime_dir, USER_LAN_SCAN_RESULT_FILE),
        backend_log_file: join_path(runtime_dir, USER_BACKEND_LOG_FILE),
    }
}

/// The places where the default configuration is looked for, first choice first.
pub fn default_dashboard_template_candidates(
    explicit: Option<&str>,
    resource_dir: Option<&str>,
    working_dir: Option<&str>,
) -> (candidates: Vec<String>)
    ensures
        texts_of(candidates@) == template_candidates(
            crate::text::option_str(explicit),
            crate::text::option_str(resource_dir),
            crate::text::option_str(working_dir),
        ),
{
    let mut candidates: Vec<String> = Vec::new();
    if let Some(path) = explicit {
        candidates.push(String::from_str(path));
    }
    if let Some(dir) = resource_dir {
        candidates.push(join_path(dir, DEFAULT_DASHBOARD_RESOURCE));
    }
    if let Some(dir) = working_dir {
        candidates.push(join_path(dir, "../../dashboard.yaml"));
        candidates.push(join_path(dir, "../dashboard.yaml"));
        candidates.push(join_path(dir, "dashboard.yaml"));
    }
    assert(texts_of(candidates@) =~= template_candidates(
        crate::text::option_str(explicit),
        crate::text::option_str(resource_dir),
        crate::text::option_str(working_dir),
    ));
    candidates
}

/// The places where the backend binary is looked for, first choice first.
pub fn embedded_backend_binary_candidates(explicit: Option<&str>, resource_dir: Option<&str>) -> (candidates:
    Vec<String>)
    ensures
        texts_of(candidates@) == binary_candidates(
            crate::text::option_str(explicit),
            crate::text::option_str(resource_dir),
        ),
{
    let mut candidates: Vec<String> = Vec::new();
    if let Some(path) = explicit {
        candidates.push(String::from_str(path));
    }
    if let Some(dir) = resource_dir {
        candidates.push(join_path(dir, EMBEDDED_BACKEND_RESOURCE));
    }
    assert(texts_of(candidates@) =~= binary_candidates(
        crate::text::option_str(explicit),
        crate::text::option_str(resource_dir),
    ));
    candidates
}

/// The places where the development script is looked for, first choice first.
pub fn dev_backend_script_candidates(working_dir: Option<&str>) -> (candidates: Vec<String>)
    ensures
        texts_of(candidates@) == script_candidates(crate::text::option_str(working_dir)),
{
    let mut candidates: Vec<String> = Vec::new();
    if let Some(dir) = working_dir {
        candidates.push(join_path(dir, "../desktop/backend_sidecar.py"));
        candidates.push(join_path(dir, "../../src/desktop/backend_sidecar.py"));
        candidates.push(join_path(dir, "src/desktop/backend_sidecar.py"));
    }
    assert(texts_of(candidates@) =~= script_candidates(crate::text::option_str(working_dir)));
    candidates
}

} // verus!
