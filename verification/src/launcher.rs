//! The backend launcher: the steps from "a backend is wanted" to "a backend
//! runs and its identity is recorded", in their order. The launcher decides; its
//! caller does what each step asks for (reserve a port, create directories, look
//! for files, start the process) and reports what came of it.
//!
//! A launch either ends with a running backend, its handle and its identity
//! record, or with a failure. The identity record comes into being only with
//! the handle, after the process has started: a failed launch leaves neither.

use vstd::prelude::*;
use vstd::string::*;
use crate::error::{SupervisorError, SupervisorErrorView};
use crate::launch_plan::{
    backend_started, launch_plan_of, plan_launch, started_backend, started_record,
    EmbeddedBackend, EmbeddedBackendView, LaunchPlan, LaunchPlanView,
    SpawnStrategy, SpawnStrategyView,
};
use crate::layout::{
    binary_candidates, default_dashboard_template_candidates, dev_backend_script_candidates,
    embedded_backend_binary_candidates, runtime_paths, runtime_paths_of, script_candidates,
    template_candidates, RuntimePaths, USER_DATA_DIR_NAME, USER_LOG_DIR_NAME,
};
use crate::paths::{join_path, joined};
use crate::registry::{BackendPidRecord, BackendPidRecordView};
use crate::text::{borrowed, option_text, texts_of};

verus! {

/// A path and whether a file exists there.
#[derive(Clone, Debug, PartialEq, Eq)]
pub struct PathProbe {
    pub path: String,
    pub exists: bool,
}

/// What a directory of the runtime directory is for.
#[derive(Clone, Copy, Debug, PartialEq, Eq, Structural)]
pub enum DirectoryPurpose {
    /// The runtime directory itself.
    Runtime,
    /// Holds the backend's database.
    Database,
    /// Holds the backend's scan results.
    Data,
    /// Holds the backend's log.
    Log,
}

/// A directory that must exist before the backend starts.
#[derive(Clone, Debug, PartialEq, Eq)]
pub struct DirectoryStep {
    pub path: String,
    pub purpose: DirectoryPurpose,
}

/// The part of reserving a port that failed.
#[derive(Clone, Copy, Debug, PartialEq, Eq, Structural)]
pub enum PortStage {
    /// Binding a listening socket to port 0 of the loop-back address.
    Reserve,
    /// Reading back the port that the socket was given.
    Read,
}

/// The part of starting the process that failed.
#[derive(Clone, Copy, Debug, PartialEq, Eq, Structural)]
pub enum SpawnStage {
    /// Opening the log file.
    OpenLog,
    /// Duplicating the handle of the log file.
    CloneLog,
    /// Starting the process.
    Start,
}

/// What the launcher is told of its surroundings before it begins.
#[derive(Clone, Debug, PartialEq, Eq)]
pub struct LaunchSite {
    /// The user's runtime directory.
    pub runtime_dir: String,
    /// A backend binary that the environment names explicitly.
    pub explicit_binary: Option<String>,
    /// A default configuration that the environment names explicitly.
    pub explicit_template: Option<String>,
    /// The directory of the bundled resources, where there is one.
    pub resource_dir: Option<String>,
    /// The working directory, where it can be had.
    pub working_dir: Option<String>,
}

/// The launcher's surroundings as a mathematical value.
pub struct LaunchSiteView {
    pub runtime_dir: Seq<char>,
    pub explicit_binary: Option<Seq<char>>,
    pub explicit_template: Option<Seq<char>>,
    pub resource_dir: Option<Seq<char>>,
    pub working_dir: Option<Seq<char>>,
}

impl View for LaunchSite {
    type V = LaunchSiteView;

    open spec fn view(&self) -> LaunchSiteView {
        LaunchSiteView {
            runtime_dir: self.runtime_dir@,
            explicit_binary: option_text(self.explicit_binary),
            explicit_template: option_text(self.explicit_template),
            resource_dir: option_text(self.resource_dir),
            working_dir: option_text(self.working_dir),
        }
    }
}

/// How far a launch has come. Each stage but the last two waits for the report
/// on what `launch_action` asks for at that stage.
#[derive(Clone, Debug, PartialEq, Eq)]
pub enum LaunchStage {
    /// The registry is being checked for a leftover backend.
    CheckingStale,
    /// A loop-back port is being reserved.
    ReservingPort,
    /// The directories of the runtime directory are being created.
    CreatingDirectories { port: u16 },
    /// The user's configuration file and the backend's database are looked for.
    ProbingRuntimeFiles { port: u16 },
    /// A first run: the default configuration is looked for.
    ProbingTemplates { port: u16 },
    /// A first run: the default configuration is being copied.
    CopyingTemplate { port: u16, template: String },
    /// The backend binary is looked for.
    ProbingBinaries { port: u16 },
    /// No binary was found: the development script is looked for.
    ProbingScripts { port: u16 },
    /// The backend is being started.
    Spawning { port: u16, strategy: SpawnStrategy },
    /// The backend runs: its start-time signature is being read.
    ReadingStartSignature { port: u16, strategy: SpawnStrategy, pid: u32 },
    /// The launch has succeeded. The caller writes `record` to the registry and
    /// holds `backend`.
    Started { backend: EmbeddedBackend, record: BackendPidRecord },
    /// The launch has failed.
    Failed { error: SupervisorError },
}

/// A stage of a launch as a mathematical value.
pub enum LaunchStageView {
    CheckingStale,
    ReservingPort,
    CreatingDirectories { port: u16 },
    ProbingRuntimeFiles { port: u16 },
    ProbingTemplates { port: u16 },
    CopyingTemplate { port: u16, template: Seq<char> },
    ProbingBinaries { port: u16 },
    ProbingScripts { port: u16 },
    Spawning { port: u16, strategy: SpawnStrategyView },
    ReadingStartSignature { port: u16, strategy: SpawnStrategyView, pid: u32 },
    Started { backend: EmbeddedBackendView, record: BackendPidRecordView },
    Failed { error: SupervisorErrorView },
}

impl View for LaunchStage {
    type V = LaunchStageView;

    open spec fn view(&self) -> LaunchStageView {
        match self {
            LaunchStage::CheckingStale => LaunchStageView::CheckingStale,
            LaunchStage::ReservingPort => LaunchStageView::ReservingPort,
            LaunchStage::CreatingDirectories { port } => LaunchStageView::CreatingDirectories {
                port: *port,
            },
            LaunchStage::ProbingRuntimeFiles { port } => LaunchStageView::ProbingRuntimeFiles {
                port: *port,
            },
            LaunchStage::ProbingTemplates { port } => LaunchStageView::ProbingTemplates {
                port: *port,
            },
            LaunchStage::CopyingTemplate { port, template } => LaunchStageView::CopyingTemplate {
                port: *port,
                template: template@,
            },
            LaunchStage::ProbingBinaries { port } => LaunchStageView::ProbingBinaries { port: *port },
            LaunchStage::ProbingScripts { port } => LaunchStageView::ProbingScripts { port: *port },
            LaunchStage::Spawning { port, strategy } => LaunchStageView::Spawning {
                port: *port,
                strategy: strategy@,
            },
            LaunchStage::ReadingStartSignature {
                port,
                strategy,
                pid,
            } => LaunchStageView::ReadingStartSignature {
                port: *port,
                strategy: strategy@,
                pid: *pid,
            },
            LaunchStage::Started { backend, record } => LaunchStageView::Started {
                backend: backend@,
                record: record@,
            },
            LaunchStage::Failed { error } => LaunchStageView::Failed { error: error@ },
        }
    }
}

/// What the caller of the launcher has to do at a stage.
#[derive(Clone, Debug, PartialEq, Eq)]
pub enum LaunchAction {
    /// Run the stale process reconciler to its end; report `StaleChecked`.
    ReconcileStale,
    /// Bind a listening socket to port 0 of the loop-back address, read the
    /// port back and release the socket; report `PortReserved` or `PortFailed`.
    ReservePort,
    /// Create the directories, with their parents, in the order given; report
    /// `DirectoriesCreated`, or `DirectoryFailed` for the first that fails.
    CreateDirectories { steps: Vec<DirectoryStep> },
    /// Look whether the two files exist; report `RuntimeFilesProbed`.
    ProbeRuntimeFiles { config_path: String, db_file: String },
    /// Look at which of the paths a file exists; report `Probed` with the
    /// paths in the order given.
    Probe { candidates: Vec<String> },
    /// Copy the file `from` to `to`; report `TemplateCopied` or
    /// `TemplateCopyFailed`.
    CopyTemplate { from: String, to: String },
    /// Start the process that `plan` describes; report `Spawned` or
    /// `SpawnFailed`.
    Spawn { plan: LaunchPlan },
    /// Ask the process table for the start-time signature of `pid`; report
    /// `StartSignatureRead`.
    QueryStartSignature { pid: u32 },
    /// Nothing: the launch has ended.
    Done,
}

/// An action of the launcher as a mathematical value.
pub enum LaunchActionView {
    ReconcileStale,
    ReservePort,
    CreateDirectories { steps: Seq<(Seq<char>, DirectoryPurpose)> },
    ProbeRuntimeFiles { config_path: Seq<char>, db_file: Seq<char> },
    Probe { candidates: Seq<Seq<char>> },
    CopyTemplate { from: Seq<char>, to: Seq<char> },
    Spawn { plan: LaunchPlanView },
    QueryStartSignature { pid: u32 },
    Done,
}

impl View for LaunchAction {
    type V = LaunchActionView;

    open spec fn view(&self) -> LaunchActionView {
        match self {
            LaunchAction::ReconcileStale => LaunchActionView::ReconcileStale,
            LaunchAction::ReservePort => LaunchActionView::ReservePort,
            LaunchAction::CreateDirectories { steps } => LaunchActionView::CreateDirectories {
                steps: directories_of(steps@),
            },
            LaunchAction::ProbeRuntimeFiles {
                config_path,
                db_file,
            } => LaunchActionView::ProbeRuntimeFiles { config_path: config_path@, db_file: db_file@ },
            LaunchAction::Probe { candidates } => LaunchActionView::Probe {
                candidates: texts_of(candidates@),
            },
            LaunchAction::CopyTemplate { from, to } => LaunchActionView::CopyTemplate {
                from: from@,
                to: to@,
            },
            LaunchAction::Spawn { plan } => LaunchActionView::Spawn { plan: plan@ },
            LaunchAction::QueryStartSignature { pid } => LaunchActionView::QueryStartSignature {
                pid: *pid,
            },
            LaunchAction::Done => LaunchActionView::Done,
        }
    }
}

/// What the caller reports of the action that it has carried out.
#[derive(Clone, Debug, PartialEq, Eq)]
pub enum LaunchEvent {
    /// The stale process reconciler has run to its end.
    StaleChecked,
    /// The port `port` was reserved and released again.
    PortReserved { port: u16 },
    /// No port could be reserved.
    PortFailed { port_stage: PortStage, detail: String },
    /// All directories exist.
    DirectoriesCreated,
    /// The directory of the given purpose could not be created.
    DirectoryFailed { purpose: DirectoryPurpose, detail: String },
    /// Whether the user's configuration file and the backend's database exist.
    RuntimeFilesProbed { config_exists: bool, db_exists: bool },
    /// At which of the paths asked about a file exists.
    Probed { probes: Vec<PathProbe> },
    /// The default configuration was copied.
    TemplateCopied,
    /// The default configuration could not be copied.
    TemplateCopyFailed { detail: String },
    /// The backend runs as process `pid`.
    Spawned { pid: u32 },
    /// The backend could not be started.
    SpawnFailed { spawn_stage: SpawnStage, detail: String },
    /// The start-time signature of the process, `None` where the process table
    /// had nothing to say.
    StartSignatureRead { value: Option<String> },
}

/// A report to the launcher as a mathematical value.
pub enum LaunchEventView {
    StaleChecked,
    PortReserved { port: u16 },
    PortFailed { port_stage: PortStage, detail: Seq<char> },
    DirectoriesCreated,
    DirectoryFailed { purpose: DirectoryPurpose, detail: Seq<char> },
    RuntimeFilesProbed { config_exists: bool, db_exists: bool },
    Probed { probes: Seq<(Seq<char>, bool)> },
    TemplateCopied,
    TemplateCopyFailed { detail: Seq<char> },
    Spawned { pid: u32 },
    SpawnFailed { spawn_stage: SpawnStage, detail: Seq<char> },
    StartSignatureRead { value: Option<Seq<char>> },
}

impl View for LaunchEvent {
    type V = LaunchEventView;

    open spec fn view(&self) -> LaunchEventView {
        match self {
            LaunchEvent::StaleChecked => LaunchEventView::StaleChecked,
            LaunchEvent::PortReserved { port } => LaunchEventView::PortReserved { port: *port },
            LaunchEvent::PortFailed { port_stage, detail } => LaunchEventView::PortFailed {
                port_stage: *port_stage,
                detail: detail@,
            },
            LaunchEvent::DirectoriesCreated => LaunchEventView::DirectoriesCreated,
            LaunchEvent::DirectoryFailed { purpose, detail } => LaunchEventView::DirectoryFailed {
                purpose: *purpose,
                detail: detail@,
            },
            LaunchEvent::RuntimeFilesProbed {
                config_exists,
                db_exists,
            } => LaunchEventView::RuntimeFilesProbed {
                config_exists: *config_exists,
                db_exists: *db_exists,
            },
            LaunchEvent::Probed { probes } => LaunchEventView::Probed { probes: probes_of(probes@) },
            LaunchEvent::TemplateCopied => LaunchEventView::TemplateCopied,
            LaunchEvent::TemplateCopyFailed { detail } => LaunchEventView::TemplateCopyFailed {
                detail: detail@,
            },
            LaunchEvent::Spawned { pid } => LaunchEventView::Spawned { pid: *pid },
            LaunchEvent::SpawnFailed { spawn_stage, detail } => LaunchEventView::SpawnFailed {
                spawn_stage: *spawn_stage,
                detail: detail@,
            },
            LaunchEvent::StartSignatureRead { value } => LaunchEventView::StartSignatureRead {
                value: option_text(*value),
            },
        }
    }
}

/// The path and purpose of each directory of a list.
pub open spec fn directories_of(steps: Seq<DirectoryStep>) -> Seq<(Seq<char>, DirectoryPurpose)> {
    Seq::new(steps.len(), |i: int| (steps[i].path@, steps[i].purpose))
}

/// The path and existence of each probe of a list.
pub open spec fn probes_of(probes: Seq<PathProbe>) -> Seq<(Seq<char>, bool)> {
    Seq::new(probes.len(), |i: int| (probes[i].path@, probes[i].exists))
}

/// The paths that a list of probes is about, in order.
pub open spec fn probed_paths(probes: Seq<(Seq<char>, bool)>) -> Seq<Seq<char>> {
    Seq::new(probes.len(), |i: int| probes[i].0)
}

/// Whether the default configuration is copied into the runtime directory: only
/// on the very first run, when neither the user's configuration file nor the
/// backend's persisted data exists.
pub open spec fn bootstrap_needed(config_exists: bool, db_exists: bool) -> bool {
    !config_exists && !db_exists
}

/// The first path of a list at which a file exists.
pub open spec fn first_existing(probes: Seq<(Seq<char>, bool)>) -> Option<Seq<char>>
    decreases probes.len(),
{
    if probes.len() == 0 {
        None
    } else if probes[0].1 {
        Some(probes[0].0)
    } else {
        first_existing(probes.drop_first())
    }
}

/// The directories that must exist before the backend starts, in the order in
/// which they are created.
pub open spec fn required_directories(runtime_dir: Seq<char>) -> Seq<(Seq<char>, DirectoryPurpose)> {
    seq![
        (runtime_dir, DirectoryPurpose::Runtime),
        (joined(runtime_dir, USER_DATA_DIR_NAME@), DirectoryPurpose::Database),
        (joined(runtime_dir, USER_DATA_DIR_NAME@), DirectoryPurpose::Data),
        (joined(runtime_dir, USER_LOG_DIR_NAME@), DirectoryPurpose::Log),
    ]
}

/// The failure to report when no port could be reserved.
pub open spec fn port_failure(stage: PortStage, detail: Seq<char>) -> SupervisorErrorView {
    match stage {
        PortStage::Reserve => SupervisorErrorView::ReservePort { detail },
        PortStage::Read => SupervisorErrorView::ReadPort { detail },
    }
}

/// The failure to report when a directory could not be created.
pub open spec fn directory_failure(purpose: DirectoryPurpose, detail: Seq<char>) -> SupervisorErrorView {
    match purpose {
        DirectoryPurpose::Runtime => SupervisorErrorView::CreateRuntimeDir { detail },
        DirectoryPurpose::Database => SupervisorErrorView::CreateDbDir { detail },
        DirectoryPurpose::Data => SupervisorErrorView::CreateDataDir { detail },
        DirectoryPurpose::Log => SupervisorErrorView::CreateLogDir { detail },
    }
}

/// The failure to report when the backend could not be started; `log_file` is
/// the log file of the launch.
pub open spec fn spawn_failure(
    stage: SpawnStage,
    log_file: Seq<char>,
    detail: Seq<char>,
) -> SupervisorErrorView {
    match stage {
        SpawnStage::OpenLog => SupervisorErrorView::OpenLog { path: log_file, detail },
        SpawnStage::CloneLog => SupervisorErrorView::CloneLog { path: log_file, detail },
        SpawnStage::Start => SupervisorErrorView::Spawn { detail },
    }
}

/// What the caller has to do at a stage of a launch at `site`.
pub open spec fn launch_action_of(site: LaunchSiteView, stage: LaunchStageView) -> LaunchActionView {
    let paths = runtime_paths_of(site.runtime_dir);
    match stage {
        LaunchStageView::CheckingStale => LaunchActionView::ReconcileStale,
        LaunchStageView::ReservingPort => LaunchActionView::ReservePort,
        LaunchStageView::CreatingDirectories { port } => LaunchActionView::CreateDirectories {
            steps: required_directories(site.runtime_dir),
        },
        LaunchStageView::ProbingRuntimeFiles { port } => LaunchActionView::ProbeRuntimeFiles {
            config_path: paths.config_path,
            db_file: paths.db_file,
        },
        LaunchStageView::ProbingTemplates { port } => LaunchActionView::Probe {
            candidates: template_candidates(
                site.explicit_template,
                site.resource_dir,
                site.working_dir,
            ),
        },
        LaunchStageView::CopyingTemplate { port, template } => LaunchActionView::CopyTemplate {
            from: template,
            to: paths.config_path,
        },
        LaunchStageView::ProbingBinaries { port } => LaunchActionView::Probe {
            candidates: binary_candidates(site.explicit_binary, site.resource_dir),
        },
        LaunchStageView::ProbingScripts { port } => LaunchActionView::Probe {
            candidates: script_candidates(site.working_dir),
        },
        LaunchStageView::Spawning { port, strategy } => LaunchActionView::Spawn {
            plan: launch_plan_of(port, paths, strategy),
        },
        LaunchStageView::ReadingStartSignature {
            port,
            strategy,
            pid,
        } => LaunchActionView::QueryStartSignature { pid },
        LaunchStageView::Started { backend, record } => LaunchActionView::Done,
        LaunchStageView::Failed { error } => LaunchActionView::Done,
    }
}

/// The stage that follows `stage` when the caller reports `event`.
///
/// The stages follow one another in a fixed order: stale check, port,
/// directories, runtime files, then on a first run the default configuration
/// and its copy, then the backend binary, the development script if there is no
/// binary, the start of the process and its start-time signature. A failure
/// that is reported ends the launch with the error that names it; so does a
/// first run without default configuration, and a search that finds neither
/// binary nor script. A report that does not answer what the stage asked for
/// leaves the stage as it is; so does a report on other paths than those that
/// the stage asked about.
pub open spec fn launch_next(
    site: LaunchSiteView,
    stage: LaunchStageView,
    event: LaunchEventView,
) -> LaunchStageView {
    match (stage, event) {
        (
            LaunchStageView::CheckingStale,
            LaunchEventView::StaleChecked,
        ) => LaunchStageView::ReservingPort,
        (
            LaunchStageView::ReservingPort,
            LaunchEventView::PortReserved { port },
        ) => LaunchStageView::CreatingDirectories { port },
        (
            LaunchStageView::ReservingPort,
            LaunchEventView::PortFailed { port_stage, detail },
        ) => LaunchStageView::Failed { error: port_failure(port_stage, detail) },
        (
            LaunchStageView::CreatingDirectories { port },
            LaunchEventView::DirectoriesCreated,
        ) => LaunchStageView::ProbingRuntimeFiles { port },
        (
            LaunchStageView::CreatingDirectories { port },
            LaunchEventView::DirectoryFailed { purpose, detail },
        ) => LaunchStageView::Failed { error: directory_failure(purpose, detail) },
        (
            LaunchStageView::ProbingRuntimeFiles { port },
            LaunchEventView::RuntimeFilesProbed { config_exists, db_exists },
        ) => if bootstrap_needed(config_exists, db_exists) {
            LaunchStageView::ProbingTemplates { port }
        } else {
            LaunchStageView::ProbingBinaries { port }
        },
        (
            LaunchStageView::ProbingTemplates { port },
            LaunchEventView::Probed { probes },
        ) => if probed_paths(probes) != template_candidates(
            site.explicit_template,
            site.resource_dir,
            site.working_dir,
        ) {
            stage
        } else {
            match first_existing(probes) {
                Some(template) => LaunchStageView::CopyingTemplate { port, template },
                None => LaunchStageView::Failed { error: SupervisorErrorView::TemplateNotFound },
            }
        },
        (
            LaunchStageView::CopyingTemplate { port, template },
            LaunchEventView::TemplateCopied,
        ) => LaunchStageView::ProbingBinaries { port },
        (
            LaunchStageView::CopyingTemplate { port, template },
            LaunchEventView::TemplateCopyFailed { detail },
        ) => LaunchStageView::Failed {
            error: SupervisorErrorView::CopyTemplate { template, detail },
        },
        (
            LaunchStageView::ProbingBinaries { port },
            LaunchEventView::Probed { probes },
        ) => if probed_paths(probes) != binary_candidates(site.explicit_binary, site.resource_dir) {
            stage
        } else {
            match first_existing(probes) {
                Some(path) => LaunchStageView::Spawning {
                    port,
                    strategy: SpawnStrategyView::Binary { path },
                },
                None => LaunchStageView::ProbingScripts { port },
            }
        },
        (
            LaunchStageView::ProbingScripts { port },
            LaunchEventView::Probed { probes },
        ) => if probed_paths(probes) != script_candidates(site.working_dir) {
            stage
        } else {
            match first_existing(probes) {
                Some(script) => LaunchStageView::Spawning {
                    port,
                    strategy: SpawnStrategyView::DevScript { script },
                },
                None => LaunchStageView::Failed { error: SupervisorErrorView::BackendNotFound },
            }
        },
        (
            LaunchStageView::Spawning { port, strategy },
            LaunchEventView::Spawned { pid },
        ) => LaunchStageView::ReadingStartSignature { port, strategy, pid },
        (
            LaunchStageView::Spawning { port, strategy },
            LaunchEventView::SpawnFailed { spawn_stage, detail },
        ) => LaunchStageView::Failed {
            error: spawn_failure(
                spawn_stage,
                runtime_paths_of(site.runtime_dir).backend_log_file,
                detail,
            ),
        },
        (
            LaunchStageView::ReadingStartSignature { port, strategy, pid },
            LaunchEventView::StartSignatureRead { value },
        ) => LaunchStageView::Started {
            backend: started_backend(port, pid),
            record: started_record(strategy, pid, value),
        },
        _ => stage,
    }
}

/// How many reports that answer its questions a launch at this stage can still
/// take.
pub open spec fn stages_left(stage: LaunchStageView) -> nat {
    match stage {
        LaunchStageView::CheckingStale => 10,
        LaunchStageView::ReservingPort => 9,
        LaunchStageView::CreatingDirectories { port } => 8,
        LaunchStageView::ProbingRuntimeFiles { port } => 7,
        LaunchStageView::ProbingTemplates { port } => 6,
        LaunchStageView::CopyingTemplate { port, template } => 5,
        LaunchStageView::ProbingBinaries { port } => 4,
        LaunchStageView::ProbingScripts { port } => 3,
        LaunchStageView::Spawning { port, strategy } => 2,
        LaunchStageView::ReadingStartSignature { port, strategy, pid } => 1,
        LaunchStageView::Started { backend, record } => 0,
        LaunchStageView::Failed { error } => 0,
    }
}

/// The port that a launch at this stage has reserved.
pub open spec fn stage_port(stage: LaunchStageView) -> Option<u16> {
    match stage {
        LaunchStageView::CreatingDirectories { port } => Some(port),
        LaunchStageView::ProbingRuntimeFiles { port } => Some(port),
        LaunchStageView::ProbingTemplates { port } => Some(port),
        LaunchStageView::CopyingTemplate { port, template } => Some(port),
        LaunchStageView::ProbingBinaries { port } => Some(port),
        LaunchStageView::ProbingScripts { port } => Some(port),
        LaunchStageView::Spawning { port, strategy } => Some(port),
        LaunchStageView::ReadingStartSignature { port, strategy, pid } => Some(port),
        _ => None,
    }
}

/// A launch reserves its port once, right after the stale check, and keeps it:
/// the backend is told to listen on that port, and the handle of the running
/// backend names the loop-back address with that port.
pub proof fn lemma_port_is_kept(site: LaunchSiteView, stage: LaunchStageView, event: LaunchEventView)
    ensures
        ({
            let next = launch_next(site, stage, event);
            &&& stage is ReservingPort && event is PortReserved ==> stage_port(next) == Some(
                event->port,
            )
            &&& stage_port(next) is Some && !(stage is ReservingPort) ==> stage_port(next)
                == stage_port(stage)
            &&& next is Spawning ==> launch_action_of(site, next)->plan.port == stage_port(next)->0
                && launch_action_of(site, next)->plan.api_base_url == crate::launch_plan::embedded_url(
                stage_port(next)->0,
            )
            &&& next is Started && !(stage is Started) ==> stage_port(stage) is Some
                && next->backend.api_base_url == crate::launch_plan::embedded_url(
                stage_port(stage)->0,
            )
        }),
{
}

/// Every report either leaves the stage as it is or brings the launch nearer
/// to its end: a launch ends after at most ten reports that answer its
/// questions.
pub proof fn lemma_launch_progress(
    site: LaunchSiteView,
    stage: LaunchStageView,
    event: LaunchEventView,
)
    ensures
        launch_next(site, stage, event) == stage || stages_left(launch_next(site, stage, event))
            < stages_left(stage),
{
}

/// A launch that has ended stays as it ended, and asks for nothing more.
pub proof fn lemma_launch_end_is_final(
    site: LaunchSiteView,
    stage: LaunchStageView,
    event: LaunchEventView,
)
    requires
        stage is Started || stage is Failed,
    ensures
        launch_next(site, stage, event) == stage,
        launch_action_of(site, stage) is Done,
{
}

/// An identity record and a handle come into being only together, when the
/// start-time signature of a process that was started has been read; they name
/// that process, and the handle names the port that was reserved. A launch
/// that fails leaves neither.
pub proof fn lemma_record_follows_spawn(
    site: LaunchSiteView,
    stage: LaunchStageView,
    event: LaunchEventView,
)
    requires
        !(stage is Started),
        launch_next(site, stage, event) is Started,
    ensures
        stage is ReadingStartSignature,
        event is StartSignatureRead,
        launch_next(site, stage, event)->backend == started_backend(
            stage->ReadingStartSignature_port,
            stage->ReadingStartSignature_pid,
        ),
        launch_next(site, stage, event)->record == started_record(
            stage->ReadingStartSignature_strategy,
            stage->ReadingStartSignature_pid,
            event->value,
        ),
        launch_next(site, stage, event)->record.pid == launch_next(site, stage, event)->backend.pid,
{
}

/// The default configuration is looked for, and then copied, if and only if
/// neither the user's configuration file nor the backend's database exists.
pub proof fn lemma_bootstrap_only_on_first_run(
    site: LaunchSiteView,
    port: u16,
    config_exists: bool,
    db_exists: bool,
)
    ensures
        ({
            let next = launch_next(
                site,
                LaunchStageView::ProbingRuntimeFiles { port },
                LaunchEventView::RuntimeFilesProbed { config_exists, db_exists },
            );
            &&& next is ProbingTemplates <==> !config_exists && !db_exists
            &&& next is ProbingBinaries <==> config_exists || db_exists
        }),
{
}

/// Only a first run that has found a default configuration copies one.
pub proof fn lemma_copy_follows_template_search(
    site: LaunchSiteView,
    stage: LaunchStageView,
    event: LaunchEventView,
)
    requires
        !(stage is CopyingTemplate),
        launch_next(site, stage, event) is CopyingTemplate,
    ensures
        stage is ProbingTemplates,
        event is Probed,
        first_existing(event->probes) == Some(launch_next(site, stage, event)->template),
        template_candidates(site.explicit_template, site.resource_dir, site.working_dir).contains(
            launch_next(site, stage, event)->template,
        ),
{
    let probes = event->probes;
    lemma_first_existing_is_probed(probes);
    let path = first_existing(probes)->0;
    let i = choose|i: int| 0 <= i < probes.len() && #[trigger] probes[i] == (path, true);
    assert(probed_paths(probes)[i] == path);
}

/// The first path at which a file exists is one of the paths that were probed,
/// and a file exists there.
pub proof fn lemma_first_existing_is_probed(probes: Seq<(Seq<char>, bool)>)
    ensures
        first_existing(probes) matches Some(path) ==> exists|i: int|
            0 <= i < probes.len() && #[trigger] probes[i] == (path, true),
        first_existing(probes) is None ==> forall|i: int|
            0 <= i < probes.len() ==> !(#[trigger] probes[i]).1,
    decreases probes.len(),
{
    if probes.len() > 0 && !probes[0].1 {
        let rest = probes.drop_first();
        lemma_first_existing_is_probed(rest);
        if first_existing(rest) is Some {
            let found = first_existing(rest)->0;
            let i = choose|i: int| 0 <= i < rest.len() && #[trigger] rest[i] == (found, true);
            assert(probes[i + 1] == (found, true));
        } else {
            assert forall|i: int| 0 <= i < probes.len() implies !(#[trigger] probes[i]).1 by {
                if i > 0 {
                    assert(probes[i] == rest[i - 1]);
                }
            }
        }
    } else if probes.len() > 0 {
        assert(probes[0] == (probes[0].0, true));
    }
}

/// The launcher starts nothing but what it was looking for: the program that
/// is started is an existing file at one of the places where the backend binary
/// or the development script is looked for.
pub proof fn lemma_started_program_is_a_candidate(
    site: LaunchSiteView,
    stage: LaunchStageView,
    event: LaunchEventView,
)
    requires
        !(stage is Spawning),
        launch_next(site, stage, event) is Spawning,
    ensures
        event is Probed,
        match launch_next(site, stage, event)->Spawning_strategy {
            SpawnStrategyView::Binary { path } => stage is ProbingBinaries && binary_candidates(
                site.explicit_binary,
                site.resource_dir,
            ).contains(path),
            SpawnStrategyView::DevScript { script } => stage is ProbingScripts && script_candidates(
                site.working_dir,
            ).contains(script),
        },
        exists|i: int|
            0 <= i < event->probes.len() && #[trigger] event->probes[i] == (
                crate::launch_plan::strategy_hint(launch_next(site, stage, event)->Spawning_strategy),
                true,
            ),
{
    let probes = event->probes;
    lemma_first_existing_is_probed(probes);
    let path = first_existing(probes)->0;
    let i = choose|i: int| 0 <= i < probes.len() && #[trigger] probes[i] == (path, true);
    assert(probed_paths(probes)[i] == path);
}

/// Tells whether the default configuration is to be copied into the runtime
/// directory.
pub fn should_create_bootstrap_config(config_exists: bool, db_exists: bool) -> (create: bool)
    ensures
        create == bootstrap_needed(config_exists, db_exists),
        create <==> !config_exists && !db_exists,
{
    !config_exists && !db_exists
}

/// The first path of `probes` at which a file exists.
pub fn resolve_first_existing(probes: &Vec<PathProbe>) -> (found: Option<String>)
    ensures
        option_text(found) == first_existing(probes_of(probes@)),
{
    let mut i: usize = 0;
    assert(probes_of(probes@).skip(0) =~= probes_of(probes@));
    while i < probes.len()
        invariant
            i <= probes.len(),
            first_existing(probes_of(probes@)) == first_existing(probes_of(probes@).skip(i as int)),
        decreases probes.len() - i,
    {
        let ghost rest = probes_of(probes@).skip(i as int);
        assert(rest[0] == probes_of(probes@)[i as int]);
        if probes[i].exists {
            return Some(probes[i].path.clone());
        }
        assert(rest.drop_first() =~= probes_of(probes@).skip(i + 1));
        i += 1;
    }
    assert(probes_of(probes@).skip(i as int).len() == 0);
    None
}

/// Tells whether `probes` are about the paths `candidates`, in their order.
pub fn probes_answer(probes: &Vec<PathProbe>, candidates: &Vec<String>) -> (answers: bool)
    ensures
        answers == (probed_paths(probes_of(probes@)) == texts_of(candidates@)),
{
    if probes.len() != candidates.len() {
        return false;
    }
    let mut i: usize = 0;
    while i < probes.len()
        invariant
            i <= probes.len(),
            probes.len() == candidates.len(),
            forall|k: int|
                0 <= k < i ==> probed_paths(probes_of(probes@))[k] == texts_of(candidates@)[k],
        decreases probes.len() - i,
    {
        if !crate::text::same_text(probes[i].path.as_str(), candidates[i].as_str()) {
            assert(probed_paths(probes_of(probes@))[i as int] != texts_of(candidates@)[i as int]);
            return false;
        }
        i += 1;
    }
    assert(probed_paths(probes_of(probes@)) =~= texts_of(candidates@));
    true
}

/// The directories that must exist before the backend starts, and the files of
/// the runtime directory `runtime_dir` that the backend is told about.
pub fn ensure_user_runtime_files(runtime_dir: &str) -> (plan: (Vec<DirectoryStep>, RuntimePaths))
    ensures
        directories_of(plan.0@) == required_directories(runtime_dir@),
        plan.1@ == runtime_paths_of(runtime_dir@),
{
    let mut steps: Vec<DirectoryStep> = Vec::new();
    steps.push(
        DirectoryStep { path: String::from_str(runtime_dir), purpose: DirectoryPurpose::Runtime },
    );
    steps.push(
        DirectoryStep {
            path: join_path(runtime_dir, USER_DATA_DIR_NAME),
            purpose: DirectoryPurpose::Database,
        },
    );
    steps.push(
        DirectoryStep {
            path: join_path(runtime_dir, USER_DATA_DIR_NAME),
            purpose: DirectoryPurpose::Data,
        },
    );
    steps.push(
        DirectoryStep { path: join_path(runtime_dir, USER_LOG_DIR_NAME), purpose: DirectoryPurpose::Log },
    );
    assert(directories_of(steps@) =~= required_directories(runtime_dir@));
    (steps, runtime_paths(runtime_dir))
}

/// The error to report when no port could be reserved; `detail` is the
/// operating system's account.
pub fn port_error(stage: PortStage, detail: String) -> (error: SupervisorError)
    ensures
        error@ == port_failure(stage, detail@),
{
    match stage {
        PortStage::Reserve => SupervisorError::ReservePort { detail },
        PortStage::Read => SupervisorError::ReadPort { detail },
    }
}

/// The error to report when a directory of the given purpose cannot be
/// created; `detail` is the operating system's account.
pub fn directory_error(purpose: DirectoryPurpose, detail: String) -> (error: SupervisorError)
    ensures
        error@ == directory_failure(purpose, detail@),
{
    match purpose {
        DirectoryPurpose::Runtime => SupervisorError::CreateRuntimeDir { detail },
        DirectoryPurpose::Database => SupervisorError::CreateDbDir { detail },
        DirectoryPurpose::Data => SupervisorError::CreateDataDir { detail },
        DirectoryPurpose::Log => SupervisorError::CreateLogDir { detail },
    }
}

/// The error to report when the backend could not be started; `log_file` is
/// the log file of the launch and `detail` the operating system's account.
pub fn spawn_error(stage: SpawnStage, log_file: String, detail: String) -> (error: SupervisorError)
    ensures
        error@ == spawn_failure(stage, log_file@, detail@),
{
    match stage {
        SpawnStage::OpenLog => SupervisorError::OpenLog { path: log_file, detail },
        SpawnStage::CloneLog => SupervisorError::CloneLog { path: log_file, detail },
        SpawnStage::Start => SupervisorError::Spawn { detail },
    }
}

/// Begins a launch.
pub fn spawn_embedded_backend() -> (stage: LaunchStage)
    ensures
        stage@ == LaunchStageView::CheckingStale,
{
    LaunchStage::CheckingStale
}

/// Tells what the caller has to do at `stage` of a launch at `site`.
pub fn launch_action(site: &LaunchSite, stage: &LaunchStage) -> (action: LaunchAction)
    ensures
        action@ == launch_action_of(site@, stage@),
{
    let runtime_dir = site.runtime_dir.as_str();
    match stage {
        LaunchStage::CheckingStale => LaunchAction::ReconcileStale,
        LaunchStage::ReservingPort => LaunchAction::ReservePort,
        LaunchStage::CreatingDirectories { port } => {
            let (steps, _) = ensure_user_runtime_files(runtime_dir);
            LaunchAction::CreateDirectories { steps }
        },
        LaunchStage::ProbingRuntimeFiles { port } => {
            let paths = runtime_paths(runtime_dir);
            LaunchAction::ProbeRuntimeFiles { config_path: paths.config_path, db_file: paths.db_file }
        },
        LaunchStage::ProbingTemplates { port } => LaunchAction::Probe {
            candidates: default_dashboard_template_candidates(
                borrowed(&site.explicit_template),
                borrowed(&site.resource_dir),
                borrowed(&site.working_dir),
            ),
        },
        LaunchStage::CopyingTemplate { port, template } => {
            let paths = runtime_paths(runtime_dir);
            LaunchAction::CopyTemplate { from: template.clone(), to: paths.config_path }
        },
        LaunchStage::ProbingBinaries { port } => LaunchAction::Probe {
            candidates: embedded_backend_binary_candidates(
                borrowed(&site.explicit_binary),
                borrowed(&site.resource_dir),
            ),
        },
        LaunchStage::ProbingScripts { port } => LaunchAction::Probe {
            candidates: dev_backend_script_candidates(borrowed(&site.working_dir)),
        },
        LaunchStage::Spawning { port, strategy } => {
            let paths = runtime_paths(runtime_dir);
            LaunchAction::Spawn { plan: plan_launch(*port, &paths, strategy.clone()) }
        },
        LaunchStage::ReadingStartSignature { port, strategy, pid } => {
            LaunchAction::QueryStartSignature { pid: *pid }
        },
        LaunchStage::Started { backend, record } => LaunchAction::Done,
        LaunchStage::Failed { error } => LaunchAction::Done,
    }
}

/// Takes a launch at `site` from `stage` to the stage that follows when the
/// caller reports `event`.
pub fn launch_step(site: &LaunchSite, stage: LaunchStage, event: LaunchEvent) -> (next: LaunchStage)
    ensures
        next@ == launch_next(site@, stage@, event@),
{
    match stage {
        LaunchStage::CheckingStale => match event {
            LaunchEvent::StaleChecked => LaunchStage::ReservingPort,
            _ => LaunchStage::CheckingStale,
        },
        LaunchStage::ReservingPort => match event {
            LaunchEvent::PortReserved { port } => LaunchStage::CreatingDirectories { port },
            LaunchEvent::PortFailed { port_stage, detail } => LaunchStage::Failed {
                error: port_error(port_stage, detail),
            },
            _ => LaunchStage::ReservingPort,
        },
        LaunchStage::CreatingDirectories { port } => match event {
            LaunchEvent::DirectoriesCreated => LaunchStage::ProbingRuntimeFiles { port },
            LaunchEvent::DirectoryFailed { purpose, detail } => LaunchStage::Failed {
                error: directory_error(purpose, detail),
            },
            _ => LaunchStage::CreatingDirectories { port },
        },
        LaunchStage::ProbingRuntimeFiles { port } => match event {
            LaunchEvent::RuntimeFilesProbed { config_exists, db_exists } => {
                if should_create_bootstrap_config(config_exists, db_exists) {
                    LaunchStage::ProbingTemplates { port }
                } else {
                    LaunchStage::ProbingBinaries { port }
                }
            },
            _ => LaunchStage::ProbingRuntimeFiles { port },
        },
        LaunchStage::ProbingTemplates { port } => match event {
            LaunchEvent::Probed { probes } => {
                let candidates = default_dashboard_template_candidates(
                    borrowed(&site.explicit_template),
                    borrowed(&site.resource_dir),
                    borrowed(&site.working_dir),
                );
                if !probes_answer(&probes, &candidates) {
                    return LaunchStage::ProbingTemplates { port };
                }
                match resolve_first_existing(&probes) {
                    Some(template) => LaunchStage::CopyingTemplate { port, template },
                    None => LaunchStage::Failed { error: SupervisorError::TemplateNotFound },
                }
            },
            _ => LaunchStage::ProbingTemplates { port },
        },
        LaunchStage::CopyingTemplate { port, template } => match event {
            LaunchEvent::TemplateCopied => LaunchStage::ProbingBinaries { port },
            LaunchEvent::TemplateCopyFailed { detail } => LaunchStage::Failed {
                error: SupervisorError::CopyTemplate { template, detail },
            },
            _ => LaunchStage::CopyingTemplate { port, template },
        },
        LaunchStage::ProbingBinaries { port } => match event {
            LaunchEvent::Probed { probes } => {
                let candidates = embedded_backend_binary_candidates(
                    borrowed(&site.explicit_binary),
                    borrowed(&site.resource_dir),
                );
                if !probes_answer(&probes, &candidates) {
                    return LaunchStage::ProbingBinaries { port };
                }
                match resolve_first_existing(&probes) {
                    Some(path) => LaunchStage::Spawning {
                        port,
                        strategy: SpawnStrategy::Binary { path },
                    },
                    None => LaunchStage::ProbingScripts { port },
                }
            },
            _ => LaunchStage::ProbingBinaries { port },
        },
        LaunchStage::ProbingScripts { port } => match event {
            LaunchEvent::Probed { probes } => {
                let candidates = dev_backend_script_candidates(borrowed(&site.working_dir));
                if !probes_answer(&probes, &candidates) {
                    return LaunchStage::ProbingScripts { port };
                }
                match resolve_first_existing(&probes) {
                    Some(script) => LaunchStage::Spawning {
                        port,
                        strategy: SpawnStrategy::DevScript { script },
                    },
                    None => LaunchStage::Failed { error: SupervisorError::BackendNotFound },
                }
            },
            _ => LaunchStage::ProbingScripts { port },
        },
        LaunchStage::Spawning { port, strategy } => match event {
            LaunchEvent::Spawned { pid } => LaunchStage::ReadingStartSignature { port, strategy, pid },
            LaunchEvent::SpawnFailed { spawn_stage, detail } => {
                let paths = runtime_paths(site.runtime_dir.as_str());
                LaunchStage::Failed { error: spawn_error(spawn_stage, paths.backend_log_file, detail) }
            },
            _ => LaunchStage::Spawning { port, strategy },
        },
        LaunchStage::ReadingStartSignature { port, strategy, pid } => match event {
            LaunchEvent::StartSignatureRead { value } => {
                let (backend, record) = backend_started(port, strategy, pid, value);
                LaunchStage::Started { backend, record }
            },
            _ => LaunchStage::ReadingStartSignature { port, strategy, pid },
        },
        LaunchStage::Started { backend, record } => LaunchStage::Started { backend, record },
        LaunchStage::Failed { error } => LaunchStage::Failed { error },
    }
}

} // verus!
