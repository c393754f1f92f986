//! How the backend is started: the program and its arguments, its environment,
//! the address under which it answers, and what is kept of it once it runs.

use vstd::prelude::*;
use vstd::string::*;
use crate::decimal::{decimal_digits, decimal_text, lemma_decimal_digits_injective, push_decimal};
use crate::layout::{RuntimePaths, RuntimePathsView};
use crate::registry::{BackendPidRecord, BackendPidRecordView};
use crate::stale::{FLAG_HOST, FLAG_PORT, LOOPBACK_ADDRESS};
use crate::text::{option_text, texts_of};

verus! {

/// The interpreter that runs the development script.
pub const DEV_INTERPRETER: &'static str = "python3";

/// The beginning of the address of an embedded backend; the port follows.
pub const EMBEDDED_URL_PREFIX: &'static str = "http://127.0.0.1:";

/// Names the backend's configuration file.
pub const ENV_CONFIG_FILE: &'static str = "DASHBOARD_CONFIG_FILE";

/// Names the backend's database.
pub const ENV_DB_FILE: &'static str = "DASHBOARD_DB_FILE";

/// Names the file of the backend's scan results.
pub const ENV_LAN_SCAN_RESULT_FILE: &'static str = "LAN_SCAN_RESULT_FILE";

/// Switches the periodic scan of the local network on.
pub const ENV_ENABLE_LAN_SCAN: &'static str = "DASHBOARD_ENABLE_LAN_SCAN";

/// Makes the backend scan once when it starts.
pub const ENV_LAN_SCAN_ON_STARTUP: &'static str = "LAN_SCAN_RUN_ON_STARTUP";

/// Sets the seconds between two scans.
pub const ENV_LAN_SCAN_INTERVAL: &'static str = "LAN_SCAN_INTERVAL_SEC";

/// The value that switches a feature on.
pub const ENV_TRUE: &'static str = "true";

/// The seconds between two scans.
pub const LAN_SCAN_INTERVAL_SECONDS: &'static str = "300";

/// One variable of the backend's environment.
#[derive(Clone, Debug, PartialEq, Eq)]
pub struct EnvVar {
    pub name: String,
    pub value: String,
}

/// The way in which the backend is started.
#[derive(Debug, PartialEq, Eq)]
pub enum SpawnStrategy {
    /// The production binary at `path` is run.
    Binary { path: String },
    /// The interpreter runs the development script at `script`.
    DevScript { script: String },
}

/// A way of starting the backend as a mathematical value.
pub enum SpawnStrategyView {
    Binary { path: Seq<char> },
    DevScript { script: Seq<char> },
}

impl View for SpawnStrategy {
    type V = SpawnStrategyView;

    open spec fn view(&self) -> SpawnStrategyView {
        match self {
            SpawnStrategy::Binary { path } => SpawnStrategyView::Binary { path: path@ },
            SpawnStrategy::DevScript { script } => SpawnStrategyView::DevScript { script: script@ },
        }
    }
}

impl Clone for SpawnStrategy {
    fn clone(&self) -> (copy: Self)
        ensures
            copy == *self,
    {
        match self {
            SpawnStrategy::Binary { path } => SpawnStrategy::Binary { path: path.clone() },
            SpawnStrategy::DevScript { script } => SpawnStrategy::DevScript {
                script: script.clone(),
            },
        }
    }
}

/// Everything that starting the backend takes.
#[derive(Clone, Debug, PartialEq, Eq)]
pub struct LaunchPlan {
    /// The loop-back port that was reserved for the backend.
    pub port: u16,
    /// The address under which the backend will answer.
    pub api_base_url: String,
    /// The program to run.
    pub program: String,
    /// Its arguments.
    pub args: Vec<String>,
    /// Its working directory.
    pub working_dir: String,
    /// The variables added to its environment.
    pub env: Vec<EnvVar>,
    /// The file that receives both its standard output and its standard error;
    /// its standard input is closed.
    pub log_file: String,
    /// What the identity record will say was started.
    pub command_hint: String,
}

/// A launch plan as a mathematical value.
pub struct LaunchPlanView {
    pub port: u16,
    pub api_base_url: Seq<char>,
    pub program: Seq<char>,
    pub args: Seq<Seq<char>>,
    pub working_dir: Seq<char>,
    pub env: Seq<(Seq<char>, Seq<char>)>,
    pub log_file: Seq<char>,
    pub command_hint: Seq<char>,
}

impl View for LaunchPlan {
    type V = LaunchPlanView;

    open spec fn view(&self) -> LaunchPlanView {
        LaunchPlanView {
            port: self.port,
            api_base_url: self.api_base_url@,
            program: self.program@,
            args: texts_of(self.args@),
            working_dir: self.working_dir@,
            env: env_of(self.env@),
            log_file: self.log_file@,
            command_hint: self.command_hint@,
        }
    }
}

/// The handle of a running embedded backend, as far as the supervisor's
/// decisions read it.
#[derive(Clone, Debug, PartialEq, Eq)]
pub struct EmbeddedBackend {
    /// The process id of the backend.
    pub pid: u32,
    /// The address under which the backend answers.
    pub api_base_url: String,
}

/// A backend handle as a mathematical value.
pub struct EmbeddedBackendView {
    pub pid: u32,
    pub api_base_url: Seq<char>,
}

impl View for EmbeddedBackend {
    type V = EmbeddedBackendView;

    open spec fn view(&self) -> EmbeddedBackendView {
        EmbeddedBackendView { pid: self.pid, api_base_url: self.api_base_url@ }
    }
}

/// The model of an optional backend handle.
pub open spec fn option_backend(backend: Option<EmbeddedBackend>) -> Option<EmbeddedBackendView> {
    match backend {
        Some(b) => Some(b@),
        None => None,
    }
}

/// The name and value of each variable of a list.
pub open spec fn env_of(vars: Seq<EnvVar>) -> Seq<(Seq<char>, Seq<char>)> {
    Seq::new(vars.len(), |i: int| (vars[i].name@, vars[i].value@))
}

/// The address under which an embedded backend on `port` answers.
pub open spec fn embedded_url(port: u16) -> Seq<char> {
    EMBEDDED_URL_PREFIX@ + decimal_digits(port as nat)
}

/// The arguments that bind the backend to the loop-back address and to `port`.
pub open spec fn listen_args(port: u16) -> Seq<Seq<char>> {
    seq![FLAG_HOST@, LOOPBACK_ADDRESS@, FLAG_PORT@, decimal_digits(port as nat)]
}

/// The program that a strategy runs.
pub open spec fn strategy_program(strategy: SpawnStrategyView) -> Seq<char> {
    match strategy {
        SpawnStrategyView::Binary { path } => path,
        SpawnStrategyView::DevScript { script } => DEV_INTERPRETER@,
    }
}

/// The arguments with which a strategy runs its program.
pub open spec fn strategy_args(strategy: SpawnStrategyView, port: u16) -> Seq<Seq<char>> {
    match strategy {
        SpawnStrategyView::Binary { path } => listen_args(port),
        SpawnStrategyView::DevScript { script } => seq![script] + listen_args(port),
    }
}

/// What the identity record says was started under a strategy.
pub open spec fn strategy_hint(strategy: SpawnStrategyView) -> Seq<char> {
    match strategy {
        SpawnStrategyView::Binary { path } => path,
        SpawnStrategyView::DevScript { script } => script,
    }
}

/// The variables that tell the backend where its files are and that switch the
/// scan of the local network on: once at startup, then every five minutes.
pub open spec fn backend_env(paths: RuntimePathsView) -> Seq<(Seq<char>, Seq<char>)> {
    seq![
        (ENV_CONFIG_FILE@, paths.config_path),
        (ENV_DB_FILE@, paths.db_file),
        (ENV_LAN_SCAN_RESULT_FILE@, paths.lan_result_file),
        (ENV_ENABLE_LAN_SCAN@, ENV_TRUE@),
        (ENV_LAN_SCAN_ON_STARTUP@, ENV_TRUE@),
        (ENV_LAN_SCAN_INTERVAL@, LAN_SCAN_INTERVAL_SECONDS@),
    ]
}

/// The plan that starts the backend on `port` with the files `paths` under
/// `strategy`. The backend runs in the runtime directory and writes to the
/// backend log.
pub open spec fn launch_plan_of(
    port: u16,
    paths: RuntimePathsView,
    strategy: SpawnStrategyView,
) -> LaunchPlanView {
    LaunchPlanView {
        port,
        api_base_url: embedded_url(port),
        program: strategy_program(strategy),
        args: strategy_args(strategy, port),
        working_dir: paths.runtime_dir,
        env: backend_env(paths),
        log_file: paths.backend_log_file,
        command_hint: strategy_hint(strategy),
    }
}

/// The handle that is held of a backend that runs as process `pid` on `port`.
pub open spec fn started_backend(port: u16, pid: u32) -> EmbeddedBackendView {
    EmbeddedBackendView { pid, api_base_url: embedded_url(port) }
}

/// The identity record of a backend that was started under `strategy` as
/// process `pid`, with the start-time signature that the process table gave
/// for it.
pub open spec fn started_record(
    strategy: SpawnStrategyView,
    pid: u32,
    started_at: Option<Seq<char>>,
) -> BackendPidRecordView {
    BackendPidRecordView { pid, started_at, command_hint: Some(strategy_hint(strategy)) }
}

/// Backends on different ports answer under different addresses.
pub proof fn lemma_embedded_url_injective(a: u16, b: u16)
    requires
        embedded_url(a) == embedded_url(b),
    ensures
        a == b,
{
    let prefix = EMBEDDED_URL_PREFIX@;
    let da = decimal_digits(a as nat);
    let db = decimal_digits(b as nat);
    assert((prefix + da).skip(prefix.len() as int) =~= da);
    assert((prefix + db).skip(prefix.len() as int) =~= db);
    lemma_decimal_digits_injective(a as nat, b as nat);
}

/// The address under which an embedded backend on `port` answers.
pub fn embedded_api_base_url(port: u16) -> (url: String)
    ensures
        url@ == embedded_url(port),
{
    let mut url = String::from_str(EMBEDDED_URL_PREFIX);
    push_decimal(&mut url, port as u32);
    url
}

/// Appends the arguments that bind the backend to the loop-back address and to
/// `port`.
fn push_listen_args(args: &mut Vec<String>, port: u16)
    ensures
        texts_of(final(args)@) == texts_of(old(args)@) + listen_args(port),
{
    args.push(String::from_str(FLAG_HOST));
    args.push(String::from_str(LOOPBACK_ADDRESS));
    args.push(String::from_str(FLAG_PORT));
    args.push(decimal_text(port as u32));
    assert(texts_of(args@) =~= texts_of(old(args)@) + listen_args(port));
}

/// The variables added to the backend's environment.
pub fn backend_environment(paths: &RuntimePaths) -> (env: Vec<EnvVar>)
    ensures
        env_of(env@) == backend_env(paths@),
{
    let mut env: Vec<EnvVar> = Vec::new();
    env.push(
        EnvVar { name: String::from_str(ENV_CONFIG_FILE), value: paths.config_path.clone() },
    );
    env.push(EnvVar { name: String::from_str(ENV_DB_FILE), value: paths.db_file.clone() });
    env.push(
        EnvVar {
            name: String::from_str(ENV_LAN_SCAN_RESULT_FILE),
            value: paths.lan_result_file.clone(),
        },
    );
    env.push(
        EnvVar { name: String::from_str(ENV_ENABLE_LAN_SCAN), value: String::from_str(ENV_TRUE) },
    );
    env.push(
        EnvVar {
            name: String::from_str(ENV_LAN_SCAN_ON_STARTUP),
            value: String::from_str(ENV_TRUE),
        },
    );
    env.push(
        EnvVar {
            name: String::from_str(ENV_LAN_SCAN_INTERVAL),
            value: String::from_str(LAN_SCAN_INTERVAL_SECONDS),
        },
    );
    assert(env_of(env@) =~= backend_env(paths@));
    env
}

/// Plans the start of the backend on the reserved port `port`, with the files
/// `paths`, under `strategy`.
pub fn plan_launch(port: u16, paths: &RuntimePaths, strategy: SpawnStrategy) -> (plan: LaunchPlan)
    ensures
        plan@ == launch_plan_of(port, paths@, strategy@),
{
    let mut args: Vec<String> = Vec::new();
    let program: String;
    let command_hint: String;
    match strategy {
        SpawnStrategy::Binary { path } => {
            command_hint = path.clone();
            program = path;
        },
        SpawnStrategy::DevScript { script } => {
            command_hint = script.clone();
            program = String::from_str(DEV_INTERPRETER);
            args.push(script);
            assert(texts_of(args@) =~= seq![script@]);
        },
    }
    assert(strategy is Binary ==> texts_of(args@) =~= Seq::<Seq<char>>::empty());
    push_listen_args(&mut args, port);
    assert(texts_of(args@) =~= strategy_args(strategy@, port));
    LaunchPlan {
        port,
        api_base_url: embedded_api_base_url(port),
        program,
        args,
        working_dir: paths.runtime_dir.clone(),
        env: backend_environment(paths),
        log_file: paths.backend_log_file.clone(),
        command_hint,
    }
}

/// What is kept of a backend that has just been started under `strategy` on
/// `port` as process `pid`: the handle that the supervisor holds while the
/// backend runs, and the identity record that goes to the registry.
/// `started_at` is the start-time signature that the process table gave for
/// `pid` right after the start.
pub fn backend_started(port: u16, strategy: SpawnStrategy, pid: u32, started_at: Option<String>) -> (started:
    (EmbeddedBackend, BackendPidRecord))
    ensures
        started.0@ == started_backend(port, pid),
        started.1@ == started_record(strategy@, pid, option_text(started_at)),
{
    let command_hint = match strategy {
        SpawnStrategy::Binary { path } => path,
        SpawnStrategy::DevScript { script } => script,
    };
    (
        EmbeddedBackend { pid, api_base_url: embedded_api_base_url(port) },
        BackendPidRecord { pid, started_at, command_hint: Some(command_hint) },
    )
}

} // verus!
