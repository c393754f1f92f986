//! The runtime mode reconciler: given the mode that the user wants and the
//! backend handle that the supervisor holds, what has to be done so that the
//! world matches the wish, and what the front-end is told about it.
//!
//! The reconciler holds no locks and starts no process. Its caller keeps the
//! profile and the handle, each behind a lock of its own, polls the child
//! process, and carries out the action that the reconciler names.

use vstd::prelude::*;
use vstd::string::*;
use crate::error::{SupervisorError, SupervisorErrorView};
use crate::launch_plan::{
    embedded_url, lemma_embedded_url_injective, option_backend, EmbeddedBackend,
    EmbeddedBackendView,
};
use crate::profile::{
    lemma_mode_words, lemma_normalized_url_is_an_address, normalize_url, normalized_url,
    parse_runtime_mode, parsed_mode, RuntimeMode, RuntimeProfile, RuntimeProfileView,
    MODE_EMBEDDED, MODE_REMOTE,
};

verus! {

/// The snapshot of the runtime that is sent to the front-end.
#[derive(Clone, Debug, PartialEq, Eq)]
pub struct RuntimeProfilePayload {
    /// Always true: the front-end runs inside the desktop shell.
    pub desktop: bool,
    /// The mode that the user wants.
    pub mode: RuntimeMode,
    /// The address that the front-end is to call.
    pub api_base_url: String,
    /// The configured address of the remote backend.
    pub remote_base_url: String,
    /// Whether an embedded backend is running.
    pub embedded_running: bool,
}

/// A snapshot as a mathematical value.
pub struct RuntimeProfilePayloadView {
    pub desktop: bool,
    pub mode: RuntimeMode,
    pub api_base_url: Seq<char>,
    pub remote_base_url: Seq<char>,
    pub embedded_running: bool,
}

impl View for RuntimeProfilePayload {
    type V = RuntimeProfilePayloadView;

    open spec fn view(&self) -> RuntimeProfilePayloadView {
        RuntimeProfilePayloadView {
            desktop: self.desktop,
            mode: self.mode,
            api_base_url: self.api_base_url@,
            remote_base_url: self.remote_base_url@,
            embedded_running: self.embedded_running,
        }
    }
}

/// What a poll of the child process for its exit status gave, without waiting.
#[derive(Clone, Copy, Debug, PartialEq, Eq, Structural)]
pub enum ExitPoll {
    /// The process has not exited.
    StillRunning,
    /// The process has exited.
    Exited,
    /// The poll itself failed.
    Failed,
}

/// What has to be done so that the world matches the wanted mode.
#[derive(Clone, Copy, Debug, PartialEq, Eq, Structural)]
pub enum ModeAction {
    /// Nothing.
    Keep,
    /// Run the backend launcher and hand its outcome to `launch_finished`.
    Launch,
    /// Call `stop_embedded_backend` and carry out its order.
    Stop,
}

/// What stopping the embedded backend asks of the caller.
#[derive(Clone, Copy, Debug, PartialEq, Eq, Structural)]
pub struct StopOrder {
    /// The process to kill and to wait for, if a backend was held.
    pub kill: Option<u32>,
    /// Whether the identity record is to be deleted afterwards.
    pub discard_record: bool,
}

/// Whether an embedded backend is running: there is a handle, and its process
/// had not exited when it was polled.
pub open spec fn backend_alive(backend: Option<EmbeddedBackendView>, alive: bool) -> bool {
    backend is Some && alive
}

/// The action that reconciles the world with the wanted mode. In embedded mode a
/// backend is launched unless one is running; in remote mode a backend that is
/// held is stopped.
pub open spec fn mode_action(
    mode: RuntimeMode,
    backend: Option<EmbeddedBackendView>,
    alive: bool,
) -> ModeAction {
    match mode {
        RuntimeMode::Embedded => if backend_alive(backend, alive) {
            ModeAction::Keep
        } else {
            ModeAction::Launch
        },
        RuntimeMode::Remote => if backend is Some {
            ModeAction::Stop
        } else {
            ModeAction::Keep
        },
    }
}

/// The handle that is held once the action of `mode_action` has been carried
/// out; `launched` is the handle of the backend that a launch started, `None`
/// where the launch failed.
pub open spec fn reconciled_backend(
    mode: RuntimeMode,
    backend: Option<EmbeddedBackendView>,
    alive: bool,
    launched: Option<EmbeddedBackendView>,
) -> Option<EmbeddedBackendView> {
    match mode_action(mode, backend, alive) {
        ModeAction::Keep => backend,
        ModeAction::Launch => launched,
        ModeAction::Stop => None,
    }
}

/// The handle that is kept after a poll: the handle of a backend that has
/// exited is dropped.
pub open spec fn backend_after_poll(backend: Option<EmbeddedBackendView>, alive: bool) -> Option<
    EmbeddedBackendView,
> {
    if backend_alive(backend, alive) {
        backend
    } else {
        None
    }
}

/// The snapshot for the front-end. The address to call is that of the embedded
/// backend if the mode is embedded and a backend is running, else the configured
/// remote address.
pub open spec fn payload_of(
    profile: RuntimeProfileView,
    backend: Option<EmbeddedBackendView>,
    alive: bool,
) -> RuntimeProfilePayloadView {
    RuntimeProfilePayloadView {
        desktop: true,
        mode: profile.mode,
        api_base_url: if profile.mode == RuntimeMode::Embedded && backend_alive(backend, alive) {
            backend->0.api_base_url
        } else {
            profile.remote_base_url
        },
        remote_base_url: profile.remote_base_url,
        embedded_running: backend_alive(backend, alive),
    }
}

/// The profile after a request to change it: the requested mode with the
/// requested address in normal form, or the profile as it was if the word for
/// the mode names none.
pub open spec fn requested_profile(
    profile: RuntimeProfileView,
    mode: Seq<char>,
    remote_base_url: Seq<char>,
) -> RuntimeProfileView {
    match parsed_mode(mode) {
        Some(wanted) => RuntimeProfileView {
            mode: wanted,
            remote_base_url: normalized_url(remote_base_url),
        },
        None => profile,
    }
}

/// A request that is taken leaves a profile whose address is not empty and
/// does not end in a slash, whatever address was asked for.
pub proof fn lemma_requested_profile_has_an_address(
    profile: RuntimeProfileView,
    mode: Seq<char>,
    remote_base_url: Seq<char>,
)
    requires
        parsed_mode(mode) is Some,
    ensures
        requested_profile(profile, mode, remote_base_url).remote_base_url.len() > 0,
        requested_profile(profile, mode, remote_base_url).remote_base_url.last() != '/',
{
    lemma_normalized_url_is_an_address(remote_base_url);
}

/// Once the reconciler's action has been carried out, remote mode holds no
/// backend, and embedded mode holds either the backend that was found running
/// or the one that the launch started.
pub proof fn lemma_reconciled_backend(
    mode: RuntimeMode,
    backend: Option<EmbeddedBackendView>,
    alive: bool,
    launched: Option<EmbeddedBackendView>,
)
    ensures
        mode == RuntimeMode::Remote ==> reconciled_backend(mode, backend, alive, launched) is None,
        mode == RuntimeMode::Embedded ==> reconciled_backend(mode, backend, alive, launched) == (
        if backend_alive(backend, alive) {
            backend
        } else {
            launched
        }),
{
}

/// A backend is launched only in embedded mode and only when none is running,
/// so that there is never more than one; a backend is stopped only in remote
/// mode, and only one that is held.
pub proof fn lemma_launch_only_when_needed(
    mode: RuntimeMode,
    backend: Option<EmbeddedBackendView>,
    alive: bool,
)
    ensures
        mode_action(mode, backend, alive) == ModeAction::Launch <==> mode == RuntimeMode::Embedded
            && !backend_alive(backend, alive),
        mode_action(mode, backend, alive) == ModeAction::Stop <==> mode == RuntimeMode::Remote
            && backend is Some,
{
}

/// Reconciling twice in a row does nothing the second time, as long as the
/// backend that is held keeps running.
pub proof fn lemma_reconcile_is_idempotent(
    mode: RuntimeMode,
    backend: Option<EmbeddedBackendView>,
    alive: bool,
    launched: EmbeddedBackendView,
)
    ensures
        mode_action(mode, reconciled_backend(mode, backend, alive, Some(launched)), true)
            == ModeAction::Keep,
{
}

/// Switching to remote mode while an embedded backend runs stops exactly that
/// backend, and the snapshot taken afterwards reports no running backend and
/// the remote address as the address to call.
pub proof fn lemma_switch_to_remote(
    profile: RuntimeProfileView,
    backend: EmbeddedBackendView,
    remote_base_url: Seq<char>,
    alive_later: bool,
)
    ensures
        ({
            let wanted = requested_profile(profile, MODE_REMOTE@, remote_base_url);
            let held = reconciled_backend(wanted.mode, Some(backend), true, None);
            let snapshot = payload_of(wanted, held, alive_later);
            &&& wanted.mode == RuntimeMode::Remote
            &&& wanted.remote_base_url == normalized_url(remote_base_url)
            &&& mode_action(wanted.mode, Some(backend), true) == ModeAction::Stop
            &&& stop_order_of(Some(backend)) == (StopOrder {
                kill: Some(backend.pid),
                discard_record: true,
            })
            &&& held is None
            &&& !snapshot.embedded_running
            &&& snapshot.api_base_url == snapshot.remote_base_url
            &&& snapshot.remote_base_url == normalized_url(remote_base_url)
            &&& snapshot.api_base_url.len() > 0
        }),
{
    lemma_mode_words();
    lemma_normalized_url_is_an_address(remote_base_url);
}

/// Switching from remote mode, in which no backend is held, to embedded mode
/// launches a backend, and once it runs on the port that was reserved for it
/// the snapshot names the loop-back address with that port as the address to
/// call: an address that no other port gives.
pub proof fn lemma_switch_to_embedded(
    profile: RuntimeProfileView,
    remote_base_url: Seq<char>,
    port: u16,
    pid: u32,
)
    ensures
        ({
            let wanted = requested_profile(profile, MODE_EMBEDDED@, remote_base_url);
            let started = EmbeddedBackendView { pid, api_base_url: embedded_url(port) };
            let held = reconciled_backend(wanted.mode, None, false, Some(started));
            let snapshot = payload_of(wanted, held, true);
            &&& wanted.mode == RuntimeMode::Embedded
            &&& mode_action(wanted.mode, None, false) == ModeAction::Launch
            &&& held == Some(started)
            &&& snapshot.embedded_running
            &&& snapshot.api_base_url == embedded_url(port)
            &&& forall|other: u16| other != port ==> embedded_url(other) != snapshot.api_base_url
        }),
{
    lemma_mode_words();
    assert forall|other: u16| other != port implies embedded_url(other) != embedded_url(port) by {
        if embedded_url(other) == embedded_url(port) {
            lemma_embedded_url_injective(other, port);
        }
    }
}

/// What stopping asks of the caller: the process of the backend that is held,
/// if any, is killed, and the identity record is deleted in either case.
pub open spec fn stop_order_of(backend: Option<EmbeddedBackendView>) -> StopOrder {
    StopOrder {
        kill: match backend {
            Some(held) => Some(held.pid),
            None => None,
        },
        discard_record: true,
    }
}

/// Tells whether a child process that was polled is still running. A poll that
/// failed counts as an exit.
pub fn embedded_backend_is_alive(poll: ExitPoll) -> (alive: bool)
    ensures
        alive == (poll == ExitPoll::StillRunning),
{
    match poll {
        ExitPoll::StillRunning => true,
        ExitPoll::Exited => false,
        ExitPoll::Failed => false,
    }
}

/// Names what has to be done so that the world matches the wanted mode.
/// `alive` says whether the process of `backend` was still running when it was
/// polled; without a handle it says nothing.
pub fn ensure_runtime_mode(mode: RuntimeMode, backend: &Option<EmbeddedBackend>, alive: bool) -> (action:
    ModeAction)
    ensures
        action == mode_action(mode, option_backend(*backend), alive),
{
    match mode {
        RuntimeMode::Embedded => {
            if backend.is_some() && alive {
                ModeAction::Keep
            } else {
                ModeAction::Launch
            }
        },
        RuntimeMode::Remote => {
            if backend.is_some() {
                ModeAction::Stop
            } else {
                ModeAction::Keep
            }
        },
    }
}

/// Takes in the outcome of a launch: the new handle is held from now on, or,
/// where the launch failed, no handle at all, and the failure goes back to the
/// caller.
pub fn launch_finished(
    backend: &mut Option<EmbeddedBackend>,
    outcome: Result<EmbeddedBackend, SupervisorError>,
) -> (result: Result<(), SupervisorError>)
    ensures
        match outcome {
            Ok(started) => result is Ok && *final(backend) == Some(started),
            Err(error) => result == Err::<(), SupervisorError>(error) && *final(backend) is None,
        },
{
    match outcome {
        Ok(started) => {
            *backend = Some(started);
            Ok(())
        },
        Err(error) => {
            *backend = None;
            Err(error)
        },
    }
}

/// Gives up the handle that is held, and tells the caller what to do: kill the
/// process of the backend that was held and wait for it to exit, then delete the
/// identity record.
pub fn stop_embedded_backend(backend: &mut Option<EmbeddedBackend>) -> (order: StopOrder)
    ensures
        *final(backend) is None,
        order == stop_order_of(option_backend(*old(backend))),
{
    let kill = match backend.take() {
        Some(held) => Some(held.pid),
        None => None,
    };
    StopOrder { kill, discard_record: true }
}

/// Builds the snapshot for the front-end, and drops the handle of a backend
/// that has exited. `alive` says whether the process of `backend` was still
/// running when it was polled.
pub fn build_runtime_payload(
    profile: &RuntimeProfile,
    backend: &mut Option<EmbeddedBackend>,
    alive: bool,
) -> (payload: RuntimeProfilePayload)
    ensures
        payload@ == payload_of(profile@, option_backend(*old(backend)), alive),
        option_backend(*final(backend)) == backend_after_poll(option_backend(*old(backend)), alive),
{
    let embedded_running = backend.is_some() && alive;
    if !embedded_running {
        *backend = None;
    }
    let api_base_url = match (profile.mode, &*backend) {
        (RuntimeMode::Embedded, Some(held)) => held.api_base_url.clone(),
        _ => profile.remote_base_url.clone(),
    };
    RuntimeProfilePayload {
        desktop: true,
        mode: profile.mode,
        api_base_url,
        remote_base_url: profile.remote_base_url.clone(),
        embedded_running,
    }
}

/// Changes the profile as the user asks. A word that names no mode is refused
/// and leaves the profile as it was; otherwise the profile holds the wanted
/// mode and the address in normal form. The caller persists the new profile
/// and reconciles.
pub fn desktop_set_runtime_profile(
    profile: &mut RuntimeProfile,
    mode: &str,
    remote_base_url: &str,
) -> (result: Result<(), SupervisorError>)
    ensures
        final(profile)@ == requested_profile(old(profile)@, mode@, remote_base_url@),
        result is Ok <==> parsed_mode(mode@) is Some,
        result matches Err(error) ==> error@ == (SupervisorErrorView::UnsupportedMode {
            mode: mode@,
        }),
{
    match parse_runtime_mode(mode) {
        Ok(wanted) => {
            profile.mode = wanted;
            profile.remote_base_url = normalize_url(remote_base_url);
            Ok(())
        },
        Err(error) => Err(error),
    }
}

} // verus!
