//! Lifecycle of the proxy-engine process.
//!
//! The supervisor holds at most one process handle and the node that process
//! was started with. It never touches the process itself: a start or a stop
//! is an `Operation` that tells the caller, one `Action` at a time, what to
//! do (terminate the previous process, write the system proxy setting,
//! spawn the engine) and takes back what came of it. A start always stops
//! first; a failure to turn the system proxy on after a launch leaves the
//! engine running. The caller keeps one supervisor behind one lock and holds
//! it for a whole request, so two requests never hold two live handles at
//! once.
use crate::models::{ProxyStatus, PROXY_PORT};
use crate::paths::{get_confdir, get_logs_dir, get_outbounds_dir, get_xray_path, joined, xray_config_dir};
use vstd::prelude::*;

verus! {

/// The view of an optional string.
pub open spec fn opt_view(o: Option<String>) -> Option<Seq<char>> {
    match o {
        Some(s) => Some(s@),
        None => None,
    }
}

/// Abstract state of a supervisor: the handle it holds and the node that
/// handle runs.
pub struct SupervisorModel<H> {
    pub handle: Option<H>,
    pub node: Option<Seq<char>>,
}

/// The state after a stop: nothing held, no node.
pub open spec fn stopped<H>() -> SupervisorModel<H> {
    SupervisorModel { handle: None, node: None }
}

/// The state after a launch of `node` that produced `handle`.
pub open spec fn launched<H>(handle: H, node: Seq<char>) -> SupervisorModel<H> {
    SupervisorModel { handle: Some(handle), node: Some(node) }
}

/// Owner of the engine process handle.
pub struct Supervisor<H> {
    process: Option<H>,
    current_node: Option<String>,
}

impl<H> View for Supervisor<H> {
    type V = SupervisorModel<H>;

    closed spec fn view(&self) -> SupervisorModel<H> {
        SupervisorModel { handle: self.process, node: opt_view(self.current_node) }
    }
}

impl<H> Supervisor<H> {
    /// A supervisor that holds no process.
    pub fn new() -> (r: Self)
        ensures
            r@ == stopped::<H>(),
    {
        Supervisor { process: None, current_node: None }
    }

    /// Whether a handle is held, that is, a process was started and not
    /// stopped since. A process that exited by itself still counts.
    pub fn is_running(&self) -> (r: bool)
        ensures
            r == self@.handle is Some,
    {
        self.process.is_some()
    }

    /// The node the held process was started with.
    pub fn current_node(&self) -> (r: Option<String>)
        ensures
            opt_view(r) == self@.node,
    {
        match &self.current_node {
            Some(n) => Some(n.clone()),
            None => None,
        }
    }
}

/// Releases the held handle, if any, for the caller to terminate, and
/// forgets the node. Doing so with nothing held is no error.
pub fn stop<H>(sup: &mut Supervisor<H>) -> (released: Option<H>)
    ensures
        released == old(sup)@.handle,
        final(sup)@ == stopped::<H>(),
{
    let released = sup.process.take();
    sup.current_node = None;
    released
}

/// How to launch the engine for one node.
pub struct LaunchSpec {
    /// The executable.
    pub program: String,
    /// Its arguments: the shared configuration directory and the node's file.
    pub args: Vec<String>,
    /// Directory the process runs in.
    pub working_dir: String,
    /// Directory that must exist before the launch, for the engine's logs.
    pub logs_dir: String,
}

/// Path of the configuration file of `node_file`.
pub open spec fn node_config_path(data_dir: Seq<char>, node_file: Seq<char>) -> Seq<char> {
    joined(joined(xray_config_dir(data_dir), "outbounds"@), node_file)
}

/// The launch of the engine under `data_dir` for the node whose file is
/// `node_file`, relative to the outbounds directory.
pub open spec fn is_launch_for(l: LaunchSpec, data_dir: Seq<char>, node_file: Seq<char>) -> bool {
    &&& l.program@ == joined(joined(data_dir, "bin"@), "xray.exe"@)
    &&& l.args@.len() == 4
    &&& l.args@[0]@ == "-confdir"@
    &&& l.args@[1]@ == joined(xray_config_dir(data_dir), "confdir"@)
    &&& l.args@[2]@ == "-c"@
    &&& l.args@[3]@ == node_config_path(data_dir, node_file)
    &&& l.working_dir@ == data_dir
    &&& l.logs_dir@ == joined(data_dir, "logs"@)
}

/// Builds the launch of the engine for one node.
pub fn launch_spec(data_dir: &str, node_file: &str) -> (r: LaunchSpec)
    ensures
        is_launch_for(r, data_dir@, node_file@),
{
    let outbounds = get_outbounds_dir(data_dir);
    let mut args: Vec<String> = Vec::new();
    args.push(String::from_str("-confdir"));
    args.push(get_confdir(data_dir));
    args.push(String::from_str("-c"));
    args.push(crate::paths::join_path(outbounds.as_str(), node_file));
    LaunchSpec {
        program: get_xray_path(data_dir),
        args,
        working_dir: String::from_str(data_dir),
        logs_dir: get_logs_dir(data_dir),
    }
}

/// The first half of a start: the handle to terminate and the launch to
/// perform.
pub struct StartPlan<H> {
    pub previous: Option<H>,
    pub launch: LaunchSpec,
}

/// Begins a start of `node_file`: stops whatever runs (its handle is in the
/// plan, to terminate before the launch) and builds the launch.
pub fn start<H>(sup: &mut Supervisor<H>, data_dir: &str, node_file: &str) -> (plan: StartPlan<H>)
    ensures
        plan.previous == old(sup)@.handle,
        final(sup)@ == stopped::<H>(),
        is_launch_for(plan.launch, data_dir@, node_file@),
{
    let previous = stop(sup);
    StartPlan { previous, launch: launch_spec(data_dir, node_file) }
}

/// Completes a start: keeps the handle of the launched process and its
/// node. A handle still held (none where `start` came first under the same
/// lock) is released for the caller to terminate, so one handle at most is
/// ever held.
pub fn record_launch<H>(sup: &mut Supervisor<H>, child: H, node_file: &str) -> (released: Option<H>)
    ensures
        released == old(sup)@.handle,
        final(sup)@ == launched(child, node_file@),
{
    let released = stop(sup);
    sup.process = Some(child);
    sup.current_node = Some(String::from_str(node_file));
    released
}

/// The status of the proxy, from the supervisor and the system proxy flag
/// as read just now.
pub fn get_status<H>(sup: &Supervisor<H>, system_proxy_enabled: bool) -> (r: ProxyStatus)
    ensures
        r.running == sup@.handle is Some,
        r.system_proxy == system_proxy_enabled,
        opt_view(r.current_node) == sup@.node,
        r.port == PROXY_PORT,
{
    ProxyStatus {
        running: sup.is_running(),
        system_proxy: system_proxy_enabled,
        current_node: sup.current_node(),
        port: PROXY_PORT,
    }
}

/// After any stop (`stop`, `begin_stop`, and the first step of
/// `begin_start`) no process is running and no node is remembered, whatever
/// was held before: the held handle, if any, is the one handed back.
pub proof fn lemma_stop_leaves_nothing_running<H>(before: SupervisorModel<H>)
    ensures
        stopped::<H>().handle is None,
        stopped::<H>().node is None,
        before.handle is Some ==> before.handle != stopped::<H>().handle,
{
}

/// A start of `b` right after a completed start of `a`: `begin_start` hands
/// back `a`'s handle (what `launch_finished` left held) and holds nothing
/// while `b` is launched, so the two are never held together; then
/// `launch_finished` holds `b`'s handle alone.
pub proof fn lemma_restart_replaces_process<H>(a: H, node_a: Seq<char>, b: H, node_b: Seq<char>)
    ensures
        launched(a, node_a).handle == Some(a),
        stopped::<H>().handle is None,
        launched(b, node_b).handle == Some(b),
        launched(b, node_b).node == Some(node_b),
{
}

/// Why a request failed.
pub enum ProxyError {
    /// The engine could not be launched.
    Spawn(String),
    /// The system proxy setting could not be written.
    SystemConfig(String),
}

impl ProxyError {
    /// The message of the failure.
    pub fn message(&self) -> (r: String)
        ensures
            r@ == match self {
                ProxyError::Spawn(m) => m@,
                ProxyError::SystemConfig(m) => m@,
            },
    {
        match self {
            ProxyError::Spawn(m) => m.clone(),
            ProxyError::SystemConfig(m) => m.clone(),
        }
    }
}

/// What the caller does next for a request in progress.
pub enum Action {
    /// Write the system proxy setting, then report with `system_proxy_set`.
    SetSystemProxy { enable: bool, port: u16 },
    /// Create the logs directory and spawn the engine, then report with
    /// `launch_finished`.
    Launch(LaunchSpec),
    /// The request is over, with this result.
    Finish(Result<(), ProxyError>),
}

/// Where a request stands.
pub enum Stage {
    /// A stop is turning the system proxy off.
    Stopping,
    /// A start is turning the system proxy off before its launch.
    Disabling { launch: LaunchSpec, node_file: String },
    /// A start waits for its launch.
    Launching { node_file: String },
    /// A start is turning the system proxy on.
    Enabling,
    /// The request is over.
    Finished,
}

/// A start or a stop in progress. The caller holds the supervisor's lock
/// from its beginning to its `Finish`.
pub struct Operation {
    pub stage: Stage,
}

/// The result of writing the system proxy setting, as a request's result.
pub open spec fn config_result(result: Result<(), String>) -> Result<(), ProxyError> {
    match result {
        Ok(()) => Ok(()),
        Err(e) => Err(ProxyError::SystemConfig(e)),
    }
}

/// Begins a stop: the held handle, if any, is released for the caller to
/// terminate (failures to terminate are ignored), then the system proxy is
/// turned off.
pub fn begin_stop<H>(sup: &mut Supervisor<H>) -> (r: (Option<H>, Operation, Action))
    ensures
        r.0 == old(sup)@.handle,
        final(sup)@ == stopped::<H>(),
        r.1.stage is Stopping,
        r.2 == (Action::SetSystemProxy { enable: false, port: PROXY_PORT }),
{
    let released = stop(sup);
    (released, Operation { stage: Stage::Stopping }, Action::SetSystemProxy { enable: false, port: PROXY_PORT })
}

/// Begins a start of `node_file`: as a stop (the previous handle is
/// released and the system proxy turned off), followed by the launch.
pub fn begin_start<H>(sup: &mut Supervisor<H>, data_dir: &str, node_file: &str) -> (r: (Option<H>, Operation, Action))
    ensures
        r.0 == old(sup)@.handle,
        final(sup)@ == stopped::<H>(),
        r.1.stage matches Stage::Disabling { launch, node_file: n }
            && is_launch_for(launch, data_dir@, node_file@) && n@ == node_file@,
        r.2 == (Action::SetSystemProxy { enable: false, port: PROXY_PORT }),
{
    let plan = start(sup, data_dir, node_file);
    let op = Operation { stage: Stage::Disabling { launch: plan.launch, node_file: String::from_str(node_file) } };
    (plan.previous, op, Action::SetSystemProxy { enable: false, port: PROXY_PORT })
}

/// Whether `op` waits for the result of writing the system proxy setting.
pub open spec fn awaits_system_proxy(op: Operation) -> bool {
    op.stage is Stopping || op.stage is Disabling || op.stage is Enabling
}

/// Takes the result of writing the system proxy setting. A failure ends
/// the request with a `SystemConfig` error; where it comes after a
/// successful launch, the engine keeps running. A success ends a stop,
/// launches a start's engine, or ends a start that has launched.
pub fn system_proxy_set(op: &mut Operation, result: Result<(), String>) -> (r: Action)
    requires
        awaits_system_proxy(*old(op)),
    ensures
        match old(op).stage {
            Stage::Disabling { launch, node_file } => match result {
                Ok(()) => r == Action::Launch(launch) && final(op).stage == (Stage::Launching { node_file }),
                Err(e) => r == Action::Finish(Err(ProxyError::SystemConfig(e))) && final(op).stage is Finished,
            },
            _ => r == Action::Finish(config_result(result)) && final(op).stage is Finished,
        },
{
    let mut stage = Stage::Finished;
    core::mem::swap(&mut stage, &mut op.stage);
    match stage {
        Stage::Disabling { launch, node_file } => match result {
            Ok(()) => {
                op.stage = Stage::Launching { node_file };
                Action::Launch(launch)
            },
            Err(e) => Action::Finish(Err(ProxyError::SystemConfig(e))),
        },
        _ => match result {
            Ok(()) => Action::Finish(Ok(())),
            Err(e) => Action::Finish(Err(ProxyError::SystemConfig(e))),
        },
    }
}

/// Whether `op` waits for the result of a launch.
pub open spec fn awaits_launch(op: Operation) -> bool {
    op.stage is Launching
}

impl Operation {
    /// Whether the next report is the result of writing the system proxy
    /// setting.
    pub fn expects_system_proxy(&self) -> (r: bool)
        ensures
            r == awaits_system_proxy(*self),
    {
        match self.stage {
            Stage::Stopping | Stage::Disabling { .. } | Stage::Enabling => true,
            _ => false,
        }
    }

    /// Whether the next report is the result of a launch.
    pub fn expects_launch(&self) -> (r: bool)
        ensures
            r == awaits_launch(*self),
    {
        match self.stage {
            Stage::Launching { .. } => true,
            _ => false,
        }
    }
}

/// Takes the result of a launch. A failure ends the start with a `Spawn`
/// error and nothing running. A success keeps the handle and the node,
/// and the system proxy is turned on next.
pub fn launch_finished<H>(sup: &mut Supervisor<H>, op: &mut Operation, result: Result<H, String>) -> (r: (Option<H>, Action))
    requires
        awaits_launch(*old(op)),
    ensures
        old(op).stage matches Stage::Launching { node_file } && match result {
            Ok(child) => {
                &&& r.0 == old(sup)@.handle
                &&& final(sup)@ == launched(child, node_file@)
                &&& final(op).stage is Enabling
                &&& r.1 == (Action::SetSystemProxy { enable: true, port: PROXY_PORT })
            },
            Err(e) => {
                &&& r.0 is None
                &&& final(sup)@ == old(sup)@
                &&& final(op).stage is Finished
                &&& r.1 == Action::Finish(Err(ProxyError::Spawn(e)))
            },
        },
{
    let mut stage = Stage::Finished;
    core::mem::swap(&mut stage, &mut op.stage);
    match stage {
        Stage::Launching { node_file } => match result {
            Ok(child) => {
                let released = record_launch(sup, child, node_file.as_str());
                op.stage = Stage::Enabling;
                (released, Action::SetSystemProxy { enable: true, port: PROXY_PORT })
            },
            Err(e) => (None, Action::Finish(Err(ProxyError::Spawn(e)))),
        },
        _ => (None, Action::Finish(Ok(()))),
    }
}

} // verus!
