//! The process supervisor: at most one backend child is tracked, a start
//! while it runs is a no-op, and a stop always succeeds.
//!
//! The supervisor never touches a process. A start is a short exchange with
//! the host: each function here takes what the host observed and answers with
//! the next [`StartStep`]. The host holds the supervisor behind its lock and
//! keeps the operating system's handle of the tracked child next to it.

use crate::events::StreamKind;
use crate::launch::{launch_plan, spec_launch_plan, LaunchPlan, LaunchPlanView, Platform};
use crate::resolver::Candidate;
use vstd::prelude::*;

verus! {

/// What a non-blocking probe of the tracked child found.
#[derive(Debug, PartialEq, Eq)]
pub enum Liveness {
    /// The child has not exited.
    Running,
    /// The child has exited.
    Exited,
    /// The probe itself failed; the text is the operating system's.
    Unknown(String),
}

pub enum LivenessView {
    Running,
    Exited,
    Unknown(Seq<char>),
}

impl View for Liveness {
    type V = LivenessView;

    open spec fn view(&self) -> LivenessView {
        match self {
            Liveness::Running => LivenessView::Running,
            Liveness::Exited => LivenessView::Exited,
            Liveness::Unknown(text) => LivenessView::Unknown(text@),
        }
    }
}

/// Why a start failed.
#[derive(Debug, PartialEq, Eq)]
pub enum SupervisorError {
    /// The executable exists at none of the candidate locations.
    BackendNotFound,
    /// The operating system refused to create the process.
    SpawnFailed(String),
    /// The lock around the supervisor was left poisoned; nothing is
    /// supervised any more.
    LockContention,
    /// The liveness probe of the tracked child failed.
    ProbeFailed(String),
    /// The per-user data directory could not be determined.
    DataDirUnavailable(String),
}

pub enum ErrorView {
    BackendNotFound,
    SpawnFailed(Seq<char>),
    LockContention,
    ProbeFailed(Seq<char>),
    DataDirUnavailable(Seq<char>),
}

impl View for SupervisorError {
    type V = ErrorView;

    open spec fn view(&self) -> ErrorView {
        match self {
            SupervisorError::BackendNotFound => ErrorView::BackendNotFound,
            SupervisorError::SpawnFailed(text) => ErrorView::SpawnFailed(text@),
            SupervisorError::LockContention => ErrorView::LockContention,
            SupervisorError::ProbeFailed(text) => ErrorView::ProbeFailed(text@),
            SupervisorError::DataDirUnavailable(text) => ErrorView::DataDirUnavailable(text@),
        }
    }
}

impl ErrorView {
    /// The text that the caller of a start is shown.
    pub open spec fn message(self) -> Seq<char> {
        match self {
            ErrorView::BackendNotFound => "backend exe not found"@,
            ErrorView::SpawnFailed(text) => "spawn failed: "@ + text,
            ErrorView::LockContention => "mutex poisoned"@,
            ErrorView::ProbeFailed(text) => text,
            ErrorView::DataDirUnavailable(text) => text,
        }
    }
}

impl SupervisorError {
    /// The text that the caller of a start is shown.
    pub fn message(&self) -> (text: String)
        ensures
            text@ == self@.message(),
    {
        match self {
            SupervisorError::BackendNotFound => "backend exe not found".to_owned(),
            SupervisorError::SpawnFailed(cause) => {
                let mut text = "spawn failed: ".to_owned();
                text.append(cause.as_str());
                text
            },
            SupervisorError::LockContention => "mutex poisoned".to_owned(),
            SupervisorError::ProbeFailed(cause) => cause.clone(),
            SupervisorError::DataDirUnavailable(cause) => cause.clone(),
        }
    }
}

/// How a start succeeded.
#[derive(Debug, PartialEq, Eq)]
pub enum StartStatus {
    /// The tracked child still runs; nothing was launched.
    AlreadyRunning,
    /// A new child was launched from the executable shown.
    Spawned(String),
}

pub enum StartStatusView {
    AlreadyRunning,
    Spawned(Seq<char>),
}

impl View for StartStatus {
    type V = StartStatusView;

    open spec fn view(&self) -> StartStatusView {
        match self {
            StartStatus::AlreadyRunning => StartStatusView::AlreadyRunning,
            StartStatus::Spawned(exe) => StartStatusView::Spawned(exe@),
        }
    }
}

impl StartStatusView {
    pub open spec fn message(self) -> Seq<char> {
        match self {
            StartStatusView::AlreadyRunning => "already running"@,
            StartStatusView::Spawned(exe) => "spawned: "@ + exe,
        }
    }
}

impl StartStatus {
    /// The text that the caller of a start is shown.
    pub fn message(&self) -> (text: String)
        ensures
            text@ == self@.message(),
    {
        match self {
            StartStatus::AlreadyRunning => "already running".to_owned(),
            StartStatus::Spawned(exe) => {
                let mut text = "spawned: ".to_owned();
                text.append(exe.as_str());
                text
            },
        }
    }
}

/// How a stop ended. It has no way to fail.
#[derive(Clone, Copy, Debug, PartialEq, Eq, Structural)]
pub enum StopStatus {
    /// The child with this process id is no longer tracked. The host kills
    /// it, waits for it, and ignores errors of both.
    Killed(u32),
    /// Nothing was tracked.
    NotRunning,
}

impl StopStatus {
    pub open spec fn spec_message(self) -> Seq<char> {
        match self {
            StopStatus::Killed(_) => "killed"@,
            StopStatus::NotRunning => "not running"@,
        }
    }

    /// The text that the caller of a stop is shown.
    pub fn message(&self) -> (text: String)
        ensures
            text@ == self.spec_message(),
    {
        match self {
            StopStatus::Killed(_) => "killed".to_owned(),
            StopStatus::NotRunning => "not running".to_owned(),
        }
    }
}

/// What the host does, in order, once a launch has been attempted.
#[derive(Clone, Copy, Debug, PartialEq, Eq, Structural)]
pub enum HostAction {
    /// Start forwarding this stream of the new child.
    Forward(StreamKind),
    /// Take the lock and record the new child with [`Supervisor::track`].
    Track(u32),
    /// Publish the ready event.
    EmitReady,
}

/// The next thing the host does within a start.
#[derive(Debug, PartialEq, Eq)]
pub enum StartStep {
    /// Probe the tracked child without blocking; answer with [`on_liveness`].
    Probe(u32),
    /// Probe the candidate locations; answer with [`on_located`].
    Locate,
    /// Determine the data root for the executable found; answer with
    /// [`on_data_root`].
    ResolveDataRoot(Candidate),
    /// Launch the backend; answer with [`on_spawned`].
    Spawn(LaunchPlan),
    /// The start is over.
    Finish(Result<StartStatus, SupervisorError>),
}

pub enum StartStepView {
    Probe(u32),
    Locate,
    ResolveDataRoot(Candidate),
    Spawn(LaunchPlanView),
    Finish(Result<StartStatusView, ErrorView>),
}

pub open spec fn outcome_view(outcome: Result<StartStatus, SupervisorError>) -> Result<
    StartStatusView,
    ErrorView,
> {
    match outcome {
        Ok(status) => Ok(status@),
        Err(error) => Err(error@),
    }
}

pub open spec fn text_view(text: Result<String, String>) -> Result<Seq<char>, Seq<char>> {
    match text {
        Ok(t) => Ok(t@),
        Err(t) => Err(t@),
    }
}

pub open spec fn spawn_view(spawned: Result<u32, String>) -> Result<u32, Seq<char>> {
    match spawned {
        Ok(pid) => Ok(pid),
        Err(t) => Err(t@),
    }
}

impl View for StartStep {
    type V = StartStepView;

    open spec fn view(&self) -> StartStepView {
        match self {
            StartStep::Probe(pid) => StartStepView::Probe(*pid),
            StartStep::Locate => StartStepView::Locate,
            StartStep::ResolveDataRoot(program) => StartStepView::ResolveDataRoot(*program),
            StartStep::Spawn(plan) => StartStepView::Spawn(plan@),
            StartStep::Finish(outcome) => StartStepView::Finish(outcome_view(*outcome)),
        }
    }
}

/// What follows an attempt to launch.
#[derive(Debug, PartialEq, Eq)]
pub struct SpawnReport {
    pub actions: Vec<HostAction>,
    pub outcome: Result<StartStatus, SupervisorError>,
}

pub struct SpawnReportView {
    pub actions: Seq<HostAction>,
    pub outcome: Result<StartStatusView, ErrorView>,
}

impl View for SpawnReport {
    type V = SpawnReportView;

    open spec fn view(&self) -> SpawnReportView {
        SpawnReportView { actions: self.actions@, outcome: outcome_view(self.outcome) }
    }
}

/// A start begins with a probe of the tracked child, or goes straight on
/// where nothing is tracked.
pub open spec fn spec_begin_start(child: Option<u32>) -> StartStepView {
    match child {
        Some(pid) => StartStepView::Probe(pid),
        None => StartStepView::Locate,
    }
}

/// A running child ends the start; an exited one is stale and the start
/// goes on; a failed probe fails the start.
pub open spec fn spec_on_liveness(liveness: LivenessView) -> StartStepView {
    match liveness {
        LivenessView::Running => StartStepView::Finish(Ok(StartStatusView::AlreadyRunning)),
        LivenessView::Exited => StartStepView::Locate,
        LivenessView::Unknown(text) => StartStepView::Finish(Err(ErrorView::ProbeFailed(text))),
    }
}

pub open spec fn spec_on_located(found: Option<Candidate>) -> StartStepView {
    match found {
        Some(program) => StartStepView::ResolveDataRoot(program),
        None => StartStepView::Finish(Err(ErrorView::BackendNotFound)),
    }
}

pub open spec fn spec_on_data_root(
    program: Candidate,
    data_root: Result<Seq<char>, Seq<char>>,
    platform: Platform,
) -> StartStepView {
    match data_root {
        Ok(dir) => StartStepView::Spawn(spec_launch_plan(program, dir, platform)),
        Err(text) => StartStepView::Finish(Err(ErrorView::DataDirUnavailable(text))),
    }
}

/// After a launch: forward both streams, record the child, publish the
/// ready event. After a failed one: nothing but the error.
pub open spec fn spec_on_spawned(exe: Seq<char>, spawned: Result<u32, Seq<char>>) -> SpawnReportView {
    match spawned {
        Ok(pid) => SpawnReportView {
            actions: seq![
                HostAction::Forward(StreamKind::Stdout),
                HostAction::Forward(StreamKind::Stderr),
                HostAction::Track(pid),
                HostAction::EmitReady,
            ],
            outcome: Ok(StartStatusView::Spawned(exe)),
        },
        Err(text) => SpawnReportView {
            actions: Seq::empty(),
            outcome: Err(ErrorView::SpawnFailed(text)),
        },
    }
}

/// What one action does to the tracked child.
pub open spec fn spec_apply(child: Option<u32>, action: HostAction) -> Option<u32> {
    match action {
        HostAction::Track(pid) => Some(pid),
        _ => child,
    }
}

/// What a stop does: the tracked child, if any, is handed out to be killed.
pub open spec fn spec_stop(child: Option<u32>) -> (Option<u32>, StopStatus) {
    match child {
        Some(pid) => (None, StopStatus::Killed(pid)),
        None => (None, StopStatus::NotRunning),
    }
}

/// The supervisor: the process id of the tracked child, if there is one.
pub struct Supervisor {
    child: Option<u32>,
}

impl View for Supervisor {
    type V = Option<u32>;

    closed spec fn view(&self) -> Option<u32> {
        self.child
    }
}

impl Supervisor {
    /// A supervisor that tracks nothing.
    pub fn new() -> (supervisor: Supervisor)
        ensures
            supervisor@ is None,
    {
        Supervisor { child: None }
    }

    /// The process id of the tracked child.
    pub fn child_pid(&self) -> (pid: Option<u32>)
        ensures
            pid == self@,
    {
        self.child
    }

    /// The first step of a start.
    pub fn begin_start(&self) -> (step: StartStep)
        ensures
            step@ == spec_begin_start(self@),
    {
        match self.child {
            Some(pid) => StartStep::Probe(pid),
            None => StartStep::Locate,
        }
    }

    /// Records the child just launched in place of whatever was tracked.
    pub fn track(&mut self, pid: u32)
        ensures
            final(self)@ == Some(pid),
    {
        self.child = Some(pid);
    }

    /// Carries out what `action` means for the supervisor: a
    /// [`HostAction::Track`] records the child, the others are the host's
    /// alone.
    pub fn apply(&mut self, action: HostAction)
        ensures
            final(self)@ == spec_apply(old(self)@, action),
    {
        match action {
            HostAction::Track(pid) => {
                self.child = Some(pid);
            },
            _ => {},
        }
    }

    /// Stops tracking. With a child tracked the host is handed its process
    /// id to kill and wait for; with none the stop is a no-op.
    pub fn stop(&mut self) -> (status: StopStatus)
        ensures
            (final(self)@, status) == spec_stop(old(self)@),
    {
        let status = match self.child {
            Some(pid) => StopStatus::Killed(pid),
            None => StopStatus::NotRunning,
        };
        self.child = None;
        status
    }
}

/// The step after the probe of the tracked child.
pub fn on_liveness(liveness: Liveness) -> (step: StartStep)
    ensures
        step@ == spec_on_liveness(liveness@),
{
    match liveness {
        Liveness::Running => StartStep::Finish(Ok(StartStatus::AlreadyRunning)),
        Liveness::Exited => StartStep::Locate,
        Liveness::Unknown(text) => StartStep::Finish(Err(SupervisorError::ProbeFailed(text))),
    }
}

/// The step after the search for the executable.
pub fn on_located(found: Option<Candidate>) -> (step: StartStep)
    ensures
        step@ == spec_on_located(found),
{
    match found {
        Some(program) => StartStep::ResolveDataRoot(program),
        None => StartStep::Finish(Err(SupervisorError::BackendNotFound)),
    }
}

/// The step after the host determined the data root: the per-user
/// application data directory joined with [`crate::launch::DATA_SUBDIR`],
/// as text, or the reason why there is none.
pub fn on_data_root(program: Candidate, data_root: Result<String, String>, platform: Platform) -> (step:
    StartStep)
    ensures
        step@ == spec_on_data_root(program, text_view(data_root), platform),
{
    match data_root {
        Ok(dir) => StartStep::Spawn(launch_plan(program, dir.as_str(), platform)),
        Err(text) => StartStep::Finish(Err(SupervisorError::DataDirUnavailable(text))),
    }
}

/// What follows the attempt to launch `exe`: `spawned` is the process id of
/// the new child, or the operating system's reason for refusing.
pub fn on_spawned(exe: &str, spawned: Result<u32, String>) -> (report: SpawnReport)
    ensures
        report@ == spec_on_spawned(exe@, spawn_view(spawned)),
{
    match spawned {
        Ok(pid) => {
            let actions = vec![
                HostAction::Forward(StreamKind::Stdout),
                HostAction::Forward(StreamKind::Stderr),
                HostAction::Track(pid),
                HostAction::EmitReady,
            ];
            assert(actions@ =~= spec_on_spawned(exe@, spawn_view(spawned)).actions);
            SpawnReport { actions, outcome: Ok(StartStatus::Spawned(exe.to_owned())) }
        },
        Err(text) => {
            let actions: Vec<HostAction> = Vec::new();
            assert(actions@ =~= Seq::<HostAction>::empty());
            SpawnReport { actions, outcome: Err(SupervisorError::SpawnFailed(text)) }
        },
    }
}

/// Everything the host observes in the course of one start. Each field is
/// read only if the start gets that far.
pub struct StartEnv {
    /// What the probe of the child finds.
    pub liveness: LivenessView,
    /// The executable that the search finds.
    pub located: Option<Candidate>,
    /// The data root, or why there is none.
    pub data_root: Result<Seq<char>, Seq<char>>,
    /// How the executable found is shown.
    pub exe: Seq<char>,
    /// The process id of the child launched, or why there is none.
    pub spawned: Result<u32, Seq<char>>,
    pub platform: Platform,
}

/// One start, seen from outside.
pub struct StartRun {
    /// The child that is tracked afterwards.
    pub child: Option<u32>,
    /// The launch that the host was asked for, if it was.
    pub launch: Option<LaunchPlanView>,
    /// What the host was asked to do after the launch.
    pub actions: Seq<HostAction>,
    pub outcome: Result<StartStatusView, ErrorView>,
}

/// The child that is tracked once the host has carried out `actions` in
/// order.
pub open spec fn child_after(child: Option<u32>, actions: Seq<HostAction>) -> Option<u32>
    decreases actions.len(),
{
    if actions.len() == 0 {
        child
    } else {
        child_after(spec_apply(child, actions[0]), actions.skip(1))
    }
}

/// How many answers of the host a step is away from the end of the start,
/// at most.
pub open spec fn steps_left(step: StartStepView) -> nat {
    match step {
        StartStepView::Probe(_) => 4,
        StartStepView::Locate => 3,
        StartStepView::ResolveDataRoot(_) => 2,
        StartStepView::Spawn(_) => 1,
        StartStepView::Finish(_) => 0,
    }
}

/// The rest of a start from `step` on, with the host answering each step
/// out of `env`.
pub open spec fn run_from(step: StartStepView, child: Option<u32>, env: StartEnv) -> StartRun
    decreases steps_left(step),
{
    match step {
        StartStepView::Probe(_) => run_from(spec_on_liveness(env.liveness), child, env),
        StartStepView::Locate => run_from(spec_on_located(env.located), child, env),
        StartStepView::ResolveDataRoot(program) => run_from(
            spec_on_data_root(program, env.data_root, env.platform),
            child,
            env,
        ),
        StartStepView::Spawn(plan) => {
            let report = spec_on_spawned(env.exe, env.spawned);
            StartRun {
                child: child_after(child, report.actions),
                launch: Some(plan),
                actions: report.actions,
                outcome: report.outcome,
            }
        },
        StartStepView::Finish(outcome) => StartRun {
            child,
            launch: None,
            actions: Seq::empty(),
            outcome,
        },
    }
}

/// A whole start of a supervisor that tracks `child`.
pub open spec fn start_run(child: Option<u32>, env: StartEnv) -> StartRun {
    run_from(spec_begin_start(child), child, env)
}

/// Whether a start of a supervisor that tracks `child` gets as far as
/// looking for the executable: nothing is tracked, or what is tracked has
/// exited.
pub open spec fn start_proceeds(child: Option<u32>, env: StartEnv) -> bool {
    child is None || env.liveness == LivenessView::Exited
}

/// After the actions of a launch the new child is the one tracked, whatever
/// was tracked before.
pub proof fn law_launch_replaces_the_child(child: Option<u32>, exe: Seq<char>, pid: u32)
    ensures
        child_after(child, spec_on_spawned(exe, Ok(pid)).actions) == Some(pid),
        child_after(child, spec_on_spawned(exe, Err(exe)).actions) == child,
{
    let actions = spec_on_spawned(exe, Ok(pid)).actions;
    let a1 = actions.skip(1);
    let a2 = a1.skip(1);
    let a3 = a2.skip(1);
    let a4 = a3.skip(1);
    assert(a4.len() == 0);
    assert(child_after(Some(pid), a4) == Some(pid));
    assert(a3[0] == HostAction::EmitReady);
    assert(child_after(Some(pid), a3) == Some(pid));
    assert(a2[0] == HostAction::Track(pid));
    assert(child_after(child, a2) == Some(pid));
    assert(a1[0] == HostAction::Forward(StreamKind::Stderr));
    assert(child_after(child, a1) == Some(pid));
    assert(actions[0] == HostAction::Forward(StreamKind::Stdout));
}

/// How every start ends, in one place. A running child ends it at once;
/// after that the first thing to go wrong names the error; if nothing does,
/// the backend was launched.
pub proof fn law_start_outcome(child: Option<u32>, env: StartEnv)
    ensures
        start_run(child, env).outcome == if child is Some && env.liveness == LivenessView::Running {
            Ok::<StartStatusView, ErrorView>(StartStatusView::AlreadyRunning)
        } else if child is Some && env.liveness is Unknown {
            Err(ErrorView::ProbeFailed(env.liveness->Unknown_0))
        } else if env.located is None {
            Err(ErrorView::BackendNotFound)
        } else if env.data_root is Err {
            Err(ErrorView::DataDirUnavailable(env.data_root->Err_0))
        } else if env.spawned is Err {
            Err(ErrorView::SpawnFailed(env.spawned->Err_0))
        } else {
            Ok(StartStatusView::Spawned(env.exe))
        },
{
    reveal_with_fuel(run_from, 5);
}

/// The host is asked to launch only when the start proceeds, the executable
/// was found and the data root is known; the launch is then the one plan
/// for that executable, data root and platform.
pub proof fn law_launch_conditions(child: Option<u32>, env: StartEnv)
    ensures
        start_run(child, env).launch == if start_proceeds(child, env) && env.located is Some
            && env.data_root is Ok {
            Some(spec_launch_plan(env.located->0, env.data_root->Ok_0, env.platform))
        } else {
            None::<LaunchPlanView>
        },
        start_run(child, env).launch is None ==> start_run(child, env).actions.len() == 0
            && start_run(child, env).child == child,
{
    reveal_with_fuel(run_from, 5);
}

/// A start leaves the new child tracked exactly when it reports a launch;
/// every other start leaves the supervisor as it was.
pub proof fn law_start_tracks_what_it_spawned(child: Option<u32>, env: StartEnv)
    ensures
        start_run(child, env).outcome matches Ok(StartStatusView::Spawned(_)) ==> env.spawned is Ok
            && start_run(child, env).child == Some(env.spawned->Ok_0),
        !(start_run(child, env).outcome matches Ok(StartStatusView::Spawned(_))) ==> start_run(
            child,
            env,
        ).child == child,
{
    reveal_with_fuel(run_from, 5);
    if env.spawned is Ok {
        law_launch_replaces_the_child(child, env.exe, env.spawned->Ok_0);
    } else {
        law_launch_replaces_the_child(child, env.exe, 0);
        assert(spec_on_spawned(env.exe, env.spawned).actions =~= Seq::<HostAction>::empty());
    }
}

/// A start while the tracked child runs does nothing: it reports "already
/// running", asks for no launch and no action, and the same child stays
/// tracked.
pub proof fn law_start_is_idempotent(pid: u32, env: StartEnv)
    requires
        env.liveness == LivenessView::Running,
    ensures
        start_run(Some(pid), env).outcome == Ok::<StartStatusView, ErrorView>(
            StartStatusView::AlreadyRunning,
        ),
        start_run(Some(pid), env).launch is None,
        start_run(Some(pid), env).actions.len() == 0,
        start_run(Some(pid), env).child == Some(pid),
{
    reveal_with_fuel(run_from, 5);
}

/// Two starts in a row, the second while the child of the first is alive:
/// the child launched by the first is still the one tracked after the
/// second, and the second launched nothing.
pub proof fn law_second_start_spawns_nothing(child: Option<u32>, first: StartEnv, second: StartEnv)
    requires
        start_run(child, first).outcome matches Ok(StartStatusView::Spawned(_)),
        second.liveness == LivenessView::Running,
    ensures
        ({
            let between = start_run(child, first).child;
            let after = start_run(between, second);
            &&& first.spawned is Ok
            &&& between == Some(first.spawned->Ok_0)
            &&& after.outcome == Ok::<StartStatusView, ErrorView>(StartStatusView::AlreadyRunning)
            &&& after.launch is None
            &&& after.child == between
        }),
{
    law_start_tracks_what_it_spawned(child, first);
    law_start_is_idempotent(first.spawned->Ok_0, second);
}

/// A stop cannot fail and leaves nothing tracked. With nothing tracked it
/// reports "not running"; so does every stop that follows another stop.
pub proof fn law_stop_is_always_safe(child: Option<u32>)
    ensures
        spec_stop(child).0 is None,
        child is None ==> spec_stop(child).1 == StopStatus::NotRunning,
        child matches Some(pid) ==> spec_stop(child).1 == StopStatus::Killed(pid),
        spec_stop(spec_stop(child).0) == (None::<u32>, StopStatus::NotRunning),
{
}

/// A start that launched, then two stops: the first hands out the child
/// that was launched, the second reports "not running".
pub proof fn law_stop_twice_after_start(child: Option<u32>, env: StartEnv)
    requires
        start_run(child, env).outcome matches Ok(StartStatusView::Spawned(_)),
    ensures
        ({
            let started = start_run(child, env).child;
            let first = spec_stop(started);
            let second = spec_stop(first.0);
            &&& env.spawned is Ok
            &&& first.1 == StopStatus::Killed(env.spawned->Ok_0)
            &&& second == (None::<u32>, StopStatus::NotRunning)
        }),
{
    law_start_tracks_what_it_spawned(child, env);
}

} // verus!
