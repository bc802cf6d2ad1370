//! The life of a server process, from an open filesystem to a clean shutdown:
//! which steps it takes, in which order, and what a failed step means.

use vstd::prelude::*;

use crate::engine::{effective_l0_max_ssts, DatabaseMode};
#[allow(unused_imports)]
use crate::engine::{concurrent_compactions, l0_depth};
use crate::settings::{Settings, WarmMetadata};
use crate::tuning::{GcConfig, LsmConfig};

verus! {

/// One step in the life of a server process.
#[derive(Debug, Clone, Copy, PartialEq, Eq, Structural)]
pub enum Step {
    /// Make sure that the directory of block devices exists.
    EnsureNbdDirectory,
    /// Start periodic telemetry.
    StartTelemetry,
    /// Start the metrics endpoint.
    StartPrometheus,
    /// Start the digest of metadata compactions.
    StartDigest,
    /// Start the NFS servers.
    StartNfs,
    /// Start the 9P servers.
    StartNineP,
    /// Start the NBD servers.
    StartNbd,
    /// Open the view on checkpoints that garbage collection consults.
    BuildGcAdmin,
    /// Open the checkpoint manager.
    BuildCheckpointManager,
    /// Have every checkpoint sealed and flushed before it is taken.
    SealBeforeCheckpoints,
    /// Start the administration servers.
    StartRpc,
    /// Keep the metadata block cache warm.
    WarmMetadata,
    /// Start garbage collection.
    StartGc,
    /// Start reporting statistics.
    StartStats,
    /// Start the periodic flush.
    StartFlush,
    /// Watch for the termination signal.
    WatchSignals,
    /// Start the web interface.
    StartWebUi,
    /// Check that at least one server was started.
    RequireServers,
    /// Tell the service manager that the server is ready.
    NotifyReady,
    /// Serve until a signal comes.
    AwaitSignal,
    /// Tell every task to stop.
    CancelTasks,
    /// Wait for the servers.
    AwaitServers,
    /// Wait for garbage collection, for a limited time.
    AwaitGc,
    /// Wait for the statistics.
    AwaitStats,
    /// Wait for the periodic flush.
    AwaitFlush,
    /// Wait for telemetry.
    AwaitTelemetry,
    /// Wait for the digest.
    AwaitDigest,
    /// Wait for the metrics endpoint.
    AwaitPrometheus,
    /// Close a database that was only read.
    CloseDatabase,
    /// Seal, flush and close a database that was written.
    FlushAndClose,
    /// Give up the lease.
    StopHeartbeat,
}

/// The number of steps there are.
pub const STEPS: usize = 31;

/// Seconds between reports of statistics.
pub const STATS_INTERVAL_SECS: u64 = 5;

/// Seconds that shutdown waits for a garbage-collection task in mid-pass.
pub const GC_SHUTDOWN_SECS: u64 = 15;

impl Step {
    /// The place of a step in the order.
    pub open spec fn rank(self) -> int {
        match self {
            Step::EnsureNbdDirectory => 0,
            Step::StartTelemetry => 1,
            Step::StartPrometheus => 2,
            Step::StartDigest => 3,
            Step::StartNfs => 4,
            Step::StartNineP => 5,
            Step::StartNbd => 6,
            Step::BuildGcAdmin => 7,
            Step::BuildCheckpointManager => 8,
            Step::SealBeforeCheckpoints => 9,
            Step::StartRpc => 10,
            Step::WarmMetadata => 11,
            Step::StartGc => 12,
            Step::StartStats => 13,
            Step::StartFlush => 14,
            Step::WatchSignals => 15,
            Step::StartWebUi => 16,
            Step::RequireServers => 17,
            Step::NotifyReady => 18,
            Step::AwaitSignal => 19,
            Step::CancelTasks => 20,
            Step::AwaitServers => 21,
            Step::AwaitGc => 22,
            Step::AwaitStats => 23,
            Step::AwaitFlush => 24,
            Step::AwaitTelemetry => 25,
            Step::AwaitDigest => 26,
            Step::AwaitPrometheus => 27,
            Step::CloseDatabase => 28,
            Step::FlushAndClose => 29,
            Step::StopHeartbeat => 30,
        }
    }
}

/// The step at a place in the order.
fn step_at(i: usize) -> (step: Step)
    requires
        i < STEPS,
    ensures
        step.rank() == i,
{
    match i {
        0 => Step::EnsureNbdDirectory,
        1 => Step::StartTelemetry,
        2 => Step::StartPrometheus,
        3 => Step::StartDigest,
        4 => Step::StartNfs,
        5 => Step::StartNineP,
        6 => Step::StartNbd,
        7 => Step::BuildGcAdmin,
        8 => Step::BuildCheckpointManager,
        9 => Step::SealBeforeCheckpoints,
        10 => Step::StartRpc,
        11 => Step::WarmMetadata,
        12 => Step::StartGc,
        13 => Step::StartStats,
        14 => Step::StartFlush,
        15 => Step::WatchSignals,
        16 => Step::StartWebUi,
        17 => Step::RequireServers,
        18 => Step::NotifyReady,
        19 => Step::AwaitSignal,
        20 => Step::CancelTasks,
        21 => Step::AwaitServers,
        22 => Step::AwaitGc,
        23 => Step::AwaitStats,
        24 => Step::AwaitFlush,
        25 => Step::AwaitTelemetry,
        26 => Step::AwaitDigest,
        27 => Step::AwaitPrometheus,
        28 => Step::CloseDatabase,
        29 => Step::FlushAndClose,
        _ => Step::StopHeartbeat,
    }
}

/// What the process has to work with.
#[derive(Debug, Clone, Copy, PartialEq, Eq, Structural)]
pub struct Opened {
    /// The engine's metrics.
    pub metrics: bool,
    /// A subscription to the engine's status.
    pub status: bool,
    /// A web interface, built in.
    pub webui: bool,
}

/// What decides which steps a server process takes.
#[derive(Debug, Clone, Copy)]
pub struct RunContext {
    /// How the database was opened.
    pub mode: DatabaseMode,
    /// Whether block devices are served.
    pub nbd: bool,
    /// Whether there is a metrics endpoint.
    pub prometheus: bool,
    /// Whether there is a web interface.
    pub webui: bool,
    /// Whether compactions are summed up.
    pub digest: bool,
    /// Whether the metadata block cache is kept warm.
    pub warm: bool,
    /// Whether that includes the data blocks.
    pub warm_data: bool,
    /// The L0 depth at which the digest warns.
    pub l0_max_ssts: usize,
    /// Seconds between periodic flushes.
    pub flush_interval_secs: u64,
    /// Garbage-collection tuning.
    pub gc: GcConfig,
}

impl RunContext {
    /// The context that settings, a mode and an opened filesystem make up.
    pub open spec fn is_for(self, settings: Settings, mode: DatabaseMode, opened: Opened) -> bool {
        &&& self.mode == mode
        &&& self.nbd == (settings.servers is Some && settings.servers->0.nbd is Some)
        &&& self.prometheus == (settings.prometheus is Some)
        &&& self.webui == (opened.webui && settings.servers is Some && settings.servers->0.webui is Some)
        &&& self.digest == (opened.metrics && opened.status)
        &&& self.warm == (settings.cache.warm_metadata != WarmMetadata::Off && opened.status)
        &&& self.warm_data == (settings.cache.warm_metadata == WarmMetadata::Full)
        &&& self.l0_max_ssts == l0_depth(settings.lsm)
        &&& self.flush_interval_secs == flush_interval(settings.lsm)
        &&& self.gc == (match settings.gc {
            Some(gc) => gc,
            None => GcConfig::unset(),
        })
    }

    /// The context that settings, a mode and an opened filesystem make up.
    pub fn new(settings: &Settings, mode: DatabaseMode, opened: Opened) -> (context: RunContext)
        ensures
            context.is_for(*settings, mode, opened),
    {
        let nbd = match &settings.servers {
            Some(servers) => servers.nbd.is_some(),
            None => false,
        };
        let webui = match &settings.servers {
            Some(servers) => opened.webui && servers.webui.is_some(),
            None => false,
        };
        let flush_interval_secs: u64 = match &settings.lsm {
            Some(lsm) => lsm.flush_interval_secs(),
            None => LsmConfig::DEFAULT_FLUSH_INTERVAL_SECS,
        };
        RunContext {
            mode,
            nbd,
            prometheus: settings.prometheus.is_some(),
            webui,
            digest: opened.metrics && opened.status,
            warm: settings.cache.warm_metadata != WarmMetadata::Off && opened.status,
            warm_data: settings.cache.warm_metadata == WarmMetadata::Full,
            l0_max_ssts: effective_l0_max_ssts(&settings.lsm),
            flush_interval_secs,
            gc: match settings.gc {
                Some(gc) => gc,
                None => GcConfig::default(),
            },
        }
    }

    /// Whether a step is taken.
    pub open spec fn calls_for(self, step: Step) -> bool {
        let writer = !self.mode.read_only();
        match step {
            Step::EnsureNbdDirectory => writer && self.nbd,
            Step::StartPrometheus => self.prometheus,
            Step::AwaitPrometheus => self.prometheus,
            Step::StartDigest => self.digest,
            Step::AwaitDigest => self.digest,
            Step::WarmMetadata => self.warm,
            Step::StartWebUi => self.webui,
            Step::CloseDatabase => !writer,
            _ => step.writes() ==> writer,
        }
    }

    fn takes(&self, step: &Step) -> (takes: bool)
        ensures
            takes == self.calls_for(*step),
    {
        let writer = !self.mode.is_read_only();
        match step {
            Step::EnsureNbdDirectory => writer && self.nbd,
            Step::StartPrometheus => self.prometheus,
            Step::AwaitPrometheus => self.prometheus,
            Step::StartDigest => self.digest,
            Step::AwaitDigest => self.digest,
            Step::WarmMetadata => self.warm,
            Step::StartWebUi => self.webui,
            Step::CloseDatabase => !writer,
            Step::BuildGcAdmin => writer,
            Step::SealBeforeCheckpoints => writer,
            Step::StartGc => writer,
            Step::StartFlush => writer,
            Step::AwaitGc => writer,
            Step::AwaitFlush => writer,
            Step::FlushAndClose => writer,
            _ => true,
        }
    }
}

/// Seconds between periodic flushes in force.
pub open spec fn flush_interval(lsm: Option<LsmConfig>) -> u64 {
    match lsm {
        Some(lsm) => lsm.flush_every(),
        None => LsmConfig::DEFAULT_FLUSH_INTERVAL_SECS,
    }
}

/// `steps` are the steps that the context calls for, each one once, in order.
pub open spec fn in_order(steps: Seq<Step>, context: RunContext) -> bool {
    &&& forall|step: Step| #[trigger] steps.contains(step) <==> context.calls_for(step)
    &&& forall|i: int, j: int|
        0 <= i < j < steps.len() ==> (#[trigger] steps[i]).rank() < (#[trigger] steps[j]).rank()
}

/// The steps of a server process, from an open filesystem to the end.
pub fn planned_steps(context: &RunContext) -> (steps: Vec<Step>)
    ensures
        in_order(steps@, *context),
{
    let mut steps: Vec<Step> = Vec::new();
    let mut i: usize = 0;
    while i < STEPS
        invariant
            i <= STEPS,
            forall|step: Step| #[trigger]
                steps@.contains(step) <==> context.calls_for(step) && step.rank() < i,
            forall|j: int, k: int|
                0 <= j < k < steps@.len() ==> (#[trigger] steps@[j]).rank() < (#[trigger] steps@[k]).rank(),
        decreases STEPS - i,
    {
        let step = step_at(i);
        let ghost before = steps@;
        if context.takes(&step) {
            steps.push(step);
        }
        proof {
            assert forall|other: Step| #[trigger]
                steps@.contains(other) <==> context.calls_for(other) && other.rank() < i + 1 by {
                ranks_tell_steps_apart(other, step);
                if context.calls_for(step) {
                    assert(steps@[before.len() as int] == step);
                    if before.contains(other) {
                        let k = choose|k: int| 0 <= k < before.len() && before[k] == other;
                        assert(steps@[k] == other);
                    }
                    if steps@.contains(other) && other != step {
                        let k = choose|k: int| 0 <= k < steps@.len() && steps@[k] == other;
                        assert(before[k] == other);
                    }
                }
            }
            assert forall|j: int, k: int| 0 <= j < k < steps@.len() implies (
            #[trigger] steps@[j]).rank() < (#[trigger] steps@[k]).rank() by {
                assert(before[j] == steps@[j]);
                assert(before.contains(before[j]));
                if k < before.len() {
                    assert(before[k] == steps@[k]);
                }
            }
        }
        i += 1;
    }
    steps
}

/// No two steps have the same place.
pub proof fn ranks_tell_steps_apart(a: Step, b: Step)
    ensures
        a.rank() == b.rank() <==> a == b,
        0 <= a.rank() < STEPS,
{
}

/// How a step came out.
#[derive(Debug, Clone, Copy, PartialEq, Eq, Structural)]
pub enum StepOutcome {
    /// It worked.
    Done,
    /// It failed.
    Failed,
}

/// What a failed step means.
#[derive(Debug, Clone, Copy, PartialEq, Eq, Structural)]
pub enum FailurePolicy {
    /// Nothing; the run goes on.
    Ignore,
    /// The run ends with the step's error.
    Report,
    /// The process exits at once, without a separate close of the database:
    /// its implicit metadata flush could publish pointers to a segment that
    /// was never stored.
    Exit,
}

/// How a run ended.
#[derive(Debug, Clone, Copy, PartialEq, Eq, Structural)]
pub enum RunEnd {
    /// Every step was taken.
    Finished,
    /// A step failed, and its error ends the run.
    Failed(Step),
    /// The final flush failed.
    Aborted,
}

/// What the absence of servers is answered with.
pub const NO_SERVERS: &'static str =
    "No servers configured. At least one server (NFS, 9P, NBD, or RPC) must be enabled.";

/// How the check for servers comes out, for the number of servers started.
pub open spec fn servers_check(started: usize) -> StepOutcome {
    if started == 0 {
        StepOutcome::Failed
    } else {
        StepOutcome::Done
    }
}

/// How the check for servers comes out: a process that serves nothing is
/// refused.
pub fn servers_outcome(started: usize) -> (outcome: StepOutcome)
    ensures
        outcome == servers_check(started),
{
    if started == 0 {
        StepOutcome::Failed
    } else {
        StepOutcome::Done
    }
}

impl Step {
    /// Steps that only a writer may take.
    pub open spec fn writes(self) -> bool {
        match self {
            Step::EnsureNbdDirectory => true,
            Step::BuildGcAdmin => true,
            Step::SealBeforeCheckpoints => true,
            Step::StartGc => true,
            Step::StartFlush => true,
            Step::AwaitGc => true,
            Step::AwaitFlush => true,
            Step::FlushAndClose => true,
            _ => false,
        }
    }

    /// Whether the step closes the database.
    pub open spec fn closes(self) -> bool {
        self == Step::CloseDatabase || self == Step::FlushAndClose
    }

    /// What the failure of a step means.
    pub open spec fn failure_policy(self) -> FailurePolicy {
        match self {
            Step::EnsureNbdDirectory => FailurePolicy::Report,
            Step::StartNfs => FailurePolicy::Report,
            Step::StartNineP => FailurePolicy::Report,
            Step::StartNbd => FailurePolicy::Report,
            Step::WatchSignals => FailurePolicy::Report,
            Step::RequireServers => FailurePolicy::Report,
            Step::NotifyReady => FailurePolicy::Report,
            Step::CloseDatabase => FailurePolicy::Report,
            Step::FlushAndClose => FailurePolicy::Exit,
            _ => FailurePolicy::Ignore,
        }
    }

    /// What the failure of a step means.
    pub fn on_failure(&self) -> (policy: FailurePolicy)
        ensures
            policy == self.failure_policy(),
    {
        match self {
            Step::EnsureNbdDirectory => FailurePolicy::Report,
            Step::StartNfs => FailurePolicy::Report,
            Step::StartNineP => FailurePolicy::Report,
            Step::StartNbd => FailurePolicy::Report,
            Step::WatchSignals => FailurePolicy::Report,
            Step::RequireServers => FailurePolicy::Report,
            Step::NotifyReady => FailurePolicy::Report,
            Step::CloseDatabase => FailurePolicy::Report,
            Step::FlushAndClose => FailurePolicy::Exit,
            _ => FailurePolicy::Ignore,
        }
    }
}

/// Where a run stands: its steps, the one that comes next, and its end once it
/// has come.
pub struct Progress {
    /// The steps.
    pub steps: Seq<Step>,
    /// The place of the step that comes next.
    pub at: int,
    /// The end.
    pub end: Option<RunEnd>,
}

impl Progress {
    /// A run that has taken none of its steps yet.
    pub open spec fn start(steps: Seq<Step>) -> Progress {
        Progress { steps, at: 0, end: None }
    }

    /// The run after its next step came out so. One that has ended stays as it
    /// is.
    pub open spec fn after(self, outcome: StepOutcome) -> Progress {
        if self.end is Some {
            self
        } else {
            let step = self.steps[self.at];
            let policy = step.failure_policy();
            if outcome == StepOutcome::Failed && policy == FailurePolicy::Report {
                Progress { end: Some(RunEnd::Failed(step)), ..self }
            } else if outcome == StepOutcome::Failed && policy == FailurePolicy::Exit {
                Progress { end: Some(RunEnd::Aborted), ..self }
            } else {
                Progress {
                    steps: self.steps,
                    at: self.at + 1,
                    end: if self.at + 1 == self.steps.len() {
                        Some(RunEnd::Finished)
                    } else {
                        None
                    },
                }
            }
        }
    }

    /// The run after its next steps came out so.
    pub open spec fn after_all(self, outcomes: Seq<StepOutcome>) -> Progress
        decreases outcomes.len(),
    {
        if outcomes.len() == 0 {
            self
        } else {
            self.after_all(outcomes.drop_last()).after(outcomes.last())
        }
    }
}

/// The run of a server process.
#[derive(Debug)]
pub struct ServerRun {
    steps: Vec<Step>,
    at: usize,
    end: Option<RunEnd>,
}

impl ServerRun {
    /// Where the run stands.
    pub closed spec fn progress(self) -> Progress {
        Progress { steps: self.steps@, at: self.at as int, end: self.end }
    }

    #[verifier::type_invariant]
    spec fn wf(self) -> bool {
        self.end is None ==> self.at < self.steps@.len()
    }

    /// A run that has taken none of its steps yet.
    pub fn new(context: &RunContext) -> (run: ServerRun)
        ensures
            in_order(run.progress().steps, *context),
            run.progress() == Progress::start(run.progress().steps),
    {
        let steps = planned_steps(context);
        proof {
            assert(context.calls_for(Step::StartStats));
            assert(steps@.contains(Step::StartStats));
        }
        ServerRun { steps, at: 0, end: None }
    }

    /// The step to take next, unless the run has ended.
    pub fn next_step(&self) -> (step: Option<Step>)
        ensures
            step == (if self.progress().end is None {
                Some(self.progress().steps[self.progress().at])
            } else {
                None
            }),
    {
        proof {
            use_type_invariant(self);
        }
        match self.end {
            None => Some(self.steps[self.at]),
            Some(_) => None,
        }
    }

    /// How the run ended, if it has.
    pub fn end(&self) -> (end: Option<RunEnd>)
        ensures
            end == self.progress().end,
    {
        self.end
    }

    /// Takes note of how the next step came out.
    pub fn complete(&mut self, outcome: StepOutcome)
        ensures
            final(self).progress() == old(self).progress().after(outcome),
    {
        proof {
            use_type_invariant(&*self);
        }
        if self.end.is_none() {
            let count: usize = self.steps.len();
            let step = self.steps[self.at];
            let failed = outcome == StepOutcome::Failed;
            let policy = step.on_failure();
            if failed && policy == FailurePolicy::Report {
                self.end = Some(RunEnd::Failed(step));
            } else if failed && policy == FailurePolicy::Exit {
                self.end = Some(RunEnd::Aborted);
            } else if self.at + 1 == count {
                self.end = Some(RunEnd::Finished);
                self.at = self.at + 1;
            } else {
                self.at = self.at + 1;
            }
        }
    }
}

/// What the block-device directory is created with.
#[derive(Debug, Clone, Copy, PartialEq, Eq, Structural)]
pub struct NewDirectory {
    /// Permission bits.
    pub mode: u32,
    /// Owner.
    pub uid: u32,
    /// Group.
    pub gid: u32,
}

/// The name of the block-device directory, in the root directory.
pub const NBD_DIRECTORY: &'static str = ".nbd";

/// Whether the block-device directory has to be created, and with what, given
/// whether it was found.
pub fn ensure_nbd_directory(found: bool) -> (create: Option<NewDirectory>)
    ensures
        create == (if found {
            None
        } else {
            Some(NewDirectory { mode: 0o755, uid: 0, gid: 0 })
        }),
{
    if found {
        None
    } else {
        Some(NewDirectory { mode: 0o755, uid: 0, gid: 0 })
    }
}

/// A process that only reads takes no step that writes, and closes the
/// database as a reader.
pub proof fn readers_never_write(steps: Seq<Step>, context: RunContext, i: int)
    requires
        in_order(steps, context),
        context.mode.read_only(),
        0 <= i < steps.len(),
    ensures
        !steps[i].writes(),
{
    assert(steps.contains(steps[i]));
}

/// The database is closed exactly once: a writer's by the flush that seals
/// first, and never by a plain close.
pub proof fn the_database_is_closed_once(steps: Seq<Step>, context: RunContext)
    requires
        in_order(steps, context),
    ensures
        steps.contains(Step::CloseDatabase) <==> context.mode.read_only(),
        steps.contains(Step::FlushAndClose) <==> !context.mode.read_only(),
        forall|i: int, j: int|
            0 <= i < steps.len() && 0 <= j < steps.len() && (#[trigger] steps[i]).closes() && (
            #[trigger] steps[j]).closes() ==> i == j,
{
    assert(steps.contains(Step::CloseDatabase) <==> context.calls_for(Step::CloseDatabase));
    assert(steps.contains(Step::FlushAndClose) <==> context.calls_for(Step::FlushAndClose));
    assert forall|i: int, j: int|
        0 <= i < steps.len() && 0 <= j < steps.len() && (#[trigger] steps[i]).closes() && (
        #[trigger] steps[j]).closes() implies i == j by {
        assert(steps.contains(steps[i]));
        assert(steps.contains(steps[j]));
        if i < j {
            assert(steps[i].rank() < steps[j].rank());
        }
        if j < i {
            assert(steps[j].rank() < steps[i].rank());
        }
    }
}

/// One step comes before another exactly where its place in the order says so.
pub proof fn places_follow_ranks(steps: Seq<Step>, context: RunContext, i: int, j: int)
    requires
        in_order(steps, context),
        0 <= i < steps.len(),
        0 <= j < steps.len(),
    ensures
        i < j <==> steps[i].rank() < steps[j].rank(),
{
    if i < j {
        assert(steps[i].rank() < steps[j].rank());
    }
    if j < i {
        assert(steps[j].rank() < steps[i].rank());
    }
}

/// A run gets past a step only if the step worked or its failure is ignored.
pub proof fn steps_behind_a_run_worked(steps: Seq<Step>, outcomes: Seq<StepOutcome>, i: int)
    requires
        steps.len() > 0,
        0 <= i < Progress::start(steps).after_all(outcomes).at,
    ensures
        i < outcomes.len(),
        i < steps.len(),
        outcomes[i] == StepOutcome::Done || steps[i].failure_policy() == FailurePolicy::Ignore,
    decreases outcomes.len(),
{
    progress_counts_outcomes(steps, outcomes);
    if outcomes.len() > 0 {
        let earlier = Progress::start(steps).after_all(outcomes.drop_last());
        progress_counts_outcomes(steps, outcomes.drop_last());
        if i < earlier.at {
            steps_behind_a_run_worked(steps, outcomes.drop_last(), i);
        }
    }
}

/// A run has taken no more steps than came out, and while it goes on, as many.
pub proof fn progress_counts_outcomes(steps: Seq<Step>, outcomes: Seq<StepOutcome>)
    requires
        steps.len() > 0,
    ensures
        ({
            let now = Progress::start(steps).after_all(outcomes);
            &&& now.steps == steps
            &&& 0 <= now.at <= outcomes.len()
            &&& now.at <= steps.len()
            &&& now.end is None ==> now.at == outcomes.len() && now.at < steps.len()
            &&& now.end == Some(RunEnd::Finished) <==> now.at == steps.len()
        }),
    decreases outcomes.len(),
{
    if outcomes.len() > 0 {
        progress_counts_outcomes(steps, outcomes.drop_last());
    }
}

/// A run ends: after as many outcomes as it has steps it has come to one end
/// or another.
pub proof fn every_run_ends(steps: Seq<Step>, outcomes: Seq<StepOutcome>)
    requires
        steps.len() > 0,
        outcomes.len() >= steps.len(),
    ensures
        Progress::start(steps).after_all(outcomes).end is Some,
{
    progress_counts_outcomes(steps, outcomes);
}

/// The lease is kept until all writes are durable: by the time a run gives it
/// up, the database was closed, and closing it worked.
pub proof fn the_lease_outlives_the_writes(
    steps: Seq<Step>,
    context: RunContext,
    outcomes: Seq<StepOutcome>,
) -> (closed: int)
    requires
        in_order(steps, context),
        ({
            let now = Progress::start(steps).after_all(outcomes);
            now.end is None && now.steps[now.at] == Step::StopHeartbeat
        }),
    ensures
        0 <= closed < Progress::start(steps).after_all(outcomes).at,
        closed < outcomes.len(),
        steps[closed].closes(),
        outcomes[closed] == StepOutcome::Done,
{
    let now = Progress::start(steps).after_all(outcomes);
    assert(context.calls_for(Step::StopHeartbeat));
    assert(steps.contains(Step::StopHeartbeat));
    progress_counts_outcomes(steps, outcomes);
    let close = if context.mode.read_only() {
        Step::CloseDatabase
    } else {
        Step::FlushAndClose
    };
    assert(context.calls_for(close));
    assert(steps.contains(close));
    let closed = choose|k: int| 0 <= k < steps.len() && steps[k] == close;
    places_follow_ranks(steps, context, closed, now.at);
    steps_behind_a_run_worked(steps, outcomes, closed);
    closed
}

/// After a failed final flush nothing more is done: the run is over, and no
/// outcome brings it back.
pub proof fn a_failed_final_flush_is_the_end(run: Progress, later: Seq<StepOutcome>)
    requires
        run.end is None,
        0 <= run.at < run.steps.len(),
        run.steps[run.at] == Step::FlushAndClose,
    ensures
        run.after(StepOutcome::Failed).end == Some(RunEnd::Aborted),
        run.after(StepOutcome::Failed).after_all(later) == run.after(StepOutcome::Failed),
    decreases later.len(),
{
    if later.len() > 0 {
        a_failed_final_flush_is_the_end(run, later.drop_last());
    }
}

/// The service manager is told that the server is ready only once at least one
/// server is known to have been started.
pub proof fn ready_means_serving(
    steps: Seq<Step>,
    context: RunContext,
    outcomes: Seq<StepOutcome>,
) -> (checked: int)
    requires
        in_order(steps, context),
        ({
            let now = Progress::start(steps).after_all(outcomes);
            now.end is None && now.steps[now.at] == Step::NotifyReady
        }),
    ensures
        0 <= checked < outcomes.len(),
        steps[checked] == Step::RequireServers,
        outcomes[checked] == StepOutcome::Done,
{
    let now = Progress::start(steps).after_all(outcomes);
    assert(context.calls_for(Step::RequireServers));
    assert(steps.contains(Step::RequireServers));
    let checked = choose|k: int| 0 <= k < steps.len() && steps[k] == Step::RequireServers;
    progress_counts_outcomes(steps, outcomes);
    places_follow_ranks(steps, context, checked, now.at);
    steps_behind_a_run_worked(steps, outcomes, checked);
    checked
}

/// In a process that writes, every checkpoint is sealed and flushed first from
/// before the moment anyone can ask for one.
pub proof fn checkpoints_are_sealed_before_they_can_be_asked_for(
    steps: Seq<Step>,
    context: RunContext,
    serving: int,
) -> (sealing: int)
    requires
        in_order(steps, context),
        !context.mode.read_only(),
        0 <= serving < steps.len(),
        steps[serving] == Step::StartRpc || steps[serving] == Step::StartWebUi,
    ensures
        0 <= sealing < serving,
        steps[sealing] == Step::SealBeforeCheckpoints,
{
    assert(context.calls_for(Step::SealBeforeCheckpoints));
    assert(steps.contains(Step::SealBeforeCheckpoints));
    let sealing = choose|k: int|
        0 <= k < steps.len() && steps[k] == Step::SealBeforeCheckpoints;
    places_follow_ranks(steps, context, sealing, serving);
    sealing
}

/// Settings that do nothing any more do nothing: engine tuning is in force the
/// same with and without them.
pub proof fn deprecated_keys_do_nothing(
    lsm: LsmConfig,
    wal_enabled: Option<bool>,
    max_unflushed_bytes: Option<u64>,
)
    ensures
        ({
            let dated = LsmConfig { wal_enabled, max_unflushed_bytes, ..lsm };
            &&& l0_depth(Some(dated)) == l0_depth(Some(lsm))
            &&& concurrent_compactions(Some(dated)) == concurrent_compactions(Some(lsm))
            &&& flush_interval(Some(dated)) == flush_interval(Some(lsm))
            &&& dated.syncs_writes() == lsm.syncs_writes()
        }),
{
}

/// What waits for the task that a step starts.
pub open spec fn awaited_by(started: Step) -> Option<Step> {
    match started {
        Step::StartTelemetry => Some(Step::AwaitTelemetry),
        Step::StartPrometheus => Some(Step::AwaitPrometheus),
        Step::StartDigest => Some(Step::AwaitDigest),
        Step::StartNfs => Some(Step::AwaitServers),
        Step::StartNineP => Some(Step::AwaitServers),
        Step::StartNbd => Some(Step::AwaitServers),
        Step::StartRpc => Some(Step::AwaitServers),
        Step::StartWebUi => Some(Step::AwaitServers),
        Step::StartGc => Some(Step::AwaitGc),
        Step::StartStats => Some(Step::AwaitStats),
        Step::StartFlush => Some(Step::AwaitFlush),
        _ => None,
    }
}

/// Whatever is started is told to stop and then waited for before the database
/// is closed.
pub proof fn tasks_end_before_the_database_is_closed(
    steps: Seq<Step>,
    context: RunContext,
    started: int,
    closed: int,
) -> (r: (int, int))
    requires
        in_order(steps, context),
        0 <= started < steps.len(),
        awaited_by(steps[started]) is Some,
        0 <= closed < steps.len(),
        steps[closed].closes(),
    ensures
        started < r.0 < r.1 < closed,
        steps[r.0] == Step::CancelTasks,
        steps[r.1] == awaited_by(steps[started])->0,
{
    let wait = awaited_by(steps[started])->0;
    assert(steps.contains(steps[started]));
    assert(context.calls_for(wait));
    assert(context.calls_for(Step::CancelTasks));
    assert(steps.contains(wait));
    assert(steps.contains(Step::CancelTasks));
    let cancel = choose|k: int| 0 <= k < steps.len() && steps[k] == Step::CancelTasks;
    let awaited = choose|k: int| 0 <= k < steps.len() && steps[k] == wait;
    places_follow_ranks(steps, context, started, cancel);
    places_follow_ranks(steps, context, cancel, awaited);
    places_follow_ranks(steps, context, awaited, closed);
    (cancel, awaited)
}

/// Two orders of the same steps are the same.
proof fn same_steps_same_order(a: Seq<Step>, b: Seq<Step>)
    requires
        forall|step: Step| #[trigger] a.contains(step) <==> b.contains(step),
        forall|i: int, j: int|
            0 <= i < j < a.len() ==> (#[trigger] a[i]).rank() < (#[trigger] a[j]).rank(),
        forall|i: int, j: int|
            0 <= i < j < b.len() ==> (#[trigger] b[i]).rank() < (#[trigger] b[j]).rank(),
    ensures
        a == b,
    decreases a.len(),
{
    if a.len() == 0 {
        if b.len() > 0 {
            assert(b.contains(b[0]));
            assert(a.contains(b[0]));
        }
        assert(a =~= b);
    } else {
        assert(a.contains(a.last()));
        assert(b.contains(a.last()));
        assert(b.contains(b.last()));
        assert(a.contains(b.last()));
        let i = choose|i: int| 0 <= i < b.len() && b[i] == a.last();
        let j = choose|j: int| 0 <= j < a.len() && a[j] == b.last();
        if i < b.len() - 1 {
            assert(b[i].rank() < b[b.len() - 1].rank());
        }
        if j < a.len() - 1 {
            assert(a[j].rank() < a[a.len() - 1].rank());
        }
        assert(a.last() == b.last());
        assert forall|step: Step| #[trigger] a.drop_last().contains(step) <==> b.drop_last().contains(
            step,
        ) by {
            earlier_steps_are_the_others(a, step);
            earlier_steps_are_the_others(b, step);
            assert(a.contains(step) <==> b.contains(step));
        }
        same_steps_same_order(a.drop_last(), b.drop_last());
        assert(a =~= a.drop_last().push(a.last()));
        assert(b =~= b.drop_last().push(b.last()));
    }
}

/// All steps but the last stand before the last.
proof fn earlier_steps_are_the_others(steps: Seq<Step>, step: Step)
    requires
        steps.len() > 0,
        forall|i: int, j: int|
            0 <= i < j < steps.len() ==> (#[trigger] steps[i]).rank() < (#[trigger] steps[j]).rank(),
    ensures
        steps.drop_last().contains(step) <==> steps.contains(step) && step != steps.last(),
{
    let earlier = steps.drop_last();
    if earlier.contains(step) {
        let k = choose|k: int| 0 <= k < earlier.len() && earlier[k] == step;
        assert(steps[k] == step);
        assert(steps[k].rank() < steps[steps.len() - 1].rank());
    }
    if steps.contains(step) && step != steps.last() {
        let k = choose|k: int| 0 <= k < steps.len() && steps[k] == step;
        assert(earlier[k] == step);
    }
}

/// Every protocol is served in every mode: whatever a process was started with,
/// it starts its NFS, 9P, NBD and RPC servers.
pub proof fn every_protocol_is_served_in_every_mode(steps: Seq<Step>, context: RunContext)
    requires
        in_order(steps, context),
    ensures
        steps.contains(Step::StartNfs),
        steps.contains(Step::StartNineP),
        steps.contains(Step::StartNbd),
        steps.contains(Step::StartRpc),
        steps.contains(Step::AwaitServers),
{
}

/// What every process does besides serving, whatever it was started with: it
/// reports telemetry and statistics, manages checkpoints, waits to be told to
/// stop, says when it is ready, and in the end gives up its lease.
pub proof fn steps_of_every_process(steps: Seq<Step>, context: RunContext)
    requires
        in_order(steps, context),
    ensures
        steps.contains(Step::StartTelemetry),
        steps.contains(Step::BuildCheckpointManager),
        steps.contains(Step::StartStats),
        steps.contains(Step::WatchSignals),
        steps.contains(Step::RequireServers),
        steps.contains(Step::NotifyReady),
        steps.contains(Step::AwaitSignal),
        steps.contains(Step::CancelTasks),
        steps.contains(Step::AwaitStats),
        steps.contains(Step::AwaitTelemetry),
        steps.contains(Step::StopHeartbeat),
{
}

/// What a process does as the writer and only then: it collects garbage,
/// flushes, seals before checkpoints, and closes with a flush. Only a reader
/// closes the database without one.
pub proof fn steps_of_the_writer_alone(steps: Seq<Step>, context: RunContext)
    requires
        in_order(steps, context),
    ensures
        steps.contains(Step::BuildGcAdmin) <==> context.mode == DatabaseMode::ReadWrite,
        steps.contains(Step::SealBeforeCheckpoints) <==> context.mode == DatabaseMode::ReadWrite,
        steps.contains(Step::StartGc) <==> context.mode == DatabaseMode::ReadWrite,
        steps.contains(Step::AwaitGc) <==> context.mode == DatabaseMode::ReadWrite,
        steps.contains(Step::StartFlush) <==> context.mode == DatabaseMode::ReadWrite,
        steps.contains(Step::AwaitFlush) <==> context.mode == DatabaseMode::ReadWrite,
        steps.contains(Step::FlushAndClose) <==> context.mode == DatabaseMode::ReadWrite,
        steps.contains(Step::CloseDatabase) <==> context.mode != DatabaseMode::ReadWrite,
{
}

/// What a process does where its settings ask for it: a metrics endpoint and a
/// web interface where they are configured, a warm cache unless it is off, and
/// a directory of block devices where a writer serves them. The digest and the
/// warm cache need the engine's status, the digest its metrics too, and the web
/// interface has to be built in.
pub proof fn steps_follow_the_settings(
    steps: Seq<Step>,
    context: RunContext,
    settings: Settings,
    mode: DatabaseMode,
    opened: Opened,
)
    requires
        context.is_for(settings, mode, opened),
        in_order(steps, context),
    ensures
        steps.contains(Step::StartPrometheus) <==> settings.prometheus is Some,
        steps.contains(Step::AwaitPrometheus) <==> settings.prometheus is Some,
        steps.contains(Step::StartDigest) <==> opened.metrics && opened.status,
        steps.contains(Step::AwaitDigest) <==> opened.metrics && opened.status,
        steps.contains(Step::WarmMetadata) <==> opened.status && (settings.cache.warm_metadata
            == WarmMetadata::FiltersIndex || settings.cache.warm_metadata == WarmMetadata::Full),
        steps.contains(Step::StartWebUi) <==> opened.webui && settings.servers is Some
            && settings.servers->0.webui is Some,
        steps.contains(Step::EnsureNbdDirectory) <==> mode == DatabaseMode::ReadWrite
            && settings.servers is Some && settings.servers->0.nbd is Some,
        steps.contains(Step::StartGc) <==> mode == DatabaseMode::ReadWrite,
        steps.contains(Step::StartNfs),
{
}

/// What the steps run with is what is configured: data blocks are warmed where
/// that is asked for in full, flushes come at the configured interval from five
/// seconds on, the digest warns at the configured depth from four on, and
/// garbage collection has its own section, or the defaults.
pub proof fn contexts_hold_what_is_configured(
    context: RunContext,
    settings: Settings,
    mode: DatabaseMode,
    opened: Opened,
)
    requires
        context.is_for(settings, mode, opened),
    ensures
        context.mode == mode,
        context.warm_data <==> settings.cache.warm_metadata == WarmMetadata::Full,
        settings.lsm matches Some(lsm) ==> lsm.flush_interval_secs matches Some(secs) ==> secs >= 5
            ==> context.flush_interval_secs == secs,
        settings.lsm matches Some(lsm) ==> lsm.flush_interval_secs matches Some(secs) ==> secs < 5
            ==> context.flush_interval_secs == 5,
        settings.lsm is None || settings.lsm->0.flush_interval_secs is None
            ==> context.flush_interval_secs == 30,
        settings.lsm matches Some(lsm) ==> lsm.l0_max_ssts matches Some(n) ==> n >= 4
            ==> context.l0_max_ssts == n,
        settings.lsm matches Some(lsm) ==> lsm.l0_max_ssts matches Some(n) ==> n < 4
            ==> context.l0_max_ssts == 4,
        settings.lsm is None || settings.lsm->0.l0_max_ssts is None ==> context.l0_max_ssts == 256,
        settings.gc matches Some(gc) ==> context.gc == gc,
        settings.gc is None ==> {
            &&& context.gc.interval() == 60
            &&& context.gc.idle_interval() == 5
            &&& context.gc.busy_interval() == 15
            &&& context.gc.reads_steer()
            &&& context.gc.scrub_floor() == Some(5u64)
            &&& context.gc.batches() == 4
            &&& context.gc.busy_percent() == 20
            &&& context.gc.round_bytes() == 256 * 1024 * 1024
        },
{
}

/// Readers do the same whether they read the latest state or a checkpoint:
/// contexts that differ in nothing but the one read-only mode or the other have
/// the same steps in the same order.
pub proof fn readers_take_the_same_steps(
    steps: Seq<Step>,
    context: RunContext,
    other_steps: Seq<Step>,
    other: RunContext,
)
    requires
        in_order(steps, context),
        in_order(other_steps, other),
        context.mode != DatabaseMode::ReadWrite,
        other.mode != DatabaseMode::ReadWrite,
        other == (RunContext { mode: other.mode, ..context }),
    ensures
        steps == other_steps,
{
    assert forall|step: Step| #[trigger] steps.contains(step) <==> other_steps.contains(step) by {
        assert(steps.contains(step) <==> context.calls_for(step));
        assert(other_steps.contains(step) <==> other.calls_for(step));
    }
    same_steps_same_order(steps, other_steps);
}

/// A context fixes its steps: there is one plan for it.
pub proof fn a_context_has_one_plan(steps: Seq<Step>, other_steps: Seq<Step>, context: RunContext)
    requires
        in_order(steps, context),
        in_order(other_steps, context),
    ensures
        steps == other_steps,
{
    assert forall|step: Step| #[trigger] steps.contains(step) <==> other_steps.contains(step) by {
        assert(steps.contains(step) <==> context.calls_for(step));
        assert(other_steps.contains(step) <==> context.calls_for(step));
    }
    same_steps_same_order(steps, other_steps);
}

/// The order of a life. First whatever watches the rest is started, then the
/// servers, with the means to take checkpoints before the servers that can ask
/// for one; then the tasks beside them. Once it is known that something is
/// served, the process is ready, and waits. In the end everything is told to
/// stop and waited for, the database is closed, and the lease goes last.
pub proof fn the_order_of_a_life()
    ensures
        Step::EnsureNbdDirectory.rank() < Step::StartTelemetry.rank(),
        Step::StartTelemetry.rank() < Step::StartPrometheus.rank(),
        Step::StartPrometheus.rank() < Step::StartDigest.rank(),
        Step::StartDigest.rank() < Step::StartNfs.rank(),
        Step::StartNfs.rank() < Step::StartNineP.rank(),
        Step::StartNineP.rank() < Step::StartNbd.rank(),
        Step::StartNbd.rank() < Step::BuildGcAdmin.rank(),
        Step::BuildGcAdmin.rank() < Step::BuildCheckpointManager.rank(),
        Step::BuildCheckpointManager.rank() < Step::SealBeforeCheckpoints.rank(),
        Step::SealBeforeCheckpoints.rank() < Step::StartRpc.rank(),
        Step::StartRpc.rank() < Step::WarmMetadata.rank(),
        Step::WarmMetadata.rank() < Step::StartGc.rank(),
        Step::StartGc.rank() < Step::StartStats.rank(),
        Step::StartStats.rank() < Step::StartFlush.rank(),
        Step::StartFlush.rank() < Step::WatchSignals.rank(),
        Step::WatchSignals.rank() < Step::StartWebUi.rank(),
        Step::StartWebUi.rank() < Step::RequireServers.rank(),
        Step::RequireServers.rank() < Step::NotifyReady.rank(),
        Step::NotifyReady.rank() < Step::AwaitSignal.rank(),
        Step::AwaitSignal.rank() < Step::CancelTasks.rank(),
        Step::CancelTasks.rank() < Step::AwaitServers.rank(),
        Step::AwaitServers.rank() < Step::AwaitGc.rank(),
        Step::AwaitGc.rank() < Step::AwaitStats.rank(),
        Step::AwaitStats.rank() < Step::AwaitFlush.rank(),
        Step::AwaitFlush.rank() < Step::AwaitTelemetry.rank(),
        Step::AwaitTelemetry.rank() < Step::AwaitDigest.rank(),
        Step::AwaitDigest.rank() < Step::AwaitPrometheus.rank(),
        Step::AwaitPrometheus.rank() < Step::CloseDatabase.rank(),
        Step::CloseDatabase.rank() < Step::FlushAndClose.rank(),
        Step::FlushAndClose.rank() < Step::StopHeartbeat.rank(),
{
}

/// A run begins with its first step, and a step that works is followed by the
/// next one, or by the end where there is none.
pub proof fn runs_go_step_by_step(steps: Seq<Step>, run: Progress)
    requires
        run.end is None,
        0 <= run.at < run.steps.len(),
    ensures
        Progress::start(steps).steps == steps,
        Progress::start(steps).at == 0,
        Progress::start(steps).end is None,
        run.after(StepOutcome::Done).steps == run.steps,
        run.after(StepOutcome::Done).at == run.at + 1,
        run.at + 1 < run.steps.len() ==> run.after(StepOutcome::Done).end is None,
        run.at + 1 == run.steps.len() ==> run.after(StepOutcome::Done).end == Some(
            RunEnd::Finished,
        ),
{
}

/// Which failures end a run: those of the block-device directory, of starting
/// the NFS, 9P or NBD servers, of watching for signals, of the check for
/// servers, of saying that the process is ready, and of closing a database that
/// was read, each with the step that failed; that of the final flush ends the
/// process. After any other the run goes on as if the step had worked.
pub proof fn failures_that_end_a_run(run: Progress)
    requires
        run.end is None,
        0 <= run.at < run.steps.len(),
    ensures
        ({
            let step = run.steps[run.at];
            let failed = run.after(StepOutcome::Failed);
            let told = step == Step::EnsureNbdDirectory || step == Step::StartNfs || step
                == Step::StartNineP || step == Step::StartNbd || step == Step::WatchSignals || step
                == Step::RequireServers || step == Step::NotifyReady || step == Step::CloseDatabase;
            &&& told ==> failed.end == Some(RunEnd::Failed(step)) && failed.at == run.at
            &&& step == Step::FlushAndClose ==> failed.end == Some(RunEnd::Aborted) && failed.at
                == run.at
            &&& !told && step != Step::FlushAndClose ==> failed == run.after(StepOutcome::Done)
        }),
{
}

/// A process is refused exactly where it serves nothing.
pub proof fn one_server_is_enough(started: usize)
    ensures
        servers_check(started) == StepOutcome::Failed <==> started == 0,
        servers_check(started) == StepOutcome::Done <==> started >= 1,
{
}

} // verus!
