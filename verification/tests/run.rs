use zerofs::engine::DatabaseMode;
use zerofs::run::{
    ensure_nbd_directory, planned_steps, servers_outcome, FailurePolicy, NewDirectory, Opened,
    RunContext, RunEnd, ServerRun, Step, StepOutcome, NBD_DIRECTORY, NO_SERVERS,
};
use zerofs::settings::{PrometheusConfig, Settings, WarmMetadata};
use zerofs::tuning::{GcConfig, LsmConfig};

const WRITER: Opened = Opened { metrics: true, status: true, webui: false };
const READER: Opened = Opened { metrics: false, status: false, webui: false };

fn writing() -> RunContext {
    RunContext::new(&Settings::generate_default(), DatabaseMode::ReadWrite, WRITER)
}

fn reading() -> RunContext {
    RunContext::new(&Settings::generate_default(), DatabaseMode::ReadOnly, READER)
}

/// Runs to the end, with `failing` as the one step that fails.
fn run(context: &RunContext, failing: Option<Step>) -> (Vec<Step>, RunEnd) {
    let mut run = ServerRun::new(context);
    let mut taken = Vec::new();
    while let Some(step) = run.next_step() {
        assert_eq!(run.end(), None);
        taken.push(step);
        run.complete(if failing == Some(step) { StepOutcome::Failed } else { StepOutcome::Done });
    }
    (taken, run.end().unwrap())
}

#[test]
fn a_writer_takes_every_step_that_is_called_for() {
    let steps = planned_steps(&writing());
    assert_eq!(
        steps,
        vec![
            Step::EnsureNbdDirectory,
            Step::StartTelemetry,
            Step::StartDigest,
            Step::StartNfs,
            Step::StartNineP,
            Step::StartNbd,
            Step::BuildGcAdmin,
            Step::BuildCheckpointManager,
            Step::SealBeforeCheckpoints,
            Step::StartRpc,
            Step::WarmMetadata,
            Step::StartGc,
            Step::StartStats,
            Step::StartFlush,
            Step::WatchSignals,
            Step::RequireServers,
            Step::NotifyReady,
            Step::AwaitSignal,
            Step::CancelTasks,
            Step::AwaitServers,
            Step::AwaitGc,
            Step::AwaitStats,
            Step::AwaitFlush,
            Step::AwaitTelemetry,
            Step::AwaitDigest,
            Step::FlushAndClose,
            Step::StopHeartbeat,
        ]
    );
    assert_eq!(run(&writing(), None), (steps, RunEnd::Finished));
}

#[test]
fn a_reader_writes_nothing() {
    assert_eq!(
        planned_steps(&reading()),
        vec![
            Step::StartTelemetry,
            Step::StartNfs,
            Step::StartNineP,
            Step::StartNbd,
            Step::BuildCheckpointManager,
            Step::StartRpc,
            Step::StartStats,
            Step::WatchSignals,
            Step::RequireServers,
            Step::NotifyReady,
            Step::AwaitSignal,
            Step::CancelTasks,
            Step::AwaitServers,
            Step::AwaitStats,
            Step::AwaitTelemetry,
            Step::CloseDatabase,
            Step::StopHeartbeat,
        ]
    );
}

#[test]
fn settings_and_the_open_database_decide_on_the_rest() {
    let mut settings = Settings::generate_default();
    settings.prometheus =
        Some(PrometheusConfig { addresses: zerofs::address::default_prometheus_addresses() });
    settings.servers.as_mut().unwrap().nbd = None;
    settings.cache.warm_metadata = WarmMetadata::Full;
    settings.lsm = Some(LsmConfig {
        l0_max_ssts: Some(2),
        max_concurrent_compactions: None,
        flush_interval_secs: Some(1),
        sync_writes: None,
        wal_enabled: None,
        max_unflushed_bytes: None,
    });
    settings.gc = Some(GcConfig { interval_secs: Some(90), ..GcConfig::default() });
    let context = RunContext::new(&settings, DatabaseMode::ReadWrite, WRITER);
    assert!(context.prometheus && context.digest && context.warm && context.warm_data);
    assert!(!context.nbd);
    assert_eq!(context.l0_max_ssts, 4);
    assert_eq!(context.flush_interval_secs, 5);
    assert_eq!(context.gc.interval_secs(), 90);
    let steps = planned_steps(&context);
    assert!(steps.contains(&Step::StartPrometheus) && steps.contains(&Step::AwaitPrometheus));
    assert!(!steps.contains(&Step::EnsureNbdDirectory));

    settings.cache.warm_metadata = WarmMetadata::Off;
    settings.lsm = None;
    settings.gc = None;
    let half = Opened { metrics: true, status: false, webui: false };
    let context = RunContext::new(&settings, DatabaseMode::ReadWrite, half);
    assert!(!context.digest && !context.warm && !context.warm_data);
    assert_eq!(context.l0_max_ssts, 256);
    assert_eq!(context.flush_interval_secs, 30);
    assert_eq!(context.gc.interval_secs(), 60);

    settings.cache.warm_metadata = WarmMetadata::FiltersIndex;
    assert!(!RunContext::new(&settings, DatabaseMode::ReadWrite, half).warm);
    let context = RunContext::new(&settings, DatabaseMode::ReadWrite, WRITER);
    assert!(context.warm && !context.warm_data);

    settings.servers = None;
    assert!(!RunContext::new(&settings, DatabaseMode::ReadWrite, WRITER).nbd);
}

#[test]
fn a_failed_step_means_what_its_policy_says() {
    for step in planned_steps(&writing()) {
        let (taken, end) = run(&writing(), Some(step));
        match step.on_failure() {
            FailurePolicy::Ignore => {
                assert_eq!(end, RunEnd::Finished);
                assert_eq!(taken, planned_steps(&writing()));
            }
            FailurePolicy::Report => {
                assert_eq!(end, RunEnd::Failed(step));
                assert_eq!(taken.last(), Some(&step));
            }
            FailurePolicy::Exit => {
                assert_eq!(step, Step::FlushAndClose);
                assert_eq!(end, RunEnd::Aborted);
                assert!(!taken.contains(&Step::StopHeartbeat));
                assert!(!taken.contains(&Step::CloseDatabase));
            }
        }
    }
    let (taken, end) = run(&reading(), Some(Step::CloseDatabase));
    assert_eq!(end, RunEnd::Failed(Step::CloseDatabase));
    assert!(!taken.contains(&Step::StopHeartbeat));
}

#[test]
fn a_process_that_serves_nothing_is_refused() {
    assert_eq!(servers_outcome(0), StepOutcome::Failed);
    assert_eq!(servers_outcome(1), StepOutcome::Done);
    let (taken, end) = run(&writing(), Some(Step::RequireServers));
    assert_eq!(end, RunEnd::Failed(Step::RequireServers));
    assert!(!taken.contains(&Step::NotifyReady));
    assert_eq!(
        NO_SERVERS,
        "No servers configured. At least one server (NFS, 9P, NBD, or RPC) must be enabled."
    );
}

#[test]
fn a_run_that_has_ended_stays_as_it_is() {
    let mut run = ServerRun::new(&reading());
    while run.next_step().is_some() {
        run.complete(StepOutcome::Done);
    }
    run.complete(StepOutcome::Failed);
    assert_eq!(run.end(), Some(RunEnd::Finished));
    assert_eq!(run.next_step(), None);
}

#[test]
fn the_device_directory_is_created_once() {
    assert_eq!(NBD_DIRECTORY, ".nbd");
    assert_eq!(ensure_nbd_directory(true), None);
    assert_eq!(
        ensure_nbd_directory(false),
        Some(NewDirectory { mode: 0o755, uid: 0, gid: 0 })
    );
}

#[test]
fn every_task_is_stopped_and_awaited_before_the_database_closes() {
    let steps = planned_steps(&writing());
    let place = |step| steps.iter().position(|s| *s == step).unwrap();
    for (start, wait) in [
        (Step::StartTelemetry, Step::AwaitTelemetry),
        (Step::StartDigest, Step::AwaitDigest),
        (Step::StartNfs, Step::AwaitServers),
        (Step::StartRpc, Step::AwaitServers),
        (Step::StartGc, Step::AwaitGc),
        (Step::StartStats, Step::AwaitStats),
        (Step::StartFlush, Step::AwaitFlush),
    ] {
        assert!(place(start) < place(Step::CancelTasks));
        assert!(place(Step::CancelTasks) < place(wait));
        assert!(place(wait) < place(Step::FlushAndClose));
    }
    assert!(place(Step::SealBeforeCheckpoints) < place(Step::StartRpc));
}

#[test]
fn a_web_interface_is_started_where_it_is_built_in_and_configured() {
    let mut settings = Settings::generate_default();
    let opened = Opened { metrics: true, status: true, webui: true };
    let context = RunContext::new(&settings, DatabaseMode::ReadWrite, opened);
    assert!(context.webui);
    let steps = planned_steps(&context);
    let place = |step| steps.iter().position(|s| *s == step).unwrap();
    assert!(place(Step::WatchSignals) < place(Step::StartWebUi));
    assert!(place(Step::StartWebUi) < place(Step::RequireServers));
    assert!(place(Step::SealBeforeCheckpoints) < place(Step::StartWebUi));
    assert_eq!(run(&context, None).1, RunEnd::Finished);
    assert!(!writing().webui);
    settings.servers.as_mut().unwrap().webui = None;
    assert!(!RunContext::new(&settings, DatabaseMode::ReadWrite, opened).webui);
}
