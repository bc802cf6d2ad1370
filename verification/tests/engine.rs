use uuid::Uuid;
use zerofs::engine::{
    build_slatedb, checkpoint_not_found, effective_l0_max_ssts,
    effective_max_concurrent_compactions, find_checkpoint, needs_prefix, requested_mode,
    CheckpointInfo, DatabaseMode, ModeRequest, OpenError, ReplicaIdentity, MODE_CONFLICT,
};
use zerofs::tuning::LsmConfig;

fn lsm(l0_max_ssts: usize, max_concurrent_compactions: usize) -> LsmConfig {
    LsmConfig {
        l0_max_ssts: Some(l0_max_ssts),
        max_concurrent_compactions: Some(max_concurrent_compactions),
        flush_interval_secs: None,
        sync_writes: None,
        wal_enabled: Some(true),
        max_unflushed_bytes: None,
    }
}

fn replica(is_leader: bool) -> Option<ReplicaIdentity> {
    Some(ReplicaIdentity { node_id: "node-a".to_string(), is_leader })
}

#[test]
fn everything_but_read_write_is_read_only() {
    assert!(!DatabaseMode::ReadWrite.is_read_only());
    assert!(DatabaseMode::ReadOnly.is_read_only());
    assert!(DatabaseMode::Checkpoint(Uuid::from_u128(7)).is_read_only());
}

#[test]
fn the_two_flags_exclude_each_other() {
    let name = Some("nightly".to_string());
    assert!(matches!(requested_mode(false, &None), ModeRequest::ReadWrite));
    assert!(matches!(requested_mode(true, &None), ModeRequest::ReadOnly));
    assert!(matches!(
        requested_mode(false, &name),
        ModeRequest::Checkpoint { name } if name == "nightly"
    ));
    assert!(matches!(requested_mode(true, &name), ModeRequest::Conflict));
    assert_eq!(MODE_CONFLICT, "Cannot specify both --read-only and --checkpoint flags");
}

#[test]
fn a_checkpoint_is_found_by_its_name() {
    let info = |id: u128, name: Option<&str>| CheckpointInfo {
        id: Uuid::from_u128(id),
        name: name.map(String::from),
    };
    let list = vec![info(1, None), info(2, Some("a")), info(3, Some("b")), info(4, Some("b"))];
    assert_eq!(find_checkpoint(&list, "a"), Some(Uuid::from_u128(2)));
    assert_eq!(find_checkpoint(&list, "b"), Some(Uuid::from_u128(3)));
    assert_eq!(find_checkpoint(&list, "c"), None);
    assert_eq!(find_checkpoint(&list, ""), None);
    assert_eq!(checkpoint_not_found("c"), "Checkpoint 'c' not found");
}

#[test]
fn a_store_is_prefixed_where_its_url_has_a_path() {
    assert!(!needs_prefix(""));
    assert!(needs_prefix("wal"));
}

#[test]
fn a_writer_gets_a_compactor_and_metrics() {
    let plan =
        build_slatedb(100_000_000_000, Some(1_000_000_000), &None, DatabaseMode::ReadWrite, &None)
            .unwrap();
    assert!(!plan.mode.is_read_only());
    assert_eq!(plan.decoded_disk_bytes, 10_000_000_000);
    assert_eq!(plan.parts_disk_bytes, 90_000_000_000);
    assert_eq!(plan.decoded_memory_bytes, 250_000_000);
    assert_eq!(plan.parts_memory_bytes, 750_000_000);
    assert!(plan.maintained);
    let engine = plan.engine;
    assert!(!engine.wal_enabled);
    assert_eq!((engine.l0_max_ssts, engine.l0_max_ssts_per_key), (256, 256));
    assert_eq!(engine.l0_sst_size_bytes, usize::MAX);
    assert_eq!(engine.flush_interval_secs, None);
    assert_eq!(engine.manifest_poll_secs, 5);
    assert_eq!(engine.max_unflushed_bytes, 1024 * 1024 * 1024);
    assert_eq!(engine.l0_flush_parallelism, 16);
    assert_eq!(engine.min_filter_keys, 10);
    assert_eq!((engine.gc_interval_secs, engine.gc_min_age_secs), (60, 60));
    let compactor = plan.compactor.unwrap();
    assert_eq!((compactor.poll_secs, compactor.commit_secs), (5, 5));
    assert_eq!(compactor.max_concurrent_compactions, 2);
    assert_eq!(compactor.max_compaction_sources, 16);
    assert_eq!(compactor.max_sst_size, 256 * 1024 * 1024);
    assert_eq!(compactor.max_fetch_tasks, 2);
    assert_eq!(compactor.bytes_to_fetch, 8 * 1024 * 1024);
    assert_eq!(compactor.max_subcompactions, 2);
}

#[test]
fn a_reader_gets_neither() {
    for mode in [DatabaseMode::ReadOnly, DatabaseMode::Checkpoint(Uuid::from_u128(9))] {
        let plan = build_slatedb(0, None, &Some(lsm(8, 3)), mode, &None).unwrap();
        assert!(plan.compactor.is_none());
        assert!(!plan.maintained);
        assert_eq!(plan.engine.l0_max_ssts, 8);
        // Where no memory cache is configured there is a quarter of a gigabyte.
        assert_eq!(plan.decoded_memory_bytes, 62_500_000);
        assert_eq!(plan.parts_memory_bytes, 187_500_000);
    }
}

#[test]
fn tuning_is_held_to_its_floors() {
    assert_eq!(effective_l0_max_ssts(&None), 256);
    assert_eq!(effective_l0_max_ssts(&Some(lsm(1, 0))), 4);
    assert_eq!(effective_max_concurrent_compactions(&None), 2);
    assert_eq!(effective_max_concurrent_compactions(&Some(lsm(1, 0))), 1);
}

#[test]
fn a_replicated_node_opens_only_as_leading_writer() {
    let open = |mode, replica: &Option<ReplicaIdentity>| {
        build_slatedb(10_000_000_000, None, &None, mode, replica)
    };
    assert!(open(DatabaseMode::ReadWrite, &replica(true)).is_ok());
    let err = open(DatabaseMode::ReadOnly, &replica(true)).unwrap_err();
    assert!(matches!(err, OpenError::NotAWriter { .. }));
    assert_eq!(
        err.message(),
        "[replication] is incompatible with read-only / checkpoint database modes; \
         node node-a must open the data database as a writer"
    );
    let err = open(DatabaseMode::ReadWrite, &replica(false)).unwrap_err();
    assert!(matches!(err, OpenError::NotPromoted { .. }));
    assert_eq!(
        err.message(),
        "internal error: build_slatedb reached as a standby (node node-a); a standby must \
         complete failover and be promoted to leader before opening the data database"
    );
    // The mode is looked at first.
    assert!(matches!(
        open(DatabaseMode::ReadOnly, &replica(false)).unwrap_err(),
        OpenError::NotAWriter { .. }
    ));
}
