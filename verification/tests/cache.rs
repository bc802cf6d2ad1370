use zerofs::cache::{
    build_block_hybrid, build_failure_message, build_parts_hybrid, foyer_build_error,
    has_fd_limit_code, is_fd_exhaustion, parts_engine_knobs, split_disk_budget,
    split_memory_budget, FdLimitCodes,
};

#[test]
fn split_disk_budget_favors_segments() {
    let gib = 1024 * 1024 * 1024;
    // 10% to metadata, the rest to segments.
    assert_eq!(split_disk_budget(100 * gib), (90 * gib, 10 * gib));
    // Metadata capped at 16 GiB on a huge budget; segments get everything else.
    assert_eq!(split_disk_budget(4096 * gib), (4080 * gib, 16 * gib));
    // Tiny budgets still floor each side at 1 GiB.
    assert_eq!(split_disk_budget(gib / 2), (gib, gib));
}

#[test]
fn parts_engine_knobs_scale_with_device() {
    let mib = 1024 * 1024;
    let gib = 1024 * mib;
    let large = parts_engine_knobs(583 * gib);
    assert_eq!(large.flushers, 4);
    assert_eq!(large.clean_block_threshold, 8);
    assert_eq!(large.submit_queue_bytes, gib);
    assert_eq!(large.buffer_pool_bytes, 256 * mib);

    let floor = parts_engine_knobs(gib);
    assert_eq!(floor.flushers, 2);
    assert_eq!(floor.clean_block_threshold, 2);
    assert_eq!(floor.submit_queue_bytes, 256 * mib);
    assert_eq!(floor.buffer_pool_bytes, 128 * mib);

    // Degenerate device (below one block): everything at its floor.
    let tiny = parts_engine_knobs(mib);
    assert_eq!(tiny.flushers, 1);
    assert_eq!(tiny.clean_block_threshold, 1);
    assert_eq!(tiny.submit_queue_bytes, 16 * mib);
    assert_eq!(tiny.buffer_pool_bytes, 64 * mib);
}

#[test]
fn split_memory_budget_favors_segments() {
    let mib = 1024 * 1024;
    let gib = 1024 * mib;
    // 25% to metadata blocks, the rest to segment parts.
    assert_eq!(split_memory_budget(gib), (768 * mib, 256 * mib));
    // Metadata capped at 2 GiB on a huge budget; parts get everything else.
    assert_eq!(split_memory_budget(40 * gib), (38 * gib, 2 * gib));
    // Tiny budgets floor each side at 32 MiB.
    assert_eq!(split_memory_budget(16 * mib), (32 * mib, 32 * mib));
}

#[test]
fn a_split_hands_out_the_whole_budget_from_two_floors_on() {
    let gib: usize = 1024 * 1024 * 1024;
    for total in [2 * gib, 3 * gib, 17 * gib + 5, 250 * gib] {
        let (parts, decoded) = split_disk_budget(total);
        assert_eq!(parts + decoded, total);
        assert!(parts >= decoded);
    }
    let mib: usize = 1024 * 1024;
    for total in [64 * mib, 65 * mib, 9 * gib] {
        let (parts, decoded) = split_memory_budget(total);
        assert_eq!(parts + decoded, total);
        assert!(parts >= decoded);
    }
    assert_eq!(split_disk_budget(0), (gib, gib));
    assert_eq!(split_memory_budget(0), (32 * mib, 32 * mib));
}

#[test]
fn a_larger_budget_never_shrinks_a_side() {
    let mut before = (0, 0);
    for step in 0..200 {
        let split = split_memory_budget(step * 77_777_777);
        assert!(split.0 >= before.0 && split.1 >= before.1);
        before = split;
    }
}

#[test]
fn the_two_disk_caches_are_told_apart() {
    let mib = 1024 * 1024;
    let blocks = build_block_hybrid(64 * mib, 512 * mib);
    assert_eq!(blocks.name, "zerofs-slatedb-hybrid");
    assert_eq!(blocks.directory, "hybrid_cache");
    assert_eq!((blocks.memory_bytes, blocks.disk_bytes), (64 * mib, 512 * mib));
    assert_eq!(blocks.block_size, 64 * mib);
    assert_eq!(blocks.knobs, None);
    assert_eq!(blocks.device_failure, "foyer device build failed");
    assert_eq!(blocks.build_failure, "foyer hybrid build failed");

    let parts = build_parts_hybrid(3 * mib, 1024 * mib);
    assert_eq!(parts.name, "zerofs-object-prefetch-parts");
    assert_eq!(parts.directory, "parts_cache");
    assert_eq!((parts.memory_bytes, parts.disk_bytes), (3 * mib, 1024 * mib));
    assert_eq!(parts.block_size, 64 * mib);
    assert_eq!(parts.knobs, Some(parts_engine_knobs(1024 * mib)));
    assert_eq!(parts.device_failure, "parts foyer device build failed");
    assert_eq!(parts.build_failure, "parts foyer hybrid build failed");
}

/// The operating-system codes along an error's chain of causes.
fn codes(err: &(dyn std::error::Error + 'static)) -> Vec<Option<i32>> {
    let mut chain = Vec::new();
    let mut source = Some(err);
    while let Some(e) = source {
        chain.push(e.downcast_ref::<std::io::Error>().and_then(|io| io.raw_os_error()));
        source = e.source();
    }
    chain
}

// foyer builds the same `I/O error => coding error` wrapping around the os
// error regardless of the build site, so exercise its own From<io::Error>.
fn foyer_os_error(raw: i32) -> foyer::Error {
    std::io::Error::from_raw_os_error(raw).into()
}

#[test]
fn emfile_is_detected_and_hinted() {
    let err = foyer_os_error(libc::EMFILE);
    assert!(is_fd_exhaustion(&codes(&err)));
    let msg = foyer_build_error("foyer hybrid build failed", &err.to_string(), &codes(&err));
    assert!(msg.contains("foyer hybrid build failed"), "lost context: {msg}");
    assert!(msg.contains("ulimit -n"), "missing fd hint: {msg}");
}

#[test]
fn enfile_is_detected() {
    assert!(is_fd_exhaustion(&codes(&foyer_os_error(libc::ENFILE))));
}

#[test]
fn other_io_errors_get_no_hint() {
    let err = foyer_os_error(libc::ENOSPC);
    assert!(!is_fd_exhaustion(&codes(&err)));
    let msg = foyer_build_error("foyer device build failed", &err.to_string(), &codes(&err));
    assert!(!msg.contains("ulimit"), "spurious fd hint: {msg}");
}

#[test]
fn any_link_of_the_chain_can_carry_the_code() {
    let codes = FdLimitCodes { process: 24, system: 23 };
    assert!(!has_fd_limit_code(&vec![], codes));
    assert!(!has_fd_limit_code(&vec![None, None], codes));
    assert!(!has_fd_limit_code(&vec![None, Some(28)], codes));
    assert!(has_fd_limit_code(&vec![None, Some(28), Some(24)], codes));
    assert!(has_fd_limit_code(&vec![Some(23), None], codes));
}

#[test]
fn a_build_failure_keeps_the_error_and_adds_the_hint() {
    assert_eq!(build_failure_message("context", "cause", false), "context: cause");
    assert_eq!(
        build_failure_message("context", "cause", true),
        "context: cause\n\nZeroFS ran out of open file descriptors while building \
         the on-disk cache. Raise the open-file limit (e.g. `ulimit -n 1048576`, or \
         LimitNOFILE= in the systemd unit) and restart."
    );
}
