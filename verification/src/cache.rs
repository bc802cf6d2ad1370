//! Cache budgets and the knobs of the on-disk cache engine.

use vstd::prelude::*;
use vstd::string::*;

verus! {

/// Block size of the parts disk cache: the eviction/reclaim unit, and the
/// maximum size of an entry that can be cached.
pub const PARTS_BLOCK_SIZE: usize = 64 * 1024 * 1024;

/// Disk floor per side: 1 GiB.
pub const MIN_DISK_BYTES: usize = 1024 * 1024 * 1024;

/// Disk ceiling of the decoded-blocks side: 16 GiB.
pub const MAX_META_DISK_BYTES: u64 = 16 * 1024 * 1024 * 1024;

/// Memory floor per side: 32 MiB.
pub const MIN_MEMORY_BYTES: usize = 32 * 1024 * 1024;

/// Memory ceiling of the decoded-blocks side: 2 GiB.
pub const MAX_META_MEMORY_BYTES: usize = 2 * 1024 * 1024 * 1024;

/// Floor of the bytes that may wait to be written: 16 MiB.
pub const MIN_SUBMIT_QUEUE_BYTES: usize = 16 * 1024 * 1024;

/// Ceiling of the bytes that may wait to be written: 1 GiB.
pub const MAX_SUBMIT_QUEUE_BYTES: usize = 1024 * 1024 * 1024;

/// Disk-engine knobs for the parts cache, scaled to the device.
#[derive(Debug, Clone, Copy, PartialEq, Eq, Structural)]
pub struct PartsEngineKnobs {
    /// Flusher (and reclaimer) tasks.
    pub flushers: usize,
    /// Clean blocks to keep ready.
    pub clean_block_threshold: usize,
    /// Bytes that may wait to be written.
    pub submit_queue_bytes: usize,
    /// Bytes of write buffers.
    pub buffer_pool_bytes: usize,
}

/// `value` held to `[low, high]`.
pub open spec fn held(value: int, low: int, high: int) -> int {
    if value < low {
        low
    } else if value > high {
        high
    } else {
        value
    }
}

fn hold(value: usize, low: usize, high: usize) -> (v: usize)
    requires
        low <= high,
    ensures
        v == held(value as int, low as int, high as int),
{
    if value < low {
        low
    } else if value > high {
        high
    } else {
        value
    }
}

/// What the knobs are for a device of `disk_bytes`: tasks, clean blocks and
/// queue grow with the device, each within its range. A block is 64 MiB.
pub open spec fn are_knobs_for(knobs: PartsEngineKnobs, disk_bytes: usize) -> bool {
    let blocks = disk_bytes as int / 0x400_0000;
    &&& knobs.flushers == held(blocks / 8, 1, 4)
    &&& knobs.clean_block_threshold == held(blocks / 64, knobs.flushers as int, 8)
    &&& knobs.submit_queue_bytes == held(
        disk_bytes as int / 4,
        MIN_SUBMIT_QUEUE_BYTES as int,
        MAX_SUBMIT_QUEUE_BYTES as int,
    )
    &&& knobs.buffer_pool_bytes == knobs.flushers * 0x400_0000
}

/// The knobs for a device of `disk_bytes`.
pub fn parts_engine_knobs(disk_bytes: usize) -> (knobs: PartsEngineKnobs)
    ensures
        are_knobs_for(knobs, disk_bytes),
{
    let blocks: usize = disk_bytes / PARTS_BLOCK_SIZE;
    let flushers: usize = hold(blocks / 8, 1, 4);
    assert(PARTS_BLOCK_SIZE == 0x400_0000);
    assert(blocks == disk_bytes as int / 0x400_0000) by (nonlinear_arith)
        requires
            blocks == disk_bytes as int / PARTS_BLOCK_SIZE as int,
            PARTS_BLOCK_SIZE == 0x400_0000,
    ;
    assert(flushers * PARTS_BLOCK_SIZE == flushers * 0x400_0000) by (nonlinear_arith)
        requires
            PARTS_BLOCK_SIZE == 0x400_0000,
    ;
    PartsEngineKnobs {
        flushers,
        clean_block_threshold: hold(blocks / 64, flushers, 8),
        submit_queue_bytes: hold(
            disk_bytes / 4,
            MIN_SUBMIT_QUEUE_BYTES,
            MAX_SUBMIT_QUEUE_BYTES,
        ),
        buffer_pool_bytes: flushers * PARTS_BLOCK_SIZE,
    }
}

/// How one of the two on-disk caches is built.
#[derive(Debug, Clone, Copy)]
pub struct DiskCachePlan {
    /// Its name.
    pub name: &'static str,
    /// The directory it lives in, under the cache directory.
    pub directory: &'static str,
    /// Memory budget.
    pub memory_bytes: usize,
    /// Disk budget.
    pub disk_bytes: usize,
    /// Block size of the disk engine.
    pub block_size: usize,
    /// Knobs of the disk engine, where they are not left to the engine.
    pub knobs: Option<PartsEngineKnobs>,
    /// What a failure to set up its device is introduced with.
    pub device_failure: &'static str,
    /// What a failure to build it is introduced with.
    pub build_failure: &'static str,
}

/// How the cache of decoded blocks is built, for its budgets.
pub fn build_block_hybrid(memory_bytes: usize, disk_bytes: usize) -> (plan: DiskCachePlan)
    ensures
        plan.name@ == "zerofs-slatedb-hybrid"@,
        plan.directory@ == "hybrid_cache"@,
        plan.memory_bytes == memory_bytes,
        plan.disk_bytes == disk_bytes,
        plan.block_size == PARTS_BLOCK_SIZE,
        plan.knobs is None,
        plan.device_failure@ == "foyer device build failed"@,
        plan.build_failure@ == "foyer hybrid build failed"@,
{
    DiskCachePlan {
        name: "zerofs-slatedb-hybrid",
        directory: "hybrid_cache",
        memory_bytes,
        disk_bytes,
        block_size: PARTS_BLOCK_SIZE,
        knobs: None,
        device_failure: "foyer device build failed",
        build_failure: "foyer hybrid build failed",
    }
}

/// How the cache of raw parts is built, for its budgets: its engine is scaled
/// to the device.
pub fn build_parts_hybrid(memory_bytes: usize, disk_bytes: usize) -> (plan: DiskCachePlan)
    ensures
        plan.name@ == "zerofs-object-prefetch-parts"@,
        plan.directory@ == "parts_cache"@,
        plan.memory_bytes == memory_bytes,
        plan.disk_bytes == disk_bytes,
        plan.block_size == PARTS_BLOCK_SIZE,
        plan.knobs is Some,
        are_knobs_for(plan.knobs->0, disk_bytes),
        plan.device_failure@ == "parts foyer device build failed"@,
        plan.build_failure@ == "parts foyer hybrid build failed"@,
{
    DiskCachePlan {
        name: "zerofs-object-prefetch-parts",
        directory: "parts_cache",
        memory_bytes,
        disk_bytes,
        block_size: PARTS_BLOCK_SIZE,
        knobs: Some(parts_engine_knobs(disk_bytes)),
        device_failure: "parts foyer device build failed",
        build_failure: "parts foyer hybrid build failed",
    }
}

/// The decoded-blocks side of a budget: a `share`th of it, between the floor
/// and the ceiling.
pub open spec fn meta_side(total: int, share: int, floor: int, ceiling: int) -> int {
    held(total / share, floor, ceiling)
}

/// The parts side of a budget: what the decoded-blocks side leaves, but no
/// less than the floor.
pub open spec fn parts_side(total: int, meta: int, floor: int) -> int {
    if total - meta < floor {
        floor
    } else {
        total - meta
    }
}

/// The ceiling of the decoded-blocks side on disk, as far as this machine can
/// address it.
pub open spec fn max_meta_disk() -> int {
    if MAX_META_DISK_BYTES <= usize::MAX {
        MAX_META_DISK_BYTES as int
    } else {
        usize::MAX as int
    }
}

/// The two sides of a disk budget: parts, and a tenth for decoded blocks.
pub open spec fn disk_split(total: int) -> (int, int) {
    let meta = meta_side(total, 10, MIN_DISK_BYTES as int, max_meta_disk());
    (parts_side(total, meta, MIN_DISK_BYTES as int), meta)
}

/// The two sides of a memory budget: parts, and a quarter for decoded blocks.
pub open spec fn memory_split(total: int) -> (int, int) {
    let meta = meta_side(total, 4, MIN_MEMORY_BYTES as int, MAX_META_MEMORY_BYTES as int);
    (parts_side(total, meta, MIN_MEMORY_BYTES as int), meta)
}

/// Splits the configured disk-cache total into
/// (parts_disk_bytes, decoded_blocks_disk_bytes).
///
/// The decoded-blocks side holds only metadata, a small working set that the
/// raw-parts cache backs anyway, so it gets a bounded slice; the parts cache,
/// where the bulk segment bytes live, gets the rest. Floors keep either side
/// from collapsing on a tiny configuration.
pub fn split_disk_budget(total_disk_bytes: usize) -> (split: (usize, usize))
    ensures
        (split.0 as int, split.1 as int) == disk_split(total_disk_bytes as int),
{
    let max_meta: usize = if MAX_META_DISK_BYTES <= usize::MAX as u64 {
        MAX_META_DISK_BYTES as usize
    } else {
        usize::MAX
    };
    let decoded: usize = hold(total_disk_bytes / 10, MIN_DISK_BYTES, max_meta);
    let left: usize = total_disk_bytes.saturating_sub(decoded);
    let parts: usize = if left < MIN_DISK_BYTES {
        MIN_DISK_BYTES
    } else {
        left
    };
    (parts, decoded)
}

/// Splits the configured memory-cache total into (parts_memory_bytes,
/// decoded_blocks_memory_bytes): the same data-favored split, with
/// memory-scale floors so a small default still splits.
pub fn split_memory_budget(total_memory_bytes: usize) -> (split: (usize, usize))
    ensures
        (split.0 as int, split.1 as int) == memory_split(total_memory_bytes as int),
{
    let decoded: usize = hold(total_memory_bytes / 4, MIN_MEMORY_BYTES, MAX_META_MEMORY_BYTES);
    let left: usize = total_memory_bytes.saturating_sub(decoded);
    let parts: usize = if left < MIN_MEMORY_BYTES {
        MIN_MEMORY_BYTES
    } else {
        left
    };
    (parts, decoded)
}

/// The two operating-system codes that stand for "no more open files": for the
/// process, and for the whole system.
#[derive(Debug, Clone, Copy, PartialEq, Eq, Structural)]
pub struct FdLimitCodes {
    /// `EMFILE`.
    pub process: i32,
    /// `ENFILE`.
    pub system: i32,
}

/// The constants [`libc::EMFILE`] and [`libc::ENFILE`]. Their values are the
/// machine's; on every one they are errors, and two different ones.
#[verifier::external_body]
fn fd_limit_codes() -> (codes: FdLimitCodes)
    ensures
        codes.process != 0,
        codes.system != 0,
        codes.process != codes.system,
{
    FdLimitCodes { process: libc::EMFILE, system: libc::ENFILE }
}

/// `codes` are the two codes that this machine has.
pub closed spec fn machine_codes(codes: FdLimitCodes) -> bool {
    call_ensures(crate::cache::fd_limit_codes, (), codes)
}

/// Whether an error somewhere in a chain of causes carries one of two codes.
pub open spec fn chain_has_code(chain: Seq<Option<i32>>, codes: FdLimitCodes) -> bool {
    exists|i: int|
        0 <= i < chain.len() && (#[trigger] chain[i] == Some(codes.process) || chain[i] == Some(
            codes.system,
        ))
}

/// Whether an error somewhere in a chain of causes carries one of two codes;
/// `chain` holds the operating-system code of each error, where it has one.
pub fn has_fd_limit_code(chain: &Vec<Option<i32>>, codes: FdLimitCodes) -> (found: bool)
    ensures
        found == chain_has_code(chain@, codes),
{
    let mut i: usize = 0;
    while i < chain.len()
        invariant
            i <= chain@.len(),
            forall|j: int|
                0 <= j < i ==> #[trigger] chain@[j] != Some(codes.process) && chain@[j] != Some(
                    codes.system,
                ),
        decreases chain@.len() - i,
    {
        if let Some(code) = chain[i] {
            if code == codes.process || code == codes.system {
                assert(chain@[i as int] == Some(code));
                return true;
            }
        }
        i += 1;
    }
    false
}

/// Whether a failure comes from running out of open file descriptors, told by
/// the machine's codes in its chain of causes rather than by the message text.
pub fn is_fd_exhaustion(chain: &Vec<Option<i32>>) -> (exhausted: bool)
    ensures
        exists|codes: FdLimitCodes|
            machine_codes(codes) && exhausted == #[trigger] chain_has_code(chain@, codes),
{
    let codes = fd_limit_codes();
    has_fd_limit_code(chain, codes)
}

/// What a cache build failure says.
pub open spec fn build_failure_text(
    context: Seq<char>,
    error: Seq<char>,
    exhausted: bool,
) -> Seq<char> {
    let plain = context + ": "@ + error;
    if exhausted {
        plain + FD_LIMIT_HINT@
    } else {
        plain
    }
}

/// The hint that a failure for want of file descriptors comes with.
pub const FD_LIMIT_HINT: &'static str = "\n\nZeroFS ran out of open file descriptors while building the on-disk cache. Raise the open-file limit (e.g. `ulimit -n 1048576`, or LimitNOFILE= in the systemd unit) and restart.";

/// What a cache build failure says, with a hint where file descriptors ran out.
pub fn build_failure_message(context: &str, error: &str, exhausted: bool) -> (s: String)
    ensures
        s@ == build_failure_text(context@, error@, exhausted),
{
    let mut s = context.to_owned();
    s.append(": ");
    s.append(error);
    if exhausted {
        s.append(FD_LIMIT_HINT);
    }
    s
}

/// What a cache build failure says: the real error stays visible, and a hint
/// is added when the cause is fd exhaustion.
pub fn foyer_build_error(context: &str, error: &str, chain: &Vec<Option<i32>>) -> (s: String)
    ensures
        exists|codes: FdLimitCodes|
            machine_codes(codes) && s@ == build_failure_text(
                context@,
                error@,
                #[trigger] chain_has_code(chain@, codes),
            ),
{
    let exhausted = is_fd_exhaustion(chain);
    build_failure_message(context, error, exhausted)
}

/// A chain without operating-system codes is never taken for fd exhaustion,
/// whatever the machine's codes are.
pub proof fn no_code_no_exhaustion(chain: Seq<Option<i32>>, codes: FdLimitCodes)
    requires
        forall|i: int| 0 <= i < chain.len() ==> (#[trigger] chain[i]) is None,
    ensures
        !chain_has_code(chain, codes),
{
}

/// What every split keeps, whatever the total: neither side collapses, the
/// decoded-blocks side stays under its ceiling, the parts side is never the
/// smaller one, and nothing is given out beyond the total but the two floors.
pub proof fn split_favors_parts(total: int, share: int, floor: int, ceiling: int)
    requires
        0 <= total,
        2 <= share,
        0 < floor <= ceiling,
    ensures
        ({
            let meta = meta_side(total, share, floor, ceiling);
            let parts = parts_side(total, meta, floor);
            &&& floor <= meta <= ceiling
            &&& floor <= parts
            &&& meta <= parts
            &&& 2 * floor <= total ==> parts + meta == total
            &&& total < 2 * floor ==> parts == floor && meta == floor
        }),
{
    assert(2 * (total / share) <= total) by (nonlinear_arith)
        requires
            0 <= total,
            2 <= share,
    ;
}

/// A larger total never gives either side less.
pub proof fn split_grows_with_the_total(a: int, b: int, share: int, floor: int, ceiling: int)
    requires
        0 <= a <= b,
        2 <= share,
        0 < floor <= ceiling,
    ensures
        meta_side(a, share, floor, ceiling) <= meta_side(b, share, floor, ceiling),
        parts_side(a, meta_side(a, share, floor, ceiling), floor) <= parts_side(
            b,
            meta_side(b, share, floor, ceiling),
            floor,
        ),
{
    assert(a / share <= b / share && b / share - a / share <= b - a) by (nonlinear_arith)
        requires
            0 <= a <= b,
            2 <= share,
    ;
}

/// Whatever the device, there are enough clean blocks for every flusher, and
/// every flusher has a buffer of one block.
pub proof fn knobs_serve_every_flusher(knobs: PartsEngineKnobs, disk_bytes: usize)
    requires
        are_knobs_for(knobs, disk_bytes),
    ensures
        1 <= knobs.flushers <= 4,
        knobs.flushers <= knobs.clean_block_threshold <= 8,
        MIN_SUBMIT_QUEUE_BYTES <= knobs.submit_queue_bytes <= MAX_SUBMIT_QUEUE_BYTES,
        knobs.buffer_pool_bytes == knobs.flushers * 0x400_0000,
{
}

/// A build failure always shows the real error first; the hint follows it
/// exactly where file descriptors ran out.
pub proof fn the_error_stays_visible(context: Seq<char>, error: Seq<char>, exhausted: bool)
    ensures
        (context + ": "@ + error).is_prefix_of(build_failure_text(context, error, exhausted)),
        build_failure_text(context, error, exhausted) == context + ": "@ + error <==> !exhausted,
        exhausted ==> FD_LIMIT_HINT@.is_suffix_of(build_failure_text(context, error, exhausted)),
        exhausted ==> build_failure_text(context, error, exhausted).len() == (context + ": "@
            + error).len() + FD_LIMIT_HINT@.len(),
{
    let plain = context + ": "@ + error;
    let text = build_failure_text(context, error, exhausted);
    reveal_strlit(
        "\n\nZeroFS ran out of open file descriptors while building the on-disk cache. Raise the open-file limit (e.g. `ulimit -n 1048576`, or LimitNOFILE= in the systemd unit) and restart.",
    );
    assert(FD_LIMIT_HINT@.len() > 0);
    assert(plain =~= text.subrange(0, plain.len() as int));
    if exhausted {
        assert(text.len() == plain.len() + FD_LIMIT_HINT@.len());
        assert(FD_LIMIT_HINT@ =~= text.subrange(
            text.len() - FD_LIMIT_HINT@.len(),
            text.len() as int,
        ));
    }
}

/// A disk budget: each side has at least 1 GiB; from 2 GiB on the two sides
/// make up the total; the decoded-blocks side is a tenth of it, rounded down,
/// from 10 GiB to 160 GiB, and no more than 16 GiB.
pub proof fn a_disk_budget_is_split_nine_to_one(total: int)
    requires
        0 <= total <= usize::MAX,
    ensures
        ({
            let gib = 1024 * 1024 * 1024;
            let (parts, decoded) = disk_split(total);
            &&& gib <= decoded <= 16 * gib
            &&& gib <= parts
            &&& decoded <= parts
            &&& total >= 2 * gib ==> parts + decoded == total
            &&& total < 2 * gib ==> parts == gib && decoded == gib
            &&& total <= 10 * gib ==> decoded == gib
            &&& 10 * gib <= total <= 160 * gib ==> 10 * decoded <= total < 10 * decoded + 10
            &&& total >= 160 * gib ==> decoded == 16 * gib
        }),
{
}

/// A memory budget: each side has at least 32 MiB; from 64 MiB on the two sides
/// make up the total; the decoded-blocks side is a quarter of it, rounded down,
/// from 128 MiB to 8 GiB, and no more than 2 GiB.
pub proof fn a_memory_budget_is_split_three_to_one(total: int)
    requires
        0 <= total,
    ensures
        ({
            let mib = 1024 * 1024;
            let (parts, decoded) = memory_split(total);
            &&& 32 * mib <= decoded <= 2048 * mib
            &&& 32 * mib <= parts
            &&& decoded <= parts
            &&& total >= 64 * mib ==> parts + decoded == total
            &&& total < 64 * mib ==> parts == 32 * mib && decoded == 32 * mib
            &&& total <= 128 * mib ==> decoded == 32 * mib
            &&& 128 * mib <= total <= 8192 * mib ==> 4 * decoded <= total < 4 * decoded + 4
            &&& total >= 8192 * mib ==> decoded == 2048 * mib
        }),
{
}

/// How the knobs follow the device, in blocks of 64 MiB: a flusher for every 8
/// whole blocks, from 1 to 4; a clean block for every 64, up to 8 and no fewer
/// than there are flushers; a queue of a quarter of the device, from 16 MiB to
/// 1 GiB; and a block of buffer for every flusher.
pub proof fn knobs_follow_the_device(knobs: PartsEngineKnobs, disk_bytes: usize, blocks: int)
    requires
        are_knobs_for(knobs, disk_bytes),
        blocks * 67_108_864 <= disk_bytes < (blocks + 1) * 67_108_864,
    ensures
        blocks < 16 ==> knobs.flushers == 1,
        16 <= blocks < 24 ==> knobs.flushers == 2,
        24 <= blocks < 32 ==> knobs.flushers == 3,
        blocks >= 32 ==> knobs.flushers == 4,
        blocks >= 512 ==> knobs.clean_block_threshold == 8,
        256 <= blocks < 512 ==> 64 * knobs.clean_block_threshold <= blocks < 64
            * knobs.clean_block_threshold + 64,
        blocks < 256 ==> knobs.clean_block_threshold == knobs.flushers,
        disk_bytes <= 67_108_864 ==> knobs.submit_queue_bytes == 16_777_216,
        67_108_864 <= disk_bytes <= 4_294_967_295 ==> 4 * knobs.submit_queue_bytes <= disk_bytes < 4
            * knobs.submit_queue_bytes + 4,
        disk_bytes > 4_294_967_295 ==> knobs.submit_queue_bytes == 1_073_741_824,
        knobs.buffer_pool_bytes == 67_108_864 * knobs.flushers,
{
    assert(disk_bytes as int / 0x400_0000 == blocks);
}

/// A code is found in a chain exactly where it is found in a part of it, and in
/// a single error exactly where it is the error's own.
pub proof fn codes_are_found_wherever_they_stand(
    a: Seq<Option<i32>>,
    b: Seq<Option<i32>>,
    error: Option<i32>,
    codes: FdLimitCodes,
)
    ensures
        chain_has_code(a + b, codes) <==> chain_has_code(a, codes) || chain_has_code(b, codes),
        chain_has_code(seq![error], codes) <==> error == Some(codes.process) || error == Some(
            codes.system,
        ),
        !chain_has_code(Seq::empty(), codes),
{
    let whole = a + b;
    if chain_has_code(a, codes) {
        let k = choose|k: int|
            0 <= k < a.len() && (#[trigger] a[k] == Some(codes.process) || a[k] == Some(
                codes.system,
            ));
        assert(whole[k] == a[k]);
    }
    if chain_has_code(b, codes) {
        let k = choose|k: int|
            0 <= k < b.len() && (#[trigger] b[k] == Some(codes.process) || b[k] == Some(
                codes.system,
            ));
        assert(whole[a.len() + k] == b[k]);
    }
    if chain_has_code(whole, codes) {
        let k = choose|k: int|
            0 <= k < whole.len() && (#[trigger] whole[k] == Some(codes.process) || whole[k] == Some(
                codes.system,
            ));
        if k < a.len() {
            assert(a[k] == whole[k]);
        } else {
            assert(b[k - a.len()] == whole[k]);
        }
    }
    assert(seq![error][0] == error);
}

} // verus!
