//! Tuning of the LSM engine and of segment garbage collection: every knob is
//! optional, has a default, and is held to its range.

use vstd::prelude::*;
use vstd::string::*;

verus! {

/// The value of an optional setting.
pub open spec fn set_or(value: Option<u64>, default: u64) -> u64 {
    match value {
        Some(v) => v,
        None => default,
    }
}

/// The value of an optional count.
pub open spec fn count_or(value: Option<usize>, default: usize) -> usize {
    match value {
        Some(v) => v,
        None => default,
    }
}

/// `value`, but no less than `low`.
pub open spec fn at_least(value: u64, low: u64) -> u64 {
    if value < low {
        low
    } else {
        value
    }
}

/// `value`, but no more than `high`.
pub open spec fn at_most(value: u64, high: u64) -> u64 {
    if value > high {
        high
    } else {
        value
    }
}

/// `value`, but no less than `low`.
pub open spec fn count_at_least(value: usize, low: usize) -> usize {
    if value < low {
        low
    } else {
        value
    }
}

fn clamp_low(value: u64, low: u64) -> (v: u64)
    ensures
        v == at_least(value, low),
{
    if value < low {
        low
    } else {
        value
    }
}

fn clamp_high(value: u64, high: u64) -> (v: u64)
    ensures
        v == at_most(value, high),
{
    if value > high {
        high
    } else {
        value
    }
}

fn clamp_count_low(value: usize, low: usize) -> (v: usize)
    ensures
        v == count_at_least(value, low),
{
    if value < low {
        low
    } else {
        value
    }
}

/// LSM engine tuning.
#[derive(Debug, Clone, Copy)]
pub struct LsmConfig {
    /// Maximum number of SST files in level 0 before triggering compaction.
    pub l0_max_ssts: Option<usize>,
    /// Maximum number of concurrent compactions.
    pub max_concurrent_compactions: Option<usize>,
    /// Interval in seconds between periodic flushes.
    pub flush_interval_secs: Option<u64>,
    /// When true, every committed write is durably flushed to object storage
    /// before returning success. Explicit fsync from clients is honored either
    /// way; the flag governs the writes between fsync calls.
    pub sync_writes: Option<bool>,
    /// Deprecated, ignored: the WAL is permanently off.
    pub wal_enabled: Option<bool>,
    /// Deprecated, ignored: unflushed-data budgeting went away with the WAL.
    pub max_unflushed_bytes: Option<u64>,
}

/// A setting that is still accepted and does nothing any more.
#[derive(Debug, Clone, Copy, PartialEq, Eq, Structural)]
pub enum DeprecatedKey {
    /// `[lsm] wal_enabled`.
    WalEnabled,
    /// `[lsm] max_unflushed_gb`.
    MaxUnflushed,
}

impl DeprecatedKey {
    /// What the operator is told, in words.
    pub open spec fn text(self) -> Seq<char> {
        match self {
            DeprecatedKey::WalEnabled =>
                "[lsm] wal_enabled is deprecated and ignored (the WAL is permanently off); remove it from the config"@,
            DeprecatedKey::MaxUnflushed =>
                "[lsm] max_unflushed_gb is deprecated and ignored (it tuned the removed WAL); remove it from the config"@,
        }
    }

    /// What the operator is told, in words.
    pub fn message(&self) -> (s: &'static str)
        ensures
            s@ == self.text(),
    {
        match self {
            DeprecatedKey::WalEnabled =>
                "[lsm] wal_enabled is deprecated and ignored (the WAL is permanently off); remove it from the config",
            DeprecatedKey::MaxUnflushed =>
                "[lsm] max_unflushed_gb is deprecated and ignored (it tuned the removed WAL); remove it from the config",
        }
    }
}

impl LsmConfig {
    /// With the WAL off every flush freezes a fresh L0 SST, so L0 must hold a
    /// deep backlog or flushes stall on compaction.
    pub const DEFAULT_L0_MAX_SSTS: usize = 256;

    /// Default max_concurrent_compactions.
    pub const DEFAULT_MAX_CONCURRENT_COMPACTIONS: usize = 2;

    /// Default flush_interval_secs.
    pub const DEFAULT_FLUSH_INTERVAL_SECS: u64 = 30;

    /// Minimum l0_max_ssts to maintain reasonable performance.
    pub const MIN_L0_MAX_SSTS: usize = 4;

    /// Minimum max_concurrent_compactions.
    pub const MIN_MAX_CONCURRENT_COMPACTIONS: usize = 1;

    /// Minimum flush_interval_secs.
    pub const MIN_FLUSH_INTERVAL_SECS: u64 = 5;

    /// The L0 depth in force.
    pub open spec fn depth(self) -> usize {
        count_at_least(
            count_or(self.l0_max_ssts, Self::DEFAULT_L0_MAX_SSTS),
            Self::MIN_L0_MAX_SSTS,
        )
    }

    /// The number of concurrent compactions in force.
    pub open spec fn compactions(self) -> usize {
        count_at_least(
            count_or(self.max_concurrent_compactions, Self::DEFAULT_MAX_CONCURRENT_COMPACTIONS),
            Self::MIN_MAX_CONCURRENT_COMPACTIONS,
        )
    }

    /// The flush interval in force.
    pub open spec fn flush_every(self) -> u64 {
        at_least(
            set_or(self.flush_interval_secs, Self::DEFAULT_FLUSH_INTERVAL_SECS),
            Self::MIN_FLUSH_INTERVAL_SECS,
        )
    }

    /// L0 SST files before compaction.
    pub fn l0_max_ssts(&self) -> (n: usize)
        ensures
            n == self.depth(),
    {
        clamp_count_low(
            self.l0_max_ssts.unwrap_or(Self::DEFAULT_L0_MAX_SSTS),
            Self::MIN_L0_MAX_SSTS,
        )
    }

    /// Compactions that may run at once.
    pub fn max_concurrent_compactions(&self) -> (n: usize)
        ensures
            n == self.compactions(),
    {
        clamp_count_low(
            self.max_concurrent_compactions.unwrap_or(Self::DEFAULT_MAX_CONCURRENT_COMPACTIONS),
            Self::MIN_MAX_CONCURRENT_COMPACTIONS,
        )
    }

    /// Seconds between periodic flushes.
    pub fn flush_interval_secs(&self) -> (secs: u64)
        ensures
            secs == self.flush_every(),
    {
        clamp_low(
            self.flush_interval_secs.unwrap_or(Self::DEFAULT_FLUSH_INTERVAL_SECS),
            Self::MIN_FLUSH_INTERVAL_SECS,
        )
    }

    /// Whether every write is flushed before it returns; off unless set.
    pub open spec fn syncs_writes(self) -> bool {
        self.sync_writes == Some(true)
    }

    /// Whether every write is flushed before it returns.
    pub fn sync_writes(&self) -> (sync: bool)
        ensures
            sync == self.syncs_writes(),
    {
        self.sync_writes.unwrap_or(false)
    }

    /// The deprecated settings that are present.
    pub open spec fn deprecated(self) -> Seq<DeprecatedKey> {
        (if self.wal_enabled is Some {
            seq![DeprecatedKey::WalEnabled]
        } else {
            seq![]
        }) + (if self.max_unflushed_bytes is Some {
            seq![DeprecatedKey::MaxUnflushed]
        } else {
            seq![]
        })
    }

    /// The deprecated settings that are present: an old configuration still
    /// loads, and the operator is told to drop them.
    pub fn deprecated_keys(&self) -> (keys: Vec<DeprecatedKey>)
        ensures
            keys@ == self.deprecated(),
    {
        let mut keys: Vec<DeprecatedKey> = Vec::new();
        if self.wal_enabled.is_some() {
            keys.push(DeprecatedKey::WalEnabled);
        }
        if self.max_unflushed_bytes.is_some() {
            keys.push(DeprecatedKey::MaxUnflushed);
        }
        assert(keys@ =~= self.deprecated());
        keys
    }
}

/// Segment garbage-collection tuning.
#[derive(Debug, Clone, Copy)]
pub struct GcConfig {
    /// Seconds between segment-GC passes while the filesystem is active; the
    /// ceiling of the adaptive cadence.
    pub interval_secs: Option<u64>,
    /// Seconds between passes while a saturated backlog meets an idle store.
    /// Setting it equal to interval_secs disables the idle acceleration tier.
    pub idle_interval_secs: Option<u64>,
    /// Whether reads steer compaction.
    pub read_directed: Option<bool>,
    /// Tail-scrub floor: a write-cold segment more than this percent dead is
    /// repacked with leftover pass budget. 0 disables the scrub.
    pub tail_scrub_min_dead_percent: Option<u64>,
    /// Compaction batches a pass runs before it yields to foreground load.
    pub min_batches_per_pass: Option<usize>,
    /// Pass interval while the store is active but its dead backlog is large.
    /// At interval_secs or above it disables the tier.
    pub busy_backlog_interval_secs: Option<u64>,
    /// Store dead-space percent at or above which busy_backlog_interval_secs
    /// applies.
    pub busy_backlog_dead_percent: Option<u64>,
    /// Per-round compaction budget in MiB.
    pub compact_round_max_mib: Option<u64>,
}

impl Default for GcConfig {
    /// Nothing set.
    fn default() -> (gc: GcConfig)
        ensures
            gc == GcConfig::unset(),
    {
        GcConfig {
            interval_secs: None,
            idle_interval_secs: None,
            read_directed: None,
            tail_scrub_min_dead_percent: None,
            min_batches_per_pass: None,
            busy_backlog_interval_secs: None,
            busy_backlog_dead_percent: None,
            compact_round_max_mib: None,
        }
    }
}

impl GcConfig {
    /// The historical fixed cadence.
    pub const DEFAULT_INTERVAL_SECS: u64 = 60;

    /// About 12x drain while idle.
    pub const DEFAULT_IDLE_INTERVAL_SECS: u64 = 5;

    /// Default read_directed.
    pub const DEFAULT_READ_DIRECTED: bool = true;

    /// 1.053x worst-case space amplification at up to 19x rewrite per
    /// reclaimed byte.
    pub const DEFAULT_TAIL_SCRUB_MIN_DEAD_PERCENT: u64 = 5;

    /// About 4x the single-batch reclaim rate under load.
    pub const DEFAULT_MIN_BATCHES_PER_PASS: usize = 4;

    /// A loaded, dirty store drains about 4x more often than the base interval.
    pub const DEFAULT_BUSY_BACKLOG_INTERVAL_SECS: u64 = 15;

    /// Default busy_backlog_dead_percent.
    pub const DEFAULT_BUSY_BACKLOG_DEAD_PERCENT: u64 = 20;

    /// The historical fixed round budget.
    pub const DEFAULT_COMPACT_ROUND_MAX_MIB: u64 = 256;

    /// Below the pack target a round can't hold one output segment.
    pub const MIN_COMPACT_ROUND_MAX_MIB: u64 = 64;

    /// A hard ceiling on per-batch gather RAM.
    pub const MAX_COMPACT_ROUND_MAX_MIB: u64 = 4096;

    /// Each pass runs a flush barrier, so the LSM flush floor applies.
    pub const MIN_INTERVAL_SECS: u64 = LsmConfig::MIN_FLUSH_INTERVAL_SECS;

    /// Below about 1 s the pass's barrier round-trips stop amortizing.
    pub const MIN_IDLE_INTERVAL_SECS: u64 = 1;

    /// The configuration with nothing set.
    pub open spec fn unset() -> GcConfig {
        GcConfig {
            interval_secs: None,
            idle_interval_secs: None,
            read_directed: None,
            tail_scrub_min_dead_percent: None,
            min_batches_per_pass: None,
            busy_backlog_interval_secs: None,
            busy_backlog_dead_percent: None,
            compact_round_max_mib: None,
        }
    }

    /// The pass interval in force.
    pub open spec fn interval(self) -> u64 {
        at_least(set_or(self.interval_secs, Self::DEFAULT_INTERVAL_SECS), Self::MIN_INTERVAL_SECS)
    }

    /// The idle pass interval in force.
    pub open spec fn idle_interval(self) -> u64 {
        at_most(
            at_least(
                set_or(self.idle_interval_secs, Self::DEFAULT_IDLE_INTERVAL_SECS),
                Self::MIN_IDLE_INTERVAL_SECS,
            ),
            self.interval(),
        )
    }

    /// The busy-backlog pass interval in force.
    pub open spec fn busy_interval(self) -> u64 {
        at_most(
            at_least(
                set_or(self.busy_backlog_interval_secs, Self::DEFAULT_BUSY_BACKLOG_INTERVAL_SECS),
                Self::MIN_INTERVAL_SECS,
            ),
            self.interval(),
        )
    }

    /// The tail-scrub floor in force, if the scrub is on.
    pub open spec fn scrub_floor(self) -> Option<u64> {
        if self.tail_scrub_min_dead_percent == Some(0u64) {
            None
        } else {
            Some(
                at_most(
                    at_least(
                        set_or(
                            self.tail_scrub_min_dead_percent,
                            Self::DEFAULT_TAIL_SCRUB_MIN_DEAD_PERCENT,
                        ),
                        1,
                    ),
                    50,
                ),
            )
        }
    }

    /// The batches per pass in force.
    pub open spec fn batches(self) -> usize {
        count_at_least(count_or(self.min_batches_per_pass, Self::DEFAULT_MIN_BATCHES_PER_PASS), 1)
    }

    /// The busy-backlog threshold in force.
    pub open spec fn busy_percent(self) -> u64 {
        at_most(
            set_or(self.busy_backlog_dead_percent, Self::DEFAULT_BUSY_BACKLOG_DEAD_PERCENT),
            100,
        )
    }

    /// The round budget in force, in MiB.
    pub open spec fn round_mib(self) -> u64 {
        at_most(
            at_least(
                set_or(self.compact_round_max_mib, Self::DEFAULT_COMPACT_ROUND_MAX_MIB),
                Self::MIN_COMPACT_ROUND_MAX_MIB,
            ),
            Self::MAX_COMPACT_ROUND_MAX_MIB,
        )
    }

    /// The round budget in force, in bytes.
    pub open spec fn round_bytes(self) -> int {
        self.round_mib() * 0x10_0000
    }

    /// Whether reads steer compaction, as configured or by default.
    pub open spec fn reads_steer(self) -> bool {
        match self.read_directed {
            Some(on) => on,
            None => Self::DEFAULT_READ_DIRECTED,
        }
    }

    /// Seconds between passes while the store is active.
    pub fn interval_secs(&self) -> (secs: u64)
        ensures
            secs == self.interval(),
    {
        clamp_low(
            self.interval_secs.unwrap_or(Self::DEFAULT_INTERVAL_SECS),
            Self::MIN_INTERVAL_SECS,
        )
    }

    /// Seconds between passes while the store is idle, capped at interval_secs.
    pub fn idle_interval_secs(&self) -> (secs: u64)
        ensures
            secs == self.idle_interval(),
    {
        clamp_high(
            clamp_low(
                self.idle_interval_secs.unwrap_or(Self::DEFAULT_IDLE_INTERVAL_SECS),
                Self::MIN_IDLE_INTERVAL_SECS,
            ),
            self.interval_secs(),
        )
    }

    /// Whether reads steer compaction.
    pub fn read_directed(&self) -> (on: bool)
        ensures
            on == self.reads_steer(),
    {
        self.read_directed.unwrap_or(Self::DEFAULT_READ_DIRECTED)
    }

    /// `None` = scrub disabled (configured 0).
    pub fn tail_scrub_min_dead_percent(&self) -> (percent: Option<u64>)
        ensures
            percent == self.scrub_floor(),
    {
        match self.tail_scrub_min_dead_percent {
            Some(0) => None,
            v => Some(
                clamp_high(
                    clamp_low(v.unwrap_or(Self::DEFAULT_TAIL_SCRUB_MIN_DEAD_PERCENT), 1),
                    50,
                ),
            ),
        }
    }

    /// Batches a pass runs before it yields to foreground load.
    pub fn min_batches_per_pass(&self) -> (n: usize)
        ensures
            n == self.batches(),
    {
        clamp_count_low(self.min_batches_per_pass.unwrap_or(Self::DEFAULT_MIN_BATCHES_PER_PASS), 1)
    }

    /// Clamped to [MIN_INTERVAL_SECS, interval_secs]; equal to interval_secs
    /// disables the busy-backlog tier.
    pub fn busy_backlog_interval_secs(&self) -> (secs: u64)
        ensures
            secs == self.busy_interval(),
    {
        clamp_high(
            clamp_low(
                self.busy_backlog_interval_secs.unwrap_or(Self::DEFAULT_BUSY_BACKLOG_INTERVAL_SECS),
                Self::MIN_INTERVAL_SECS,
            ),
            self.interval_secs(),
        )
    }

    /// Dead-space percent from which the busy-backlog interval applies.
    pub fn busy_backlog_dead_percent(&self) -> (percent: u64)
        ensures
            percent == self.busy_percent(),
    {
        clamp_high(
            self.busy_backlog_dead_percent.unwrap_or(Self::DEFAULT_BUSY_BACKLOG_DEAD_PERCENT),
            100,
        )
    }

    /// Per-round compaction budget in bytes (MiB config, clamped).
    pub fn compact_round_bytes(&self) -> (bytes: u64)
        ensures
            bytes == self.round_bytes(),
    {
        let mib: u64 = clamp_high(
            clamp_low(
                self.compact_round_max_mib.unwrap_or(Self::DEFAULT_COMPACT_ROUND_MAX_MIB),
                Self::MIN_COMPACT_ROUND_MAX_MIB,
            ),
            Self::MAX_COMPACT_ROUND_MAX_MIB,
        );
        assert(mib <= 4096 ==> mib << 20 == mib * 0x10_0000) by (bit_vector);
        mib << 20
    }
}

/// Whatever is configured, every knob is in its range: the pass interval is at
/// least the flush floor and is the ceiling of the other two cadences.
pub proof fn gc_knobs_are_in_range(gc: GcConfig)
    ensures
        gc.interval() >= GcConfig::MIN_INTERVAL_SECS,
        GcConfig::MIN_IDLE_INTERVAL_SECS <= gc.idle_interval() <= gc.interval(),
        GcConfig::MIN_INTERVAL_SECS <= gc.busy_interval() <= gc.interval(),
        gc.scrub_floor() matches Some(floor) ==> 1 <= floor <= 50,
        gc.batches() >= 1,
        gc.busy_percent() <= 100,
        GcConfig::MIN_COMPACT_ROUND_MAX_MIB <= gc.round_mib()
            <= GcConfig::MAX_COMPACT_ROUND_MAX_MIB,
{
}

/// The scrub is off exactly where 0 is configured.
pub proof fn only_zero_disables_the_scrub(gc: GcConfig)
    ensures
        gc.scrub_floor() is None <==> gc.tail_scrub_min_dead_percent == Some(0u64),
{
}

/// With nothing configured every knob has its default.
pub proof fn unset_gc_is_the_defaults()
    ensures
        GcConfig::unset().interval() == GcConfig::DEFAULT_INTERVAL_SECS,
        GcConfig::unset().idle_interval() == GcConfig::DEFAULT_IDLE_INTERVAL_SECS,
        GcConfig::unset().reads_steer() == GcConfig::DEFAULT_READ_DIRECTED,
        GcConfig::unset().scrub_floor() == Some(GcConfig::DEFAULT_TAIL_SCRUB_MIN_DEAD_PERCENT),
        GcConfig::unset().batches() == GcConfig::DEFAULT_MIN_BATCHES_PER_PASS,
        GcConfig::unset().busy_interval() == GcConfig::DEFAULT_BUSY_BACKLOG_INTERVAL_SECS,
        GcConfig::unset().busy_percent() == GcConfig::DEFAULT_BUSY_BACKLOG_DEAD_PERCENT,
        GcConfig::unset().round_mib() == GcConfig::DEFAULT_COMPACT_ROUND_MAX_MIB,
{
}

/// An idle or busy-backlog interval at or above the pass interval switches
/// that tier off: passes then run at the pass interval.
pub proof fn tiers_switch_off_at_the_pass_interval(gc: GcConfig)
    ensures
        gc.idle_interval_secs matches Some(secs) ==> secs >= gc.interval() ==> gc.idle_interval()
            == gc.interval(),
        gc.busy_backlog_interval_secs matches Some(secs) ==> secs >= gc.interval()
            ==> gc.busy_interval() == gc.interval(),
{
}

/// A setting already in its range is taken as it is.
pub proof fn settings_in_range_are_kept(gc: GcConfig)
    ensures
        gc.interval_secs matches Some(secs) ==> secs >= GcConfig::MIN_INTERVAL_SECS
            ==> gc.interval() == secs,
        gc.idle_interval_secs matches Some(secs) ==> GcConfig::MIN_IDLE_INTERVAL_SECS <= secs
            <= gc.interval() ==> gc.idle_interval() == secs,
        gc.busy_backlog_interval_secs matches Some(secs) ==> GcConfig::MIN_INTERVAL_SECS <= secs
            <= gc.interval() ==> gc.busy_interval() == secs,
        gc.tail_scrub_min_dead_percent matches Some(floor) ==> 1 <= floor <= 50
            ==> gc.scrub_floor() == Some(floor),
        gc.min_batches_per_pass matches Some(n) ==> n >= 1 ==> gc.batches() == n,
        gc.busy_backlog_dead_percent matches Some(percent) ==> percent <= 100
            ==> gc.busy_percent() == percent,
        gc.compact_round_max_mib matches Some(mib) ==> GcConfig::MIN_COMPACT_ROUND_MAX_MIB <= mib
            <= GcConfig::MAX_COMPACT_ROUND_MAX_MIB ==> gc.round_mib() == mib,
{
}

/// Writes are synced exactly as configured, and not at all where nothing is.
pub proof fn writes_are_synced_as_configured(lsm: LsmConfig)
    ensures
        lsm.sync_writes matches Some(on) ==> lsm.syncs_writes() == on,
        lsm.sync_writes is None ==> !lsm.syncs_writes(),
{
}

/// Each knob of the LSM engine is what is configured, raised to its floor, and
/// has its default where nothing is configured; the other knobs play no part.
pub proof fn lsm_knobs_follow_their_settings(lsm: LsmConfig)
    ensures
        lsm.l0_max_ssts matches Some(n) ==> (n >= 4 ==> lsm.depth() == n) && (n < 4 ==> lsm.depth()
            == 4),
        lsm.l0_max_ssts is None ==> lsm.depth() == 256,
        lsm.max_concurrent_compactions matches Some(n) ==> (n >= 1 ==> lsm.compactions() == n) && (n
            < 1 ==> lsm.compactions() == 1),
        lsm.max_concurrent_compactions is None ==> lsm.compactions() == 2,
        lsm.flush_interval_secs matches Some(secs) ==> (secs >= 5 ==> lsm.flush_every() == secs) && (
        secs < 5 ==> lsm.flush_every() == 5),
        lsm.flush_interval_secs is None ==> lsm.flush_every() == 30,
{
}

/// More asked for is never less in force.
pub proof fn lsm_knobs_grow_with_their_settings(a: LsmConfig, b: LsmConfig)
    ensures
        a.l0_max_ssts is Some && b.l0_max_ssts is Some && a.l0_max_ssts->0 <= b.l0_max_ssts->0
            ==> a.depth() <= b.depth(),
        a.max_concurrent_compactions is Some && b.max_concurrent_compactions is Some
            && a.max_concurrent_compactions->0 <= b.max_concurrent_compactions->0
            ==> a.compactions() <= b.compactions(),
        a.flush_interval_secs is Some && b.flush_interval_secs is Some && a.flush_interval_secs->0
            <= b.flush_interval_secs->0 ==> a.flush_every() <= b.flush_every(),
{
}

/// A deprecated setting is reported exactly where it is there, whatever it is
/// set to, and each one once.
pub proof fn deprecated_settings_are_reported(lsm: LsmConfig)
    ensures
        lsm.deprecated().contains(DeprecatedKey::WalEnabled) <==> lsm.wal_enabled is Some,
        lsm.deprecated().contains(DeprecatedKey::MaxUnflushed) <==> lsm.max_unflushed_bytes is Some,
        lsm.deprecated().no_duplicates(),
        lsm.wal_enabled is Some && lsm.max_unflushed_bytes is Some ==> lsm.deprecated()[0]
            == DeprecatedKey::WalEnabled,
{
    let keys = lsm.deprecated();
    if lsm.wal_enabled is Some {
        assert(keys[0] == DeprecatedKey::WalEnabled);
    }
    if lsm.max_unflushed_bytes is Some {
        assert(keys[keys.len() - 1] == DeprecatedKey::MaxUnflushed);
    }
}

/// Reads steer compaction exactly as configured, and do where nothing is.
pub proof fn reads_steer_as_configured(gc: GcConfig)
    ensures
        gc.read_directed matches Some(on) ==> gc.reads_steer() == on,
        gc.read_directed is None ==> gc.reads_steer(),
{
}

/// A setting out of its range is taken for the nearest one in it, and one that
/// is absent for its default, whatever else is configured. The two cadences
/// beside the pass interval never exceed it.
pub proof fn gc_settings_out_of_range_go_to_the_nearest(gc: GcConfig)
    ensures
        gc.interval_secs matches Some(secs) ==> secs < 5 ==> gc.interval() == 5,
        gc.interval_secs is None ==> gc.interval() == 60,
        gc.idle_interval_secs matches Some(secs) ==> secs < 1 ==> gc.idle_interval() == 1,
        gc.idle_interval_secs matches Some(secs) ==> secs > gc.interval() ==> gc.idle_interval()
            == gc.interval(),
        gc.idle_interval_secs is None ==> gc.idle_interval() == 5,
        gc.busy_backlog_interval_secs matches Some(secs) ==> secs < 5 ==> gc.busy_interval() == 5,
        gc.busy_backlog_interval_secs matches Some(secs) ==> secs > gc.interval()
            ==> gc.busy_interval() == gc.interval(),
        gc.busy_backlog_interval_secs is None ==> gc.busy_interval() == (if gc.interval() < 15 {
            gc.interval()
        } else {
            15
        }),
        gc.tail_scrub_min_dead_percent matches Some(floor) ==> floor > 50 ==> gc.scrub_floor()
            == Some(50u64),
        gc.tail_scrub_min_dead_percent is None ==> gc.scrub_floor() == Some(5u64),
        gc.min_batches_per_pass matches Some(n) ==> n < 1 ==> gc.batches() == 1,
        gc.min_batches_per_pass is None ==> gc.batches() == 4,
        gc.busy_backlog_dead_percent matches Some(percent) ==> percent > 100 ==> gc.busy_percent()
            == 100,
        gc.busy_backlog_dead_percent is None ==> gc.busy_percent() == 20,
        gc.compact_round_max_mib matches Some(mib) ==> mib < 64 ==> gc.round_bytes() == 64
            * 1048576,
        gc.compact_round_max_mib matches Some(mib) ==> mib > 4096 ==> gc.round_bytes() == 4096
            * 1048576,
        gc.compact_round_max_mib matches Some(mib) ==> 64 <= mib <= 4096 ==> gc.round_bytes() == mib
            * 1048576,
        gc.compact_round_max_mib is None ==> gc.round_bytes() == 256 * 1048576,
{
}

} // verus!
