//! How the database is opened: in which mode, with which budgets and engine
//! settings, and when not at all.

use vstd::prelude::*;
use vstd::string::*;

use crate::cache::{split_disk_budget, split_memory_budget};
#[allow(unused_imports)]
use crate::cache::{disk_split, memory_split};
use crate::text::same_text;
#[allow(unused_imports)]
use crate::text::{a_text_occurs_between_others, occurs};
use crate::tuning::LsmConfig;

verus! {

/// The type [`uuid::Uuid`]; an identifier that is only carried along.
#[verifier::external_type_specification]
#[verifier::external_body]
pub struct ExUuid(uuid::Uuid);

/// How the database is opened.
#[derive(Debug, Clone, Copy)]
pub enum DatabaseMode {
    /// As the writer.
    ReadWrite,
    /// As a reader of the latest state.
    ReadOnly,
    /// As a reader of one checkpoint.
    Checkpoint(uuid::Uuid),
}

impl DatabaseMode {
    /// Every mode but the writer's.
    pub open spec fn read_only(self) -> bool {
        !(self is ReadWrite)
    }

    /// Whether nothing may be written.
    pub fn is_read_only(&self) -> (read_only: bool)
        ensures
            read_only == self.read_only(),
    {
        match self {
            DatabaseMode::ReadWrite => false,
            DatabaseMode::ReadOnly => true,
            DatabaseMode::Checkpoint(_) => true,
        }
    }
}

/// The mode that the command line asks for.
#[derive(Debug)]
pub enum ModeRequest {
    /// Read and write.
    ReadWrite,
    /// Read the latest state.
    ReadOnly,
    /// Read the checkpoint of this name.
    Checkpoint {
        /// The checkpoint's name.
        name: String,
    },
    /// `--read-only` and `--checkpoint` at once.
    Conflict,
}

/// What the two flags at once are answered with.
pub const MODE_CONFLICT: &'static str = "Cannot specify both --read-only and --checkpoint flags";

/// The mode that the two flags ask for.
pub open spec fn asked_for(read_only: bool, checkpoint_name: Option<String>) -> ModeRequest {
    match checkpoint_name {
        None => if read_only {
            ModeRequest::ReadOnly
        } else {
            ModeRequest::ReadWrite
        },
        Some(name) => if read_only {
            ModeRequest::Conflict
        } else {
            ModeRequest::Checkpoint { name }
        },
    }
}

/// The mode asked for by the two flags.
pub fn requested_mode(read_only: bool, checkpoint_name: &Option<String>) -> (request: ModeRequest)
    ensures
        request == asked_for(read_only, *checkpoint_name),
{
    match checkpoint_name {
        None => if read_only {
            ModeRequest::ReadOnly
        } else {
            ModeRequest::ReadWrite
        },
        Some(name) => if read_only {
            ModeRequest::Conflict
        } else {
            ModeRequest::Checkpoint { name: name.clone() }
        },
    }
}

/// A checkpoint of the database.
#[derive(Debug)]
pub struct CheckpointInfo {
    /// Its identifier.
    pub id: uuid::Uuid,
    /// Its name, if it has one.
    pub name: Option<String>,
}

impl CheckpointInfo {
    /// Whether the checkpoint has this name.
    pub open spec fn named(self, name: Seq<char>) -> bool {
        self.name is Some && self.name->0@ == name
    }
}

/// `id` is that of the first checkpoint of a name, where there is one.
pub open spec fn first_of_name(
    checkpoints: Seq<CheckpointInfo>,
    name: Seq<char>,
    id: Option<uuid::Uuid>,
) -> bool {
    match id {
        Some(id) => exists|i: int|
            {
                &&& 0 <= i < checkpoints.len()
                &&& (#[trigger] checkpoints[i]).named(name)
                &&& checkpoints[i].id == id
                &&& forall|j: int| 0 <= j < i ==> !(#[trigger] checkpoints[j]).named(name)
            },
        None => forall|j: int|
            0 <= j < checkpoints.len() ==> !(#[trigger] checkpoints[j]).named(name),
    }
}

/// The identifier of the first checkpoint of a name.
pub fn find_checkpoint(checkpoints: &Vec<CheckpointInfo>, name: &str) -> (id: Option<uuid::Uuid>)
    ensures
        first_of_name(checkpoints@, name@, id),
{
    let mut i: usize = 0;
    while i < checkpoints.len()
        invariant
            i <= checkpoints@.len(),
            forall|j: int| 0 <= j < i ==> !(#[trigger] checkpoints@[j]).named(name@),
        decreases checkpoints@.len() - i,
    {
        if let Some(own) = &checkpoints[i].name {
            if same_text(own.as_str(), name) {
                assert(checkpoints@[i as int].named(name@));
                return Some(checkpoints[i].id);
            }
        }
        i += 1;
    }
    None
}

/// What is said of a checkpoint name that nothing has.
pub fn checkpoint_not_found(name: &str) -> (s: String)
    ensures
        s@ == "Checkpoint '"@ + name@ + "' not found"@,
{
    let mut s = "Checkpoint '".to_owned();
    s.append(name);
    s.append("' not found");
    s
}

/// Whether an object store is used from a path inside it rather than from its
/// root.
pub fn needs_prefix(path: &str) -> (prefixed: bool)
    ensures
        prefixed == (path@.len() > 0),
{
    !path.is_empty()
}

/// What the LSM engine runs with.
#[derive(Debug, Clone, Copy)]
pub struct EngineSettings {
    /// Whether the engine keeps a WAL.
    pub wal_enabled: bool,
    /// L0 SST files before compaction.
    pub l0_max_ssts: usize,
    /// The same, per key.
    pub l0_max_ssts_per_key: usize,
    /// Memtable size at which the write path would freeze it by itself.
    pub l0_sst_size_bytes: usize,
    /// The engine's own flush timer.
    pub flush_interval_secs: Option<u64>,
    /// Seconds between looks at the manifest.
    pub manifest_poll_secs: u64,
    /// Backpressure ceiling for frozen memtables.
    pub max_unflushed_bytes: usize,
    /// Parallel L0 flushes.
    pub l0_flush_parallelism: usize,
    /// Keys from which an SST gets a filter.
    pub min_filter_keys: u32,
    /// Seconds between the engine's own garbage collections.
    pub gc_interval_secs: u64,
    /// Age from which the engine collects a file.
    pub gc_min_age_secs: u64,
}

/// The engine settings for an L0 depth. The WAL is off, the memtable never
/// freezes by its size, and there is no flush timer: the flush that seals the
/// open segment first is the only path that makes metadata durable.
pub open spec fn engine_settings(l0_max_ssts: usize) -> EngineSettings {
    EngineSettings {
        wal_enabled: false,
        l0_max_ssts,
        l0_max_ssts_per_key: l0_max_ssts,
        l0_sst_size_bytes: usize::MAX,
        flush_interval_secs: None,
        manifest_poll_secs: 5,
        max_unflushed_bytes: 1_073_741_824,
        l0_flush_parallelism: 16,
        min_filter_keys: 10,
        gc_interval_secs: 60,
        gc_min_age_secs: 60,
    }
}

/// What the embedded compactor runs with.
#[derive(Debug, Clone, Copy)]
pub struct CompactorSettings {
    /// Seconds between looks for work.
    pub poll_secs: u64,
    /// Seconds between commits of finished work.
    pub commit_secs: u64,
    /// Compactions at once.
    pub max_concurrent_compactions: usize,
    /// Sources that one compaction merges.
    pub max_compaction_sources: usize,
    /// Size of the SSTs it writes.
    pub max_sst_size: usize,
    /// Fetches at once.
    pub max_fetch_tasks: usize,
    /// Bytes per fetch.
    pub bytes_to_fetch: usize,
    /// Ranges that a large compaction is split into.
    pub max_subcompactions: usize,
}

/// The compactor settings for a number of concurrent compactions.
pub open spec fn compactor_settings(max_concurrent_compactions: usize) -> CompactorSettings {
    CompactorSettings {
        poll_secs: 5,
        commit_secs: 5,
        max_concurrent_compactions,
        max_compaction_sources: 16,
        max_sst_size: 0x1000_0000,
        max_fetch_tasks: 2,
        bytes_to_fetch: 0x80_0000,
        max_subcompactions: 2,
    }
}

/// This node in a replicated pair.
#[derive(Debug)]
pub struct ReplicaIdentity {
    /// The node.
    pub node_id: String,
    /// Whether it leads.
    pub is_leader: bool,
}

/// Why the database is not opened.
#[derive(Debug)]
pub enum OpenError {
    /// A replicated node must be a writer.
    NotAWriter {
        /// The node.
        node_id: String,
    },
    /// A standby opens the database only once it is promoted; doing so before
    /// would fence the live leader.
    NotPromoted {
        /// The node.
        node_id: String,
    },
}

impl OpenError {
    /// The error, in words.
    pub open spec fn text(self) -> Seq<char> {
        match self {
            OpenError::NotAWriter { node_id } =>
                "[replication] is incompatible with read-only / checkpoint database modes; node "@
                + node_id@ + " must open the data database as a writer"@,
            OpenError::NotPromoted { node_id } =>
                "internal error: build_slatedb reached as a standby (node "@ + node_id@
                + "); a standby must complete failover and be promoted to leader before opening the data database"@,
        }
    }

    /// The error, in words.
    pub fn message(&self) -> (s: String)
        ensures
            s@ == self.text(),
    {
        match self {
            OpenError::NotAWriter { node_id } => {
                let mut s =
                    "[replication] is incompatible with read-only / checkpoint database modes; node ".to_owned();
                s.append(node_id.as_str());
                s.append(" must open the data database as a writer");
                s
            },
            OpenError::NotPromoted { node_id } => {
                let mut s = "internal error: build_slatedb reached as a standby (node ".to_owned();
                s.append(node_id.as_str());
                s.append(
                    "); a standby must complete failover and be promoted to leader before opening the data database",
                );
                s
            },
        }
    }
}

/// Why a database is not opened in a mode, by a node of a pair or by a single
/// node.
pub open spec fn open_fault(mode: DatabaseMode, replica: Option<ReplicaIdentity>) -> Option<
    OpenError,
> {
    match replica {
        None => None,
        Some(replica) => if mode.read_only() {
            Some(OpenError::NotAWriter { node_id: replica.node_id })
        } else if !replica.is_leader {
            Some(OpenError::NotPromoted { node_id: replica.node_id })
        } else {
            None
        },
    }
}

/// How the database is opened.
#[derive(Debug, Clone, Copy)]
pub struct OpenPlan {
    /// The mode.
    pub mode: DatabaseMode,
    /// Disk budget of the raw-parts cache.
    pub parts_disk_bytes: usize,
    /// Disk budget of the decoded-blocks cache.
    pub decoded_disk_bytes: usize,
    /// Memory budget of the raw-parts cache.
    pub parts_memory_bytes: usize,
    /// Memory budget of the decoded-blocks cache.
    pub decoded_memory_bytes: usize,
    /// Settings of the engine.
    pub engine: EngineSettings,
    /// Settings of the compactor, which runs only beside a writer.
    pub compactor: Option<CompactorSettings>,
    /// Whether the maintenance runtime and the engine's metrics are handed on.
    pub maintained: bool,
}

/// Memory cache where none is configured: a quarter of a gigabyte.
pub const DEFAULT_MEMORY_CACHE_BYTES: usize = 250_000_000;

/// The L0 depth in force.
pub open spec fn l0_depth(lsm: Option<LsmConfig>) -> usize {
    match lsm {
        Some(lsm) => lsm.depth(),
        None => LsmConfig::DEFAULT_L0_MAX_SSTS,
    }
}

/// The number of concurrent compactions in force.
pub open spec fn concurrent_compactions(lsm: Option<LsmConfig>) -> usize {
    match lsm {
        Some(lsm) => lsm.compactions(),
        None => LsmConfig::DEFAULT_MAX_CONCURRENT_COMPACTIONS,
    }
}

/// The L0 depth in force.
pub fn effective_l0_max_ssts(lsm: &Option<LsmConfig>) -> (n: usize)
    ensures
        n == l0_depth(*lsm),
{
    match lsm {
        Some(lsm) => lsm.l0_max_ssts(),
        None => LsmConfig::DEFAULT_L0_MAX_SSTS,
    }
}

/// The number of concurrent compactions in force.
pub fn effective_max_concurrent_compactions(lsm: &Option<LsmConfig>) -> (n: usize)
    ensures
        n == concurrent_compactions(*lsm),
{
    match lsm {
        Some(lsm) => lsm.max_concurrent_compactions(),
        None => LsmConfig::DEFAULT_MAX_CONCURRENT_COMPACTIONS,
    }
}

/// The memory cache in force.
pub open spec fn memory_cache(memory_bytes: Option<usize>) -> usize {
    match memory_bytes {
        Some(bytes) => bytes,
        None => DEFAULT_MEMORY_CACHE_BYTES,
    }
}

/// What a plan is for these budgets, this tuning and this mode.
pub open spec fn is_plan(
    plan: OpenPlan,
    disk_bytes: usize,
    memory_bytes: Option<usize>,
    lsm: Option<LsmConfig>,
    mode: DatabaseMode,
) -> bool {
    &&& plan.mode == mode
    &&& (plan.parts_disk_bytes as int, plan.decoded_disk_bytes as int) == disk_split(
        disk_bytes as int,
    )
    &&& (plan.parts_memory_bytes as int, plan.decoded_memory_bytes as int) == memory_split(
        memory_cache(memory_bytes) as int,
    )
    &&& plan.engine == engine_settings(l0_depth(lsm))
    &&& plan.compactor == (if mode.read_only() {
        None
    } else {
        Some(compactor_settings(concurrent_compactions(lsm)))
    })
    &&& plan.maintained == !mode.read_only()
}

/// Plans how to open the database, or says why not to: a replicated node must
/// be a writer, and must have been promoted to leader.
pub fn build_slatedb(
    disk_bytes: usize,
    memory_bytes: Option<usize>,
    lsm: &Option<LsmConfig>,
    mode: DatabaseMode,
    replica: &Option<ReplicaIdentity>,
) -> (r: Result<OpenPlan, OpenError>)
    ensures
        match open_fault(mode, *replica) {
            Some(fault) => r == Err::<OpenPlan, _>(fault),
            None => r is Ok && is_plan(r->Ok_0, disk_bytes, memory_bytes, *lsm, mode),
        },
{
    let (parts_disk_bytes, decoded_disk_bytes) = split_disk_budget(disk_bytes);
    let total_memory: usize = memory_bytes.unwrap_or(DEFAULT_MEMORY_CACHE_BYTES);
    let (parts_memory_bytes, decoded_memory_bytes) = split_memory_budget(total_memory);
    let l0_max_ssts: usize = effective_l0_max_ssts(lsm);
    let max_concurrent_compactions: usize = effective_max_concurrent_compactions(lsm);
    if let Some(replica) = replica {
        if mode.is_read_only() {
            return Err(OpenError::NotAWriter { node_id: replica.node_id.clone() });
        }
        if !replica.is_leader {
            return Err(OpenError::NotPromoted { node_id: replica.node_id.clone() });
        }
    }
    let writer = !mode.is_read_only();
    Ok(
        OpenPlan {
            mode,
            parts_disk_bytes,
            decoded_disk_bytes,
            parts_memory_bytes,
            decoded_memory_bytes,
            engine: EngineSettings {
                wal_enabled: false,
                l0_max_ssts,
                l0_max_ssts_per_key: l0_max_ssts,
                l0_sst_size_bytes: usize::MAX,
                flush_interval_secs: None,
                manifest_poll_secs: 5,
                max_unflushed_bytes: 1_073_741_824,
                l0_flush_parallelism: 16,
                min_filter_keys: 10,
                gc_interval_secs: 60,
                gc_min_age_secs: 60,
            },
            compactor: if writer {
                Some(
                    CompactorSettings {
                        poll_secs: 5,
                        commit_secs: 5,
                        max_concurrent_compactions,
                        max_compaction_sources: 16,
                        max_sst_size: 0x1000_0000,
                        max_fetch_tasks: 2,
                        bytes_to_fetch: 0x80_0000,
                        max_subcompactions: 2,
                    },
                )
            } else {
                None
            },
            maintained: writer,
        },
    )
}

/// However the database is opened, the flush that seals the open segment is
/// the only one: no WAL, no size-triggered freeze, no engine timer.
pub proof fn only_sealing_flushes(
    plan: OpenPlan,
    disk_bytes: usize,
    memory_bytes: Option<usize>,
    lsm: Option<LsmConfig>,
    mode: DatabaseMode,
)
    requires
        is_plan(plan, disk_bytes, memory_bytes, lsm, mode),
    ensures
        !plan.engine.wal_enabled,
        plan.engine.l0_sst_size_bytes == usize::MAX,
        plan.engine.flush_interval_secs is None,
        plan.engine.l0_max_ssts >= LsmConfig::MIN_L0_MAX_SSTS,
        plan.engine.l0_max_ssts_per_key == plan.engine.l0_max_ssts,
{
}

/// A node of a pair opens the database only as the leader and only as a
/// writer; a single node may open it in any mode.
pub proof fn replicas_open_as_leading_writers(
    mode: DatabaseMode,
    replica: Option<ReplicaIdentity>,
)
    ensures
        open_fault(mode, replica) is None <==> (replica is None || (replica->0.is_leader
            && !mode.read_only())),
{
}

/// Every mode but the writer's is read-only.
pub proof fn only_the_writer_writes(mode: DatabaseMode)
    ensures
        mode.read_only() <==> mode != DatabaseMode::ReadWrite,
        !DatabaseMode::ReadWrite.read_only(),
        DatabaseMode::ReadOnly.read_only(),
        mode is Checkpoint ==> mode.read_only(),
{
}

/// The flags exclude each other; one alone is what it says, with the name as it
/// was given, and without either the database is written.
pub proof fn flags_ask_for_what_they_say(read_only: bool, checkpoint_name: Option<String>)
    ensures
        asked_for(read_only, checkpoint_name) == ModeRequest::Conflict <==> read_only
            && checkpoint_name is Some,
        asked_for(read_only, checkpoint_name) == ModeRequest::ReadOnly <==> read_only
            && checkpoint_name is None,
        asked_for(read_only, checkpoint_name) == ModeRequest::ReadWrite <==> !read_only
            && checkpoint_name is None,
        asked_for(read_only, checkpoint_name) is Checkpoint <==> !read_only
            && checkpoint_name is Some,
        asked_for(read_only, checkpoint_name) matches ModeRequest::Checkpoint { name }
            ==> checkpoint_name == Some(name),
{
}

/// A checkpoint has a name exactly where it was given that text; one without a
/// name has none, not even the empty one.
pub proof fn a_checkpoint_has_its_own_name(info: CheckpointInfo, name: Seq<char>)
    ensures
        info.name matches Some(own) ==> (info.named(name) <==> own@ == name),
        info.name is None ==> !info.named(name),
{
}

/// The engine of every plan runs with the L0 depth that is configured, and a
/// writer's compactor with the number of compactions that is configured: raised
/// to their floors, or by default where nothing is configured.
pub proof fn configured_tuning_is_in_force(
    plan: OpenPlan,
    disk_bytes: usize,
    memory_bytes: Option<usize>,
    lsm: Option<LsmConfig>,
    mode: DatabaseMode,
)
    requires
        is_plan(plan, disk_bytes, memory_bytes, lsm, mode),
    ensures
        lsm is Some && lsm->0.l0_max_ssts is Some && lsm->0.l0_max_ssts->0 >= 4
            ==> plan.engine.l0_max_ssts == lsm->0.l0_max_ssts->0,
        lsm is Some && lsm->0.l0_max_ssts is Some && lsm->0.l0_max_ssts->0 < 4
            ==> plan.engine.l0_max_ssts == 4,
        lsm is None || lsm->0.l0_max_ssts is None ==> plan.engine.l0_max_ssts == 256,
        plan.engine.l0_max_ssts_per_key == plan.engine.l0_max_ssts,
        mode == DatabaseMode::ReadWrite <==> plan.compactor is Some,
        plan.compactor matches Some(compactor) ==> lsm is Some
            && lsm->0.max_concurrent_compactions is Some
            && lsm->0.max_concurrent_compactions->0 >= 1
            ==> compactor.max_concurrent_compactions == lsm->0.max_concurrent_compactions->0,
        plan.compactor matches Some(compactor) ==> lsm is Some
            && lsm->0.max_concurrent_compactions == Some(0usize)
            ==> compactor.max_concurrent_compactions == 1,
        plan.compactor matches Some(compactor) ==> lsm is None
            || lsm->0.max_concurrent_compactions is None ==> compactor.max_concurrent_compactions
            == 2,
{
}

/// What the effective values are for a configuration, without a plan: as
/// configured from the floor on.
pub proof fn effective_tuning_follows_the_configuration(lsm: LsmConfig)
    ensures
        lsm.l0_max_ssts matches Some(n) ==> n >= 4 ==> l0_depth(Some(lsm)) == n,
        lsm.l0_max_ssts matches Some(n) ==> n < 4 ==> l0_depth(Some(lsm)) == 4,
        lsm.l0_max_ssts is None ==> l0_depth(Some(lsm)) == l0_depth(None),
        lsm.max_concurrent_compactions matches Some(n) ==> n >= 1 ==> concurrent_compactions(
            Some(lsm),
        ) == n,
        lsm.max_concurrent_compactions == Some(0usize) ==> concurrent_compactions(Some(lsm)) == 1,
        lsm.max_concurrent_compactions is None ==> concurrent_compactions(Some(lsm))
            == concurrent_compactions(None),
        l0_depth(None) == 256,
        concurrent_compactions(None) == 2,
{
}

/// What no configuration changes about the engine and the compactor.
pub proof fn the_rest_of_the_engine_is_fixed(
    plan: OpenPlan,
    disk_bytes: usize,
    memory_bytes: Option<usize>,
    lsm: Option<LsmConfig>,
    mode: DatabaseMode,
)
    requires
        is_plan(plan, disk_bytes, memory_bytes, lsm, mode),
    ensures
        plan.mode == mode,
        plan.maintained <==> mode == DatabaseMode::ReadWrite,
        plan.engine.manifest_poll_secs == 5,
        plan.engine.max_unflushed_bytes == 1024 * 1024 * 1024,
        plan.engine.l0_flush_parallelism == 16,
        plan.engine.min_filter_keys == 10,
        plan.engine.gc_interval_secs == 60,
        plan.engine.gc_min_age_secs == 60,
        plan.compactor matches Some(compactor) ==> {
            &&& compactor.poll_secs == 5
            &&& compactor.commit_secs == 5
            &&& compactor.max_compaction_sources == 16
            &&& compactor.max_sst_size == 256 * 1024 * 1024
            &&& compactor.max_fetch_tasks == 2
            &&& compactor.bytes_to_fetch == 8 * 1024 * 1024
            &&& compactor.max_subcompactions == 2
        },
{
}

/// The caches of a plan: disk and memory are split apart, each on its own. From
/// two floors on a split hands out exactly its total; the decoded-blocks side
/// gets a tenth of the disk and a quarter of the memory, between its floor and
/// its ceiling; and an absent memory size counts as a quarter of a gigabyte.
pub proof fn a_plan_hands_out_its_budgets(
    plan: OpenPlan,
    disk_bytes: usize,
    memory_bytes: Option<usize>,
    lsm: Option<LsmConfig>,
    mode: DatabaseMode,
)
    requires
        is_plan(plan, disk_bytes, memory_bytes, lsm, mode),
    ensures
        ({
            let gib = 1024 * 1024 * 1024;
            let mib = 1024 * 1024;
            let memory = if memory_bytes is Some {
                memory_bytes->0 as int
            } else {
                250_000_000
            };
            &&& disk_bytes >= 2 * gib ==> plan.parts_disk_bytes + plan.decoded_disk_bytes
                == disk_bytes
            &&& disk_bytes < 2 * gib ==> plan.parts_disk_bytes == gib && plan.decoded_disk_bytes
                == gib
            &&& 10 * gib <= disk_bytes <= 160 * gib ==> plan.decoded_disk_bytes == disk_bytes / 10
            &&& disk_bytes <= 10 * gib ==> plan.decoded_disk_bytes == gib
            &&& disk_bytes >= 160 * gib ==> plan.decoded_disk_bytes == 16 * gib
            &&& memory >= 64 * mib ==> plan.parts_memory_bytes + plan.decoded_memory_bytes == memory
            &&& memory < 64 * mib ==> plan.parts_memory_bytes == 32 * mib
                && plan.decoded_memory_bytes == 32 * mib
            &&& 128 * mib <= memory <= 8 * gib ==> plan.decoded_memory_bytes == memory / 4
            &&& memory <= 128 * mib ==> plan.decoded_memory_bytes == 32 * mib
            &&& memory >= 8 * gib ==> plan.decoded_memory_bytes == 2 * gib
        }),
{
}

/// Why a node does not open the database: for the mode first, then for not
/// leading; and the node that is named is this one.
pub proof fn refusals_to_open_name_the_node(mode: DatabaseMode, replica: Option<ReplicaIdentity>)
    ensures
        replica is None ==> open_fault(mode, replica) is None,
        replica matches Some(node) ==> mode != DatabaseMode::ReadWrite ==> open_fault(mode, replica)
            == Some(OpenError::NotAWriter { node_id: node.node_id }),
        replica matches Some(node) ==> mode == DatabaseMode::ReadWrite && !node.is_leader
            ==> open_fault(mode, replica) == Some(OpenError::NotPromoted { node_id: node.node_id }),
        replica matches Some(node) ==> mode == DatabaseMode::ReadWrite && node.is_leader
            ==> open_fault(mode, replica) is None,
{
}

/// A refusal to open names the node.
pub proof fn open_errors_show_the_node(error: OpenError)
    ensures
        error matches OpenError::NotAWriter { node_id } ==> occurs(error.text(), node_id@),
        error matches OpenError::NotPromoted { node_id } ==> occurs(error.text(), node_id@),
{
    match error {
        OpenError::NotAWriter { node_id } => {
            a_text_occurs_between_others(
                "[replication] is incompatible with read-only / checkpoint database modes; node "@,
                node_id@,
                " must open the data database as a writer"@,
            );
        },
        OpenError::NotPromoted { node_id } => {
            a_text_occurs_between_others(
                "internal error: build_slatedb reached as a standby (node "@,
                node_id@,
                "); a standby must complete failover and be promoted to leader before opening the data database"@,
            );
        },
    }
}

/// A checkpoint is found by its name: where the one at `place` has the name and
/// none before it has, it is the one that is found; and where none has the name,
/// none is.
pub proof fn checkpoints_are_found_by_name(
    checkpoints: Seq<CheckpointInfo>,
    name: Seq<char>,
    place: int,
    id: Option<uuid::Uuid>,
)
    requires
        first_of_name(checkpoints, name, id),
        0 <= place <= checkpoints.len(),
        forall|j: int|
            0 <= j < place ==> ((#[trigger] checkpoints[j]).name matches Some(own) ==> own@ != name),
        place < checkpoints.len() ==> checkpoints[place].name is Some
            && checkpoints[place].name->0@ == name,
    ensures
        place < checkpoints.len() ==> id == Some(checkpoints[place].id),
        place == checkpoints.len() ==> id is None,
{
    assert forall|j: int| 0 <= j < place implies !(#[trigger] checkpoints[j]).named(name) by {}
    if place < checkpoints.len() {
        assert(checkpoints[place].named(name));
    }
}

} // verus!
