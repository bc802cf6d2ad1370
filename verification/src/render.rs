//! The configuration file that a new installation starts from: the serialized
//! settings, with everything else written around them as comments.

use vstd::prelude::*;
use vstd::string::*;

use crate::lines::push_note;
#[allow(unused_imports)]
use crate::lines::{
    a_line_break_parts_lines, a_text_has_a_line, all_idle, comment, from_either, idle,
    idle_behind_idle, line_breaks_are_idle, lines, lines_put_in_before, lines_put_in_behind,
    marked, note, notes_are_idle, one_line_is_marked_once, stands_alone, terminated,
    without_a_break_there_is_one_line,
};
use crate::settings::Settings;
use crate::text::replace_all;
#[allow(unused_imports)]
use crate::text::{
    extends, extends_behind, extends_in_turn, extends_itself, extends_part_by_part, occurs,
    replaced, replacing_by_more_keeps_the_text, replacing_nothing_changes_nothing,
    the_first_occurrence_is_replaced,
};

verus! {

/// What a comment begins with.
pub const HASH: &'static str = "#";

/// What a comment behind a setting begins with, on a line of its own.
pub const COLUMN: &'static str = "                                   #";

/// The first line of the file.
pub const TITLE: &'static str = " ZeroFS Configuration File";

/// What the version stands behind.
pub const GENERATED_BY: &'static str = "# Generated by ZeroFS v";

/// What applies to the file as a whole.
pub const GUIDE: &'static str = r#"
 ============================================================================
 ENVIRONMENT VARIABLE SUBSTITUTION
 ============================================================================
 This config file supports environment variable substitution.
 
 Supported syntax:
   - ${VAR} or $VAR  : Environment variable substitution
 
 Examples:
   encryption_password = "${ZEROFS_PASSWORD}"
   dir = "${HOME}/.cache/zerofs"
   access_key_id = "${AWS_ACCESS_KEY_ID}"
   peers = ["${PEER_A_ADDR}", "${PEER_B_ADDR}"]
 
 In array values (e.g. [replication] peers) each entry is expanded on
 its own; a single variable is not split into multiple entries.

 All referenced environment variables must be set, or the config will fail to load.

 ============================================================================
 SERVER CONFIGURATION
 ============================================================================
 - To disable a server, remove or comment out its entire section
 - Unix sockets are optional for 9P and NBD servers
 - NFS only supports TCP connections
 - Each protocol supports multiple bind addresses
 
 Examples:
   addresses = ["127.0.0.1:2049"]                  # IPv4 localhost only
   addresses = ["0.0.0.0:2049"]                    # All IPv4 interfaces
   addresses = ["[::]:2049"]                       # All IPv6 interfaces
   addresses = ["127.0.0.1:2049", "[::1]:2049"]  # Both IPv4 and IPv6 localhost
   addresses = ["${POD_IP}:2049"]                # env vars are expanded before the address is parsed,
                                                  # so the host, the port, or the whole value may come from one

 ============================================================================
 CLOUD STORAGE
 ============================================================================
 - For S3: Configure [aws] section with your credentials
 - For Azure: Configure [azure] section with your credentials
 - For GCS: Configure [gcp] section or set GOOGLE_APPLICATION_CREDENTIALS env var
 - For local storage: Use file:// URLs (no cloud config needed)
 ============================================================================"#;

/// The line of the `[storage]` table that the storage class goes behind.
pub const PASSWORD_LINE: &'static str = "encryption_password = \"${ZEROFS_PASSWORD}\"\n";

/// A hint at the storage class. `[storage]` is not the last table, so it cannot
/// stand at the end of the file.
pub const STORAGE_CLASS_HINT: &'static str = r#" storage_class = "..."   # Optional object storage class/tier for all writes (provider-specific value)."#;

/// The line of the `[cache]` table that says what to warm.
pub const WARM_LINE: &'static str = "warm_metadata = \"filters_index\"\n";

/// What to warm, explained.
pub const WARM_HINT: &'static str = r#" Keep the metadata block cache warm so reads don't pay cold object-store latency
 on startup and right after each compaction. Values:
   "filters_index" (default)  warm metadata SST filters + indexes (small, bounded)
   "full"                      also warm the metadata data blocks (metadata-heavy working sets)
   "off"                       disable warming"#;

/// Optional AWS S3 settings.
pub const AWS_HINT: &'static str = r#" Optional AWS S3 settings (uncomment to use):
 endpoint = "https://s3.us-east-1.amazonaws.com"  # For S3-compatible services
 default_region = "us-east-1"
 allow_http = "true"  # For non-HTTPS endpoints
 conditional_put = "redis://localhost:6379"  # For S3-compatible stores without conditional put support"#;

/// What to know of the `[filesystem]` section.
pub const FILESYSTEM_NOTE: &'static str = r#" Optional filesystem configuration
 Limit the maximum size of the filesystem to prevent unlimited growth
 If not specified, defaults to 16 EiB, the maximum filesystem size

 Compression algorithm for extent data:
   - "zstd-{level}" (default: "zstd-3"): Configurable compression (level 1-22)
     Level 1 is fastest, level 22 is maximum compression
   - "lz4": Faster compression, lower ratio (prefer for write-throughput-bound workloads)

 Note: Compression can be changed at any time. Existing data remains
 readable regardless of compression setting (auto-detected on read)."#;

/// The settings of the `[filesystem]` section.
pub const FILESYSTEM_HINT: &'static str = r#" [filesystem]
 max_size_gb = 100.0     # Limit filesystem to 100 GB
 compression = "zstd-3"  # or "lz4", "zstd-19", etc.
 ignore_fsync = false    # HA: make fsync a no-op, relying on the standby for durability (see [replication])"#;

/// What to know of the `[lsm]` section.
pub const LSM_NOTE: &'static str = " Optional LSM tree tuning parameters
 Advanced performance tuning for the underlying LSM tree storage engine
 Only modify these if you understand LSM tree behavior";

/// The settings of the `[lsm]` section.
pub const LSM_HINT: &'static str = " [lsm]
 l0_max_ssts = 256                # Max SST files in L0 before compaction (default: 256, min: 4)
 max_concurrent_compactions = 2   # Max concurrent compaction operations (default: 2, min: 1)
 flush_interval_secs = 30         # Interval between periodic flushes in seconds (default: 30, min: 5)
 sync_writes = false              # Flush every write to object storage before returning success (default: false).";

/// More on the last one of them, in the column of its comment.
pub const SYNC_WRITES_HINT: &'static str = " Does NOT affect POSIX fsync semantics: explicit fsync from clients
 is always honored. This flag only governs writes between fsync calls. When on,
 they become durable on return instead of buffered until the next periodic flush.
 Expensive: the WAL is off, so each write forces a full seal + memtable flush.";

/// What to know of the `[gc]` section.
pub const GC_NOTE: &'static str = " Optional segment garbage-collection tuning. Governs the segment
 reclamation loop.";

/// The settings of the `[gc]` section.
pub const GC_HINT: &'static str = " [gc]
 interval_secs = 60               # Pass interval while the store is active (default: 60, min: 5).
                                  # Below the ~30 s flush cadence, busy passes seal sub-1-MiB segments.
 idle_interval_secs = 5           # Pass interval while a saturated backlog meets an idle store
                                  # (default: 5, min: 1, capped at interval_secs; equal = adaptation off).
                                  # A fast pass runs a full reclamation round plus ~2 small PUTs of
                                  # overhead; total fast-mode work is bounded by the backlog.
 read_directed = true             # Reads steer compaction: nominations, seam heat, chain repacks
                                  # (default: true). Counter-driven reclamation is unaffected.
 tail_scrub_min_dead_percent = 5  # Repack write-cold segments more than this % dead that normal
                                  # candidacy would strand forever (default: 5, range 1-50; 0 disables
                                  # the scrub).
                                  # Space overhead on write-cold data is capped at 1/(1 - floor/100)
                                  # of live bytes, paid with up to (100-floor)/floor bytes rewritten
                                  # per byte reclaimed, using leftover pass budget only.
 min_batches_per_pass = 4         # Compaction batches a busy pass runs before yielding to load
                                  # (default: 4, min: 1); each drains one round budget. 1 restores
                                  # single-batch busy passes. Idle stores always drain the per-pass cap.
 busy_backlog_interval_secs = 15  # Pass interval while busy AND dead space >= busy_backlog_dead_percent
                                  # (default: 15, min: 5, capped at interval_secs; equal disables).
 busy_backlog_dead_percent = 20   # Dead-space percent at/above which busy_backlog_interval_secs
                                  # applies while the store is active (default: 20).
 compact_round_max_mib = 256      # Per-round compaction budget in MiB (default: 256, range 64-4096):
                                  # live-byte selection cap, heat reserve (half), and stored-byte gather
                                  # RAM cap. Raise to pack over-reserve hot seams and lift dead-space
                                  # throughput per batch, at up to this many MiB peak gather RAM.";

/// What to know of the `[replication]` section.
pub const REPLICATION_NOTE: &'static str = " Optional HA replication: a leader + standby pair over one object store, with
 automatic failover. Each node has its OWN config (node_id, role,
 replication_listen, and peers differ per node). See the High Availability docs.";

/// The settings of the `[replication]` section.
pub const REPLICATION_HINT: &'static str = r#" [replication]
 node_id = "node-a"
 role = "leader"                       # or "standby"
 replication_listen = "10.0.0.1:9000"  # this node receives ships + heartbeats here
 peers = ["10.0.0.2:9000"]             # the other node's replication_listen"#;

/// What to know of the `[prometheus]` section.
pub const PROMETHEUS_NOTE: &'static str = " Optional Prometheus metrics endpoint
 Exposes filesystem, LSM, and cache metrics in Prometheus format";

/// The settings of the `[prometheus]` section.
pub const PROMETHEUS_HINT: &'static str = r#" [prometheus]
 addresses = ["127.0.0.1:9091"]"#;

/// What to know of the `[azure]` section.
pub const AZURE_NOTE: &'static str = " Optional Azure settings can be added to [azure] section";

/// The settings of the `[azure]` section.
pub const AZURE_HINT: &'static str = r#" [azure]
 storage_account_name = "${AZURE_STORAGE_ACCOUNT_NAME}"
 storage_account_key = "${AZURE_STORAGE_ACCOUNT_KEY}""#;

/// What to know of the `[gcp]` section.
pub const GCP_NOTE: &'static str = " Optional GCS (Google Cloud Storage) settings
 Use gs:// URLs with the [gcp] section";

/// The settings of the `[gcp]` section.
pub const GCP_HINT: &'static str = r#" [gcp]
 service_account = "${GCS_SERVICE_ACCOUNT}"  # Path to service account JSON file
 Or use application_credentials = "${GOOGLE_APPLICATION_CREDENTIALS}""#;

/// What to know of the `[telemetry]` section.
pub const TELEMETRY_NOTE: &'static str = " Anonymous telemetry (enabled by default)
 Shares anonymous usage data (version, OS, backend type, filesystem size) to help improve ZeroFS
 No file contents, paths, or personally identifiable information is collected";

/// The settings of the `[telemetry]` section.
pub const TELEMETRY_HINT: &'static str = " [telemetry]
 enabled = false  # Set to false to disable";

/// The password line with the hint behind it.
pub open spec fn password_with_hint() -> Seq<char> {
    PASSWORD_LINE@ + note(false, HASH@, STORAGE_CLASS_HINT@)
}

/// The warming line with the hint before it.
pub open spec fn warm_with_hint() -> Seq<char> {
    note(false, HASH@, WARM_HINT@) + WARM_LINE@
}

/// The serialized settings with the hints that belong inside their tables.
pub open spec fn annotated(toml: Seq<char>) -> Seq<char> {
    replaced(
        replaced(toml, PASSWORD_LINE@, password_with_hint()),
        WARM_LINE@,
        warm_with_hint(),
    )
}

/// The head of the file.
pub open spec fn head(version: Seq<char>) -> Seq<char> {
    note(false, HASH@, TITLE@) + (GENERATED_BY@ + version).push('\n') + note(false, HASH@, GUIDE@)
        + seq!['\n']
}

/// The optional settings, all of them commented out.
pub open spec fn hints() -> Seq<char> {
    Seq::<char>::empty()
        + note(true, HASH@, AWS_HINT@)
        + note(true, HASH@, FILESYSTEM_NOTE@)
        + note(true, HASH@, FILESYSTEM_HINT@)
        + note(true, HASH@, LSM_NOTE@)
        + note(true, HASH@, LSM_HINT@)
        + note(false, COLUMN@, SYNC_WRITES_HINT@)
        + note(true, HASH@, GC_NOTE@)
        + note(true, HASH@, GC_HINT@)
        + note(true, HASH@, REPLICATION_NOTE@)
        + note(true, HASH@, REPLICATION_HINT@)
        + note(true, HASH@, PROMETHEUS_NOTE@)
        + note(true, HASH@, PROMETHEUS_HINT@)
        + note(true, HASH@, AZURE_NOTE@)
        + note(true, HASH@, AZURE_HINT@)
        + note(true, HASH@, GCP_NOTE@)
        + note(true, HASH@, GCP_HINT@)
        + note(true, HASH@, TELEMETRY_NOTE@)
        + note(true, HASH@, TELEMETRY_HINT@)
}

/// The whole file.
pub open spec fn rendered(version: Seq<char>, toml: Seq<char>) -> Seq<char> {
    head(version) + annotated(toml) + hints()
}

fn head_text(version: &str) -> (text: String)
    ensures
        text@ == head(version@),
{
    let mut text = String::new();
    push_note(&mut text, false, HASH, TITLE);
    text.append(GENERATED_BY);
    text.append(version);
    text.push('\n');
    push_note(&mut text, false, HASH, GUIDE);
    text.push('\n');
    assert(text@ =~= head(version@));
    text
}

fn hints_text() -> (text: String)
    ensures
        text@ == hints(),
{
    let mut hints = String::new();
    push_note(&mut hints, true, HASH, AWS_HINT);
    push_note(&mut hints, true, HASH, FILESYSTEM_NOTE);
    push_note(&mut hints, true, HASH, FILESYSTEM_HINT);
    push_note(&mut hints, true, HASH, LSM_NOTE);
    push_note(&mut hints, true, HASH, LSM_HINT);
    push_note(&mut hints, false, COLUMN, SYNC_WRITES_HINT);
    push_note(&mut hints, true, HASH, GC_NOTE);
    push_note(&mut hints, true, HASH, GC_HINT);
    push_note(&mut hints, true, HASH, REPLICATION_NOTE);
    push_note(&mut hints, true, HASH, REPLICATION_HINT);
    push_note(&mut hints, true, HASH, PROMETHEUS_NOTE);
    push_note(&mut hints, true, HASH, PROMETHEUS_HINT);
    push_note(&mut hints, true, HASH, AZURE_NOTE);
    push_note(&mut hints, true, HASH, AZURE_HINT);
    push_note(&mut hints, true, HASH, GCP_NOTE);
    push_note(&mut hints, true, HASH, GCP_HINT);
    push_note(&mut hints, true, HASH, TELEMETRY_NOTE);
    push_note(&mut hints, true, HASH, TELEMETRY_HINT);
    hints
}

impl Settings {
    /// The configuration file for the settings whose serialized form is
    /// `toml`, as generated by a `version` of the server.
    pub fn render_default_config(version: &str, toml: &str) -> (file: String)
        ensures
            file@ == rendered(version@, toml@),
    {
        proof {
            reveal_strlit("encryption_password = \"${ZEROFS_PASSWORD}\"\n");
            reveal_strlit("warm_metadata = \"filters_index\"\n");
        }
        let mut password_with_hint = PASSWORD_LINE.to_owned();
        push_note(&mut password_with_hint, false, HASH, STORAGE_CLASS_HINT);
        let mut warm_with_hint = String::new();
        push_note(&mut warm_with_hint, false, HASH, WARM_HINT);
        warm_with_hint.append(WARM_LINE);
        assert(warm_with_hint@ =~= self::warm_with_hint());
        let with_storage_class = replace_all(toml, PASSWORD_LINE, password_with_hint.as_str());
        let body = replace_all(with_storage_class.as_str(), WARM_LINE, warm_with_hint.as_str());
        let mut file = head_text(version);
        file.append(body.as_str());
        file.append(hints_text().as_str());
        file
    }
}

/// Settings in which neither hint has a place are written out as they are.
pub proof fn unannotated_settings_are_kept(version: Seq<char>, toml: Seq<char>)
    requires
        !occurs(toml, PASSWORD_LINE@),
        !occurs(toml, WARM_LINE@),
    ensures
        rendered(version, toml) == head(version) + toml + hints(),
{
    replacing_nothing_changes_nothing(toml, PASSWORD_LINE@, password_with_hint());
    replacing_nothing_changes_nothing(toml, WARM_LINE@, warm_with_hint());
}

/// Both hints keep the line that they belong to.
proof fn hints_keep_their_line()
    ensures
        extends(password_with_hint(), PASSWORD_LINE@),
        extends(warm_with_hint(), WARM_LINE@),
{
    let line = PASSWORD_LINE@;
    extends_itself(line);
    extends_part_by_part(line, line, note(false, HASH@, STORAGE_CLASS_HINT@), Seq::empty());
    assert(line + Seq::<char>::empty() =~= line);
    let line = WARM_LINE@;
    extends_itself(line);
    extends_behind(note(false, HASH@, WARM_HINT@), line, line);
}

/// Rendering only adds: the settings stand in the file as they were, with text
/// put in front, in between and behind.
pub proof fn rendering_only_adds(version: Seq<char>, toml: Seq<char>)
    ensures
        extends(rendered(version, toml), toml),
{
    hints_keep_their_line();
    let inner = replaced(toml, PASSWORD_LINE@, password_with_hint());
    replacing_by_more_keeps_the_text(toml, PASSWORD_LINE@, password_with_hint());
    replacing_by_more_keeps_the_text(inner, WARM_LINE@, warm_with_hint());
    extends_in_turn(annotated(toml), inner, toml);
    extends_behind(head(version), annotated(toml), toml);
    extends_part_by_part(head(version) + annotated(toml), toml, hints(), Seq::empty());
    assert(toml + Seq::<char>::empty() =~= toml);
}

/// Both marks are comments, on one line.
proof fn marks_are_comments()
    ensures
        comment(HASH@),
        !HASH@.contains('\n'),
        comment(COLUMN@),
        !COLUMN@.contains('\n'),
{
    reveal_strlit("#");
    reveal_strlit("                                   #");
    assert(HASH@[0] == '#');
    assert(COLUMN@[35] == '#');
    assert forall|j: int| 0 <= j < 35 implies (#[trigger] COLUMN@[j]) == ' ' by {}
}

/// The head says nothing, where the version is on one line.
proof fn the_head_is_idle(version: Seq<char>)
    requires
        !version.contains('\n'),
    ensures
        all_idle(head(version)),
        head(version).len() > 0,
{
    marks_are_comments();
    notes_are_idle(false, HASH@, TITLE@);
    notes_are_idle(false, HASH@, GUIDE@);
    line_breaks_are_idle();
    reveal_strlit("# Generated by ZeroFS v");
    let line = GENERATED_BY@ + version;
    assert(!line.contains('\n')) by {
        if line.contains('\n') {
            let k = choose|k: int| 0 <= k < line.len() && line[k] == '\n';
            if k >= GENERATED_BY@.len() {
                assert(version[k - GENERATED_BY@.len()] == '\n');
            }
        }
    }
    assert(line[0] == '#');
    assert(comment(line));
    without_a_break_there_is_one_line(line);
    let none = Seq::<char>::empty();
    a_line_break_parts_lines(line, none);
    assert(line.push('\n') + none =~= line.push('\n'));
    assert(lines(line.push('\n')) =~= seq![line, none]);
    assert(all_idle(line.push('\n')));
    let a = note(false, HASH@, TITLE@);
    let b = a + line.push('\n');
    let c = b + note(false, HASH@, GUIDE@);
    idle_behind_idle(a, line.push('\n'));
    idle_behind_idle(b, note(false, HASH@, GUIDE@));
    idle_behind_idle(c, seq!['\n']);
}

/// Whole idle lines, the first of them empty.
spec fn idle_from_a_break(s: Seq<char>) -> bool {
    all_idle(s) && s.len() > 0 && s[0] == '\n'
}

/// A further note behind such lines leaves them such lines.
proof fn one_more_note(so_far: Seq<char>, gap: bool, mark: Seq<char>, text: Seq<char>) -> (all: Seq<
    char,
>)
    requires
        idle_from_a_break(so_far),
        comment(mark),
        !mark.contains('\n'),
    ensures
        all == so_far + note(gap, mark, text),
        idle_from_a_break(all),
{
    notes_are_idle(gap, mark, text);
    idle_behind_idle(so_far, note(gap, mark, text));
    so_far + note(gap, mark, text)
}

/// The hints say nothing, and begin on a line of their own.
proof fn the_hints_are_idle()
    ensures
        idle_from_a_break(hints()),
{
    marks_are_comments();
    let none = Seq::<char>::empty();
    notes_are_idle(true, HASH@, AWS_HINT@);
    let all = none + note(true, HASH@, AWS_HINT@);
    assert(all =~= note(true, HASH@, AWS_HINT@));
    let all = one_more_note(all, true, HASH@, FILESYSTEM_NOTE@);
    let all = one_more_note(all, true, HASH@, FILESYSTEM_HINT@);
    let all = one_more_note(all, true, HASH@, LSM_NOTE@);
    let all = one_more_note(all, true, HASH@, LSM_HINT@);
    let all = one_more_note(all, false, COLUMN@, SYNC_WRITES_HINT@);
    let all = one_more_note(all, true, HASH@, GC_NOTE@);
    let all = one_more_note(all, true, HASH@, GC_HINT@);
    let all = one_more_note(all, true, HASH@, REPLICATION_NOTE@);
    let all = one_more_note(all, true, HASH@, REPLICATION_HINT@);
    let all = one_more_note(all, true, HASH@, PROMETHEUS_NOTE@);
    let all = one_more_note(all, true, HASH@, PROMETHEUS_HINT@);
    let all = one_more_note(all, true, HASH@, AZURE_NOTE@);
    let all = one_more_note(all, true, HASH@, AZURE_HINT@);
    let all = one_more_note(all, true, HASH@, GCP_NOTE@);
    let all = one_more_note(all, true, HASH@, GCP_HINT@);
    let all = one_more_note(all, true, HASH@, TELEMETRY_NOTE@);
    let all = one_more_note(all, true, HASH@, TELEMETRY_HINT@);
}

/// The warming line without its line break.
pub open spec fn warm_setting() -> Seq<char> {
    WARM_LINE@.drop_last()
}

/// The lines that the hints inside the tables add say nothing.
proof fn inner_hints_are_idle(text: Seq<char>)
    ensures
        note(false, HASH@, text) == marked(HASH@, text).push('\n'),
        forall|i: int|
            0 <= i < lines(marked(HASH@, text)).len() ==> idle(
                #[trigger] lines(marked(HASH@, text))[i],
            ),
{
    marks_are_comments();
    notes_are_idle(false, HASH@, text);
    let body = marked(HASH@, text);
    let whole = note(false, HASH@, text);
    assert(whole =~= body.push('\n'));
    assert(whole =~= body.push('\n') + Seq::<char>::empty());
    a_line_break_parts_lines(body, Seq::empty());
    assert forall|i: int| 0 <= i < lines(body).len() implies idle(#[trigger] lines(body)[i]) by {
        assert(lines(whole)[i] == lines(body)[i]);
    }
}

/// Everything that rendering adds is a comment: every line of the file is a
/// line of the serialized settings, or empty, or a comment. The version is on
/// one line, and the warming line has a line to itself.
pub proof fn all_that_is_added_is_a_comment(version: Seq<char>, toml: Seq<char>)
    requires
        !version.contains('\n'),
        stands_alone(warm_setting(), toml),
    ensures
        forall|i: int|
            0 <= i < lines(rendered(version, toml)).len() ==> lines(toml).contains(
                #[trigger] lines(rendered(version, toml))[i],
            ) || idle(lines(rendered(version, toml))[i]),
{
    reveal_strlit("encryption_password = \"${ZEROFS_PASSWORD}\"\n");
    reveal_strlit("warm_metadata = \"filters_index\"\n");
    let none = Seq::<char>::empty();
    let password = PASSWORD_LINE@.drop_last();
    let warm = warm_setting();
    assert(PASSWORD_LINE@ =~= password.push('\n'));
    assert(WARM_LINE@ =~= warm.push('\n'));
    assert(!warm.contains('\n'));

    // First the storage class.
    let storage_hint = marked(HASH@, STORAGE_CLASS_HINT@);
    inner_hints_are_idle(STORAGE_CLASS_HINT@);
    let inner = replaced(toml, PASSWORD_LINE@, password_with_hint());
    assert(none + toml =~= toml);
    assert(none + inner =~= inner);
    lines_put_in_behind(none, toml, password, storage_hint);
    the_storage_class_hint_is_another_line();
    assert(stands_alone(warm, none + inner)) by {
        assert forall|i: int|
            0 <= i < terminated(inner).len() && warm.is_suffix_of(
                #[trigger] terminated(inner)[i],
            ) implies terminated(inner)[i] == warm by {
            let line = terminated(inner)[i];
            if terminated(toml).contains(line) {
                let k = choose|k: int| 0 <= k < terminated(toml).len() && terminated(toml)[k] == line;
                assert(warm.is_suffix_of(terminated(toml)[k]));
            } else {
                assert(lines(storage_hint).contains(line));
            }
        }
    }

    // Then what to warm.
    let warm_hint = marked(HASH@, WARM_HINT@);
    inner_hints_are_idle(WARM_HINT@);
    let body = annotated(toml);
    assert(none + body =~= body);
    lines_put_in_before(none, inner, warm, warm_hint);
    assert forall|i: int| 0 <= i < lines(body).len() implies lines(toml).contains(
        #[trigger] lines(body)[i],
    ) || idle(lines(body)[i]) by {
        body_line(toml, inner, body, storage_hint, warm_hint, i);
    }

    // And what stands around it.
    the_head_is_idle(version);
    the_hints_are_idle();
    let front = head(version).drop_last();
    let rest = hints().skip(1);
    assert(head(version) =~= front.push('\n') + none);
    assert(hints() =~= none.push('\n') + rest);
    a_line_break_parts_lines(front, none);
    a_line_break_parts_lines(none, rest);
    let file = rendered(version, toml);
    assert(file =~= front.push('\n') + (body.push('\n') + rest));
    a_line_break_parts_lines(front, body.push('\n') + rest);
    a_line_break_parts_lines(body, rest);
    assert forall|i: int| 0 <= i < lines(file).len() implies lines(toml).contains(
        #[trigger] lines(file)[i],
    ) || idle(lines(file)[i]) by {
        let n = lines(front).len();
        let m = lines(body).len();
        if i < n {
            assert(lines(file)[i] == lines(head(version))[i]);
        } else if i < n + m {
            assert(lines(file)[i] == lines(body)[i - n]);
        } else {
            assert(lines(file)[i] == lines(rest)[i - n - m]);
            assert(lines(hints())[1 + (i - n - m)] == lines(rest)[i - n - m]);
        }
    }
}

/// The hint at the storage class does not end as the warming line does.
proof fn the_storage_class_hint_is_another_line()
    ensures
        forall|i: int|
            0 <= i < lines(marked(HASH@, STORAGE_CLASS_HINT@)).len() ==> !warm_setting().is_suffix_of(
                #[trigger] lines(marked(HASH@, STORAGE_CLASS_HINT@))[i],
            ),
{
    reveal_strlit("#");
    reveal_strlit(
        r#" storage_class = "..."   # Optional object storage class/tier for all writes (provider-specific value)."#,
    );
    reveal_strlit("warm_metadata = \"filters_index\"\n");
    let hint = STORAGE_CLASS_HINT@;
    let line = marked(HASH@, hint);
    assert(!hint.contains('\n'));
    one_line_is_marked_once(HASH@, hint);
    assert(!line.contains('\n')) by {
        if line.contains('\n') {
            let k = choose|k: int| 0 <= k < line.len() && line[k] == '\n';
            if k >= 1 {
                assert(hint[k - 1] == '\n');
            }
        }
    }
    without_a_break_there_is_one_line(line);
    assert(line.last() == '.');
    assert(warm_setting().last() == '"');
}

/// Where a line of the annotated settings comes from.
proof fn body_line(
    toml: Seq<char>,
    inner: Seq<char>,
    body: Seq<char>,
    storage_hint: Seq<char>,
    warm_hint: Seq<char>,
    i: int,
)
    requires
        from_either(terminated(inner), terminated(toml), lines(storage_hint)),
        lines(inner).last() == lines(toml).last(),
        from_either(terminated(body), terminated(inner), lines(warm_hint)),
        lines(body).last() == lines(inner).last(),
        forall|k: int| 0 <= k < lines(storage_hint).len() ==> idle(#[trigger] lines(storage_hint)[k]),
        forall|k: int| 0 <= k < lines(warm_hint).len() ==> idle(#[trigger] lines(warm_hint)[k]),
        0 <= i < lines(body).len(),
    ensures
        lines(toml).contains(lines(body)[i]) || idle(lines(body)[i]),
{
    a_text_has_a_line(toml);
    a_text_has_a_line(inner);
    a_text_has_a_line(body);
    let line = lines(body)[i];
    if i == lines(body).len() - 1 {
        assert(lines(toml)[lines(toml).len() - 1] == line);
    } else {
        assert(terminated(body)[i] == line);
        if terminated(inner).contains(line) {
            let j = choose|j: int| 0 <= j < terminated(inner).len() && terminated(inner)[j] == line;
            assert(terminated(toml).contains(terminated(inner)[j]) || lines(storage_hint).contains(
                terminated(inner)[j],
            ));
            if terminated(toml).contains(line) {
                let k = choose|k: int| 0 <= k < terminated(toml).len() && terminated(toml)[k] == line;
                assert(lines(toml)[k] == line);
            }
        }
    }
}

/// The file begins with its title and then the version that it was generated by,
/// as it is, on a line of its own.
pub proof fn the_version_is_shown(version: Seq<char>, toml: Seq<char>)
    ensures
        ("# ZeroFS Configuration File\n# Generated by ZeroFS v"@ + version + seq!['\n']).is_prefix_of(
            rendered(version, toml),
        ),
{
    reveal_strlit("# ZeroFS Configuration File\n# Generated by ZeroFS v");
    reveal_strlit("# Generated by ZeroFS v");
    reveal_strlit(" ZeroFS Configuration File");
    reveal_strlit("#");
    assert(!TITLE@.contains('\n'));
    one_line_is_marked_once(HASH@, TITLE@);
    let front = "# ZeroFS Configuration File\n# Generated by ZeroFS v"@;
    let title = note(false, HASH@, TITLE@);
    assert(title =~= (HASH@ + TITLE@).push('\n'));
    assert(front =~= title + GENERATED_BY@);
    let start = front + version + seq!['\n'];
    let file = rendered(version, toml);
    let rest = note(false, HASH@, GUIDE@) + seq!['\n'] + annotated(toml) + hints();
    assert(file =~= start + rest);
    assert(start =~= file.subrange(0, start.len() as int));
}

/// The settings stand between the head and the hints, whatever they are, and
/// neither depends on them.
pub proof fn settings_stand_between_head_and_hints(
    version: Seq<char>,
    toml: Seq<char>,
    other: Seq<char>,
)
    ensures
        rendered(version, toml).len() - annotated(toml).len() == rendered(version, other).len()
            - annotated(other).len(),
        head(version).is_prefix_of(rendered(version, toml)),
        hints().is_suffix_of(rendered(version, toml)),
{
    let file = rendered(version, toml);
    assert(head(version) =~= file.subrange(0, head(version).len() as int));
    assert(hints() =~= file.subrange(file.len() - hints().len(), file.len() as int));
}

/// The hint at the storage class stands right behind the password line, and all
/// else stays as it is. The password line is there once, and the warming line is
/// not.
pub proof fn the_storage_class_hint_follows_the_password(before: Seq<char>, after: Seq<char>)
    requires
        forall|i: int|
            0 <= i < before.len() ==> !PASSWORD_LINE@.is_prefix_of(
                #[trigger] (before + PASSWORD_LINE@ + after).skip(i),
            ),
        !occurs(after, PASSWORD_LINE@),
        !occurs(
            before + (PASSWORD_LINE@ + note(false, "#"@, STORAGE_CLASS_HINT@)) + after,
            WARM_LINE@,
        ),
    ensures
        annotated(before + PASSWORD_LINE@ + after) == before + (PASSWORD_LINE@ + note(
            false,
            "#"@,
            STORAGE_CLASS_HINT@,
        )) + after,
{
    reveal_strlit("encryption_password = \"${ZEROFS_PASSWORD}\"\n");
    the_first_occurrence_is_replaced(before, PASSWORD_LINE@, after, password_with_hint());
    replacing_nothing_changes_nothing(after, PASSWORD_LINE@, password_with_hint());
    replacing_nothing_changes_nothing(
        before + password_with_hint() + after,
        WARM_LINE@,
        warm_with_hint(),
    );
}

/// The hint at what to warm stands right before the warming line, and all else
/// stays as it is. The warming line is there once, and the password line is not.
pub proof fn the_warming_hint_precedes_its_line(before: Seq<char>, after: Seq<char>)
    requires
        !occurs(before + WARM_LINE@ + after, PASSWORD_LINE@),
        forall|i: int|
            0 <= i < before.len() ==> !WARM_LINE@.is_prefix_of(
                #[trigger] (before + WARM_LINE@ + after).skip(i),
            ),
        !occurs(after, WARM_LINE@),
    ensures
        annotated(before + WARM_LINE@ + after) == before + (note(false, "#"@, WARM_HINT@)
            + WARM_LINE@) + after,
{
    reveal_strlit("warm_metadata = \"filters_index\"\n");
    replacing_nothing_changes_nothing(
        before + WARM_LINE@ + after,
        PASSWORD_LINE@,
        password_with_hint(),
    );
    the_first_occurrence_is_replaced(before, WARM_LINE@, after, warm_with_hint());
    replacing_nothing_changes_nothing(after, WARM_LINE@, warm_with_hint());
}

} // verus!
