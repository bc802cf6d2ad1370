use toml::{Table, Value};
use zerofs::address::{AddressSet, SocketAddr};
use zerofs::settings::{Settings, WarmMetadata};

/// The head of the file, up to the version.
const HEAD: &str = r##"# ZeroFS Configuration File
# Generated by ZeroFS v"##;

/// The head of the file behind the version.
const GUIDE: &str = r##"
#
# ============================================================================
# ENVIRONMENT VARIABLE SUBSTITUTION
# ============================================================================
# This config file supports environment variable substitution.
# 
# Supported syntax:
#   - ${VAR} or $VAR  : Environment variable substitution
# 
# Examples:
#   encryption_password = "${ZEROFS_PASSWORD}"
#   dir = "${HOME}/.cache/zerofs"
#   access_key_id = "${AWS_ACCESS_KEY_ID}"
#   peers = ["${PEER_A_ADDR}", "${PEER_B_ADDR}"]
# 
# In array values (e.g. [replication] peers) each entry is expanded on
# its own; a single variable is not split into multiple entries.
#
# All referenced environment variables must be set, or the config will fail to load.
#
# ============================================================================
# SERVER CONFIGURATION
# ============================================================================
# - To disable a server, remove or comment out its entire section
# - Unix sockets are optional for 9P and NBD servers
# - NFS only supports TCP connections
# - Each protocol supports multiple bind addresses
# 
# Examples:
#   addresses = ["127.0.0.1:2049"]                  # IPv4 localhost only
#   addresses = ["0.0.0.0:2049"]                    # All IPv4 interfaces
#   addresses = ["[::]:2049"]                       # All IPv6 interfaces
#   addresses = ["127.0.0.1:2049", "[::1]:2049"]  # Both IPv4 and IPv6 localhost
#   addresses = ["${POD_IP}:2049"]                # env vars are expanded before the address is parsed,
#                                                  # so the host, the port, or the whole value may come from one
#
# ============================================================================
# CLOUD STORAGE
# ============================================================================
# - For S3: Configure [aws] section with your credentials
# - For Azure: Configure [azure] section with your credentials
# - For GCS: Configure [gcp] section or set GOOGLE_APPLICATION_CREDENTIALS env var
# - For local storage: Use file:// URLs (no cloud config needed)
# ============================================================================

"##;

/// The password line and its hint.
const PASSWORD_LINE_WITH_HINT: &str = r##"encryption_password = "${ZEROFS_PASSWORD}"
# storage_class = "..."   # Optional object storage class/tier for all writes (provider-specific value).
"##;

/// The warming line and its hint.
const WARM_LINE_WITH_HINT: &str = r##"# Keep the metadata block cache warm so reads don't pay cold object-store latency
# on startup and right after each compaction. Values:
#   "filters_index" (default)  warm metadata SST filters + indexes (small, bounded)
#   "full"                      also warm the metadata data blocks (metadata-heavy working sets)
#   "off"                       disable warming
warm_metadata = "filters_index"
"##;

/// The end of the file.
const HINTS: &str = r##"
# Optional AWS S3 settings (uncomment to use):
# endpoint = "https://s3.us-east-1.amazonaws.com"  # For S3-compatible services
# default_region = "us-east-1"
# allow_http = "true"  # For non-HTTPS endpoints
# conditional_put = "redis://localhost:6379"  # For S3-compatible stores without conditional put support

# Optional filesystem configuration
# Limit the maximum size of the filesystem to prevent unlimited growth
# If not specified, defaults to 16 EiB, the maximum filesystem size
#
# Compression algorithm for extent data:
#   - "zstd-{level}" (default: "zstd-3"): Configurable compression (level 1-22)
#     Level 1 is fastest, level 22 is maximum compression
#   - "lz4": Faster compression, lower ratio (prefer for write-throughput-bound workloads)
#
# Note: Compression can be changed at any time. Existing data remains
# readable regardless of compression setting (auto-detected on read).

# [filesystem]
# max_size_gb = 100.0     # Limit filesystem to 100 GB
# compression = "zstd-3"  # or "lz4", "zstd-19", etc.
# ignore_fsync = false    # HA: make fsync a no-op, relying on the standby for durability (see [replication])

# Optional LSM tree tuning parameters
# Advanced performance tuning for the underlying LSM tree storage engine
# Only modify these if you understand LSM tree behavior

# [lsm]
# l0_max_ssts = 256                # Max SST files in L0 before compaction (default: 256, min: 4)
# max_concurrent_compactions = 2   # Max concurrent compaction operations (default: 2, min: 1)
# flush_interval_secs = 30         # Interval between periodic flushes in seconds (default: 30, min: 5)
# sync_writes = false              # Flush every write to object storage before returning success (default: false).
                                   # Does NOT affect POSIX fsync semantics: explicit fsync from clients
                                   # is always honored. This flag only governs writes between fsync calls. When on,
                                   # they become durable on return instead of buffered until the next periodic flush.
                                   # Expensive: the WAL is off, so each write forces a full seal + memtable flush.

# Optional segment garbage-collection tuning. Governs the segment
# reclamation loop.

# [gc]
# interval_secs = 60               # Pass interval while the store is active (default: 60, min: 5).
#                                  # Below the ~30 s flush cadence, busy passes seal sub-1-MiB segments.
# idle_interval_secs = 5           # Pass interval while a saturated backlog meets an idle store
#                                  # (default: 5, min: 1, capped at interval_secs; equal = adaptation off).
#                                  # A fast pass runs a full reclamation round plus ~2 small PUTs of
#                                  # overhead; total fast-mode work is bounded by the backlog.
# read_directed = true             # Reads steer compaction: nominations, seam heat, chain repacks
#                                  # (default: true). Counter-driven reclamation is unaffected.
# tail_scrub_min_dead_percent = 5  # Repack write-cold segments more than this % dead that normal
#                                  # candidacy would strand forever (default: 5, range 1-50; 0 disables
#                                  # the scrub).
#                                  # Space overhead on write-cold data is capped at 1/(1 - floor/100)
#                                  # of live bytes, paid with up to (100-floor)/floor bytes rewritten
#                                  # per byte reclaimed, using leftover pass budget only.
# min_batches_per_pass = 4         # Compaction batches a busy pass runs before yielding to load
#                                  # (default: 4, min: 1); each drains one round budget. 1 restores
#                                  # single-batch busy passes. Idle stores always drain the per-pass cap.
# busy_backlog_interval_secs = 15  # Pass interval while busy AND dead space >= busy_backlog_dead_percent
#                                  # (default: 15, min: 5, capped at interval_secs; equal disables).
# busy_backlog_dead_percent = 20   # Dead-space percent at/above which busy_backlog_interval_secs
#                                  # applies while the store is active (default: 20).
# compact_round_max_mib = 256      # Per-round compaction budget in MiB (default: 256, range 64-4096):
#                                  # live-byte selection cap, heat reserve (half), and stored-byte gather
#                                  # RAM cap. Raise to pack over-reserve hot seams and lift dead-space
#                                  # throughput per batch, at up to this many MiB peak gather RAM.

# Optional HA replication: a leader + standby pair over one object store, with
# automatic failover. Each node has its OWN config (node_id, role,
# replication_listen, and peers differ per node). See the High Availability docs.

# [replication]
# node_id = "node-a"
# role = "leader"                       # or "standby"
# replication_listen = "10.0.0.1:9000"  # this node receives ships + heartbeats here
# peers = ["10.0.0.2:9000"]             # the other node's replication_listen

# Optional Prometheus metrics endpoint
# Exposes filesystem, LSM, and cache metrics in Prometheus format

# [prometheus]
# addresses = ["127.0.0.1:9091"]

# Optional Azure settings can be added to [azure] section

# [azure]
# storage_account_name = "${AZURE_STORAGE_ACCOUNT_NAME}"
# storage_account_key = "${AZURE_STORAGE_ACCOUNT_KEY}"

# Optional GCS (Google Cloud Storage) settings
# Use gs:// URLs with the [gcp] section

# [gcp]
# service_account = "${GCS_SERVICE_ACCOUNT}"  # Path to service account JSON file
# Or use application_credentials = "${GOOGLE_APPLICATION_CREDENTIALS}"

# Anonymous telemetry (enabled by default)
# Shares anonymous usage data (version, OS, backend type, filesystem size) to help improve ZeroFS
# No file contents, paths, or personally identifiable information is collected

# [telemetry]
# enabled = false  # Set to false to disable
"##;

fn text(s: &str) -> Value {
    Value::String(s.to_string())
}

fn addresses(set: &AddressSet) -> Value {
    let shown = set.to_vec().into_iter().map(|addr| match addr {
        SocketAddr::V4 { ipv4, port } => {
            let o = ipv4.to_be_bytes();
            text(&format!("{}.{}.{}.{}:{port}", o[0], o[1], o[2], o[3]))
        }
        SocketAddr::V6 { .. } => panic!("no such address by default"),
    });
    Value::Array(shown.collect())
}

fn server(set: &AddressSet, socket: Option<&str>) -> Value {
    let mut table = Table::new();
    table.insert("addresses".to_string(), addresses(set));
    if let Some(path) = socket {
        table.insert("unix_socket".to_string(), text(path));
    }
    Value::Table(table)
}

/// The fresh settings as a document.
fn default_toml() -> String {
    let settings = Settings::generate_default();
    let mut cache = Table::new();
    cache.insert("dir".to_string(), text(&settings.cache.dir));
    let gigabytes = |bytes: u64| Value::Float(bytes as f64 / 1_000_000_000.0);
    cache.insert("disk_size_gb".to_string(), gigabytes(settings.cache.disk_size_bytes));
    let memory = settings.cache.memory_size_bytes.unwrap();
    cache.insert("memory_size_gb".to_string(), gigabytes(memory));
    let warm = match settings.cache.warm_metadata {
        WarmMetadata::Off => "off",
        WarmMetadata::FiltersIndex => "filters_index",
        WarmMetadata::Full => "full",
    };
    cache.insert("warm_metadata".to_string(), text(warm));

    let mut storage = Table::new();
    storage.insert("url".to_string(), text(&settings.storage.url));
    storage.insert(
        "encryption_password".to_string(),
        text(&settings.storage.encryption_password),
    );

    let configured = settings.servers.unwrap();
    let mut servers = Table::new();
    let nfs = configured.nfs.unwrap();
    servers.insert("nfs".to_string(), server(&nfs.addresses.unwrap(), None));
    let ninep = configured.ninep.unwrap();
    servers.insert(
        "ninep".to_string(),
        server(&ninep.addresses.unwrap(), ninep.unix_socket.as_deref()),
    );
    let nbd = configured.nbd.unwrap();
    servers.insert(
        "nbd".to_string(),
        server(&nbd.addresses.unwrap(), nbd.unix_socket.as_deref()),
    );
    let rpc = configured.rpc.unwrap();
    servers.insert(
        "rpc".to_string(),
        server(&rpc.addresses.unwrap(), rpc.unix_socket.as_deref()),
    );

    let webui = configured.webui.unwrap();
    let mut section = Table::new();
    section.insert("addresses".to_string(), addresses(&webui.addresses));
    section.insert("uid".to_string(), Value::Integer(webui.uid.into()));
    section.insert("gid".to_string(), Value::Integer(webui.gid.into()));
    servers.insert("webui".to_string(), Value::Table(section));

    let mut aws = Table::new();
    for (key, value) in settings.aws.unwrap().0.to_vec() {
        aws.insert(key, text(&value));
    }

    let mut doc = Table::new();
    doc.insert("cache".to_string(), Value::Table(cache));
    doc.insert("storage".to_string(), Value::Table(storage));
    doc.insert("servers".to_string(), Value::Table(servers));
    doc.insert("aws".to_string(), Value::Table(aws));
    toml::to_string_pretty(&doc).unwrap()
}

// The generated config must not resurrect the deprecated keys, nor
// advertise the [wal] section (accepted only for upgraded 1.x volumes;
// new volumes never write a WAL).
#[test]
fn test_generated_config_omits_deprecated_lsm_keys() {
    let rendered = Settings::render_default_config("2.0.0", &default_toml());
    assert!(!rendered.contains("wal_enabled"));
    assert!(!rendered.contains("max_unflushed_gb"));
    assert!(!rendered.contains("[wal]"));
}

#[test]
fn the_generated_file_still_holds_the_settings() {
    let rendered = Settings::render_default_config("2.0.0", &default_toml());
    let read: Table = rendered.parse().unwrap();
    assert_eq!(read, default_toml().parse::<Table>().unwrap());
    let nfs = read["servers"]["nfs"]["addresses"].as_array().unwrap();
    assert!(nfs.contains(&text("127.0.0.1:2049")));
}

#[test]
fn everything_that_is_added_is_a_comment() {
    let toml = default_toml();
    let rendered = Settings::render_default_config("2.0.0", &toml);
    let settings: Vec<&str> = toml.split('\n').collect();
    let mut comments = 0;
    for line in rendered.split('\n').filter(|line| !settings.contains(line)) {
        assert!(line.trim_start_matches(' ').starts_with('#'), "not a comment: {line}");
        comments += 1;
    }
    assert!(comments > 100);
    // Where the warming line does not have a line to itself, a hint can end up
    // behind something else.
    let odd = "xwarm_metadata = \"filters_index\"\n";
    let rendered = Settings::render_default_config("2.0.0", odd);
    assert!(rendered.contains("\nx# Keep the metadata block cache warm"));
}

#[test]
fn the_file_is_put_together_in_order() {
    assert_eq!(
        Settings::render_default_config("9.9", "a = 1\n"),
        format!("{HEAD}9.9{GUIDE}a = 1\n{HINTS}")
    );
    assert!(HEAD.starts_with("# ZeroFS Configuration File\n# Generated by ZeroFS v"));
    assert!(GUIDE.contains("#   - ${VAR} or $VAR  : Environment variable substitution\n"));
    assert!(HINTS.ends_with("# [telemetry]\n# enabled = false  # Set to false to disable\n"));
}

#[test]
fn every_occurrence_gets_its_hint() {
    let password = "encryption_password = \"${ZEROFS_PASSWORD}\"\n";
    let warm = "warm_metadata = \"filters_index\"\n";
    let toml = format!("{warm}x\n{password}{password}{warm}");
    assert_eq!(
        Settings::render_default_config("1", &toml),
        format!(
            "{HEAD}1{GUIDE}{WARM_LINE_WITH_HINT}x\n{PASSWORD_LINE_WITH_HINT}\
             {PASSWORD_LINE_WITH_HINT}{WARM_LINE_WITH_HINT}{HINTS}"
        )
    );
    // A line that says something else is left alone.
    let other = "warm_metadata = \"full\"\n";
    assert_eq!(
        Settings::render_default_config("1", other),
        format!("{HEAD}1{GUIDE}{other}{HINTS}")
    );
}

#[test]
fn rendering_takes_nothing_away() {
    let toml = default_toml();
    let rendered = Settings::render_default_config("2.0.0", &toml);
    let mut rest = rendered.chars();
    assert!(toml.chars().all(|c| rest.any(|r| r == c)));
}
