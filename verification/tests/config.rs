use toml::{Table, Value};
use zerofs::address::{
    default_prometheus_addresses, default_webui_addresses, expand_socket_addrs, AddressSet,
    SocketAddr,
};
use zerofs::compression::CompressionConfig;
use zerofs::expand::{expand_optional_string, expand_string, expand_string_vec};
use zerofs::provider::{expand_section, AwsConfig, AzureConfig, GcsConfig, Section, WalConfig};
use zerofs::replication::{
    ReplicationConfig, ReplicationError, ReplicationRole, ReplicationWarning,
};
use zerofs::settings::{
    default_telemetry, default_true, CacheConfig, FilesystemConfig, NbdConfig, NfsConfig,
    NinePConfig, PrometheusConfig, RpcConfig, RpcConfigError, ServerConfig, Settings,
    SettingsError, SettingsWarning, StorageConfig, TelemetryConfig, WarmMetadata, WebUIConfig,
};
use zerofs::tuning::{DeprecatedKey, GcConfig, LsmConfig};

/// Reads `a.b.c.d:port`.
fn parse_addr(text: &String) -> Result<SocketAddr, String> {
    let bad = || "invalid socket address syntax".to_string();
    let (host, port) = text.split_once(':').ok_or_else(bad)?;
    let octets: Vec<u8> =
        host.split('.').map(|o| o.parse::<u8>()).collect::<Result<_, _>>().map_err(|_| bad())?;
    let octets: [u8; 4] = octets.try_into().map_err(|_| bad())?;
    let port: u16 = port.parse().map_err(|_| bad())?;
    Ok(SocketAddr::V4 { ipv4: u32::from_be_bytes(octets), port })
}

fn table<'a>(parent: &'a Table, key: &str) -> Option<&'a Table> {
    parent.get(key).map(|v| v.as_table().expect("a table"))
}

fn text(section: &Table, key: &str) -> Result<String, String> {
    let raw = section.get(key).and_then(Value::as_str).ok_or(format!("missing {key}"))?;
    expand_string(raw).map_err(|e| e.message())
}

fn optional(section: &Table, key: &str) -> Result<Option<String>, String> {
    let raw = section.get(key).map(|v| v.as_str().expect("a string").to_string());
    expand_optional_string(&raw).map_err(|e| e.message())
}

fn texts(section: &Table, key: &str) -> Option<Vec<String>> {
    section.get(key).map(|v| {
        let entries = v.as_array().expect("an array");
        entries.iter().map(|e| e.as_str().expect("a string").to_string()).collect()
    })
}

fn addresses(section: &Table) -> Result<Option<AddressSet>, String> {
    match texts(section, "addresses") {
        None => Ok(None),
        Some(raw) => {
            expand_socket_addrs(&raw, &parse_addr).map(Some).map_err(|e| e.message())
        }
    }
}

fn number(section: &Table, key: &str) -> Option<u64> {
    section.get(key).map(|v| v.as_integer().expect("an integer") as u64)
}

fn count(section: &Table, key: &str) -> Option<usize> {
    number(section, key).map(|n| n as usize)
}

fn flag(section: &Table, key: &str) -> Option<bool> {
    section.get(key).map(|v| v.as_bool().expect("a boolean"))
}

fn gigabytes(section: &Table, key: &str) -> Option<u64> {
    section.get(key).map(|v| (v.as_float().expect("a float") * 1_000_000_000.0) as u64)
}

fn pairs(section: Option<&Table>) -> Result<Option<Section>, String> {
    let Some(section) = section else { return Ok(None) };
    let mut raw = Section::new();
    for (key, value) in section {
        let value = value.as_str().ok_or(format!("{key} is no string"))?;
        raw.insert(key.clone(), value.to_string());
    }
    expand_section(&raw).map(Some).map_err(|e| e.message())
}

fn gc(section: &Table) -> GcConfig {
    GcConfig {
        interval_secs: number(section, "interval_secs"),
        idle_interval_secs: number(section, "idle_interval_secs"),
        read_directed: flag(section, "read_directed"),
        tail_scrub_min_dead_percent: number(section, "tail_scrub_min_dead_percent"),
        min_batches_per_pass: count(section, "min_batches_per_pass"),
        busy_backlog_interval_secs: number(section, "busy_backlog_interval_secs"),
        busy_backlog_dead_percent: number(section, "busy_backlog_dead_percent"),
        compact_round_max_mib: number(section, "compact_round_max_mib"),
    }
}

fn lsm(section: &Table) -> LsmConfig {
    LsmConfig {
        l0_max_ssts: count(section, "l0_max_ssts"),
        max_concurrent_compactions: count(section, "max_concurrent_compactions"),
        flush_interval_secs: number(section, "flush_interval_secs"),
        sync_writes: flag(section, "sync_writes"),
        wal_enabled: flag(section, "wal_enabled"),
        max_unflushed_bytes: gigabytes(section, "max_unflushed_gb"),
    }
}

fn servers(section: &Table) -> Result<ServerConfig, String> {
    Ok(ServerConfig {
        nfs: match table(section, "nfs") {
            None => None,
            Some(t) => Some(NfsConfig { addresses: addresses(t)? }),
        },
        ninep: match table(section, "ninep") {
            None => None,
            Some(t) => Some(NinePConfig {
                addresses: addresses(t)?,
                unix_socket: optional(t, "unix_socket")?,
            }),
        },
        nbd: match table(section, "nbd") {
            None => None,
            Some(t) => Some(NbdConfig {
                addresses: addresses(t)?,
                unix_socket: optional(t, "unix_socket")?,
            }),
        },
        rpc: match table(section, "rpc") {
            None => None,
            Some(t) => Some(RpcConfig {
                addresses: addresses(t)?,
                unix_socket: optional(t, "unix_socket")?,
            }),
        },
        webui: match table(section, "webui") {
            None => None,
            Some(t) => Some(WebUIConfig {
                addresses: addresses(t)?.unwrap_or_else(default_webui_addresses),
                uid: number(t, "uid").unwrap() as u32,
                gid: number(t, "gid").unwrap() as u32,
            }),
        },
    })
}

fn replication(section: &Table) -> Result<ReplicationConfig, String> {
    let role = section.get("role").and_then(Value::as_str).ok_or("missing role")?;
    Ok(ReplicationConfig {
        node_id: text(section, "node_id")?,
        role: ReplicationRole::deserialize(role).ok_or(ReplicationRole::expected())?,
        peers: expand_string_vec(&texts(section, "peers").unwrap_or_default())
            .map_err(|e| e.message())?,
        replication_listen: optional(section, "replication_listen")?,
    })
}

/// Settings from a document, checked.
fn write_and_load(content: &str) -> Result<Settings, String> {
    let doc: Table = content.parse().map_err(|e| format!("{e}"))?;
    let cache = table(&doc, "cache").unwrap();
    let storage = table(&doc, "storage").unwrap();
    let settings = Settings {
        cache: CacheConfig {
            dir: text(cache, "dir")?,
            disk_size_bytes: gigabytes(cache, "disk_size_gb").unwrap(),
            memory_size_bytes: gigabytes(cache, "memory_size_gb"),
            warm_metadata: WarmMetadata::default(),
        },
        storage: StorageConfig {
            url: text(storage, "url")?,
            encryption_password: text(storage, "encryption_password")?,
            storage_class: optional(storage, "storage_class")?,
        },
        servers: match table(&doc, "servers") {
            None => None,
            Some(t) => Some(servers(t)?),
        },
        filesystem: table(&doc, "filesystem").map(|t| FilesystemConfig {
            max_size_bytes: gigabytes(t, "max_size_gb"),
            compression: CompressionConfig::default(),
            ignore_fsync: flag(t, "ignore_fsync").unwrap_or(false),
        }),
        lsm: table(&doc, "lsm").map(lsm),
        gc: table(&doc, "gc").map(gc),
        aws: pairs(table(&doc, "aws"))?.map(AwsConfig),
        azure: pairs(table(&doc, "azure"))?.map(AzureConfig),
        gcp: pairs(table(&doc, "gcp"))?.map(GcsConfig),
        wal: match table(&doc, "wal") {
            None => None,
            Some(t) => Some(WalConfig {
                url: text(t, "url")?,
                storage_class: optional(t, "storage_class")?,
                aws: pairs(table(t, "aws"))?.map(AwsConfig),
                azure: pairs(table(t, "azure"))?.map(AzureConfig),
                gcp: pairs(table(t, "gcp"))?.map(GcsConfig),
            }),
        },
        telemetry: match table(&doc, "telemetry") {
            None => default_telemetry(),
            Some(t) => Some(TelemetryConfig {
                enabled: flag(t, "enabled").unwrap_or_else(default_true),
            }),
        },
        prometheus: match table(&doc, "prometheus") {
            None => None,
            Some(t) => Some(PrometheusConfig {
                addresses: addresses(t)?.unwrap_or_else(default_prometheus_addresses),
            }),
        },
        replication: match table(&doc, "replication") {
            None => None,
            Some(t) => Some(replication(t)?),
        },
    };
    settings.validate(&parse_addr).map_err(|e| e.message())?;
    Ok(settings)
}

fn base_config_with_replication(replication: &str) -> String {
    format!(
        r#"
[cache]
dir = "/tmp/cache"
disk_size_gb = 1.0

[storage]
url = "s3://bucket/data"
encryption_password = "test"

[servers]

{replication}
"#
    )
}

#[test]
fn test_undefined_env_var_error() {
    let config_content = r#"
[cache]
dir = "/tmp/cache"
disk_size_gb = 1.0

[storage]
url = "s3://bucket/data"
encryption_password = "${ZEROFS_TEST_UNDEFINED_VAR_THAT_SHOULD_NOT_EXIST}"

[servers]
"#;

    let result = write_and_load(config_content);
    assert!(result.is_err());
    let error = result.unwrap_err();
    assert!(
        error.contains("ZEROFS_TEST_UNDEFINED_VAR_THAT_SHOULD_NOT_EXIST"),
        "Error was: {}",
        error
    );
}

#[test]
fn test_no_replication_is_single_node() {
    let content = base_config_with_replication("");
    let settings = write_and_load(&content).unwrap();
    assert!(settings.replication.is_none());
}

#[test]
fn test_replication_defaults_validate() {
    let content = base_config_with_replication(
        r#"[replication]
node_id = "n1"
role = "leader""#,
    );
    let settings = write_and_load(&content).unwrap();
    let repl = settings.replication.unwrap();
    assert_eq!(repl.node_id, "n1");
    assert_eq!(repl.role, ReplicationRole::Leader);
}

#[test]
fn test_replication_standby_role() {
    let content = base_config_with_replication(
        r#"[replication]
node_id = "n2"
role = "standby"
replication_listen = "127.0.0.1:5599""#,
    );
    let settings = write_and_load(&content).unwrap();
    assert_eq!(settings.replication.unwrap().role, ReplicationRole::Standby);
}

#[test]
fn test_replication_standby_without_listen_rejected() {
    let content = base_config_with_replication(
        r#"[replication]
node_id = "n2"
role = "standby""#,
    );
    let err = write_and_load(&content).unwrap_err();
    assert!(err.contains("replication_listen"), "got: {err}");
}

#[test]
fn test_replication_invalid_listen_rejected() {
    let content = base_config_with_replication(
        r#"[replication]
node_id = "n1"
role = "standby"
replication_listen = "not-an-address""#,
    );
    let err = write_and_load(&content).unwrap_err();
    assert!(err.contains("socket address"), "got: {err}");
}

#[test]
fn test_replication_self_peer_rejected() {
    let content = base_config_with_replication(
        r#"[replication]
node_id = "n1"
role = "leader"
replication_listen = "127.0.0.1:5599"
peers = ["127.0.0.1:5599"]"#,
    );
    let err = write_and_load(&content).unwrap_err();
    assert!(err.contains("must not replicate to itself"), "got: {err}");
}

#[test]
fn test_replication_balanced_pair_validates() {
    let content = base_config_with_replication(
        r#"[replication]
node_id = "n1"
role = "leader"
replication_listen = "127.0.0.1:5599"
peers = ["127.0.0.1:5600"]"#,
    );
    let repl = write_and_load(&content).unwrap().replication.unwrap();
    assert_eq!(repl.peers, vec!["127.0.0.1:5600".to_string()]);
}

#[test]
fn test_replication_bad_role_rejected() {
    let content = base_config_with_replication(
        r#"[replication]
node_id = "n1"
role = "witness""#,
    );
    assert!(write_and_load(&content).is_err());
}

#[test]
fn test_replication_empty_node_id_rejected() {
    let content = base_config_with_replication(
        r#"[replication]
node_id = ""
role = "leader""#,
    );
    assert!(write_and_load(&content).is_err());
}

#[test]
fn test_ignore_fsync_parses() {
    let content = base_config_with_replication(
        r#"[filesystem]
ignore_fsync = true"#,
    );
    let settings = write_and_load(&content).unwrap();
    assert!(settings.filesystem.unwrap().ignore_fsync);
}

#[test]
fn gc_section_parses_defaults_and_clamps() {
    let from_str = |s: &str| gc(&s.parse::<Table>().unwrap());
    // Absent section: every accessor returns the historical behavior.
    let gc: GcConfig = from_str("");
    assert_eq!(gc.interval_secs(), GcConfig::DEFAULT_INTERVAL_SECS);
    assert_eq!(gc.idle_interval_secs(), GcConfig::DEFAULT_IDLE_INTERVAL_SECS);
    assert!(gc.read_directed());
    assert_eq!(
        gc.tail_scrub_min_dead_percent(),
        Some(GcConfig::DEFAULT_TAIL_SCRUB_MIN_DEAD_PERCENT)
    );
    assert_eq!(gc.min_batches_per_pass(), GcConfig::DEFAULT_MIN_BATCHES_PER_PASS);
    assert_eq!(gc.busy_backlog_interval_secs(), GcConfig::DEFAULT_BUSY_BACKLOG_INTERVAL_SECS);
    assert_eq!(gc.busy_backlog_dead_percent(), GcConfig::DEFAULT_BUSY_BACKLOG_DEAD_PERCENT);
    assert_eq!(gc.compact_round_bytes(), GcConfig::DEFAULT_COMPACT_ROUND_MAX_MIB << 20);

    // Out-of-range values clamp silently
    let gc: GcConfig = from_str(
        "interval_secs = 2\nidle_interval_secs = 30\n\
         tail_scrub_min_dead_percent = 90\nread_directed = false\n\
         min_batches_per_pass = 0\nbusy_backlog_interval_secs = 999\n\
         compact_round_max_mib = 999999\n",
    );
    assert_eq!(gc.interval_secs(), GcConfig::MIN_INTERVAL_SECS);
    assert_eq!(gc.idle_interval_secs(), GcConfig::MIN_INTERVAL_SECS);
    assert_eq!(gc.tail_scrub_min_dead_percent(), Some(50));
    assert!(!gc.read_directed());
    // min_batches floors at 1; busy-backlog caps at interval_secs; round
    // budget caps at the RAM ceiling.
    assert_eq!(gc.min_batches_per_pass(), 1);
    assert_eq!(gc.busy_backlog_interval_secs(), gc.interval_secs());
    assert_eq!(gc.compact_round_bytes(), GcConfig::MAX_COMPACT_ROUND_MAX_MIB << 20);

    // Lower clamps: round budget floors at 64 MiB, busy-backlog interval at
    // the flush floor (MIN_INTERVAL_SECS).
    let gc: GcConfig = from_str("compact_round_max_mib = 1\nbusy_backlog_interval_secs = 1\n");
    assert_eq!(gc.compact_round_bytes(), GcConfig::MIN_COMPACT_ROUND_MAX_MIB << 20);
    assert_eq!(gc.busy_backlog_interval_secs(), GcConfig::MIN_INTERVAL_SECS);

    // 0 is off, not a clamp to the most aggressive floor.
    let gc: GcConfig = from_str("tail_scrub_min_dead_percent = 0");
    assert_eq!(gc.tail_scrub_min_dead_percent(), None);

    // A [gc] table parses as part of Settings.
    let content = base_config_with_replication(
        r#"[gc]
interval_secs = 120
tail_scrub_min_dead_percent = 10"#,
    );
    let settings = write_and_load(&content).unwrap();
    let gc = settings.gc.unwrap();
    assert_eq!(gc.interval_secs(), 120);
    assert_eq!(gc.tail_scrub_min_dead_percent(), Some(10));
}

#[test]
fn test_wal_section_still_parses() {
    let content = base_config_with_replication(
        r#"[wal]
url = "file:///mnt/nvme/zerofs-wal""#,
    );
    let settings = write_and_load(&content).unwrap();
    assert_eq!(
        settings.wal.as_ref().map(|w| w.url.as_str()),
        Some("file:///mnt/nvme/zerofs-wal")
    );
}

#[test]
fn test_ignore_fsync_with_sync_writes_rejected() {
    let content = base_config_with_replication(
        r#"[filesystem]
ignore_fsync = true

[lsm]
sync_writes = true"#,
    );
    let err = write_and_load(&content).unwrap_err();
    assert!(err.contains("contradictory"), "got: {err}");
}

#[test]
fn replication_role_round_trips() {
    let quoted = |s: &str| format!("{s:?}");
    let parse = |s: &str| ReplicationRole::deserialize(s.trim_matches('"')).unwrap();
    for role in [ReplicationRole::Leader, ReplicationRole::Standby] {
        let s = quoted(role.serialize());
        assert_eq!(parse(&s), role);
    }
    assert_eq!(quoted(ReplicationRole::Standby.serialize()), "\"standby\"");
}

// Asymmetric (peers set, listen unset) is usable for the initial role, so it
// validates with only a degraded-HA warning rather than an error.
#[test]
fn replication_leader_with_peers_but_no_listen_validates() {
    let content = base_config_with_replication(
        r#"[replication]
node_id = "n1"
role = "leader"
peers = ["127.0.0.1:5600"]"#,
    );
    let settings = write_and_load(&content).unwrap();
    let warnings = settings.warnings_given(&None);
    assert_eq!(warnings.len(), 1);
    assert_eq!(
        warnings[0].message(),
        "[replication] node \"n1\" has peers but no replication_listen, so it cannot receive \
         ships if demoted to a follower; HA will be degraded across a role swap (configure both \
         peers and replication_listen for a balanced pair)"
    );
    let repl = settings.replication.unwrap();
    assert!(repl.replication_listen.is_none());
    assert_eq!(repl.peers, vec!["127.0.0.1:5600".to_string()]);
}

#[test]
fn replication_empty_peer_entry_rejected() {
    let content = base_config_with_replication(
        r#"[replication]
node_id = "n1"
role = "leader"
replication_listen = "127.0.0.1:5599"
peers = ["127.0.0.1:5600", ""]"#,
    );
    let err = write_and_load(&content).unwrap_err();
    assert!(err.contains("empty entry"), "got: {err}");
}

fn refused() -> Option<String> {
    Some("no such syntax".to_string())
}

fn node(role: ReplicationRole, listen: Option<&str>, peers: &[&str]) -> ReplicationConfig {
    ReplicationConfig {
        node_id: "n1".to_string(),
        role,
        peers: peers.iter().map(|p| p.to_string()).collect(),
        replication_listen: listen.map(String::from),
    }
}

#[test]
fn a_node_is_itself_behind_any_url_scheme() {
    let own = Some("127.0.0.1:5599");
    for peer in [
        "http://127.0.0.1:5599",
        "https://127.0.0.1:5599",
        "http://https://127.0.0.1:5599",
        "http://http://127.0.0.1:5599",
    ] {
        let err = node(ReplicationRole::Leader, own, &[peer]).check(&None).unwrap_err();
        assert!(matches!(&err, ReplicationError::SelfPeer { peer: p } if p == peer));
    }
    // The schemes are taken off in this order, once each run of them.
    assert!(node(ReplicationRole::Leader, own, &["https://http://127.0.0.1:5599"])
        .check(&None)
        .is_ok());
    // Without a listen address no peer is the node itself.
    assert!(node(ReplicationRole::Leader, None, &["127.0.0.1:5599"]).check(&None).is_ok());
}

#[test]
fn blank_is_as_good_as_empty() {
    for blank in ["", " ", "\t\n", "\u{a0}\u{3000}\u{2003}"] {
        let mut config = node(ReplicationRole::Leader, None, &[]);
        config.node_id = blank.to_string();
        assert!(matches!(config.check(&None), Err(ReplicationError::EmptyNodeId)));
        assert!(matches!(
            node(ReplicationRole::Leader, None, &["a:1", blank]).check(&None),
            Err(ReplicationError::EmptyPeer)
        ));
    }
    for c in (0..=0x3100u32).filter_map(char::from_u32) {
        let mut config = node(ReplicationRole::Leader, None, &[]);
        config.node_id = c.to_string();
        assert_eq!(config.check(&None).is_err(), c.is_whitespace(), "{c:?}");
    }
}

#[test]
fn the_first_fault_of_a_replication_section_is_reported() {
    let mut config = node(ReplicationRole::Standby, None, &[""]);
    assert!(matches!(config.check(&refused()), Err(ReplicationError::StandbyWithoutListen)));
    config.replication_listen = Some("nowhere".to_string());
    assert!(matches!(
        config.check(&refused()),
        Err(ReplicationError::InvalidListen { listen, reason })
            if listen == "nowhere" && reason == "no such syntax"
    ));
    assert!(matches!(config.check(&None), Err(ReplicationError::EmptyPeer)));
    config.peers = vec!["nowhere".to_string(), "".to_string()];
    assert!(matches!(config.check(&None), Err(ReplicationError::SelfPeer { .. })));
    config.node_id = " ".to_string();
    assert!(matches!(config.check(&None), Err(ReplicationError::EmptyNodeId)));
}

#[test]
fn a_refused_replication_section_says_why() {
    assert_eq!(
        ReplicationError::EmptyNodeId.message(),
        "[replication] node_id must not be empty"
    );
    assert_eq!(
        ReplicationError::StandbyWithoutListen.message(),
        "[replication] role = \"standby\" requires replication_listen (the address it \
         receives the leader's ships on)"
    );
    assert_eq!(
        ReplicationError::InvalidListen {
            listen: "a\"b".to_string(),
            reason: "why".to_string(),
        }
        .message(),
        "[replication] replication_listen \"a\\\"b\" is not a valid socket address \
         (expected host:port): why"
    );
    assert_eq!(
        ReplicationError::EmptyPeer.message(),
        "[replication] peers must not contain an empty entry"
    );
    assert_eq!(
        ReplicationError::SelfPeer { peer: "me:1".to_string() }.message(),
        "[replication] peer \"me:1\" is this node's own replication_listen; a \
         node must not replicate to itself"
    );
    let refused = SettingsError::Replication(ReplicationError::EmptyNodeId);
    assert_eq!(
        refused.message(),
        "Invalid [replication] configuration: [replication] node_id must not be empty"
    );
    assert_eq!(
        SettingsError::FsyncContradiction.message(),
        "[filesystem] ignore_fsync and [lsm] sync_writes are contradictory: \
         sync_writes flushes after every write, ignore_fsync skips the fsync flush"
    );
}

#[test]
fn only_a_one_directional_node_is_warned_of() {
    let listen = Some("a:1");
    let warning = |listen, peers: &[&str]| node(ReplicationRole::Leader, listen, peers).warning();
    assert_eq!(warning(None, &[]), None);
    assert_eq!(warning(listen, &["b:1"]), None);
    assert_eq!(warning(None, &["b:1"]), Some(ReplicationWarning::PeersWithoutListen));
    assert_eq!(warning(listen, &[]), Some(ReplicationWarning::ListenWithoutPeers));
    assert_eq!(
        ReplicationWarning::ListenWithoutPeers.detail(),
        "has replication_listen but no peers, so if promoted to leader it has nowhere to ship"
    );
}

#[test]
fn roles_are_read_letter_for_letter() {
    for text in ["Leader", "leader ", "", "follower", "standbys"] {
        assert_eq!(ReplicationRole::deserialize(text), None);
    }
    assert_eq!(ReplicationRole::expected(), "\"leader\" or \"standby\"");
}

#[test]
fn deprecated_lsm_keys_load_with_a_warning() {
    let content = base_config_with_replication(
        r#"[lsm]
wal_enabled = true
max_unflushed_gb = 2.0
flush_interval_secs = 30"#,
    );
    let settings = write_and_load(&content).unwrap();
    let lsm = settings.lsm.unwrap();
    assert_eq!(lsm.wal_enabled, Some(true));
    assert_eq!(lsm.max_unflushed_bytes, Some(2_000_000_000));
    assert_eq!(lsm.flush_interval_secs, Some(30));
    assert_eq!(
        lsm.deprecated_keys(),
        vec![DeprecatedKey::WalEnabled, DeprecatedKey::MaxUnflushed]
    );
    let messages: Vec<String> = settings.warnings_given(&None).iter().map(|w| w.message()).collect();
    assert_eq!(
        messages,
        vec![
            "[lsm] wal_enabled is deprecated and ignored (the WAL is permanently off); \
             remove it from the config",
            "[lsm] max_unflushed_gb is deprecated and ignored (it tuned the removed WAL); \
             remove it from the config",
        ]
    );
}

#[test]
fn refused_settings_are_not_nagged_about_deprecated_keys() {
    let content = base_config_with_replication(
        r#"[lsm]
wal_enabled = false"#,
    );
    let mut settings = write_and_load(&content).unwrap();
    settings.replication = Some(node(ReplicationRole::Leader, Some("a:1"), &[]));
    let warnings = settings.warnings_given(&None);
    assert_eq!(warnings.len(), 2);
    assert!(matches!(
        &warnings[0],
        SettingsWarning::Replication { node_id, warning: ReplicationWarning::ListenWithoutPeers }
            if node_id == "n1"
    ));
    assert!(matches!(warnings[1], SettingsWarning::Deprecated(DeprecatedKey::WalEnabled)));
    assert_eq!(settings.warnings_given(&refused()).len(), 0);

    settings.filesystem = Some(FilesystemConfig {
        max_size_bytes: None,
        compression: CompressionConfig::Lz4,
        ignore_fsync: true,
    });
    settings.lsm.as_mut().unwrap().sync_writes = Some(true);
    assert!(matches!(settings.check(&None), Err(SettingsError::FsyncContradiction)));
    assert_eq!(settings.warnings_given(&None).len(), 1);
}

#[test]
fn lsm_knobs_have_defaults_and_floors() {
    let unset = lsm(&Table::new());
    assert_eq!(unset.l0_max_ssts(), 256);
    assert_eq!(unset.max_concurrent_compactions(), 2);
    assert_eq!(unset.flush_interval_secs(), 30);
    assert!(!unset.sync_writes());
    assert!(unset.deprecated_keys().is_empty());
    let low = LsmConfig {
        l0_max_ssts: Some(0),
        max_concurrent_compactions: Some(0),
        flush_interval_secs: Some(1),
        sync_writes: Some(true),
        ..unset
    };
    assert_eq!(low.l0_max_ssts(), 4);
    assert_eq!(low.max_concurrent_compactions(), 1);
    assert_eq!(low.flush_interval_secs(), 5);
    assert!(low.sync_writes());
    let high = LsmConfig { l0_max_ssts: Some(1000), flush_interval_secs: Some(600), ..unset };
    assert_eq!(high.l0_max_ssts(), 1000);
    assert_eq!(high.flush_interval_secs(), 600);
}

#[test]
fn gc_tiers_switch_off_at_the_pass_interval() {
    let gc = GcConfig {
        interval_secs: Some(20),
        idle_interval_secs: Some(20),
        busy_backlog_interval_secs: Some(21),
        busy_backlog_dead_percent: Some(150),
        ..GcConfig::default()
    };
    assert_eq!(gc.idle_interval_secs(), gc.interval_secs());
    assert_eq!(gc.busy_backlog_interval_secs(), gc.interval_secs());
    assert_eq!(gc.busy_backlog_dead_percent(), 100);
    let kept = GcConfig {
        idle_interval_secs: Some(7),
        min_batches_per_pass: Some(9),
        compact_round_max_mib: Some(100),
        ..GcConfig::default()
    };
    assert_eq!(kept.idle_interval_secs(), 7);
    assert_eq!(kept.min_batches_per_pass(), 9);
    assert_eq!(kept.compact_round_bytes(), 100 * 1024 * 1024);
}

#[test]
fn the_size_limit_is_everything_unless_set() {
    let mut settings = write_and_load(&base_config_with_replication("")).unwrap();
    assert_eq!(settings.max_bytes(), u64::MAX);
    assert_eq!(settings.compression(), CompressionConfig::Zstd(3));
    let mut filesystem = FilesystemConfig {
        max_size_bytes: None,
        compression: CompressionConfig::Lz4,
        ignore_fsync: false,
    };
    assert_eq!(filesystem.max_bytes(), u64::MAX);
    filesystem.max_size_bytes = Some(100_000_000_000);
    settings.filesystem = Some(filesystem);
    assert_eq!(settings.max_bytes(), 100_000_000_000);
    assert_eq!(settings.compression(), CompressionConfig::Lz4);
}

#[test]
fn an_rpc_client_needs_an_rpc_server() {
    let mut settings = Settings::generate_default();
    assert_eq!(
        settings.rpc_config().unwrap().unix_socket.as_deref(),
        Some("/tmp/zerofs.rpc.sock")
    );
    settings.servers.as_mut().unwrap().rpc = None;
    let err = settings.rpc_config().unwrap_err();
    assert_eq!(err, RpcConfigError::NoRpc);
    assert_eq!(err.message(), "RPC server not configured in config file");
    settings.servers = None;
    let err = settings.rpc_config().unwrap_err();
    assert_eq!(err.message(), "RPC server not configured in config file (no servers block)");
}

#[test]
fn fresh_settings_are_complete_and_accepted() {
    let settings = Settings::generate_default();
    assert!(settings.check(&None).is_ok());
    assert!(settings.warnings_given(&None).is_empty());
    assert_eq!(settings.cache.dir, "${HOME}/.cache/zerofs");
    assert_eq!(settings.cache.disk_size_bytes, 10_000_000_000);
    assert_eq!(settings.cache.memory_size_bytes, Some(1_000_000_000));
    assert_eq!(settings.cache.warm_metadata, WarmMetadata::FiltersIndex);
    assert_eq!(settings.storage.url, "s3://your-bucket/zerofs-data");
    assert_eq!(settings.storage.encryption_password, "${ZEROFS_PASSWORD}");
    let servers = settings.servers.unwrap();
    assert_eq!(servers.nfs.unwrap().addresses.unwrap().len(), 1);
    assert_eq!(servers.ninep.unwrap().unix_socket.unwrap(), "/tmp/zerofs.9p.sock");
    assert_eq!(servers.nbd.unwrap().unix_socket.unwrap(), "/tmp/zerofs.nbd.sock");
    let webui = servers.webui.unwrap();
    assert_eq!((webui.uid, webui.gid), (1000, 1000));
    assert!(settings.filesystem.is_none() && settings.wal.is_none());
    assert!(settings.telemetry.is_none() && settings.replication.is_none());
}

#[test]
fn telemetry_is_on_unless_switched_off() {
    let settings = write_and_load(&base_config_with_replication("")).unwrap();
    assert_eq!(settings.telemetry, Some(TelemetryConfig { enabled: true }));
    let off = base_config_with_replication("[telemetry]\nenabled = false");
    assert_eq!(write_and_load(&off).unwrap().telemetry, Some(TelemetryConfig { enabled: false }));
    let silent = base_config_with_replication("[telemetry]");
    assert!(write_and_load(&silent).unwrap().telemetry.unwrap().enabled);
}

#[test]
fn no_server_is_configured_by_default() {
    let servers = ServerConfig::default();
    assert!(servers.nfs.is_none() && servers.ninep.is_none() && servers.nbd.is_none());
    assert!(servers.rpc.is_none() && servers.webui.is_none());
}

#[test]
fn the_listen_address_is_what_is_read() {
    let only = |s: &String| -> Result<SocketAddr, String> {
        if s == "good" {
            Ok(SocketAddr::V4 { ipv4: 1, port: 2 })
        } else {
            Err(format!("not {s}"))
        }
    };
    let config = node(ReplicationRole::Standby, Some("good"), &[]);
    assert_eq!(config.listen_refusal(&only), None);
    assert!(config.validate(&only).is_ok());
    let config = node(ReplicationRole::Standby, Some("bad"), &["good"]);
    assert_eq!(config.listen_refusal(&only), Some("not bad".to_string()));
    assert!(matches!(
        config.validate(&only),
        Err(ReplicationError::InvalidListen { reason, .. }) if reason == "not bad"
    ));
    assert_eq!(node(ReplicationRole::Leader, None, &["bad"]).listen_refusal(&only), None);

    let mut settings = Settings::generate_default();
    assert_eq!(settings.listen_refusal(&only), None);
    settings.replication = Some(config);
    assert_eq!(settings.listen_refusal(&only), Some("not bad".to_string()));
    assert!(settings.warnings(&only).is_empty());
    assert_eq!(
        settings.validate(&only).unwrap_err().message(),
        "Invalid [replication] configuration: [replication] replication_listen \"bad\" is not a \
         valid socket address (expected host:port): not bad"
    );
    settings.replication = Some(node(ReplicationRole::Standby, Some("good"), &[]));
    assert_eq!(settings.warnings(&only).len(), 1);
}
