//! The settings of a server as a whole.

use vstd::prelude::*;
use vstd::string::*;

use crate::address::{
    default_9p_addresses, default_nbd_addresses, default_nfs_addresses, default_rpc_addresses,
    default_webui_addresses, AddressSet, SocketAddr,
};
#[allow(unused_imports)]
use crate::address::localhost;
use crate::compression::CompressionConfig;
use crate::provider::{options_of, AwsConfig, AzureConfig, GcsConfig, Section, WalConfig};
#[allow(unused_imports)]
use crate::provider::{distinct_keys, pair_texts, provider_options, with_pair};
use crate::replication::{ReplicationConfig, ReplicationError, ReplicationWarning};
#[allow(unused_imports)]
use crate::text::{a_text_occurs_between_others, debug_quoted, occurs, optional_text};
use crate::text::debug_text;
#[allow(unused_imports)]
use crate::tuning::deprecated_settings_are_reported;
use crate::tuning::{DeprecatedKey, GcConfig, LsmConfig};

verus! {

/// What block-cache content to warm for the metadata segment at startup.
#[derive(Debug, Clone, Copy, PartialEq, Eq, Structural)]
pub enum WarmMetadata {
    /// Don't warm anything on startup.
    Off,
    /// Warm the metadata SST filters and indexes only (small, bounded).
    FiltersIndex,
    /// Also warm the metadata data blocks.
    Full,
}

impl Default for WarmMetadata {
    /// Filters and indexes.
    fn default() -> (warm: WarmMetadata)
        ensures
            warm == WarmMetadata::FiltersIndex,
    {
        WarmMetadata::FiltersIndex
    }
}

/// The `[cache]` section. Sizes are held in bytes.
#[derive(Debug, Clone)]
pub struct CacheConfig {
    /// Where the caches live.
    pub dir: String,
    /// Size of the disk cache.
    pub disk_size_bytes: u64,
    /// Size of the memory cache.
    pub memory_size_bytes: Option<u64>,
    /// What to warm at startup.
    pub warm_metadata: WarmMetadata,
}

/// The `[storage]` section.
#[derive(Debug, Clone)]
pub struct StorageConfig {
    /// The object store's URL.
    pub url: String,
    /// The password that protects the encryption key.
    pub encryption_password: String,
    /// Object storage class/tier for data writes, passed through verbatim.
    pub storage_class: Option<String>,
}

/// The `[filesystem]` section.
#[derive(Debug, Clone)]
pub struct FilesystemConfig {
    /// Limit on the size of the filesystem, in bytes.
    pub max_size_bytes: Option<u64>,
    /// Compression algorithm for extent data.
    pub compression: CompressionConfig,
    /// Treat `fsync` as a no-op. Intended for HA, where semi-sync replication
    /// already holds the write on the standby.
    pub ignore_fsync: bool,
}

impl FilesystemConfig {
    /// The limit in force: what is configured, or everything.
    pub open spec fn limit(self) -> u64 {
        match self.max_size_bytes {
            Some(bytes) => bytes,
            None => u64::MAX,
        }
    }

    /// The limit on the size of the filesystem.
    pub fn max_bytes(&self) -> (bytes: u64)
        ensures
            bytes == self.limit(),
    {
        self.max_size_bytes.unwrap_or(u64::MAX)
    }
}

/// The `[servers]` section: a server that is absent is not started.
#[derive(Debug, Clone)]
pub struct ServerConfig {
    /// The NFS server.
    pub nfs: Option<NfsConfig>,
    /// The 9P server.
    pub ninep: Option<NinePConfig>,
    /// The NBD server.
    pub nbd: Option<NbdConfig>,
    /// The admin RPC server.
    pub rpc: Option<RpcConfig>,
    /// The web interface.
    pub webui: Option<WebUIConfig>,
}

impl Default for ServerConfig {
    /// No server at all.
    fn default() -> (servers: ServerConfig)
        ensures
            servers.nfs is None,
            servers.ninep is None,
            servers.nbd is None,
            servers.rpc is None,
            servers.webui is None,
    {
        ServerConfig { nfs: None, ninep: None, nbd: None, rpc: None, webui: None }
    }
}

/// The `[servers.webui]` section.
#[derive(Debug, Clone)]
pub struct WebUIConfig {
    /// Where it listens.
    pub addresses: AddressSet,
    /// The user it acts as.
    pub uid: u32,
    /// The group it acts as.
    pub gid: u32,
}

/// The `[servers.nfs]` section.
#[derive(Debug, Clone)]
pub struct NfsConfig {
    /// Where it listens.
    pub addresses: Option<AddressSet>,
}

/// The `[servers.ninep]` section.
#[derive(Debug, Clone)]
pub struct NinePConfig {
    /// Where it listens.
    pub addresses: Option<AddressSet>,
    /// The Unix socket it listens on.
    pub unix_socket: Option<String>,
}

/// The `[servers.nbd]` section.
#[derive(Debug, Clone)]
pub struct NbdConfig {
    /// Where it listens.
    pub addresses: Option<AddressSet>,
    /// The Unix socket it listens on.
    pub unix_socket: Option<String>,
}

/// The `[servers.rpc]` section.
#[derive(Debug, Clone)]
pub struct RpcConfig {
    /// Where it listens.
    pub addresses: Option<AddressSet>,
    /// The Unix socket it listens on.
    pub unix_socket: Option<String>,
}

/// The `[telemetry]` section.
#[derive(Debug, Clone, Copy, PartialEq, Eq, Structural)]
pub struct TelemetryConfig {
    /// Whether anonymous usage data is shared.
    pub enabled: bool,
}

/// Telemetry is on in a `[telemetry]` section that does not say.
pub fn default_true() -> (on: bool)
    ensures
        on,
{
    true
}

/// Telemetry is on where there is no `[telemetry]` section.
pub fn default_telemetry() -> (telemetry: Option<TelemetryConfig>)
    ensures
        telemetry == Some(TelemetryConfig { enabled: true }),
{
    Some(TelemetryConfig { enabled: true })
}

/// The `[prometheus]` section.
#[derive(Debug, Clone)]
pub struct PrometheusConfig {
    /// Where the endpoint listens.
    pub addresses: AddressSet,
}

/// Everything that is configured.
#[derive(Debug, Clone)]
pub struct Settings {
    /// Caches.
    pub cache: CacheConfig,
    /// The object store.
    pub storage: StorageConfig,
    /// Servers.
    pub servers: Option<ServerConfig>,
    /// The filesystem.
    pub filesystem: Option<FilesystemConfig>,
    /// LSM engine tuning.
    pub lsm: Option<LsmConfig>,
    /// Garbage-collection tuning.
    pub gc: Option<GcConfig>,
    /// AWS options.
    pub aws: Option<AwsConfig>,
    /// Azure options.
    pub azure: Option<AzureConfig>,
    /// GCS options.
    pub gcp: Option<GcsConfig>,
    /// Location of a pre-2.0 volume's separate WAL store.
    pub wal: Option<WalConfig>,
    /// Telemetry.
    pub telemetry: Option<TelemetryConfig>,
    /// Metrics.
    pub prometheus: Option<PrometheusConfig>,
    /// HA replication. Absent means single-node.
    pub replication: Option<ReplicationConfig>,
}

/// Why settings are refused.
#[derive(Debug)]
pub enum SettingsError {
    /// The `[replication]` section is refused.
    Replication(ReplicationError),
    /// `[filesystem] ignore_fsync` together with `[lsm] sync_writes`.
    FsyncContradiction,
}

impl SettingsError {
    /// The error, in words.
    pub open spec fn text(self) -> Seq<char> {
        match self {
            SettingsError::Replication(error) => "Invalid [replication] configuration: "@
                + error.text(debug_quoted(error.subject())),
            SettingsError::FsyncContradiction =>
                "[filesystem] ignore_fsync and [lsm] sync_writes are contradictory: sync_writes flushes after every write, ignore_fsync skips the fsync flush"@,
        }
    }

    /// The error, in words.
    pub fn message(&self) -> (s: String)
        ensures
            s@ == self.text(),
    {
        match self {
            SettingsError::Replication(error) => {
                let mut s = "Invalid [replication] configuration: ".to_owned();
                s.append(error.message().as_str());
                s
            },
            SettingsError::FsyncContradiction =>
                "[filesystem] ignore_fsync and [lsm] sync_writes are contradictory: sync_writes flushes after every write, ignore_fsync skips the fsync flush".to_owned(),
        }
    }
}

/// What the operator should know of settings that are otherwise usable.
#[derive(Debug)]
pub enum SettingsWarning {
    /// A replicated node lacks something for a role swap.
    Replication {
        /// The node.
        node_id: String,
        /// What it lacks.
        warning: ReplicationWarning,
    },
    /// A setting is there that does nothing any more.
    Deprecated(DeprecatedKey),
}

impl SettingsWarning {
    /// The node that the warning is about.
    pub open spec fn subject(self) -> Seq<char> {
        match self {
            SettingsWarning::Replication { node_id, warning } => node_id@,
            SettingsWarning::Deprecated(_) => seq![],
        }
    }

    /// The warning, in words, with the node shown as `quoted`.
    pub open spec fn text(self, quoted: Seq<char>) -> Seq<char> {
        match self {
            SettingsWarning::Replication { node_id, warning } => "[replication] node "@ + quoted
                + " "@ + warning.text()
                + "; HA will be degraded across a role swap (configure both peers and replication_listen for a balanced pair)"@,
            SettingsWarning::Deprecated(key) => key.text(),
        }
    }

    /// The warning, in words, with the node shown as `quoted`.
    pub fn message_quoting(&self, quoted: &str) -> (s: String)
        ensures
            s@ == self.text(quoted@),
    {
        match self {
            SettingsWarning::Replication { node_id: _, warning } => {
                let mut s = "[replication] node ".to_owned();
                s.append(quoted);
                s.append(" ");
                s.append(warning.detail());
                s.append(
                    "; HA will be degraded across a role swap (configure both peers and replication_listen for a balanced pair)",
                );
                s
            },
            SettingsWarning::Deprecated(key) => key.message().to_owned(),
        }
    }

    /// The warning, in words.
    pub fn message(&self) -> (s: String)
        ensures
            s@ == self.text(debug_quoted(self.subject())),
    {
        let quoted = match self {
            SettingsWarning::Replication { node_id, warning: _ } => debug_text(node_id.as_str()),
            SettingsWarning::Deprecated(_) => debug_text(""),
        };
        proof {
            reveal_strlit("");
            assert(""@ =~= Seq::empty());
        }
        self.message_quoting(quoted.as_str())
    }
}

/// Why there is no RPC server to talk to.
#[derive(Debug, Clone, Copy, PartialEq, Eq, Structural)]
pub enum RpcConfigError {
    /// There is no `[servers]` section.
    NoServers,
    /// There is no `[servers.rpc]` section.
    NoRpc,
}

impl RpcConfigError {
    /// The error, in words.
    pub open spec fn text(self) -> Seq<char> {
        match self {
            RpcConfigError::NoServers =>
                "RPC server not configured in config file (no servers block)"@,
            RpcConfigError::NoRpc => "RPC server not configured in config file"@,
        }
    }

    /// The error, in words.
    pub fn message(&self) -> (s: &'static str)
        ensures
            s@ == self.text(),
    {
        match self {
            RpcConfigError::NoServers =>
                "RPC server not configured in config file (no servers block)",
            RpcConfigError::NoRpc => "RPC server not configured in config file",
        }
    }
}

impl Settings {
    /// The limit on the size of the filesystem in force.
    pub open spec fn size_limit(self) -> u64 {
        match self.filesystem {
            Some(filesystem) => filesystem.limit(),
            None => u64::MAX,
        }
    }

    /// The limit on the size of the filesystem.
    pub fn max_bytes(&self) -> (bytes: u64)
        ensures
            bytes == self.size_limit(),
    {
        match &self.filesystem {
            Some(filesystem) => filesystem.max_bytes(),
            None => u64::MAX,
        }
    }

    /// The compression of extent data in force.
    pub open spec fn compresses(self) -> CompressionConfig {
        match self.filesystem {
            Some(filesystem) => filesystem.compression,
            None => CompressionConfig::Zstd(3),
        }
    }

    /// Compression of extent data: as configured, else the default.
    pub fn compression(&self) -> (compression: CompressionConfig)
        ensures
            compression == self.compresses(),
    {
        match &self.filesystem {
            Some(filesystem) => filesystem.compression,
            None => CompressionConfig::default(),
        }
    }

    /// Whether fsync is to be skipped and to be done after every write.
    pub open spec fn fsync_contradiction(self) -> bool {
        &&& self.filesystem matches Some(filesystem)
        &&& filesystem.ignore_fsync
        &&& self.lsm matches Some(lsm)
        &&& lsm.syncs_writes()
    }

    /// What is wrong across sections, given why the replication listen address
    /// is refused, where it is.
    pub open spec fn fault(self, refusal: Option<String>) -> Option<SettingsError> {
        if self.replication is Some && self.replication->0.fault(refusal) is Some {
            Some(SettingsError::Replication(self.replication->0.fault(refusal)->0))
        } else if self.fsync_contradiction() {
            Some(SettingsError::FsyncContradiction)
        } else {
            None
        }
    }

    /// `refusal` is what `parse` has against the replication listen address,
    /// where there is one and it has anything.
    pub open spec fn refuses_listen<P: Fn(&String) -> Result<SocketAddr, String>>(
        self,
        parse: P,
        refusal: Option<String>,
    ) -> bool {
        match self.replication {
            None => refusal is None,
            Some(replication) => replication.refuses_listen(parse, refusal),
        }
    }

    /// What `parse` has against the replication listen address, where there is
    /// one.
    pub fn listen_refusal<P: Fn(&String) -> Result<SocketAddr, String>>(&self, parse: &P) -> (refusal:
        Option<String>)
        requires
            forall|s: &String| #[trigger] parse.requires((s,)),
        ensures
            self.refuses_listen(*parse, refusal),
    {
        match &self.replication {
            None => None,
            Some(replication) => replication.listen_refusal(parse),
        }
    }

    /// Cross-section validation applied after deserialization. `parse` reads a
    /// socket address or says why it cannot.
    pub fn validate<P: Fn(&String) -> Result<SocketAddr, String>>(&self, parse: &P) -> (r: Result<
        (),
        SettingsError,
    >)
        requires
            forall|s: &String| #[trigger] parse.requires((s,)),
        ensures
            exists|refusal: Option<String>| #[trigger]
                self.refuses_listen(*parse, refusal) && match self.fault(refusal) {
                    None => r is Ok,
                    Some(fault) => r == Err::<(), _>(fault),
                },
    {
        let refusal = self.listen_refusal(parse);
        self.check(&refusal)
    }

    /// Cross-section validation, given why the replication listen address is
    /// refused, where it is.
    pub fn check(&self, refusal: &Option<String>) -> (r: Result<(), SettingsError>)
        ensures
            match self.fault(*refusal) {
                None => r is Ok,
                Some(fault) => r == Err::<(), _>(fault),
            },
    {
        if let Some(replication) = &self.replication {
            match replication.check(refusal) {
                Ok(()) => {},
                Err(error) => {
                    return Err(SettingsError::Replication(error));
                },
            }
        }
        if let Some(filesystem) = &self.filesystem {
            let sync_writes = match &self.lsm {
                Some(lsm) => lsm.sync_writes(),
                None => false,
            };
            if filesystem.ignore_fsync && sync_writes {
                return Err(SettingsError::FsyncContradiction);
            }
        }
        Ok(())
    }

    /// What the operator is warned of: first what a replicated node lacks, once
    /// its section is known to be usable; then the settings that do nothing any
    /// more, where nothing else is wrong.
    pub open spec fn notices(self, refusal: Option<String>) -> Seq<SettingsWarning> {
        (match self.replication {
            Some(replication) => if replication.fault(refusal) is None
                && replication.one_directional() is Some {
                seq![
                    SettingsWarning::Replication {
                        node_id: replication.node_id,
                        warning: replication.one_directional()->0,
                    },
                ]
            } else {
                seq![]
            },
            None => seq![],
        }) + (match self.lsm {
            Some(lsm) => if self.fault(refusal) is None {
                lsm.deprecated().map_values(|key: DeprecatedKey| SettingsWarning::Deprecated(key))
            } else {
                seq![]
            },
            None => seq![],
        })
    }

    /// What the operator is warned of. `parse` reads a socket address or says
    /// why it cannot.
    pub fn warnings<P: Fn(&String) -> Result<SocketAddr, String>>(&self, parse: &P) -> (warnings:
        Vec<SettingsWarning>)
        requires
            forall|s: &String| #[trigger] parse.requires((s,)),
        ensures
            exists|refusal: Option<String>| #[trigger]
                self.refuses_listen(*parse, refusal) && warnings@ == self.notices(refusal),
    {
        let refusal = self.listen_refusal(parse);
        self.warnings_given(&refusal)
    }

    /// What the operator is warned of, given why the replication listen address
    /// is refused, where it is.
    pub fn warnings_given(&self, refusal: &Option<String>) -> (warnings: Vec<SettingsWarning>)
        ensures
            warnings@ == self.notices(*refusal),
    {
        let mut warnings: Vec<SettingsWarning> = Vec::new();
        if let Some(replication) = &self.replication {
            if replication.check(refusal).is_ok() {
                if let Some(warning) = replication.warning() {
                    warnings.push(
                        SettingsWarning::Replication {
                            node_id: replication.node_id.clone(),
                            warning,
                        },
                    );
                }
            }
        }
        let ghost first = warnings@;
        let usable = self.check(refusal).is_ok();
        if let Some(lsm) = &self.lsm {
            if usable {
                let keys = lsm.deprecated_keys();
                let mut i: usize = 0;
                while i < keys.len()
                    invariant
                        i <= keys@.len(),
                        warnings@ == first + keys@.take(i as int).map_values(
                            |key: DeprecatedKey| SettingsWarning::Deprecated(key),
                        ),
                    decreases keys@.len() - i,
                {
                    warnings.push(SettingsWarning::Deprecated(keys[i]));
                    assert(warnings@ =~= first + keys@.take(i + 1).map_values(
                        |key: DeprecatedKey| SettingsWarning::Deprecated(key),
                    ));
                    i += 1;
                }
                assert(keys@.take(i as int) =~= keys@);
            }
        }
        assert(warnings@ =~= self.notices(*refusal));
        warnings
    }

    /// The options for the object store.
    pub fn cloud_provider_env_vars(&self) -> (options: Vec<(String, String)>)
        ensures
            pair_texts(options@) == provider_options(self.aws, self.azure, self.gcp),
    {
        options_of(&self.aws, &self.azure, &self.gcp)
    }

    /// The RPC server that these settings configure, or why there is none.
    pub open spec fn rpc_server(self) -> Result<RpcConfig, RpcConfigError> {
        match self.servers {
            None => Err(RpcConfigError::NoServers),
            Some(servers) => match servers.rpc {
                None => Err(RpcConfigError::NoRpc),
                Some(rpc) => Ok(rpc),
            },
        }
    }

    /// The RPC server that these settings configure.
    pub fn rpc_config(&self) -> (r: Result<&RpcConfig, RpcConfigError>)
        ensures
            match self.rpc_server() {
                Ok(rpc) => r == Ok::<_, RpcConfigError>(&rpc),
                Err(error) => r == Err::<&RpcConfig, _>(error),
            },
    {
        match &self.servers {
            None => Err(RpcConfigError::NoServers),
            Some(servers) => match &servers.rpc {
                None => Err(RpcConfigError::NoRpc),
                Some(rpc) => Ok(rpc),
            },
        }
    }

    /// The settings of a fresh configuration file.
    pub open spec fn is_default(self) -> bool {
        &&& self.cache.dir@ == "${HOME}/.cache/zerofs"@
        &&& self.cache.disk_size_bytes == 10_000_000_000
        &&& self.cache.memory_size_bytes == Some(1_000_000_000u64)
        &&& self.cache.warm_metadata == WarmMetadata::FiltersIndex
        &&& self.storage.url@ == "s3://your-bucket/zerofs-data"@
        &&& self.storage.encryption_password@ == "${ZEROFS_PASSWORD}"@
        &&& self.storage.storage_class is None
        &&& self.servers is Some
        &&& self.servers->0.is_default()
        &&& self.filesystem is None
        &&& self.lsm is None
        &&& self.gc is None
        &&& self.aws is Some
        &&& pair_texts((self.aws->0).0.pairs()) == seq![
            ("access_key_id"@, "${AWS_ACCESS_KEY_ID}"@),
            ("secret_access_key"@, "${AWS_SECRET_ACCESS_KEY}"@),
        ]
        &&& self.azure is None
        &&& self.gcp is None
        &&& self.wal is None
        &&& self.telemetry is None
        &&& self.prometheus is None
        &&& self.replication is None
    }

    /// The settings that a fresh configuration file is written from.
    pub fn generate_default() -> (settings: Settings)
        ensures
            settings.is_default(),
    {
        let mut aws = Section::new();
        aws.insert("access_key_id".to_owned(), "${AWS_ACCESS_KEY_ID}".to_owned());
        let ghost first = aws.pairs();
        aws.insert("secret_access_key".to_owned(), "${AWS_SECRET_ACCESS_KEY}".to_owned());
        proof {
            reveal_strlit("access_key_id");
            reveal_strlit("secret_access_key");
            assert(first.len() == 1);
            assert(first[0].0@.len() != "secret_access_key"@.len());
            assert(first.skip(1).len() == 0);
            reveal_with_fuel(with_pair, 2);
            assert(pair_texts(aws.pairs()) =~= seq![
                ("access_key_id"@, "${AWS_ACCESS_KEY_ID}"@),
                ("secret_access_key"@, "${AWS_SECRET_ACCESS_KEY}"@),
            ]);
        }
        Settings {
            cache: CacheConfig {
                dir: "${HOME}/.cache/zerofs".to_owned(),
                disk_size_bytes: 10_000_000_000,
                memory_size_bytes: Some(1_000_000_000),
                warm_metadata: WarmMetadata::default(),
            },
            storage: StorageConfig {
                url: "s3://your-bucket/zerofs-data".to_owned(),
                encryption_password: "${ZEROFS_PASSWORD}".to_owned(),
                storage_class: None,
            },
            servers: Some(
                ServerConfig {
                    nfs: Some(NfsConfig { addresses: Some(default_nfs_addresses()) }),
                    ninep: Some(
                        NinePConfig {
                            addresses: Some(default_9p_addresses()),
                            unix_socket: Some("/tmp/zerofs.9p.sock".to_owned()),
                        },
                    ),
                    nbd: Some(
                        NbdConfig {
                            addresses: Some(default_nbd_addresses()),
                            unix_socket: Some("/tmp/zerofs.nbd.sock".to_owned()),
                        },
                    ),
                    rpc: Some(
                        RpcConfig {
                            addresses: Some(default_rpc_addresses()),
                            unix_socket: Some("/tmp/zerofs.rpc.sock".to_owned()),
                        },
                    ),
                    webui: Some(
                        WebUIConfig { addresses: default_webui_addresses(), uid: 1000, gid: 1000 },
                    ),
                },
            ),
            filesystem: None,
            lsm: None,
            gc: None,
            aws: Some(AwsConfig(aws)),
            azure: None,
            gcp: None,
            wal: None,
            telemetry: None,
            prometheus: None,
            replication: None,
        }
    }
}

/// An optional set with one address, 127.0.0.1 on `port`.
pub open spec fn listens_locally(addresses: Option<AddressSet>, port: u16) -> bool {
    addresses is Some && addresses->0.order() == seq![localhost(port)]
}

impl ServerConfig {
    /// All servers, each on its usual local port and socket.
    pub open spec fn is_default(self) -> bool {
        &&& self.nfs is Some
        &&& listens_locally(self.nfs->0.addresses, 2049)
        &&& self.ninep is Some
        &&& listens_locally(self.ninep->0.addresses, 5564)
        &&& optional_text(self.ninep->0.unix_socket) == Some("/tmp/zerofs.9p.sock"@)
        &&& self.nbd is Some
        &&& listens_locally(self.nbd->0.addresses, 10809)
        &&& optional_text(self.nbd->0.unix_socket) == Some("/tmp/zerofs.nbd.sock"@)
        &&& self.rpc is Some
        &&& listens_locally(self.rpc->0.addresses, 7000)
        &&& optional_text(self.rpc->0.unix_socket) == Some("/tmp/zerofs.rpc.sock"@)
        &&& self.webui is Some
        &&& self.webui->0.addresses.order() == seq![localhost(8080)]
        &&& self.webui->0.uid == 1000
        &&& self.webui->0.gid == 1000
    }
}

/// A fresh configuration is accepted, and its sections hold no key twice.
pub proof fn default_settings_are_accepted(settings: Settings, refusal: Option<String>)
    requires
        settings.is_default(),
    ensures
        settings.fault(refusal) is None,
        distinct_keys((settings.aws->0).0.pairs()),
{
    reveal_strlit("access_key_id");
    reveal_strlit("secret_access_key");
    let pairs = (settings.aws->0).0.pairs();
    assert(pair_texts(pairs).len() == 2);
    assert(pair_texts(pairs)[0] == (pairs[0].0@, pairs[0].1@));
    assert(pair_texts(pairs)[1] == (pairs[1].0@, pairs[1].1@));
    assert("access_key_id"@.len() != "secret_access_key"@.len());
}

/// Single-node settings are refused for one reason only: skipping fsync and
/// flushing every write at once.
pub proof fn single_node_faults(settings: Settings, refusal: Option<String>)
    requires
        settings.replication is None,
    ensures
        settings.fault(refusal) is Some <==> settings.fsync_contradiction(),
{
}

/// Settings that do nothing any more never keep a configuration from loading:
/// with or without them the same settings are accepted, and refused for the
/// same reason.
pub proof fn deprecated_keys_are_harmless(
    settings: Settings,
    dated: Settings,
    wal_enabled: Option<bool>,
    max_unflushed_bytes: Option<u64>,
    refusal: Option<String>,
)
    requires
        settings.lsm is Some,
        dated == (Settings {
            lsm: Some(LsmConfig { wal_enabled, max_unflushed_bytes, ..settings.lsm->0 }),
            ..settings
        }),
    ensures
        dated.fault(refusal) == settings.fault(refusal),
{
}

/// The limit on the size of the filesystem is the configured one, whatever it
/// is, and the largest there is where none is configured.
pub proof fn the_configured_limit_is_in_force(settings: Settings, filesystem: FilesystemConfig)
    ensures
        filesystem.max_size_bytes matches Some(bytes) ==> filesystem.limit() == bytes,
        filesystem.max_size_bytes is None ==> filesystem.limit() == 0xffff_ffff_ffff_ffff,
        settings.filesystem is Some && settings.filesystem->0.max_size_bytes is Some
            ==> settings.size_limit() == settings.filesystem->0.max_size_bytes->0,
        settings.filesystem is None || settings.filesystem->0.max_size_bytes is None
            ==> settings.size_limit() == 0xffff_ffff_ffff_ffff,
{
}

/// Extent data is compressed as configured, and by Zstd at level 3 where there
/// is no filesystem section.
pub proof fn the_configured_compression_is_in_force(settings: Settings)
    ensures
        settings.filesystem matches Some(filesystem) ==> settings.compresses()
            == filesystem.compression,
        settings.filesystem is None ==> settings.compresses() == CompressionConfig::Zstd(3),
{
}

/// There is an RPC server exactly where its section is there, and it is that
/// section's; otherwise the section that is missing is named.
pub proof fn the_configured_rpc_server_is_found(settings: Settings)
    ensures
        settings.servers is None <==> settings.rpc_server() == Err::<RpcConfig, _>(
            RpcConfigError::NoServers,
        ),
        settings.servers is Some && settings.servers->0.rpc is None <==> settings.rpc_server()
            == Err::<RpcConfig, _>(RpcConfigError::NoRpc),
        settings.rpc_server() matches Ok(rpc) ==> settings.servers is Some
            && settings.servers->0.rpc == Some(rpc),
{
}

/// Settings are refused exactly for what their replication section is refused
/// for, or else where fsync is skipped while every write is to be flushed.
pub proof fn settings_faults_have_their_cause(settings: Settings, refusal: Option<String>)
    ensures
        ({
            let replication_fault = match settings.replication {
                Some(replication) => replication.fault(refusal),
                None => None,
            };
            let both = settings.filesystem is Some && settings.filesystem->0.ignore_fsync
                && settings.lsm is Some && settings.lsm->0.sync_writes == Some(true);
            &&& replication_fault matches Some(error) ==> settings.fault(refusal) == Some(
                SettingsError::Replication(error),
            )
            &&& replication_fault is None && both ==> settings.fault(refusal) == Some(
                SettingsError::FsyncContradiction,
            )
            &&& replication_fault is None && !both ==> settings.fault(refusal) is None
        }),
{
}

/// Skipping fsync alone is no fault, and neither is flushing every write alone.
pub proof fn one_of_the_two_is_no_contradiction(settings: Settings)
    ensures
        settings.filesystem is None || !settings.filesystem->0.ignore_fsync
            ==> !settings.fsync_contradiction(),
        settings.lsm is None || settings.lsm->0.sync_writes != Some(true)
            ==> !settings.fsync_contradiction(),
        settings.filesystem is Some && settings.filesystem->0.ignore_fsync && settings.lsm is Some
            && settings.lsm->0.sync_writes == Some(true) ==> settings.fsync_contradiction(),
{
}

/// What the operator is warned of: a replicated node that lacks one of peers and
/// listen address, by its own name, once its section is usable; and each
/// deprecated setting that is there, once nothing is wrong.
pub proof fn warnings_have_their_cause(
    settings: Settings,
    refusal: Option<String>,
    node_id: String,
    warning: ReplicationWarning,
)
    ensures
        settings.notices(refusal).contains(SettingsWarning::Replication { node_id, warning }) <==> {
            &&& settings.replication matches Some(replication)
            &&& replication.fault(refusal) is None
            &&& replication.node_id == node_id
            &&& replication.one_directional() == Some(warning)
        },
        settings.notices(refusal).contains(
            SettingsWarning::Deprecated(DeprecatedKey::WalEnabled),
        ) <==> settings.fault(refusal) is None && settings.lsm is Some
            && settings.lsm->0.wal_enabled is Some,
        settings.notices(refusal).contains(
            SettingsWarning::Deprecated(DeprecatedKey::MaxUnflushed),
        ) <==> settings.fault(refusal) is None && settings.lsm is Some
            && settings.lsm->0.max_unflushed_bytes is Some,
        settings.notices(refusal).no_duplicates(),
        settings.notices(refusal).contains(SettingsWarning::Replication { node_id, warning })
            ==> settings.notices(refusal)[0] is Replication,
{
    let all = settings.notices(refusal);
    let first: Seq<SettingsWarning> = match settings.replication {
        Some(replication) => if replication.fault(refusal) is None
            && replication.one_directional() is Some {
            seq![
                SettingsWarning::Replication {
                    node_id: replication.node_id,
                    warning: replication.one_directional()->0,
                },
            ]
        } else {
            seq![]
        },
        None => seq![],
    };
    if first.len() > 0 {
        assert(all[0] == first[0]);
    }
    if settings.fault(refusal) is None {
        if let Some(lsm) = settings.lsm {
            deprecated_settings_are_reported(lsm);
            let keys = lsm.deprecated();
            if lsm.wal_enabled is Some {
                assert(keys[0] == DeprecatedKey::WalEnabled);
                assert(all[first.len() as int] == SettingsWarning::Deprecated(
                    DeprecatedKey::WalEnabled,
                ));
            }
            if lsm.max_unflushed_bytes is Some {
                assert(keys[keys.len() - 1] == DeprecatedKey::MaxUnflushed);
                assert(all[all.len() - 1] == SettingsWarning::Deprecated(
                    DeprecatedKey::MaxUnflushed,
                ));
            }
        }
    }
}

/// A fresh configuration listens on this machine alone, each server on a port
/// of its own and the three that can on a socket of their own.
pub proof fn default_servers_are_local_and_apart(servers: ServerConfig)
    requires
        servers.is_default(),
    ensures
        ({
            let local = |port: u16| SocketAddr::V4 { ipv4: 2_130_706_433, port };
            &&& servers.nfs->0.addresses->0.order() == seq![local(2049)]
            &&& servers.ninep->0.addresses->0.order() == seq![local(5564)]
            &&& servers.nbd->0.addresses->0.order() == seq![local(10809)]
            &&& servers.rpc->0.addresses->0.order() == seq![local(7000)]
            &&& servers.webui->0.addresses.order() == seq![local(8080)]
        }),
        servers.ninep->0.unix_socket->0@ != servers.nbd->0.unix_socket->0@,
        servers.ninep->0.unix_socket->0@ != servers.rpc->0.unix_socket->0@,
        servers.nbd->0.unix_socket->0@ != servers.rpc->0.unix_socket->0@,
{
    reveal_strlit("/tmp/zerofs.9p.sock");
    reveal_strlit("/tmp/zerofs.nbd.sock");
    reveal_strlit("/tmp/zerofs.rpc.sock");
    assert("/tmp/zerofs.9p.sock"@[12] == '9');
    assert("/tmp/zerofs.nbd.sock"@[12] == 'n');
    assert("/tmp/zerofs.rpc.sock"@[12] == 'r');
}

/// Without replication no address is refused; with it the one that its section
/// says.
pub proof fn listen_addresses_are_those_of_replication<
    P: Fn(&String) -> Result<SocketAddr, String>,
>(settings: Settings, parse: P, refusal: Option<String>)
    requires
        settings.refuses_listen(parse, refusal),
    ensures
        settings.replication is None ==> refusal is None,
        refusal matches Some(reason) ==> {
            &&& settings.replication is Some
            &&& settings.replication->0.replication_listen is Some
            &&& parse.ensures((&settings.replication->0.replication_listen->0,), Err(reason))
        },
        refusal is None && settings.replication is Some
            && settings.replication->0.replication_listen is Some ==> exists|addr: SocketAddr|
            #[trigger] parse.ensures(
                (&settings.replication->0.replication_listen->0,),
                Ok(addr),
            ),
{
}

/// A warning about a node shows the node, and says what it lacks; settings that
/// are refused for their replication say what is wrong with it.
pub proof fn messages_say_what_they_are_about(
    warning: SettingsWarning,
    quoted: Seq<char>,
    error: ReplicationError,
)
    ensures
        warning matches SettingsWarning::Replication { node_id, warning: lack } ==> {
            &&& warning.subject() == node_id@
            &&& occurs(warning.text(quoted), quoted)
            &&& occurs(warning.text(quoted), lack.text())
        },
        warning matches SettingsWarning::Deprecated(key) ==> warning.text(quoted) == key.text(),
        error.text(debug_quoted(error.subject())).is_suffix_of(
            SettingsError::Replication(error).text(),
        ),
{
    if let SettingsWarning::Replication { node_id, warning: lack } = warning {
        let text = warning.text(quoted);
        let before = "[replication] node "@;
        let behind =
            "; HA will be degraded across a role swap (configure both peers and replication_listen for a balanced pair)"@;
        a_text_occurs_between_others(before, quoted, " "@ + lack.text() + behind);
        assert(text =~= before + quoted + (" "@ + lack.text() + behind));
        a_text_occurs_between_others(before + quoted + " "@, lack.text(), behind);
    }
    let inner = error.text(debug_quoted(error.subject()));
    let whole = SettingsError::Replication(error).text();
    assert(inner =~= whole.subrange(whole.len() - inner.len(), whole.len() as int));
}

} // verus!
