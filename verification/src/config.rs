//! The dispatcher's configuration, as the TOML file describes it, and the
//! values used when no file is found.

use vstd::prelude::*;
use vstd::string::*;

verus! {

/// An IP address: four octets, or eight 16-bit segments with the flow
/// label and scope of an IPv6 socket address.
#[derive(Clone, Copy, Debug, PartialEq, Eq)]
pub enum IpAddress {
    V4 { octets: [u8; 4] },
    V6 { segments: [u16; 8], flowinfo: u32, scope_id: u32 },
}

/// An IP address and a port.
#[derive(Clone, Copy, Debug, PartialEq, Eq)]
pub struct SocketAddress {
    pub ip: IpAddress,
    pub port: u16,
}

/// Identifies this dispatcher instance.
#[derive(Clone, Debug)]
pub struct DispatcherConfig {
    /// Dispatcher ID (ULID format)
    pub id: String,
    /// H3 cell location
    pub location: u64,
}

/// Where the health-check HTTP server listens.
#[derive(Clone, Copy, Debug)]
pub struct ServerConfig {
    /// Address for the HTTP server to listen on
    pub http_addr: SocketAddress,
}

/// How sensor data is buffered before upload.
#[derive(Clone, Debug)]
pub enum StorageConfig {
    Memory,
    Sqlite { path: String },
}

/// How to reach the central server.
#[derive(Clone, Debug)]
pub struct PrimeConfig {
    /// Address of the central server's RPC endpoint (host names allowed)
    pub rpc_addr: String,
    /// Interval in seconds between upload attempts
    pub upload_interval_secs: u64,
}

/// Where readings and statuses come from.
#[derive(Clone, Copy, Debug)]
pub enum EdgeConfig {
    Mock {
        /// Interval in seconds between sensor readings
        reading_interval_secs: u64,
        /// Interval in seconds between status updates
        status_interval_secs: u64,
        /// Number of simulated devices
        device_count: usize,
    },
    Tcp { addr: SocketAddress },
}

/// Mutual TLS credentials: the paths of the certificate, its key and the
/// root CA, and the server name expected in the server's certificate.
#[derive(Clone, Debug)]
pub struct TlsConfig {
    pub cert: String,
    pub key: String,
    pub root_ca: String,
    pub domain: String,
}

/// The whole configuration.
#[derive(Clone, Debug)]
pub struct Config {
    pub dispatcher: DispatcherConfig,
    pub server: ServerConfig,
    pub storage: StorageConfig,
    pub prime: PrimeConfig,
    pub edge: EdgeConfig,
    pub tls: TlsConfig,
}

/// The client credentials used when no configuration file is found.
pub open spec fn is_client_default_tls(t: TlsConfig) -> bool {
    &&& t.cert@ == "./keys/client.crt"@
    &&& t.key@ == "./keys/client.key"@
    &&& t.root_ca@ == "./keys/root_ca.crt"@
    &&& t.domain@ == "localhost"@
}

impl TlsConfig {
    /// The client credentials used when no configuration file is found.
    pub fn client_default() -> (t: TlsConfig)
        ensures
            is_client_default_tls(t),
    {
        TlsConfig {
            cert: String::from_str("./keys/client.crt"),
            key: String::from_str("./keys/client.key"),
            root_ca: String::from_str("./keys/root_ca.crt"),
            domain: String::from_str("localhost"),
        }
    }
}

/// The configuration used when no configuration file is found.
pub open spec fn is_default_config(c: Config) -> bool {
    &&& c.dispatcher.id@ == "01JJNQ1KQCNZ8X9PQRV5ABCD12"@
    &&& c.dispatcher.location == 0x8a529b4c8daffff
    &&& c.server.http_addr == SocketAddress {
        ip: IpAddress::V4 { octets: [0u8, 0u8, 0u8, 0u8] },
        port: 8081,
    }
    &&& c.storage is Memory
    &&& c.prime.rpc_addr@ == "127.0.0.1:9000"@
    &&& c.prime.upload_interval_secs == 60
    &&& c.edge == EdgeConfig::Mock {
        reading_interval_secs: 5,
        status_interval_secs: 30,
        device_count: 100,
    }
    &&& is_client_default_tls(c.tls)
}

/// The default configuration connects with the client's own credentials:
/// the client certificate, the client's private key, the root CA, and the
/// server name `localhost`.
pub proof fn lemma_default_config_uses_client_credentials(c: Config)
    requires
        is_default_config(c),
    ensures
        c.tls.cert@ == "./keys/client.crt"@,
        c.tls.key@ == "./keys/client.key"@,
        c.tls.root_ca@ == "./keys/root_ca.crt"@,
        c.tls.domain@ == "localhost"@,
{
}

impl Default for Config {
    fn default() -> (c: Self)
        ensures
            is_default_config(c),
            c.tls.cert@ == "./keys/client.crt"@,
            c.tls.key@ == "./keys/client.key"@,
            c.tls.root_ca@ == "./keys/root_ca.crt"@,
            c.tls.domain@ == "localhost"@,
    {
        Config {
            dispatcher: DispatcherConfig {
                id: String::from_str("01JJNQ1KQCNZ8X9PQRV5ABCD12"),
                location: 0x8a529b4c8daffff,
            },
            server: ServerConfig {
                http_addr: SocketAddress { ip: IpAddress::V4 { octets: [0, 0, 0, 0] }, port: 8081 },
            },
            storage: StorageConfig::Memory,
            prime: PrimeConfig {
                rpc_addr: String::from_str("127.0.0.1:9000"),
                upload_interval_secs: 60,
            },
            edge: EdgeConfig::Mock {
                reading_interval_secs: 5,
                status_interval_secs: 30,
                device_count: 100,
            },
            tls: TlsConfig::client_default(),
        }
    }
}

} // verus!
