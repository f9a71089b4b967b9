use ersha_dispatch::config::{Config, EdgeConfig, IpAddress, SocketAddress, StorageConfig, TlsConfig};

#[test]
fn default_config_identifies_the_sample_dispatcher() {
    let c = Config::default();
    assert_eq!(c.dispatcher.id, "01JJNQ1KQCNZ8X9PQRV5ABCD12");
    assert_eq!(c.dispatcher.location, 0x8a529b4c8daffff);
}

#[test]
fn default_config_listens_on_all_interfaces_port_8081() {
    let c = Config::default();
    assert_eq!(
        c.server.http_addr,
        SocketAddress { ip: IpAddress::V4 { octets: [0, 0, 0, 0] }, port: 8081 }
    );
}

#[test]
fn default_config_buffers_in_memory_and_uploads_every_minute() {
    let c = Config::default();
    assert!(matches!(c.storage, StorageConfig::Memory));
    assert_eq!(c.prime.rpc_addr, "127.0.0.1:9000");
    assert_eq!(c.prime.upload_interval_secs, 60);
}

#[test]
fn default_config_simulates_one_hundred_devices() {
    let c = Config::default();
    match c.edge {
        EdgeConfig::Mock { reading_interval_secs, status_interval_secs, device_count } => {
            assert_eq!(reading_interval_secs, 5);
            assert_eq!(status_interval_secs, 30);
            assert_eq!(device_count, 100);
        }
        EdgeConfig::Tcp { .. } => panic!("the default edge is the mock one"),
    }
}

#[test]
fn default_config_uses_client_credentials() {
    let c = Config::default();
    let t = TlsConfig::client_default();
    assert_eq!(c.tls.cert, t.cert);
    assert_eq!(t.cert, "./keys/client.crt");
    assert_eq!(t.key, "./keys/client.key");
    assert_eq!(t.root_ca, "./keys/root_ca.crt");
    assert_eq!(t.domain, "localhost");
}
