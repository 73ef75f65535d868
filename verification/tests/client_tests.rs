use std::sync::Arc;
use nimiq_core::client::{
    default_user_agent, Async, Client, ClientBuilder, ClientConnectFuture, ClientError,
    ClientInitializeFuture, NetworkSettings, PollStep, Protocol,
};
use nimiq_core::networks::NetworkId;

type Builder = ClientBuilder<String, String, u32>;
type StringError = ClientError<String>;

fn builder(protocol: Protocol) -> Builder {
    ClientBuilder::new(protocol, default_user_agent("0.1.0", "linux", "x86_64"))
}

#[test]
fn user_agent_format() {
    assert_eq!(default_user_agent("0.1.0", "linux", "x86_64"), "core-rs/0.1.0 (native; linux x86_64)");
}

#[test]
fn default_ports() {
    assert_eq!(Protocol::Ws.default_port(), Some(8443));
    assert_eq!(Protocol::Wss.default_port(), Some(8443));
    assert_eq!(Protocol::Dumb.default_port(), None);
    assert_eq!(Protocol::Rtc.default_port(), None);
}

#[test]
fn dumb_node_ignores_hostname_and_port() {
    let mut b = builder(Protocol::Dumb);
    b.with_hostname("example.com").with_port(1234).with_network_id(NetworkId::Test);
    let config = b.build_consensus::<String>().ok().expect("a dumb node needs nothing");
    assert!(matches!(config.network, NetworkSettings::Dumb));
    assert_eq!(config.network_id, NetworkId::Test);
    assert_eq!(config.user_agent, "core-rs/0.1.0 (native; linux x86_64)");
}

#[test]
fn websocket_needs_a_hostname() {
    let mut b = builder(Protocol::Ws);
    b.with_port(1234);
    assert_eq!(b.build_consensus::<String>().err(), Some(StringError::MissingHostname));
}

#[test]
fn websocket_uses_the_default_port() {
    let mut b = builder(Protocol::Ws);
    b.with_hostname("example.com");
    let config = b.build_consensus::<String>().ok().expect("hostname is enough");
    match config.network {
        NetworkSettings::Ws { hostname, port, reverse_proxy_config } => {
            assert_eq!(hostname, "example.com");
            assert_eq!(port, 8443);
            assert!(reverse_proxy_config.is_none());
        }
        _ => panic!("a websocket node"),
    }
    assert_eq!(config.network_id, NetworkId::Main);
}

#[test]
fn websocket_keeps_the_given_port_and_proxy() {
    let mut b = builder(Protocol::Ws);
    b.with_hostname("example.com").with_port(9000).with_reverse_proxy(80, "10.0.0.1".to_string(), "X-Forwarded-For".to_string(), true);
    let config = b.build_consensus::<String>().ok().expect("valid");
    match config.network {
        NetworkSettings::Ws { port, reverse_proxy_config, .. } => {
            assert_eq!(port, 9000);
            let proxy = reverse_proxy_config.expect("proxy kept");
            assert_eq!(proxy.port, 80);
            assert_eq!(proxy.address, "10.0.0.1");
            assert_eq!(proxy.header, "X-Forwarded-For");
            assert!(proxy.with_tls_termination);
        }
        _ => panic!("a websocket node"),
    }
}

#[test]
fn secure_websocket_needs_an_identity() {
    let mut b = builder(Protocol::Wss);
    b.with_hostname("example.com");
    assert_eq!(b.build_consensus::<String>().err(), Some(StringError::MissingIdentityFile));
    let mut b = builder(Protocol::Wss);
    b.with_port(1).with_tls_identity("id.p12", "secret");
    assert_eq!(b.build_consensus::<String>().err(), Some(StringError::MissingHostname));
}

#[test]
fn secure_websocket_with_identity() {
    let mut b = builder(Protocol::Wss);
    b.with_hostname("example.com").with_tls_identity("id.p12", "secret");
    b.with_user_agent("agent");
    b.with_seeds(vec!["seed1".to_string()]).with_seeds(vec!["seed2".to_string()]);
    b.with_mempool_config(5);
    let config = b.build_consensus::<String>().ok().expect("complete");
    match config.network {
        NetworkSettings::Wss { hostname, port, identity_file, identity_password, .. } => {
            assert_eq!(hostname, "example.com");
            assert_eq!(port, 8443);
            assert_eq!(identity_file, "id.p12");
            assert_eq!(identity_password, "secret");
        }
        _ => panic!("a secure websocket node"),
    }
    assert_eq!(config.user_agent, "agent");
    assert_eq!(config.additional_seeds, vec!["seed1".to_string(), "seed2".to_string()]);
    assert_eq!(config.mempool_config, Some(5));
}

#[test]
fn rtc_is_not_implemented() {
    let mut b = builder(Protocol::Rtc);
    b.with_hostname("example.com");
    assert_eq!(b.build_consensus::<String>().err(), Some(StringError::RtcNotImplemented));
}

#[test]
fn initialize_future_completes_once() {
    let mut future = ClientInitializeFuture::new(Arc::new(17u32));
    assert!(!future.initialized());
    assert!(!future.connected());
    assert_eq!(future.poll_step(), PollStep::StartNetwork);
    assert_eq!(future.poll(Some(Err("no route".to_string()))).err(), Some(StringError::NetworkError("no route".to_string())));
    assert!(!future.initialized());
    let client = match future.poll::<String>(Some(Ok(()))) {
        Ok(Async::Ready(client)) => client,
        _ => panic!("ready after the network is initialised"),
    };
    assert!(future.initialized());
    assert_eq!(future.poll_step(), PollStep::NotReady);
    assert!(matches!(future.poll::<String>(Some(Ok(()))), Ok(Async::NotReady)));
    assert!(client.initialized());
    assert!(!client.connected());
    assert_eq!(*client.consensus(), 17);
}

#[test]
fn connect_future_completes_once() {
    let mut init = ClientInitializeFuture::new(Arc::new(5u32));
    let client = match init.poll::<String>(Some(Ok(()))) {
        Ok(Async::Ready(client)) => client,
        _ => panic!("ready"),
    };
    let mut future: ClientConnectFuture<u32> = client.connect();
    assert!(future.initialized());
    assert!(!future.connected());
    assert_eq!(future.poll_step(), PollStep::StartNetwork);
    assert!(matches!(future.poll::<String>(None), Ok(Async::NotReady)));
    assert_eq!(future.poll(Some(Err(7u8))).err(), Some(ClientError::NetworkError(7u8)));
    assert!(!future.connected());
    let connected = match future.poll::<String>(Some(Ok(()))) {
        Ok(Async::Ready(c)) => c,
        _ => panic!("ready after the network is connected"),
    };
    assert!(future.connected());
    assert!(matches!(future.poll::<String>(Some(Ok(()))), Ok(Async::NotReady)));
    assert!(connected.initialized());
    assert!(Client::connected(&connected));
    assert_eq!(*connected.consensus(), 5);
    assert_eq!(*Client::consensus(&future), 5);
}
