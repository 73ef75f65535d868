use vstd::prelude::*;
use std::sync::Arc;
use crate::networks::NetworkId;

verus! {

/// The transport a node speaks.
#[derive(Clone, Copy, Debug, PartialEq, Eq, Structural)]
pub enum Protocol {
    Dumb,
    Ws,
    Wss,
    Rtc,
}

/// The port a protocol listens on where none is given.
pub open spec fn protocol_default_port(protocol: Protocol) -> Option<u16> {
    match protocol {
        Protocol::Ws | Protocol::Wss => Some(8443u16),
        _ => None,
    }
}

impl Protocol {
    /// The port this protocol listens on where none is given, if it has one.
    pub fn default_port(&self) -> (r: Option<u16>)
        ensures
            r == protocol_default_port(*self),
    {
        match self {
            Protocol::Ws | Protocol::Wss => Some(8443u16),
            _ => None,
        }
    }
}

/// Why a client could not be built or brought up; `E` is the type of the
/// errors that the network, the peer key store and the consensus report.
#[derive(Clone, Debug, PartialEq, Eq)]
pub enum ClientError<E> {
    /// A websocket protocol was chosen without a hostname.
    MissingHostname,
    /// No port was given and the protocol has no default one.
    MissingPort,
    /// A secure websocket was chosen without an identity file or its password.
    MissingIdentityFile,
    /// WebRTC is not available.
    RtcNotImplemented,
    /// The network could not be initialised or connected.
    NetworkError(E),
    /// The peer key store could not be opened.
    PeerKeyStoreError(E),
    /// The consensus could not be set up.
    ConsensusError(E),
}

/// The reverse proxy in front of a node.
pub struct ReverseProxyConfig<A> {
    pub port: u16,
    pub address: A,
    pub header: String,
    pub with_tls_termination: bool,
}

/// The settings a client builder holds.
pub ghost struct BuilderSettings<S, A, M> {
    pub protocol: Protocol,
    pub hostname: Option<Seq<char>>,
    pub port: Option<u16>,
    pub user_agent: Seq<char>,
    pub network_id: NetworkId,
    pub reverse_proxy_config: Option<ReverseProxyConfig<A>>,
    pub additional_seeds: Seq<S>,
    pub identity_file: Option<Seq<char>>,
    pub identity_password: Option<Seq<char>>,
    pub mempool_config: Option<M>,
}

/// The view of an optional string.
pub open spec fn opt_view(s: Option<String>) -> Option<Seq<char>> {
    match s {
        Some(s) => Some(s@),
        None => None,
    }
}

/// Builder of the consensus and the client. `S` is the type of a seed peer,
/// `A` that of a network address and `M` that of a mempool configuration.
pub struct ClientBuilder<S, A, M> {
    protocol: Protocol,
    hostname: Option<String>,
    port: Option<u16>,
    user_agent: String,
    network_id: NetworkId,
    reverse_proxy_config: Option<ReverseProxyConfig<A>>,
    additional_seeds: Vec<S>,
    identity_file: Option<String>,
    identity_password: Option<String>,
    mempool_config: Option<M>,
}

impl<S, A, M> View for ClientBuilder<S, A, M> {
    type V = BuilderSettings<S, A, M>;

    closed spec fn view(&self) -> BuilderSettings<S, A, M> {
        BuilderSettings {
            protocol: self.protocol,
            hostname: opt_view(self.hostname),
            port: self.port,
            user_agent: self.user_agent@,
            network_id: self.network_id,
            reverse_proxy_config: self.reverse_proxy_config,
            additional_seeds: self.additional_seeds@,
            identity_file: opt_view(self.identity_file),
            identity_password: opt_view(self.identity_password),
            mempool_config: self.mempool_config,
        }
    }
}

/// The user agent of a node of the given version, operating system and architecture:
/// `core-rs/<version> (native; <os> <arch>)`.
pub open spec fn user_agent_text(version: Seq<char>, os: Seq<char>, arch: Seq<char>) -> Seq<char> {
    "core-rs/"@ + version + " (native; "@ + os + " "@ + arch + ")"@
}

/// Builds the user agent of a node of the given version, operating system and architecture.
pub fn default_user_agent(version: &str, os: &str, arch: &str) -> (r: String)
    ensures
        r@ == user_agent_text(version@, os@, arch@),
{
    let mut r = String::from_str("core-rs/");
    r.append(version);
    r.append(" (native; ");
    r.append(os);
    r.append(" ");
    r.append(arch);
    r.append(")");
    r
}

impl<S, A, M> ClientBuilder<S, A, M> {
    /// A builder for `protocol` with the given user agent, on the main network,
    /// with nothing else set.
    pub fn new(protocol: Protocol, user_agent: String) -> (r: Self)
        ensures
            r@ == (BuilderSettings::<S, A, M> {
                protocol,
                hostname: None,
                port: None,
                user_agent: user_agent@,
                network_id: NetworkId::Main,
                reverse_proxy_config: None,
                additional_seeds: Seq::empty(),
                identity_file: None,
                identity_password: None,
                mempool_config: None,
            }),
    {
        ClientBuilder {
            protocol,
            hostname: None,
            port: None,
            user_agent,
            network_id: NetworkId::Main,
            reverse_proxy_config: None,
            additional_seeds: Vec::new(),
            identity_file: None,
            identity_password: None,
            mempool_config: None,
        }
    }

    /// Sets the network.
    pub fn with_network_id(&mut self, network_id: NetworkId) -> (r: &mut Self)
        ensures
            r@ == (BuilderSettings { network_id, ..old(self)@ }),
            final(self)@ == final(r)@,
    {
        self.network_id = network_id;
        self
    }

    /// Sets the hostname.
    pub fn with_hostname(&mut self, hostname: &str) -> (r: &mut Self)
        ensures
            r@ == (BuilderSettings { hostname: Some(hostname@), ..old(self)@ }),
            final(self)@ == final(r)@,
    {
        self.hostname = Some(hostname.to_owned());
        self
    }

    /// Sets the port.
    pub fn with_port(&mut self, port: u16) -> (r: &mut Self)
        ensures
            r@ == (BuilderSettings { port: Some(port), ..old(self)@ }),
            final(self)@ == final(r)@,
    {
        self.port = Some(port);
        self
    }

    /// Sets the user agent.
    pub fn with_user_agent(&mut self, user_agent: &str)
        ensures
            final(self)@ == (BuilderSettings { user_agent: user_agent@, ..old(self)@ }),
    {
        self.user_agent = user_agent.to_owned();
    }

    /// Adds seed peers after those already given.
    pub fn with_seeds(&mut self, seeds: Vec<S>) -> (r: &mut Self)
        ensures
            r@ == (BuilderSettings { additional_seeds: old(self)@.additional_seeds + seeds@, ..old(self)@ }),
            final(self)@ == final(r)@,
    {
        let mut seeds = seeds;
        self.additional_seeds.append(&mut seeds);
        self
    }

    /// Sets the reverse proxy in front of the node.
    pub fn with_reverse_proxy(&mut self, port: u16, address: A, header: String, with_tls_termination: bool) -> (r: &mut Self)
        ensures
            r@ == (BuilderSettings {
                reverse_proxy_config: Some(ReverseProxyConfig { port, address, header, with_tls_termination }),
                ..old(self)@
            }),
            final(self)@ == final(r)@,
    {
        self.reverse_proxy_config = Some(ReverseProxyConfig { port, address, header, with_tls_termination });
        self
    }

    /// Sets the TLS identity file and its password.
    pub fn with_tls_identity(&mut self, identity_file: &str, identity_password: &str) -> (r: &mut Self)
        ensures
            r@ == (BuilderSettings {
                identity_file: Some(identity_file@),
                identity_password: Some(identity_password@),
                ..old(self)@
            }),
            final(self)@ == final(r)@,
    {
        self.identity_file = Some(identity_file.to_owned());
        self.identity_password = Some(identity_password.to_owned());
        self
    }

    /// Sets the mempool configuration.
    pub fn with_mempool_config(&mut self, mempool_config: M) -> (r: &mut Self)
        ensures
            r@ == (BuilderSettings { mempool_config: Some(mempool_config), ..old(self)@ }),
            final(self)@ == final(r)@,
    {
        self.mempool_config = Some(mempool_config);
        self
    }
}

/// How the node's network is to be set up.
pub enum NetworkSettings<A> {
    /// A node that accepts no connections.
    Dumb,
    /// A websocket node.
    Ws { hostname: String, port: u16, reverse_proxy_config: Option<ReverseProxyConfig<A>> },
    /// A secure websocket node.
    Wss {
        hostname: String,
        port: u16,
        identity_file: String,
        identity_password: String,
        reverse_proxy_config: Option<ReverseProxyConfig<A>>,
    },
}

/// Everything the consensus is built from.
pub struct ConsensusConfig<S, A, M> {
    pub network_id: NetworkId,
    pub network: NetworkSettings<A>,
    pub user_agent: String,
    pub additional_seeds: Vec<S>,
    pub mempool_config: Option<M>,
}

/// Why the settings `b` cannot be built into a consensus, checked in the
/// order the builder checks them; `None` where they can.
pub open spec fn build_error<S, A, M, E>(b: BuilderSettings<S, A, M>) -> Option<ClientError<E>> {
    match b.protocol {
        Protocol::Dumb => None,
        Protocol::Ws => {
            if b.hostname is None {
                Some(ClientError::MissingHostname)
            } else if protocol_default_port(b.protocol) is None {
                Some(ClientError::MissingPort)
            } else {
                None
            }
        },
        Protocol::Wss => {
            if b.hostname is None {
                Some(ClientError::MissingHostname)
            } else if protocol_default_port(b.protocol) is None {
                Some(ClientError::MissingPort)
            } else if b.identity_file is None || b.identity_password is None {
                Some(ClientError::MissingIdentityFile)
            } else {
                None
            }
        },
        Protocol::Rtc => Some(ClientError::RtcNotImplemented),
    }
}

/// The port the node listens on: the one given, else the protocol's default.
pub open spec fn effective_port<S, A, M>(b: BuilderSettings<S, A, M>) -> u16 {
    match b.port {
        Some(p) => p,
        None => protocol_default_port(b.protocol)->0,
    }
}

/// Whether `n` is the network set-up that the settings `b` ask for.
pub open spec fn network_matches<S, A, M>(n: NetworkSettings<A>, b: BuilderSettings<S, A, M>) -> bool {
    match n {
        NetworkSettings::Dumb => b.protocol == Protocol::Dumb,
        NetworkSettings::Ws { hostname, port, reverse_proxy_config } => {
            &&& b.protocol == Protocol::Ws
            &&& b.hostname == Some(hostname@)
            &&& port == effective_port(b)
            &&& reverse_proxy_config == b.reverse_proxy_config
        },
        NetworkSettings::Wss { hostname, port, identity_file, identity_password, reverse_proxy_config } => {
            &&& b.protocol == Protocol::Wss
            &&& b.hostname == Some(hostname@)
            &&& port == effective_port(b)
            &&& b.identity_file == Some(identity_file@)
            &&& b.identity_password == Some(identity_password@)
            &&& reverse_proxy_config == b.reverse_proxy_config
        },
    }
}

/// The port a network set-up listens on, if it listens at all.
pub open spec fn network_port<A>(n: NetworkSettings<A>) -> Option<u16> {
    match n {
        NetworkSettings::Dumb => None,
        NetworkSettings::Ws { port, .. } => Some(port),
        NetworkSettings::Wss { port, .. } => Some(port),
    }
}

/// The reverse proxy of a network set-up; a dumb node has none.
pub open spec fn network_reverse_proxy<A>(n: NetworkSettings<A>) -> Option<ReverseProxyConfig<A>> {
    match n {
        NetworkSettings::Dumb => None,
        NetworkSettings::Ws { reverse_proxy_config, .. } => reverse_proxy_config,
        NetworkSettings::Wss { reverse_proxy_config, .. } => reverse_proxy_config,
    }
}

/// A websocket set-up (plain or secure) built from settings listens on the
/// port that the settings hold, and on 8443 only where they hold none.
pub proof fn lemma_given_port_is_used<S, A, M>(n: NetworkSettings<A>, b: BuilderSettings<S, A, M>)
    requires
        network_matches(n, b),
        b.protocol != Protocol::Dumb,
    ensures
        b.port matches Some(p) ==> network_port(n) == Some(p),
        b.port is None ==> network_port(n) == Some(8443u16),
{
}

/// A websocket set-up (plain or secure) built from settings keeps the reverse
/// proxy that the settings hold.
pub proof fn lemma_reverse_proxy_is_kept<S, A, M>(n: NetworkSettings<A>, b: BuilderSettings<S, A, M>)
    requires
        network_matches(n, b),
        b.protocol != Protocol::Dumb,
    ensures
        network_reverse_proxy(n) == b.reverse_proxy_config,
{
}

impl<S, A, M> ClientBuilder<S, A, M> {
    /// Checks the settings and assembles the configuration that the consensus
    /// is built from.
    pub fn build_consensus<E>(self) -> (r: Result<ConsensusConfig<S, A, M>, ClientError<E>>)
        ensures
            r is Ok <==> build_error::<S, A, M, E>(self@) is None,
            r matches Err(e) ==> build_error::<S, A, M, E>(self@) == Some(e),
            r matches Ok(config) ==> {
                &&& network_matches(config.network, self@)
                &&& config.network_id == self@.network_id
                &&& config.user_agent@ == self@.user_agent
                &&& config.additional_seeds@ == self@.additional_seeds
                &&& config.mempool_config == self@.mempool_config
            },
            r matches Ok(config) ==> (self@.protocol != Protocol::Dumb ==> network_port(config.network) == Some(
                match self@.port {
                    Some(p) => p,
                    None => 8443u16,
                },
            )),
            r matches Ok(config) ==> (self@.protocol != Protocol::Dumb ==> network_reverse_proxy(config.network)
                == self@.reverse_proxy_config),
    {
        let ClientBuilder {
            protocol,
            hostname,
            port,
            user_agent,
            network_id,
            reverse_proxy_config,
            additional_seeds,
            identity_file,
            identity_password,
            mempool_config,
        } = self;
        let network = match protocol {
            Protocol::Dumb => {
                // A dumb node ignores hostname and port.
                NetworkSettings::Dumb
            },
            Protocol::Ws => {
                let hostname = match hostname {
                    Some(h) => h,
                    None => return Err(ClientError::MissingHostname),
                };
                let default_port: u16 = match protocol.default_port() {
                    Some(p) => p,
                    None => return Err(ClientError::MissingPort),
                };
                let port: u16 = match port {
                    Some(p) => p,
                    None => default_port,
                };
                NetworkSettings::Ws { hostname, port, reverse_proxy_config }
            },
            Protocol::Wss => {
                let hostname = match hostname {
                    Some(h) => h,
                    None => return Err(ClientError::MissingHostname),
                };
                let default_port: u16 = match protocol.default_port() {
                    Some(p) => p,
                    None => return Err(ClientError::MissingPort),
                };
                let port: u16 = match port {
                    Some(p) => p,
                    None => default_port,
                };
                let identity_file = match identity_file {
                    Some(f) => f,
                    None => return Err(ClientError::MissingIdentityFile),
                };
                let identity_password = match identity_password {
                    Some(p) => p,
                    None => return Err(ClientError::MissingIdentityFile),
                };
                NetworkSettings::Wss { hostname, port, identity_file, identity_password, reverse_proxy_config }
            },
            Protocol::Rtc => {
                return Err(ClientError::RtcNotImplemented);
            },
        };
        Ok(ConsensusConfig { network_id, network, user_agent, additional_seeds, mempool_config })
    }
}

/// A handle shared with `Arc::clone`.
/// Trusted: the new handle points to the same value (the documentation of
/// `Arc::clone`: it makes a new pointer to the same allocation).
#[verifier::external_body]
fn share<C>(handle: &Arc<C>) -> (r: Arc<C>)
    ensures
        r == *handle,
{
    Arc::clone(handle)
}

/// The outcome of polling a future: ready with a value, or not yet.
pub enum Async<T> {
    Ready(T),
    NotReady,
}

/// Whether a future that is `done` already is done after a poll in which
/// bringing up the network gave `network_result` (`None` where it was not asked for).
pub open spec fn poll_transition<E>(done: bool, network_result: Option<Result<(), E>>) -> bool {
    done || network_result matches Some(Ok(_))
}

/// Whether such a poll gives the next client.
pub open spec fn poll_yields<E>(done: bool, network_result: Option<Result<(), E>>) -> bool {
    !done && network_result matches Some(Ok(_))
}

/// A future gives its client at most once: after a poll that gave it, no
/// later poll gives it again, whatever the network reports.
pub proof fn lemma_poll_fused<E>(done: bool, first: Option<Result<(), E>>, second: Option<Result<(), E>>)
    ensures
        poll_yields(done, first) ==> !poll_yields(poll_transition(done, first), second),
        poll_transition(done, first) ==> poll_transition(poll_transition(done, first), second),
{
}

/// What polling asks of the caller.
#[derive(Clone, Copy, Debug, PartialEq, Eq, Structural)]
pub enum PollStep {
    /// Bring up the network (initialise it, or connect it), then report the outcome.
    StartNetwork,
    /// Nothing to do: the future has already completed.
    NotReady,
}

/// A client that may be uninitialised, initialised or connected; `C` is the
/// type of its consensus.
pub trait Client<C> {
    /// Whether the client has been initialised.
    fn initialized(&self) -> bool;

    /// Whether the client is connected.
    fn connected(&self) -> bool;

    /// The consensus of the client.
    fn consensus(&self) -> Arc<C>;
}

/// The future that eventually gives an initialised client.
pub struct ClientInitializeFuture<C> {
    consensus: Arc<C>,
    initialized: bool,
}

/// The initialised client.
pub struct InitializedClient<C> {
    consensus: Arc<C>,
}

/// The future that eventually gives a connected client.
pub struct ClientConnectFuture<C> {
    consensus: Arc<C>,
    connected: bool,
}

/// The connected client.
pub struct ConnectedClient<C> {
    consensus: Arc<C>,
}

impl<C> ClientInitializeFuture<C> {
    /// The consensus the client runs.
    pub closed spec fn consensus_value(&self) -> Arc<C> {
        self.consensus
    }

    /// Whether the network has been initialised.
    pub closed spec fn is_initialized(&self) -> bool {
        self.initialized
    }

    /// A future for a client of `consensus` whose network is not yet initialised.
    pub fn new(consensus: Arc<C>) -> (r: Self)
        ensures
            r.consensus_value() == consensus,
            !r.is_initialized(),
    {
        ClientInitializeFuture { consensus, initialized: false }
    }

    /// What a poll has to do: initialise the network the first time, nothing after.
    pub fn poll_step(&self) -> (r: PollStep)
        ensures
            r == (if self.is_initialized() { PollStep::NotReady } else { PollStep::StartNetwork }),
    {
        if !self.initialized {
            PollStep::StartNetwork
        } else {
            PollStep::NotReady
        }
    }

    /// Completes a poll, given what initialising the network gave where the
    /// poll asked for it (`None` where it did not): on success the future is
    /// done and gives the initialised client, on failure the network's error
    /// comes back as `ClientError::NetworkError` and the future stays as it was.
    pub fn poll<E>(&mut self, network_result: Option<Result<(), E>>) -> (r: Result<Async<InitializedClient<C>>, ClientError<E>>)
        ensures
            final(self).is_initialized() == poll_transition(old(self).is_initialized(), network_result),
            (r matches Ok(Async::Ready(_))) == poll_yields(old(self).is_initialized(), network_result),
            old(self).is_initialized() || network_result is None ==> {
                &&& (r matches Ok(Async::NotReady))
                &&& *final(self) == *old(self)
            },
            network_result matches Some(Err(e)) ==> (!old(self).is_initialized() ==> {
                &&& r == Err::<Async<InitializedClient<C>>, ClientError<E>>(ClientError::NetworkError(e))
                &&& *final(self) == *old(self)
            }),
            network_result matches Some(Ok(_)) ==> (!old(self).is_initialized() ==> {
                &&& (r matches Ok(Async::Ready(client)) && client.consensus_value() == old(self).consensus_value())
                &&& final(self).is_initialized()
                &&& final(self).consensus_value() == old(self).consensus_value()
            }),
    {
        if !self.initialized {
            match network_result {
                Some(Ok(())) => {
                    self.initialized = true;
                    Ok(Async::Ready(InitializedClient { consensus: share(&self.consensus) }))
                },
                Some(Err(e)) => Err(ClientError::NetworkError(e)),
                None => Ok(Async::NotReady),
            }
        } else {
            Ok(Async::NotReady)
        }
    }
}

impl<C> Client<C> for ClientInitializeFuture<C> {
    fn initialized(&self) -> (r: bool)
        ensures
            r == self.is_initialized(),
    {
        self.initialized
    }

    fn connected(&self) -> (r: bool)
        ensures
            !r,
    {
        false
    }

    fn consensus(&self) -> (r: Arc<C>)
        ensures
            r == self.consensus_value(),
    {
        share(&self.consensus)
    }
}

impl<C> InitializedClient<C> {
    /// The consensus the client runs.
    pub closed spec fn consensus_value(&self) -> Arc<C> {
        self.consensus
    }

    /// A future that connects the client's network.
    pub fn connect(&self) -> (r: ClientConnectFuture<C>)
        ensures
            r.consensus_value() == self.consensus_value(),
            !r.is_connected(),
    {
        ClientConnectFuture { consensus: share(&self.consensus), connected: false }
    }
}

impl<C> Client<C> for InitializedClient<C> {
    fn initialized(&self) -> (r: bool)
        ensures
            r,
    {
        true
    }

    fn connected(&self) -> (r: bool)
        ensures
            !r,
    {
        false
    }

    fn consensus(&self) -> (r: Arc<C>)
        ensures
            r == self.consensus_value(),
    {
        share(&self.consensus)
    }
}

impl<C> ClientConnectFuture<C> {
    /// The consensus the client runs.
    pub closed spec fn consensus_value(&self) -> Arc<C> {
        self.consensus
    }

    /// Whether the network has been connected.
    pub closed spec fn is_connected(&self) -> bool {
        self.connected
    }

    /// What a poll has to do: connect the network the first time, nothing after.
    pub fn poll_step(&self) -> (r: PollStep)
        ensures
            r == (if self.is_connected() { PollStep::NotReady } else { PollStep::StartNetwork }),
    {
        if !self.connected {
            PollStep::StartNetwork
        } else {
            PollStep::NotReady
        }
    }

    /// Completes a poll, given what connecting the network gave where the poll
    /// asked for it (`None` where it did not): on success the future is done
    /// and gives the connected client, on failure the network's error comes
    /// back as `ClientError::NetworkError` and the future stays as it was.
    pub fn poll<E>(&mut self, network_result: Option<Result<(), E>>) -> (r: Result<Async<ConnectedClient<C>>, ClientError<E>>)
        ensures
            final(self).is_connected() == poll_transition(old(self).is_connected(), network_result),
            (r matches Ok(Async::Ready(_))) == poll_yields(old(self).is_connected(), network_result),
            old(self).is_connected() || network_result is None ==> {
                &&& (r matches Ok(Async::NotReady))
                &&& *final(self) == *old(self)
            },
            network_result matches Some(Err(e)) ==> (!old(self).is_connected() ==> {
                &&& r == Err::<Async<ConnectedClient<C>>, ClientError<E>>(ClientError::NetworkError(e))
                &&& *final(self) == *old(self)
            }),
            network_result matches Some(Ok(_)) ==> (!old(self).is_connected() ==> {
                &&& (r matches Ok(Async::Ready(client)) && client.consensus_value() == old(self).consensus_value())
                &&& final(self).is_connected()
                &&& final(self).consensus_value() == old(self).consensus_value()
            }),
    {
        if !self.connected {
            match network_result {
                Some(Ok(())) => {
                    self.connected = true;
                    Ok(Async::Ready(ConnectedClient { consensus: share(&self.consensus) }))
                },
                Some(Err(e)) => Err(ClientError::NetworkError(e)),
                None => Ok(Async::NotReady),
            }
        } else {
            Ok(Async::NotReady)
        }
    }
}

impl<C> Client<C> for ClientConnectFuture<C> {
    fn initialized(&self) -> (r: bool)
        ensures
            r,
    {
        true
    }

    fn connected(&self) -> (r: bool)
        ensures
            r == self.is_connected(),
    {
        self.connected
    }

    fn consensus(&self) -> (r: Arc<C>)
        ensures
            r == self.consensus_value(),
    {
        share(&self.consensus)
    }
}

impl<C> ConnectedClient<C> {
    /// The consensus the client runs.
    pub closed spec fn consensus_value(&self) -> Arc<C> {
        self.consensus
    }

    /// The consensus the client runs.
    pub fn consensus(&self) -> (r: Arc<C>)
        ensures
            r == self.consensus_value(),
    {
        share(&self.consensus)
    }
}

impl<C> Client<C> for ConnectedClient<C> {
    fn initialized(&self) -> (r: bool)
        ensures
            r,
    {
        true
    }

    fn connected(&self) -> (r: bool)
        ensures
            r,
    {
        true
    }

    fn consensus(&self) -> (r: Arc<C>)
        ensures
            r == self.consensus_value(),
    {
        share(&self.consensus)
    }
}

} // verus!
