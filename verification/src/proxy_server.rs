//! The proxy server's configuration and the candidate-selection failover
//! state machine.
//!
//! [`ProxyServerBuilder`] collects the immutable configuration;
//! [`ProxyServer`] is that configuration with the directory client built
//! from it. [`SelectServer`] turns one directory answer into exactly one
//! backend endpoint: candidates are tried strictly in the directory's order,
//! one at a time, each attempt bounded by the per-attempt timeout, until one
//! connects or the list is exhausted. The sockets themselves live outside
//! the library, which is handed each attempt's outcome.

use vstd::prelude::*;

use crate::consul::{
    effective_endpoint, path_segment_encoded, query_pairs_spec, ConsulClient, ConsulSettings,
    Endpoint, ServiceNode, ServiceNodeView,
};
use crate::error::Error;

verus! {

/// The mathematical contents of a list of nodes, in order.
pub open spec fn nodes_view(v: Seq<ServiceNode>) -> Seq<ServiceNodeView> {
    v.map_values(|n: ServiceNode| n@)
}

/// A builder for `ProxyServer`.
pub struct ProxyServerBuilder {
    /// The address the server listens on.
    pub bind_addr: Endpoint,
    /// The directory settings of the service the server proxies.
    pub consul: ConsulSettings,
    /// The operator-configured service port, overriding every candidate's
    /// reported port when set.
    pub service_port: Option<u16>,
    /// The timeout of one TCP connect attempt, in milliseconds.
    pub connect_timeout_ms: u64,
}

impl ProxyServerBuilder {
    /// The default timeout of a TCP connect operation, in milliseconds.
    pub const DEFAULT_CONNECT_TIMEOUT_MS: u64 = 1000;

    /// Makes a new `ProxyServerBuilder` for the given service: listen on
    /// every interface at port 17382, query the local agent without filters,
    /// no port override, and the default connect timeout.
    pub fn new(service: &str) -> (r: Self)
        ensures
            r.bind_addr@.host == "0.0.0.0"@,
            r.bind_addr@.port == 17382,
            r.consul@.service == service@,
            r.consul@.consul_addr.host == "127.0.0.1"@,
            r.consul@.consul_addr.port == 8500,
            r.consul@.dc is None,
            r.consul@.tag is None,
            r.consul@.near is None,
            r.consul@.node_meta == Seq::<(Seq<char>, Seq<char>)>::empty(),
            r.service_port is None,
            r.connect_timeout_ms == Self::DEFAULT_CONNECT_TIMEOUT_MS,
    {
        ProxyServerBuilder {
            bind_addr: Endpoint { host: String::from_str("0.0.0.0"), port: 17382 },
            consul: ConsulSettings::new(service),
            service_port: Option::None,
            connect_timeout_ms: Self::DEFAULT_CONNECT_TIMEOUT_MS,
        }
    }

    /// Sets the address the server listens on.
    pub fn bind_addr(&mut self, addr: Endpoint)
        ensures
            final(self).bind_addr@ == addr@,
            final(self).consul == old(self).consul,
            final(self).service_port == old(self).service_port,
            final(self).connect_timeout_ms == old(self).connect_timeout_ms,
    {
        self.bind_addr = addr;
    }

    /// Sets the port number of the service handled by the proxy server.
    ///
    /// If omitted, the selected node's reported service port is used.
    pub fn service_port(&mut self, port: u16)
        ensures
            final(self).service_port == Option::Some(port),
            final(self).bind_addr == old(self).bind_addr,
            final(self).consul == old(self).consul,
            final(self).connect_timeout_ms == old(self).connect_timeout_ms,
    {
        self.service_port = Option::Some(port);
    }

    /// Sets the timeout of a TCP connect attempt, in milliseconds.
    pub fn connect_timeout(&mut self, timeout_ms: u64)
        ensures
            final(self).connect_timeout_ms == timeout_ms,
            final(self).bind_addr == old(self).bind_addr,
            final(self).consul == old(self).consul,
            final(self).service_port == old(self).service_port,
    {
        self.connect_timeout_ms = timeout_ms;
    }

    /// The directory settings, for reading; the `consul` field itself can be
    /// adjusted before the server is built.
    pub fn consul(&self) -> (r: &ConsulSettings)
        ensures
            r == &self.consul,
    {
        &self.consul
    }

    /// Builds a new proxy server with the specified settings.
    pub fn finish(&self) -> (r: ProxyServer)
        ensures
            r.consul.consul_addr@ == self.consul@.consul_addr,
            r.consul.query_url@.host == self.consul@.consul_addr.host,
            r.consul.query_url@.port == self.consul@.consul_addr.port,
            r.consul.query_url@.path == crate::consul::query_path_spec(self.consul@),
            r.consul.query_url@.query == crate::consul::query_string_spec(self.consul@),
            r.bind_addr@ == self.bind_addr@,
            r.service_port == self.service_port,
            r.connect_timeout_ms == self.connect_timeout_ms,
    {
        ProxyServer {
            consul: self.consul.client(),
            bind_addr: self.bind_addr.clone(),
            service_port: self.service_port,
            connect_timeout_ms: self.connect_timeout_ms,
        }
    }
}

/// Proxy server: the immutable configuration that the accept loop and every
/// session read. The listening socket and the accept loop themselves live
/// outside the library; each accepted connection gets one independent
/// session built from this value.
pub struct ProxyServer {
    /// The directory client sessions query through.
    pub consul: ConsulClient,
    /// The address the server listens on.
    pub bind_addr: Endpoint,
    /// The operator-configured service port override.
    pub service_port: Option<u16>,
    /// The timeout of one TCP connect attempt, in milliseconds.
    pub connect_timeout_ms: u64,
}

impl ProxyServer {
    /// Makes a new `ProxyServer` for the given service with the default
    /// settings, as `ProxyServerBuilder::new(service).finish()` would.
    pub fn new(service: &str) -> (r: Self)
        ensures
            r.bind_addr@.host == "0.0.0.0"@,
            r.bind_addr@.port == 17382,
            r.consul.consul_addr@.host == "127.0.0.1"@,
            r.consul.consul_addr@.port == 8500,
            r.consul.query_url@.path == "/v1/catalog/service/"@ + path_segment_encoded(service@),
            r.consul.query_url@.query is None,
            r.service_port is None,
            r.connect_timeout_ms == ProxyServerBuilder::DEFAULT_CONNECT_TIMEOUT_MS,
    {
        let builder = ProxyServerBuilder::new(service);
        let r = builder.finish();
        proof {
            assert(query_pairs_spec(builder.consul@) =~= Seq::<Seq<char>>::empty());
        }
        r
    }

    /// The selector of one fresh session, carrying the server's port
    /// override and connect timeout.
    pub fn select_server(&self) -> (r: SelectServer)
        ensures
            r.remaining() == Seq::<ServiceNodeView>::empty(),
            r.server is None,
            r.service_port == self.service_port,
            r.connect_timeout_ms == self.connect_timeout_ms,
    {
        SelectServer::new(self.service_port, self.connect_timeout_ms)
    }
}

/// One failed connect attempt, as the selector reports it for the warning
/// log: the endpoint that was tried, and a timeout kept distinct from a
/// refusal or another socket error.
pub struct ConnectFailure {
    /// The endpoint the attempt went to.
    pub endpoint: Endpoint,
    /// Whether the attempt exceeded the per-attempt timeout rather than
    /// failing outright.
    pub timed_out: bool,
    /// The per-candidate error class: `ConnectTimeout` on a timeout,
    /// `ConnectAttemptError` otherwise.
    pub error: Error,
}

/// The candidate-selection failover state machine of one session.
///
/// The directory's answer is stored reversed, so that removing the last
/// element yields the candidates in the directory's reported order, one at a
/// time, front to back, with no reordering across attempts.
pub struct SelectServer {
    /// The candidates not yet attempted, reversed: the next to try is last.
    pub candidates: Vec<ServiceNode>,
    /// The candidate whose connect attempt is in flight.
    pub server: Option<ServiceNode>,
    /// The operator-configured service port override.
    pub service_port: Option<u16>,
    /// The timeout bounding each connect attempt, in milliseconds.
    pub connect_timeout_ms: u64,
}

impl SelectServer {
    /// The candidates still to be tried, in the directory's order.
    pub open spec fn remaining(&self) -> Seq<ServiceNodeView> {
        nodes_view(self.candidates@).reverse()
    }

    /// Makes a selector that waits for the directory's answer.
    pub fn new(service_port: Option<u16>, connect_timeout_ms: u64) -> (r: Self)
        ensures
            r.remaining() == Seq::<ServiceNodeView>::empty(),
            r.server is None,
            r.service_port == service_port,
            r.connect_timeout_ms == connect_timeout_ms,
    {
        let r = SelectServer {
            candidates: Vec::new(),
            server: Option::None,
            service_port,
            connect_timeout_ms,
        };
        proof {
            assert(r.remaining() =~= Seq::<ServiceNodeView>::empty());
        }
        r
    }

    /// Stores the directory's candidate list. It is reversed internally so
    /// that selection proceeds by removing the last element, which keeps the
    /// attempts in the directory's reported order, unmodified.
    pub fn on_candidates(&mut self, nodes: Vec<ServiceNode>)
        ensures
            final(self).remaining() == nodes_view(nodes@),
            final(self).server == old(self).server,
            final(self).service_port == old(self).service_port,
            final(self).connect_timeout_ms == old(self).connect_timeout_ms,
    {
        let ghost nodes0 = nodes@;
        let mut nodes = nodes;
        self.candidates = Vec::new();
        while nodes.len() > 0
            invariant
                nodes@.len() <= nodes0.len(),
                nodes@ == nodes0.take(nodes@.len() as int),
                self.candidates@ == nodes0.skip(nodes@.len() as int).reverse(),
                self.server == old(self).server,
                self.service_port == old(self).service_port,
                self.connect_timeout_ms == old(self).connect_timeout_ms,
            decreases nodes@.len(),
        {
            let ghost nlen = nodes@.len() as int;
            let n = match nodes.pop() {
                Option::Some(n) => n,
                Option::None => {
                    proof {
                        assert(false);
                    }
                    return ;
                },
            };
            proof {
                assert(nodes@ == nodes0.take(nlen).subrange(0, nlen - 1));
                assert(nodes@ =~= nodes0.take(nlen - 1));
                assert(n == nodes0.take(nlen)[nlen - 1]);
                assert(n == nodes0[nlen - 1]);
            }
            self.candidates.push(n);
            proof {
                assert(self.candidates@ =~= nodes0.skip(nlen - 1).reverse());
            }
        }
        proof {
            assert(self.candidates@ =~= nodes0.reverse());
            assert(self.remaining() =~= nodes_view(nodes0));
        }
    }

    /// Removes and returns the next candidate to try — the front of what
    /// remains of the directory's order — with its effective endpoint.
    /// When no candidate remains, the selection has failed for good:
    /// `NoAvailableBackend`.
    pub fn next_candidate(&mut self) -> (r: Result<Endpoint, Error>)
        ensures
            old(self).remaining().len() == 0 ==> (r matches Err(e) && e
                == Error::NoAvailableBackend && final(self).remaining() == old(self).remaining()
                && final(self).server == old(self).server && final(self).service_port == old(
                self,
            ).service_port && final(self).connect_timeout_ms == old(self).connect_timeout_ms),
            old(self).remaining().len() > 0 ==> (r matches Ok(ep) && ep@ == effective_endpoint(
                old(self).remaining()[0],
                old(self).service_port,
            ) && final(self).remaining() == old(self).remaining().skip(1) && (final(self).server
                matches Some(c) && c@ == old(self).remaining()[0]) && final(self).service_port
                == old(self).service_port && final(self).connect_timeout_ms == old(
                self,
            ).connect_timeout_ms),
    {
        match self.candidates.pop() {
            Option::None => {
                proof {
                    assert(self.remaining() =~= old(self).remaining());
                }
                Err(Error::NoAvailableBackend)
            },
            Option::Some(candidate) => {
                let addr = candidate.socket_addr(self.service_port);
                self.server = Option::Some(candidate);
                proof {
                    assert(final(self).remaining() =~= old(self).remaining().skip(1));
                }
                Ok(addr)
            },
        }
    }

    /// Records that the attempt on the current candidate failed — refused,
    /// unreachable, or timed out — and discards that candidate. Failover is
    /// immediate: nothing waits between attempts. The returned record is
    /// what the warning log carries, with a timeout kept distinct from an
    /// error.
    pub fn on_connect_failed(&mut self, timed_out: bool) -> (r: ConnectFailure)
        requires
            old(self).server is Some,
        ensures
            r.endpoint@ == effective_endpoint(old(self).server.unwrap()@, old(self).service_port),
            r.timed_out == timed_out,
            r.error == (if timed_out {
                Error::ConnectTimeout
            } else {
                Error::ConnectAttemptError
            }),
            final(self).server is None,
            final(self).remaining() == old(self).remaining(),
            final(self).service_port == old(self).service_port,
            final(self).connect_timeout_ms == old(self).connect_timeout_ms,
    {
        let candidate = match self.server.take() {
            Option::Some(c) => c,
            Option::None => {
                proof {
                    assert(false);
                }
                return ConnectFailure {
                    endpoint: Endpoint { host: String::new(), port: 0 },
                    timed_out,
                    error: Error::ConnectAttemptError,
                };
            },
        };
        let endpoint = candidate.socket_addr(self.service_port);
        let error = if timed_out {
            Error::ConnectTimeout
        } else {
            Error::ConnectAttemptError
        };
        ConnectFailure { endpoint, timed_out, error }
    }

    /// The endpoint of the current candidate, which a successful attempt
    /// has just connected to: the selection's result.
    pub fn on_connected(&self) -> (r: Endpoint)
        requires
            self.server is Some,
        ensures
            r@ == effective_endpoint(self.server.unwrap()@, self.service_port),
    {
        match &self.server {
            Option::Some(c) => c.socket_addr(self.service_port),
            Option::None => {
                proof {
                    assert(false);
                }
                Endpoint { host: String::new(), port: 0 }
            },
        }
    }
}

/// The record of one whole selection run: every endpoint that was attempted,
/// in order, and how the run ended.
pub struct SelectionOutcome {
    /// The endpoints attempted, in the directory's order.
    pub attempted: Vec<Endpoint>,
    /// The connected endpoint, or `NoAvailableBackend` when the list was
    /// empty or exhausted.
    pub result: Result<Endpoint, Error>,
}

/// Drives one whole selector run over a directory answer, with the success
/// of the attempt on the `i`-th candidate given by `outcomes[i]`.
///
/// The guarantees of the failover design, proved here once for every list:
/// the attempted endpoints are the candidates' effective endpoints in the
/// directory's order, unmodified; every attempt before the last one failed,
/// so the run connects to the first reachable candidate and attempts no
/// candidate after it; an empty or fully-unreachable list ends in
/// `NoAvailableBackend` after at most one bounded attempt per candidate;
/// and an operator-configured port override applies to every attempt.
pub fn select_backend(
    nodes: Vec<ServiceNode>,
    service_port: Option<u16>,
    connect_timeout_ms: u64,
    outcomes: &Vec<bool>,
) -> (r: SelectionOutcome)
    requires
        outcomes@.len() == nodes@.len(),
    ensures
        r.attempted@.len() <= nodes@.len(),
        forall|j: int|
            0 <= j < r.attempted@.len() ==> r.attempted@[j]@ == effective_endpoint(
                nodes_view(nodes@)[j],
                service_port,
            ),
        forall|j: int| 0 <= j < r.attempted@.len() - 1 ==> !outcomes@[j],
        r.result matches Ok(ep) ==> r.attempted@.len() >= 1 && outcomes@[r.attempted@.len() - 1]
            && ep@ == effective_endpoint(
            nodes_view(nodes@)[r.attempted@.len() - 1],
            service_port,
        ),
        r.result matches Err(e) ==> e == Error::NoAvailableBackend && r.attempted@.len()
            == nodes@.len() && (forall|j: int| 0 <= j < outcomes@.len() ==> !outcomes@[j]),
        (r.result is Ok) <==> (exists|k: int| 0 <= k < outcomes@.len() && outcomes@[k]),
        service_port matches Some(p) ==> forall|j: int|
            0 <= j < r.attempted@.len() ==> r.attempted@[j]@.port == p,
{
    let ghost ns = nodes_view(nodes@);
    let mut sel = SelectServer::new(service_port, connect_timeout_ms);
    sel.on_candidates(nodes);
    let mut attempted: Vec<Endpoint> = Vec::new();
    let mut connected: Option<Endpoint> = Option::None;
    let mut i: usize = 0;
    while i < outcomes.len() && connected.is_none()
        invariant
            outcomes@.len() == ns.len(),
            i <= ns.len(),
            sel.service_port == service_port,
            attempted@.len() == i,
            forall|j: int|
                0 <= j < i ==> attempted@[j]@ == effective_endpoint(ns[j], service_port),
            connected is None ==> sel.remaining() == ns.skip(i as int) && (forall|j: int|
                0 <= j < i ==> !outcomes@[j]),
            connected matches Some(ep) ==> i >= 1 && outcomes@[i - 1] && ep@
                == effective_endpoint(ns[i - 1], service_port) && (forall|j: int|
                0 <= j < i - 1 ==> !outcomes@[j]),
        decreases ns.len() - i,
    {
        let ghost i0 = i as int;
        let ep = match sel.next_candidate() {
            Ok(ep) => ep,
            Err(_) => {
                proof {
                    assert(false);
                }
                Endpoint { host: String::new(), port: 0 }
            },
        };
        proof {
            assert(ns.skip(i0)[0] == ns[i0]);
            assert(ns.skip(i0).skip(1) =~= ns.skip(i0 + 1));
        }
        attempted.push(ep);
        if outcomes[i] {
            let c = sel.on_connected();
            connected = Option::Some(c);
        } else {
            let _failure = sel.on_connect_failed(false);
        }
        i += 1;
    }
    proof {
        if service_port is Some {
            assert forall|j: int|
                0 <= j < attempted@.len() implies attempted@[j]@.port
                == service_port.unwrap() by {
                assert(attempted@[j]@ == effective_endpoint(ns[j], service_port));
            }
        }
    }
    let result = match connected {
        Option::Some(ep) => Ok(ep),
        Option::None => Err(Error::NoAvailableBackend),
    };
    SelectionOutcome { attempted, result }
}

} // verus!
