//! The directory data model and query construction.
//!
//! A [`ServiceNode`] is one backend record as the directory reports it; the
//! node's effective connect endpoint is derived here. [`ConsulSettings`]
//! holds the immutable query configuration and builds the query URL, with the
//! percent-encoding of its parts done by the `url` crate behind trusted
//! wrappers.

use vstd::prelude::*;

use crate::http::QueryUrl;
use crate::text::join_amp;

verus! {

/// A connectable TCP endpoint: a host and a port, kept as plain values.
#[derive(Debug, PartialEq, Eq)]
pub struct Endpoint {
    /// The host, as text: an IP address, with brackets when it is IPv6.
    pub host: String,
    /// The TCP port.
    pub port: u16,
}

/// The mathematical content of an [`Endpoint`].
pub struct EndpointView {
    /// The host text.
    pub host: Seq<char>,
    /// The port number.
    pub port: u16,
}

impl View for Endpoint {
    type V = EndpointView;

    open spec fn view(&self) -> EndpointView {
        EndpointView { host: self.host@, port: self.port }
    }
}

impl Endpoint {
    /// Makes an endpoint from its parts.
    pub fn new(host: String, port: u16) -> (r: Self)
        ensures
            r@ == (EndpointView { host: host@, port: port }),
    {
        Endpoint { host, port }
    }
}

impl Clone for Endpoint {
    fn clone(&self) -> (r: Self)
        ensures
            r@ == self@,
    {
        Endpoint { host: self.host.clone(), port: self.port }
    }
}

/// The per-node address book that the directory reports beside the host
/// address.
pub struct TaggedAddresses {
    /// The LAN address, as text.
    pub lan: String,
    /// The WAN address, as text.
    pub wan: String,
}

/// The mathematical content of a [`TaggedAddresses`].
pub struct TaggedAddressesView {
    /// The LAN address text.
    pub lan: Seq<char>,
    /// The WAN address text.
    pub wan: Seq<char>,
}

impl View for TaggedAddresses {
    type V = TaggedAddressesView;

    open spec fn view(&self) -> TaggedAddressesView {
        TaggedAddressesView { lan: self.lan@, wan: self.wan@ }
    }
}

/// One backend record from the directory's service catalog. Created fresh on
/// every query, immutable, and discarded after one selector run.
pub struct ServiceNode {
    /// The record's unique id.
    pub id: String,
    /// The name of the node that hosts the service instance.
    pub node: String,
    /// The node's host address, as text.
    pub address: String,
    /// The datacenter the node lives in.
    pub datacenter: String,
    /// Further addresses of the node.
    pub tagged_addresses: TaggedAddresses,
    /// The node's metadata, as ordered key/value pairs.
    pub node_meta: Vec<(String, String)>,
    /// The directory's creation index of the record.
    pub create_index: u64,
    /// The directory's modification index of the record.
    pub modify_index: u64,
    /// The service's explicit connect address; when present and non-empty it
    /// overrides the host address.
    pub service_address: Option<String>,
    /// Whether the service allows tag override.
    pub service_enable_tag_override: bool,
    /// The service instance's id.
    pub service_id: String,
    /// The service's name.
    pub service_name: String,
    /// The port the service listens on, as the directory reports it.
    pub service_port: u16,
    /// The service's tags.
    pub service_tags: Vec<String>,
}

/// The mathematical content of a [`ServiceNode`].
pub struct ServiceNodeView {
    /// The record id text.
    pub id: Seq<char>,
    /// The node name text.
    pub node: Seq<char>,
    /// The host address text.
    pub address: Seq<char>,
    /// The datacenter text.
    pub datacenter: Seq<char>,
    /// The further addresses.
    pub tagged_addresses: TaggedAddressesView,
    /// The metadata pairs.
    pub node_meta: Seq<(Seq<char>, Seq<char>)>,
    /// The creation index.
    pub create_index: u64,
    /// The modification index.
    pub modify_index: u64,
    /// The explicit connect address, when present.
    pub service_address: Option<Seq<char>>,
    /// Whether the service allows tag override.
    pub service_enable_tag_override: bool,
    /// The service instance id text.
    pub service_id: Seq<char>,
    /// The service name text.
    pub service_name: Seq<char>,
    /// The reported service port.
    pub service_port: u16,
    /// The tags.
    pub service_tags: Seq<Seq<char>>,
}

impl View for ServiceNode {
    type V = ServiceNodeView;

    open spec fn view(&self) -> ServiceNodeView {
        ServiceNodeView {
            id: self.id@,
            node: self.node@,
            address: self.address@,
            datacenter: self.datacenter@,
            tagged_addresses: self.tagged_addresses@,
            node_meta: self.node_meta@.map_values(|kv: (String, String)| (kv.0@, kv.1@)),
            create_index: self.create_index,
            modify_index: self.modify_index,
            service_address: match self.service_address {
                Option::Some(a) => Option::Some(a@),
                Option::None => Option::None,
            },
            service_enable_tag_override: self.service_enable_tag_override,
            service_id: self.service_id@,
            service_name: self.service_name@,
            service_port: self.service_port,
            service_tags: self.service_tags@.map_values(|t: String| t@),
        }
    }
}

/// The host a session connects to: the explicit service address when the
/// directory reported one, else the node's host address.
pub open spec fn effective_host(n: ServiceNodeView) -> Seq<char> {
    match n.service_address {
        Option::Some(a) => a,
        Option::None => n.address,
    }
}

/// The port a session connects to: the operator-configured override when one
/// is set — uniformly for every candidate — else the node's reported port.
pub open spec fn effective_port(n: ServiceNodeView, override_port: Option<u16>) -> u16 {
    match override_port {
        Option::Some(p) => p,
        Option::None => n.service_port,
    }
}

/// The endpoint a session connects to for this node.
pub open spec fn effective_endpoint(n: ServiceNodeView, override_port: Option<u16>) -> EndpointView {
    EndpointView { host: effective_host(n), port: effective_port(n, override_port) }
}

impl ServiceNode {
    /// The endpoint to connect to: the explicit service address if present,
    /// else the host address; the given override port if set, else the
    /// reported service port.
    pub fn socket_addr(&self, port: Option<u16>) -> (r: Endpoint)
        ensures
            r@ == effective_endpoint(self@, port),
    {
        let host = match &self.service_address {
            Option::Some(a) => a.clone(),
            Option::None => self.address.clone(),
        };
        let port = match port {
            Option::Some(p) => p,
            Option::None => self.service_port,
        };
        Endpoint { host, port }
    }
}

/// Interprets the directory's `ServiceAddress` field, where an empty string
/// means the override is absent.
pub fn service_address_of(raw: &str) -> (r: Option<String>)
    ensures
        raw@.len() == 0 <==> r is None,
        r matches Some(a) ==> a@ == raw@,
{
    if raw.is_empty() {
        Option::None
    } else {
        Option::Some(raw.to_owned())
    }
}

/// What the `url` crate's path-segment encoding returns for a segment: a
/// pure function of the segment's characters.
pub uninterp spec fn path_segment_encoded(s: Seq<char>) -> Seq<char>;

/// What the `url` crate's form encoding returns for one `key=value` query
/// pair, the `=` included: a pure function of the two texts.
pub uninterp spec fn query_pair_encoded(key: Seq<char>, value: Seq<char>) -> Seq<char>;

/// Relies on url::PathSegmentsMut::push (reached through a throwaway
/// `url::Url`): it appends one path segment, percent-encoded; the encoding
/// depends on the segment's characters alone. The segment is returned
/// without the leading slash the URL stores it under.
#[verifier::external_body]
fn encode_path_segment(s: &str) -> (r: String)
    ensures
        r@ == path_segment_encoded(s@),
{
    let mut u = url::Url::parse("http://h").expect("the base URL is well formed");
    u.path_segments_mut().expect("an http URL has path segments").push(s);
    u.path()[1..].to_owned()
}

/// Relies on url::form_urlencoded::Serializer::append_pair: it serializes
/// one `key=value` pair in `application/x-www-form-urlencoded` syntax; the
/// encoding depends on the two texts alone.
#[verifier::external_body]
fn encode_query_pair(key: &str, value: &str) -> (r: String)
    ensures
        r@ == query_pair_encoded(key@, value@),
{
    let mut serializer = url::form_urlencoded::Serializer::new(String::new());
    serializer.append_pair(key, value);
    serializer.finish()
}

/// Settings for Consul: which service to query and the optional filters.
/// Built once at startup and reused unchanged for every session.
pub struct ConsulSettings {
    /// The address of the consul agent to query.
    pub consul_addr: Endpoint,
    /// The name of the service whose nodes are listed.
    pub service: String,
    /// The `dc` query parameter, when set.
    pub dc: Option<String>,
    /// The `tag` query parameter, when set.
    pub tag: Option<String>,
    /// The `near` query parameter, when set.
    pub near: Option<String>,
    /// The `node_meta` query parameters, as ordered key/value pairs.
    pub node_meta: Vec<(String, String)>,
}

/// The mathematical content of a [`ConsulSettings`].
pub struct ConsulSettingsView {
    /// The agent endpoint.
    pub consul_addr: EndpointView,
    /// The service name text.
    pub service: Seq<char>,
    /// The `dc` filter, when set.
    pub dc: Option<Seq<char>>,
    /// The `tag` filter, when set.
    pub tag: Option<Seq<char>>,
    /// The `near` filter, when set.
    pub near: Option<Seq<char>>,
    /// The metadata filters.
    pub node_meta: Seq<(Seq<char>, Seq<char>)>,
}

impl View for ConsulSettings {
    type V = ConsulSettingsView;

    open spec fn view(&self) -> ConsulSettingsView {
        ConsulSettingsView {
            consul_addr: self.consul_addr@,
            service: self.service@,
            dc: match self.dc {
                Option::Some(d) => Option::Some(d@),
                Option::None => Option::None,
            },
            tag: match self.tag {
                Option::Some(t) => Option::Some(t@),
                Option::None => Option::None,
            },
            near: match self.near {
                Option::Some(n) => Option::Some(n@),
                Option::None => Option::None,
            },
            node_meta: self.node_meta@.map_values(|kv: (String, String)| (kv.0@, kv.1@)),
        }
    }
}

/// The text of one `node_meta` parameter value: the key and the value with a
/// colon between them.
pub open spec fn meta_pair_text(kv: (Seq<char>, Seq<char>)) -> Seq<char> {
    kv.0 + seq![':'] + kv.1
}

/// The encoded `node_meta` query pairs of the given metadata entries, in
/// order.
pub open spec fn meta_pairs_spec(meta: Seq<(Seq<char>, Seq<char>)>) -> Seq<Seq<char>> {
    meta.map_values(|kv: (Seq<char>, Seq<char>)| query_pair_encoded("node_meta"@, meta_pair_text(kv)))
}

/// The texts of a sequence of strings, in order.
pub open spec fn strings_view(v: Seq<String>) -> Seq<Seq<char>> {
    v.map_values(|p: String| p@)
}

/// The encoded query pairs of the settings, in the order the query carries
/// them: `dc`, `tag`, `near`, then every `node_meta` pair in insertion order.
pub open spec fn query_pairs_spec(s: ConsulSettingsView) -> Seq<Seq<char>> {
    (match s.dc {
        Option::Some(d) => seq![query_pair_encoded("dc"@, d)],
        Option::None => Seq::<Seq<char>>::empty(),
    }) + (match s.tag {
        Option::Some(t) => seq![query_pair_encoded("tag"@, t)],
        Option::None => Seq::<Seq<char>>::empty(),
    }) + (match s.near {
        Option::Some(n) => seq![query_pair_encoded("near"@, n)],
        Option::None => Seq::<Seq<char>>::empty(),
    }) + meta_pairs_spec(s.node_meta)
}

/// The encoded path of the service catalog query.
pub open spec fn query_path_spec(s: ConsulSettingsView) -> Seq<char> {
    "/v1/catalog/service/"@ + path_segment_encoded(s.service)
}

/// The encoded query string of the settings: absent when no filter is set.
pub open spec fn query_string_spec(s: ConsulSettingsView) -> Option<Seq<char>> {
    if query_pairs_spec(s).len() == 0 {
        Option::<Seq<char>>::None
    } else {
        Option::Some(join_amp(query_pairs_spec(s)))
    }
}

impl ConsulSettings {
    /// Makes settings for the given service, querying the default local
    /// agent address with no filters.
    pub fn new(service: &str) -> (r: Self)
        ensures
            r@.consul_addr.host == "127.0.0.1"@,
            r@.consul_addr.port == 8500,
            r@.service == service@,
            r@.dc is None,
            r@.tag is None,
            r@.near is None,
            r@.node_meta == Seq::<(Seq<char>, Seq<char>)>::empty(),
    {
        let r = ConsulSettings {
            consul_addr: Endpoint { host: String::from_str("127.0.0.1"), port: 8500 },
            service: service.to_owned(),
            dc: Option::None,
            tag: Option::None,
            near: Option::None,
            node_meta: Vec::new(),
        };
        proof {
            assert(r@.node_meta =~= Seq::<(Seq<char>, Seq<char>)>::empty());
        }
        r
    }

    /// Sets the address of the consul agent used by `ProxyServer`.
    pub fn consul_addr(&mut self, addr: Endpoint)
        ensures
            final(self)@ == (ConsulSettingsView { consul_addr: addr@, ..old(self)@ }),
    {
        self.consul_addr = addr;
    }

    /// Sets the `dc` query parameter of the service catalog query.
    pub fn dc(&mut self, dc: &str)
        ensures
            final(self)@ == (ConsulSettingsView { dc: Option::Some(dc@), ..old(self)@ }),
    {
        self.dc = Option::Some(dc.to_owned());
    }

    /// Sets the `tag` query parameter of the service catalog query.
    pub fn tag(&mut self, tag: &str)
        ensures
            final(self)@ == (ConsulSettingsView { tag: Option::Some(tag@), ..old(self)@ }),
    {
        self.tag = Option::Some(tag.to_owned());
    }

    /// Sets the `near` query parameter of the service catalog query.
    pub fn near(&mut self, near: &str)
        ensures
            final(self)@ == (ConsulSettingsView { near: Option::Some(near@), ..old(self)@ }),
    {
        self.near = Option::Some(near.to_owned());
    }

    /// Adds an entry for the `node_meta` query parameter of the service
    /// catalog query.
    pub fn add_node_meta(&mut self, key: &str, value: &str)
        ensures
            final(self)@ == (ConsulSettingsView {
                node_meta: old(self)@.node_meta.push((key@, value@)),
                ..old(self)@
            }),
    {
        self.node_meta.push((key.to_owned(), value.to_owned()));
        proof {
            assert(self@.node_meta =~= old(self)@.node_meta.push((key@, value@)));
        }
    }

    /// Builds the service catalog query URL from the settings: the agent's
    /// authority, the encoded service path, and the encoded filters in their
    /// fixed order.
    pub fn build_query_url(&self) -> (r: QueryUrl)
        ensures
            r@.host == self@.consul_addr.host,
            r@.port == self@.consul_addr.port,
            r@.path == query_path_spec(self@),
            r@.query == query_string_spec(self@),
    {
        let encoded_service = encode_path_segment(self.service.as_str());
        let mut path = String::from_str("/v1/catalog/service/");
        path.append(encoded_service.as_str());

        let ghost dcp: Seq<Seq<char>> = match self@.dc {
            Option::Some(d) => seq![query_pair_encoded("dc"@, d)],
            Option::None => Seq::<Seq<char>>::empty(),
        };
        let ghost tagp: Seq<Seq<char>> = match self@.tag {
            Option::Some(t) => seq![query_pair_encoded("tag"@, t)],
            Option::None => Seq::<Seq<char>>::empty(),
        };
        let ghost nearp: Seq<Seq<char>> = match self@.near {
            Option::Some(n) => seq![query_pair_encoded("near"@, n)],
            Option::None => Seq::<Seq<char>>::empty(),
        };

        let mut pairs: Vec<String> = Vec::new();
        if let Option::Some(d) = &self.dc {
            pairs.push(encode_query_pair("dc", d.as_str()));
        }
        if let Option::Some(t) = &self.tag {
            pairs.push(encode_query_pair("tag", t.as_str()));
        }
        if let Option::Some(nr) = &self.near {
            pairs.push(encode_query_pair("near", nr.as_str()));
        }
        proof {
            assert(strings_view(pairs@) =~= dcp + tagp + nearp);
            assert(meta_pairs_spec(self@.node_meta.take(0)) =~= Seq::<Seq<char>>::empty());
            assert(strings_view(pairs@) =~= dcp + tagp + nearp + meta_pairs_spec(
                self@.node_meta.take(0),
            ));
        }

        let mut i: usize = 0;
        while i < self.node_meta.len()
            invariant
                i <= self.node_meta@.len(),
                self@.node_meta.len() == self.node_meta@.len(),
                strings_view(pairs@) == dcp + tagp + nearp + meta_pairs_spec(
                    self@.node_meta.take(i as int),
                ),
            decreases self.node_meta@.len() - i,
        {
            let kv = &self.node_meta[i];
            let mut text = kv.0.clone();
            text.append(":");
            text.append(kv.1.as_str());
            proof {
                reveal_strlit(":");
                assert(text@ =~= meta_pair_text(self@.node_meta[i as int]));
            }
            let ghost ps0 = pairs@;
            let ghost pair = query_pair_encoded("node_meta"@, meta_pair_text(
                self@.node_meta[i as int],
            ));
            pairs.push(encode_query_pair("node_meta", text.as_str()));
            proof {
                assert(strings_view(pairs@) =~= strings_view(ps0).push(pair));
                assert(meta_pairs_spec(self@.node_meta.take(i + 1)) =~= meta_pairs_spec(
                    self@.node_meta.take(i as int),
                ).push(pair));
                assert(strings_view(pairs@) =~= dcp + tagp + nearp + meta_pairs_spec(
                    self@.node_meta.take(i + 1),
                ));
            }
            i += 1;
        }
        proof {
            assert(self@.node_meta.take(self@.node_meta.len() as int) =~= self@.node_meta);
            assert(strings_view(pairs@) =~= query_pairs_spec(self@));
        }

        let query = if pairs.len() == 0 {
            Option::None
        } else {
            Option::Some(crate::text::join_with_amp(&pairs))
        };
        QueryUrl {
            host: self.consul_addr.host.clone(),
            port: self.consul_addr.port,
            path,
            query,
        }
    }

    /// Makes the directory client that sessions query through.
    pub fn client(&self) -> (r: ConsulClient)
        ensures
            r.consul_addr@ == self@.consul_addr,
            r.query_url@.host == self@.consul_addr.host,
            r.query_url@.port == self@.consul_addr.port,
            r.query_url@.path == query_path_spec(self@),
            r.query_url@.query == query_string_spec(self@),
    {
        ConsulClient { consul_addr: self.consul_addr.clone(), query_url: self.build_query_url() }
    }
}

/// The directory client of one server: the agent's address and the query URL
/// built once from the settings. The HTTP exchange itself happens outside
/// the library; sessions hand the parsed node records back in.
pub struct ConsulClient {
    /// The agent's address.
    pub consul_addr: Endpoint,
    /// The service catalog query URL.
    pub query_url: QueryUrl,
}

impl ConsulClient {
    /// The query URL the client sends.
    pub fn query_url(&self) -> (r: &QueryUrl)
        ensures
            r == &self.query_url,
    {
        &self.query_url
    }
}

} // verus!
