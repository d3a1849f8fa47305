use vstd::prelude::*;

use reqwest::blocking::Client as HttpClient;
use reqwest::blocking::ClientBuilder;

use crate::error::Error;
use crate::http::{lookup, pairs_view, HttpRequest, Method, RequestBody, RequestView};
use crate::text::{decimal, parse_u64, u64_to_decimal};

verus! {

/// Header that carries the Nomad ACL token
pub const NOMAD_AUTH_HEADER: &'static str = "X-Nomad-Token";

/// Response header that carries the index of a blocking query
pub const NOMAD_INDEX_HEADER: &'static str = "X-Nomad-Index";

/// Node attribute that holds the AWS instance ID
pub const AWS_INSTANCE_ID_ATTRIBUTE: &'static str = "unique.platform.aws.instance-id";

/// `reqwest::blocking::Client`, carried through as it is.
#[verifier::external_type_specification]
#[verifier::external_body]
pub struct ExHttpClient(HttpClient);

/// `reqwest::blocking::ClientBuilder`, carried through as it is.
#[verifier::external_type_specification]
#[verifier::external_body]
pub struct ExClientBuilder(ClientBuilder);

/// The timeout that a `reqwest::blocking::ClientBuilder` holds (its `timeout` field), as
/// whole seconds and nanoseconds, or `None` for no timeout.
pub uninterp spec fn builder_timeout(builder: ClientBuilder) -> Option<(u64, u32)>;

/// The timeout that a `reqwest::blocking::Client` applies to a request that sets none (its
/// `timeout` field), as whole seconds and nanoseconds, or `None` for no timeout.
pub uninterp spec fn client_timeout(client: HttpClient) -> Option<(u64, u32)>;

/// `Clone` of `reqwest::blocking::Client`, which is derived: the clone has the same
/// timeout and shares the same connection handle.
pub assume_specification[ <HttpClient as Clone>::clone ](client: &HttpClient) -> (res: HttpClient)
    ensures
        client_timeout(res) == client_timeout(*client),
;

/// `reqwest::blocking::ClientBuilder::new`: a builder whose timeout is the default, 30 seconds.
#[verifier::external_body]
fn client_builder_new() -> (builder: ClientBuilder)
    ensures
        builder_timeout(builder) == Some((30u64, 0u32)),
{
    ClientBuilder::new()
}

/// `reqwest::blocking::ClientBuilder::timeout` with a timeout of `seconds` seconds: it sets
/// the builder's timeout and nothing else that is stated here.
#[verifier::external_body]
fn client_builder_timeout(builder: ClientBuilder, seconds: u64) -> (timed: ClientBuilder)
    ensures
        builder_timeout(timed) == Some((seconds, 0u32)),
{
    builder.timeout(std::time::Duration::from_secs(seconds))
}

/// `reqwest::blocking::ClientBuilder::build`: a client with the builder's timeout. Whether
/// it succeeds depends on the machine (TLS backend, resolver), so that is not stated.
#[verifier::external_body]
fn client_builder_build(builder: ClientBuilder) -> (built: Result<HttpClient, reqwest::Error>)
    ensures
        built matches Ok(c) ==> client_timeout(c) == builder_timeout(builder),
{
    builder.build()
}

/// Timeout of the HTTP client that `Client::new` builds, long enough for blocking queries
pub const DEFAULT_HTTP_TIMEOUT_SECS: u64 = 360;

/// Nomad API Client
#[derive(Clone, Debug)]
pub struct Client {
    address: String,
    token: Option<String>,
    client: HttpClient,
}

/// What a `Client` holds besides its HTTP client
pub struct ClientView {
    pub address: Seq<char>,
    pub token: Option<Seq<char>>,
}

/// The text of an optional string.
pub open spec fn opt_view(s: Option<String>) -> Option<Seq<char>> {
    match s {
        Some(t) => Some(t@),
        None => None,
    }
}

/// The text of an optional string slice.
pub open spec fn opt_str_view(s: Option<&str>) -> Option<Seq<char>> {
    match s {
        Some(t) => Some(t@),
        None => None,
    }
}

impl View for Client {
    type V = ClientView;

    closed spec fn view(&self) -> ClientView {
        ClientView { address: self.address@, token: opt_view(self.token) }
    }
}

/// Status of a Nomad node
#[derive(Clone, Copy, Debug, PartialEq, Eq, Structural)]
pub enum NodeStatus {
    /// Node is initialising
    Initializing,
    /// Node is ready and accepting allocations
    Ready,
    /// Node is down or missed a heartbeat
    Down,
}

/// Node eligibility for scheduling
#[derive(Clone, Copy, Debug, PartialEq, Eq, Structural)]
pub enum NodeEligibility {
    /// Eligible to receive new allocations
    Eligible,
    /// Ineligible for new allocations
    Ineligible,
}

/// A point in time in UTC: seconds since the Unix epoch and nanoseconds within the second
#[derive(Clone, Copy, Debug, PartialEq, Eq, Structural)]
pub struct UtcTime {
    pub seconds: i64,
    pub nanos: u32,
}

/// Node details in List of nodes
#[derive(Clone, Debug, PartialEq, Eq)]
pub struct NodesInList {
    pub address: String,
    pub datacenter: String,
    pub drain: bool,
    pub id: String,
    pub name: String,
    pub status: NodeStatus,
    pub node_class: String,
    pub scheduling_eligibility: NodeEligibility,
    pub version: String,
    pub modify_index: u128,
    pub status_description: String,
}

/// Specification for draining
#[derive(Clone, Copy, Debug, PartialEq, Eq, Structural)]
pub struct DrainSpec {
    /// Deadline in seconds
    pub deadline: u64,
    /// Whether system jobs are ignored
    pub ignore_system_jobs: bool,
}

/// Drain Strategy
#[derive(Clone, Debug, PartialEq, Eq)]
pub struct DrainStrategy {
    /// Specification for draining
    pub drain_spec: Option<DrainSpec>,
    /// Deadline where drain must complete
    pub force_deadline: UtcTime,
}

/// Node Data returned from Nomad API
#[derive(Clone, Debug, PartialEq, Eq)]
pub struct Node {
    /// ID of the node
    pub id: String,
    /// Name of the Node
    pub name: String,
    /// Attributes for the node, one pair per attribute name
    pub attributes: Vec<(String, String)>,
    /// Computed class of the node
    pub computed_class: String,
    /// Create index
    pub create_index: u128,
    /// Data centre the node is in
    pub datacenter: String,
    /// Whether the node is in a draining state
    pub drain: bool,
    /// Strategy in which the node is draining
    pub drain_strategy: Option<DrainStrategy>,
    /// HTTP Address
    pub http_address: String,
    /// Modify Index
    pub modify_index: u128,
    /// Scheduling Eligiblity
    pub scheduling_eligibility: NodeEligibility,
    /// Secret ID
    pub secret_id: String,
    /// Status
    pub status: NodeStatus,
    /// Status Description
    pub status_description: String,
    /// Time status was updated
    pub status_updated_at: u64,
    /// Whether TLS is enabled
    pub tls_enabled: bool,
    /// Class of Node
    pub node_class: Option<String>,
}

/// Node Driver Information
#[derive(Clone, Debug, PartialEq, Eq)]
pub struct DriverInfo {
    /// Driver specific attributes, one pair per attribute name
    pub attributes: Option<Vec<(String, String)>>,
    /// Whether the driver is detcted
    pub detected: bool,
    /// Healthy or not
    pub healthy: bool,
    /// Description of health
    pub health_description: String,
    /// Time updated
    pub update_time: UtcTime,
}

/// Node Port details
#[derive(Clone, Debug, PartialEq, Eq)]
pub struct Port {
    /// Label of the port
    pub label: String,
    /// Port number
    pub port: u64,
}

/// Node Network details
#[derive(Clone, Debug, PartialEq, Eq)]
pub struct NetworkResource {
    /// CIDR of the network
    pub cidr: String,
    /// Device name
    pub device: String,
    /// List of dynamic ports
    pub dynamic_ports: Vec<Port>,
    /// IP Address
    pub ip: String,
    /// Mbits
    pub mbits: u64,
    /// Reserved Ports
    pub reserved_ports: Vec<Port>,
}

/// Node Resource Details
#[derive(Clone, Debug, PartialEq, Eq)]
pub struct Resource {
    /// CPU in MHz
    pub cpu: u64,
    /// Disk space in MB
    pub disk: u64,
    /// IOPS
    pub iops: u64,
    /// Memory in MB
    pub memory: u64,
    /// Networks
    pub networks: Option<Vec<NetworkResource>>,
}

/// Body of a node eligibility update
#[derive(Clone, Debug, PartialEq, Eq)]
pub struct NodeEligibilityRequest {
    pub node_id: String,
    pub eligibility: NodeEligibility,
}

/// Body of a node drain request
#[derive(Clone, Debug, PartialEq, Eq)]
pub struct NodeDrainRequest {
    pub node_id: String,
    pub drain_spec: DrainSpec,
}

/// Nomad Responses that support blocking requests
///
/// See the [documentation](https://www.nomadproject.io/api/index.html#blocking-queries) for more
/// details
#[derive(Clone, Debug, PartialEq, Eq)]
pub struct BlockingResponse<T> {
    /// The index indicating the "change ID" for the current response
    pub index: u64,
    /// The actual data of the response
    pub data: T,
}

/// Deadline of the default drain specification: one hour
pub const DEFAULT_DRAIN_DEADLINE_SECS: u64 = 3600;

impl Default for DrainSpec {
    fn default() -> (r: Self)
        ensures
            r.deadline == 3600,
            !r.ignore_system_jobs,
    {
        DrainSpec { deadline: DEFAULT_DRAIN_DEADLINE_SECS, ignore_system_jobs: false }
    }
}

impl NodeEligibility {
    /// The text that `Display` writes: "Eligible" or "Ineligible".
    pub fn to_display_string(&self) -> (r: String)
        ensures
            r@ == (match *self {
                NodeEligibility::Eligible => "Eligible"@,
                NodeEligibility::Ineligible => "Ineligible"@,
            }),
    {
        match *self {
            NodeEligibility::Eligible => String::from_str("Eligible"),
            NodeEligibility::Ineligible => String::from_str("Ineligible"),
        }
    }
}

/// The query pairs of a blocking query: the wait index when there is one, and then the
/// wait time in seconds followed by "s" when there is also one.
pub open spec fn blocking_query(wait_index: Option<u64>, wait_timeout: Option<u64>) -> Seq<(Seq<char>, Seq<char>)> {
    match wait_index {
        None => seq![],
        Some(i) => match wait_timeout {
            None => seq![("index"@, decimal(i as nat))],
            Some(t) => seq![("index"@, decimal(i as nat)), ("wait"@, decimal(t as nat) + "s"@)],
        },
    }
}

/// The headers that carry the client's token: one header when there is a token, none otherwise.
pub open spec fn token_headers(token: Option<Seq<char>>) -> Seq<(Seq<char>, Seq<char>)> {
    match token {
        Some(t) => seq![(NOMAD_AUTH_HEADER@, t)],
        None => seq![],
    }
}

/// The index of a blocking response: 0 without the index header, else the header read as a `u64`.
pub open spec fn index_from_header(header: Option<Seq<char>>) -> Option<u64> {
    match header {
        None => Some(0),
        Some(h) => crate::text::parse_u64_spec(h),
    }
}

/// A request with no query, no header and no body.
fn bare_request(method: Method, url: String) -> (r: HttpRequest)
    ensures
        r@.method == method,
        r@.url == url@,
        r@.query == Seq::<(Seq<char>, Seq<char>)>::empty(),
        r@.headers == Seq::<(Seq<char>, Seq<char>)>::empty(),
        r.body == RequestBody::Empty,
{
    let r = HttpRequest { method, url, query: Vec::new(), headers: Vec::new(), body: RequestBody::Empty };
    assert(r@.query =~= Seq::<(Seq<char>, Seq<char>)>::empty());
    assert(r@.headers =~= Seq::<(Seq<char>, Seq<char>)>::empty());
    r
}

/// Appends a pair of texts to a list of string pairs.
fn push_pair(pairs: &mut Vec<(String, String)>, key: String, value: String)
    ensures
        pairs_view(final(pairs)@) == pairs_view(old(pairs)@).push((key@, value@)),
{
    pairs.push((key, value));
    assert(pairs_view(pairs@) =~= pairs_view(old(pairs)@).push((key@, value@)));
}

/// The address of a node's details.
pub open spec fn node_url(address: Seq<char>, node_id: Seq<char>) -> Seq<char> {
    address + "/v1/node/"@ + node_id
}

/// The address of the list of nodes.
pub open spec fn nodes_url(address: Seq<char>) -> Seq<char> {
    address + "/v1/nodes"@
}

/// The address of a node's eligibility.
pub open spec fn eligibility_url(address: Seq<char>, node_id: Seq<char>) -> Seq<char> {
    node_url(address, node_id) + "/eligibility"@
}

/// The address of a node's drain.
pub open spec fn drain_url(address: Seq<char>, node_id: Seq<char>) -> Seq<char> {
    node_url(address, node_id) + "/drain"@
}

/// Whether `r` is the request for a node's details with the given blocking-query parameters.
pub open spec fn is_node_details_request(
    c: ClientView,
    r: RequestView,
    node_id: Seq<char>,
    wait_index: Option<u64>,
    wait_timeout: Option<u64>,
) -> bool {
    &&& r.method == Method::Get
    &&& r.url == node_url(c.address, node_id)
    &&& r.query == blocking_query(wait_index, wait_timeout)
    &&& r.headers == token_headers(c.token)
    &&& r.body == RequestBody::Empty
}

/// An index that a blocking response carries and that the next blocking query sends back
/// is read as the number that was written: the text of the `index` query parameter,
/// given back in the `X-Nomad-Index` header, gives the same index.
pub proof fn lemma_index_roundtrip(index: u64, wait_timeout: Option<u64>)
    ensures
        blocking_query(Some(index), wait_timeout)[0] == ("index"@, decimal(index as nat)),
        index_from_header(Some(blocking_query(Some(index), wait_timeout)[0].1)) == Some(index),
{
    crate::text::lemma_parse_decimal_roundtrip(index);
}

impl Client {
    /// Create a new Nomad Client
    ///
    /// You can optionally provide a `reqwest::blocking::Client` if you have specific needs
    /// like custom root CA certificate or require client authentication. The default client
    /// has a timeout set to 6 minutes to allow supporting Nomad's blocking queries. If you
    /// use your own client, make sure to set this as well.
    pub fn new(address: &str, token: Option<&str>, client: Option<HttpClient>) -> (res: Result<Self, Error>)
        ensures
            match res {
                Ok(c) => c@.address == address@ && c@.token == opt_str_view(token)
                    && (client matches Some(h) ==> c.spec_http_client() == h)
                    && (client is None ==> client_timeout(c.spec_http_client()) == Some((DEFAULT_HTTP_TIMEOUT_SECS, 0u32))),
                Err(e) => client is None && e is ReqwestError,
            },
    {
        let client = match client {
            Some(client) => client,
            None => {
                let builder = client_builder_timeout(client_builder_new(), DEFAULT_HTTP_TIMEOUT_SECS);
                match client_builder_build(builder) {
                    Ok(c) => c,
                    Err(e) => return Err(Error::ReqwestError(e)),
                }
            },
        };
        let token = match token {
            Some(t) => Some(t.to_owned()),
            None => None,
        };
        Ok(Client { client, address: address.to_owned(), token })
    }

    /// Returns the Nomad Server Address
    pub fn address(&self) -> (r: &str)
        ensures
            r@ == self@.address,
    {
        self.address.as_str()
    }

    /// Returns the Nomad Token, if any
    pub fn token(&self) -> (r: Option<&str>)
        ensures
            opt_str_view(r) == self@.token,
    {
        match &self.token {
            Some(t) => Some(t.as_str()),
            None => None,
        }
    }

    /// The HTTP client that the client sends its requests with.
    pub closed spec fn spec_http_client(&self) -> HttpClient {
        self.client
    }

    /// Returns the HTTP Client used
    pub fn http_client(&self) -> (r: &HttpClient)
        ensures
            *r == self.spec_http_client(),
    {
        &self.client
    }

    /// Adds the token header to a request when the client has a token.
    pub fn add_nomad_token_header(&self, request: HttpRequest) -> (r: HttpRequest)
        ensures
            r@.method == request@.method,
            r@.url == request@.url,
            r@.query == request@.query,
            r@.headers == request@.headers + token_headers(self@.token),
            r.body == request.body,
    {
        let mut request = request;
        let ghost h0 = request@.headers;
        match &self.token {
            Some(token) => {
                push_pair(&mut request.headers, String::from_str(NOMAD_AUTH_HEADER), token.clone());
            },
            None => {},
        }
        assert(request@.headers =~= h0 + token_headers(self@.token));
        request
    }

    /// Adds the blocking-query parameters to a request: the wait index when there is one,
    /// and then the wait time when there is also one.
    pub fn add_blocking_requests(request: HttpRequest, wait_index: Option<u64>, wait_timeout: Option<u64>) -> (r: HttpRequest)
        ensures
            r@.method == request@.method,
            r@.url == request@.url,
            r@.query == request@.query + blocking_query(wait_index, wait_timeout),
            r@.headers == request@.headers,
            r.body == request.body,
    {
        let mut request = request;
        let ghost q0 = request@.query;
        match wait_index {
            Some(index) => {
                push_pair(&mut request.query, String::from_str("index"), u64_to_decimal(index));
                match wait_timeout {
                    None => {},
                    Some(timeout) => {
                        let mut wait = u64_to_decimal(timeout);
                        wait.append("s");
                        push_pair(&mut request.query, String::from_str("wait"), wait);
                    },
                }
            },
            None => {},
        }
        assert(request@.query =~= q0 + blocking_query(wait_index, wait_timeout));
        request
    }

    /// Build the request to get node details
    pub fn build_node_details_request(&self, node_id: &str, wait_index: Option<u64>, wait_timeout: Option<u64>) -> (r: HttpRequest)
        ensures
            is_node_details_request(self@, r@, node_id@, wait_index, wait_timeout),
    {
        let mut url = self.address.clone();
        url.append("/v1/node/");
        url.append(node_id);
        let request = bare_request(Method::Get, url);
        let request = self.add_nomad_token_header(request);
        let r = Self::add_blocking_requests(request, wait_index, wait_timeout);
        assert(r@.query =~= blocking_query(wait_index, wait_timeout));
        assert(r@.headers =~= token_headers(self@.token));
        r
    }

    /// Build the request to retrieve the list of nodes
    pub fn build_nodes_request(&self, wait_index: Option<u64>, wait_timeout: Option<u64>) -> (r: HttpRequest)
        ensures
            r@.method == Method::Get,
            r@.url == nodes_url(self@.address),
            r@.query == blocking_query(wait_index, wait_timeout),
            r@.headers == token_headers(self@.token),
            r.body == RequestBody::Empty,
    {
        let mut url = self.address.clone();
        url.append("/v1/nodes");
        let request = bare_request(Method::Get, url);
        let request = self.add_nomad_token_header(request);
        let r = Self::add_blocking_requests(request, wait_index, wait_timeout);
        assert(r@.query =~= blocking_query(wait_index, wait_timeout));
        assert(r@.headers =~= token_headers(self@.token));
        r
    }

    /// Build the request that sets a node's eligibility
    pub fn build_node_eligibility_request(&self, node_id: &str, payload: NodeEligibilityRequest) -> (r: HttpRequest)
        ensures
            r@.method == Method::Post,
            r@.url == eligibility_url(self@.address, node_id@),
            r@.query == Seq::<(Seq<char>, Seq<char>)>::empty(),
            r@.headers == token_headers(self@.token),
            r.body == RequestBody::NodeEligibility(payload),
    {
        let mut url = self.address.clone();
        url.append("/v1/node/");
        url.append(node_id);
        url.append("/eligibility");
        let mut request = bare_request(Method::Post, url);
        request.body = RequestBody::NodeEligibility(payload);
        let r = self.add_nomad_token_header(request);
        assert(r@.headers =~= token_headers(self@.token));
        r
    }

    /// Build the request that marks a node for draining
    pub fn build_drain_request(&self, node_id: &str, payload: NodeDrainRequest) -> (r: HttpRequest)
        ensures
            r@.method == Method::Post,
            r@.url == drain_url(self@.address, node_id@),
            r@.query == Seq::<(Seq<char>, Seq<char>)>::empty(),
            r@.headers == token_headers(self@.token),
            r.body == RequestBody::NodeDrain(payload),
    {
        let mut url = self.address.clone();
        url.append("/v1/node/");
        url.append(node_id);
        url.append("/drain");
        let mut request = bare_request(Method::Post, url);
        request.body = RequestBody::NodeDrain(payload);
        let r = self.add_nomad_token_header(request);
        assert(r@.headers =~= token_headers(self@.token));
        r
    }

    /// The request that sets a node's eligibility for new allocations.
    pub fn node_eligibility_request(&self, node_id: &str, eligibility: NodeEligibility) -> (r: HttpRequest)
        ensures
            r@.method == Method::Post,
            r@.url == eligibility_url(self@.address, node_id@),
            r@.query == Seq::<(Seq<char>, Seq<char>)>::empty(),
            r@.headers == token_headers(self@.token),
            match r.body {
                RequestBody::NodeEligibility(p) => p.node_id@ == node_id@ && p.eligibility == eligibility,
                _ => false,
            },
    {
        let payload = NodeEligibilityRequest { node_id: node_id.to_owned(), eligibility };
        self.build_node_eligibility_request(node_id, payload)
    }

    /// Pairs the data of a response with the index that its `X-Nomad-Index` header holds
    /// (0 when the response has no such header).
    pub fn make_indexed_response<T>(index_header: Option<&str>, data: T) -> (res: Result<BlockingResponse<T>, Error>)
        ensures
            match index_from_header(opt_str_view(index_header)) {
                Some(i) => res matches Ok(r) && r.index == i && r.data == data,
                None => res matches Err(e) && e is ParseIntError,
            },
    {
        let index = match index_header {
            None => 0,
            Some(header) => match parse_u64(header) {
                Ok(i) => i,
                Err(e) => return Err(Error::ParseIntError(e)),
            },
        };
        Ok(BlockingResponse { data, index })
    }
}

} // verus!
