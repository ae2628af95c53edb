//! Network API: Networks are user-defined networks that containers can be
//! attached to.

use crate::docker::{Method, Payload, Route, FALSE_STR, TRUE_STR};
use vstd::string::StringExecFns;
use crate::errors::QueryError;
use arrayvec::ArrayVec;
use std::collections::HashMap;
use std::hash::Hash;
use vstd::prelude::*;

verus! {

/// Network configuration used in the Create Network API.
#[derive(Debug, Clone, Default)]
pub struct CreateNetworkOptions<T> where T: Eq + Hash {
    /// The network's name.
    pub name: T,
    /// Check for networks with duplicate names. Since a network is primarily
    /// keyed on a random ID and not on the name, there is no guaranteed way
    /// to check for duplicates: this is best effort.
    pub check_duplicate: bool,
    /// Name of the network driver plugin to use.
    pub driver: T,
    /// Restrict external access to the network.
    pub internal: bool,
    /// Globally scoped network is manually attachable by regular containers
    /// from workers in swarm mode.
    pub attachable: bool,
    /// Ingress network is the network which provides the routing-mesh in
    /// swarm mode.
    pub ingress: bool,
    /// Controls IP address management when creating a network.
    pub ipam: IPAM<T>,
    /// Enable IPv6 on the network.
    pub enable_ipv6: bool,
    /// Network specific options to be used by the drivers.
    pub options: HashMap<T, T>,
    /// User-defined key/value metadata.
    pub labels: HashMap<T, T>,
}

/// IPAM represents IP Address Management.
#[derive(Debug, Default, Clone)]
#[allow(missing_docs)]
pub struct IPAM<T> where T: Eq + Hash {
    /// Name of the IPAM driver to use.
    pub driver: T,
    /// List of IPAM configuration options.
    pub config: Vec<IPAMConfig<T>>,
    /// Driver-specific options, specified as a map.
    pub options: HashMap<T, T>,
}

/// IPAMConfig represents IPAM configurations.
#[derive(Debug, Default, Clone)]
#[allow(missing_docs)]
pub struct IPAMConfig<T> where T: Eq + Hash {
    pub subnet: Option<T>,
    pub ip_range: Option<T>,
    pub gateway: Option<T>,
    pub aux_address: Option<HashMap<T, T>>,
}

/// Result type for the Create Network API.
#[derive(Debug, Clone)]
#[allow(missing_docs)]
pub struct CreateNetworkResults {
    pub id: String,
    pub warning: String,
}

/// Network configuration used in the Inspect Network API.
#[derive(Debug, Clone, Default)]
pub struct InspectNetworkOptions<T> {
    /// Detailed inspect output for troubleshooting.
    pub verbose: bool,
    /// Filter the network by scope (swarm, global, or local).
    pub scope: T,
}

/// Result type for the Inspect Network API.
#[derive(Debug, Clone)]
#[allow(missing_docs)]
pub struct InspectNetworkResults {
    pub name: String,
    pub id: String,
    pub created: String,
    pub scope: String,
    pub driver: String,
    pub enable_ipv6: bool,
    pub ipam: IPAM<String>,
    pub internal: bool,
    pub attachable: bool,
    pub ingress: bool,
    pub containers: HashMap<String, InspectNetworkResultsContainers>,
    pub options: HashMap<String, String>,
    pub labels: HashMap<String, String>,
    pub config_from: HashMap<String, String>,
    pub config_only: bool,
}

/// A container as the Inspect Network API lists it.
#[derive(Debug, Clone)]
#[allow(missing_docs)]
pub struct InspectNetworkResultsContainers {
    pub name: String,
    pub endpoint_id: String,
    pub mac_address: String,
    pub ipv4_address: String,
    pub ipv6_address: String,
}

/// Result type for the List Networks API.
#[derive(Debug, Clone)]
#[allow(missing_docs)]
pub struct ListNetworksResults {
    pub name: String,
    pub id: String,
    pub created: String,
    pub scope: String,
    pub driver: String,
    pub enable_ipv6: bool,
    pub internal: bool,
    pub attachable: bool,
    pub ingress: bool,
    pub ipam: IPAM<String>,
    pub options: HashMap<String, String>,
    pub config_from: HashMap<String, String>,
    pub config_only: bool,
    pub containers: HashMap<String, InspectNetworkResultsContainers>,
    pub labels: HashMap<String, String>,
}

/// Network configuration used in the List Networks API.
#[derive(Debug, Clone, Default)]
pub struct ListNetworksOptions<T> where T: Eq + Hash {
    /// The filters to process on the networks list, by name: `driver`, `id`,
    /// `label`, `name`, `scope` and `type`.
    pub filters: HashMap<T, Vec<T>>,
}

/// Network configuration used in the Connect Network API.
#[derive(Debug, Clone, Default)]
pub struct ConnectNetworkOptions<T> where T: Eq + Hash {
    /// The ID or name of the container to connect to the network.
    pub container: T,
    /// Configuration for a network endpoint.
    pub endpoint_config: EndpointSettings<T>,
}

/// Configuration for a network endpoint.
#[derive(Debug, Default, Clone)]
pub struct EndpointSettings<T> where T: Eq + Hash {
    /// EndpointIPAMConfig represents an endpoint's IPAM configuration.
    pub ipam_config: EndpointIPAMConfig<T>,
    #[allow(missing_docs)]
    pub links: Vec<T>,
    #[allow(missing_docs)]
    pub aliases: Vec<T>,
    /// Unique ID of the network.
    pub network_id: T,
    /// Unique ID for the service endpoint in a Sandbox.
    pub endpoint_id: T,
    /// Gateway address for this network.
    pub gateway: T,
    /// IPv4 address.
    pub ip_address: T,
    /// Mask length of the IPv4 address.
    pub ip_prefix_len: isize,
    /// IPv6 gateway address.
    pub ipv6_gateway: T,
    /// Global IPv6 address.
    pub global_ipv6_address: T,
    /// Mask length of the global IPv6 address.
    pub global_ipv6_prefix_len: i64,
    /// MAC address for the endpoint on this network.
    pub mac_address: T,
    /// DriverOpts is a mapping of driver options and values. These options
    /// are passed directly to the driver and are driver specific.
    pub driver_opts: Option<HashMap<T, T>>,
}

/// An endpoint's IPAM configuration.
#[derive(Debug, Default, Clone)]
#[allow(missing_docs)]
pub struct EndpointIPAMConfig<T> {
    pub ipv4_address: T,
    pub ipv6_address: T,
    pub link_local_ips: Vec<T>,
}

/// Network configuration used in the Disconnect Network API.
#[derive(Debug, Clone, Default)]
pub struct DisconnectNetworkOptions<T> {
    /// The ID or name of the container to disconnect from the network.
    pub container: T,
    /// Force the container to disconnect from the network.
    pub force: bool,
}

/// A full list of two query parameters, each a name and a value.
#[verifier::external_body]
#[verifier::reject_recursive_types(K)]
#[verifier::reject_recursive_types(V)]
pub struct QueryArray2<K, V> {
    params: ArrayVec<[(K, V); 2]>,
}

/// A full list of one query parameter, a name and a value.
#[verifier::external_body]
#[verifier::reject_recursive_types(K)]
#[verifier::reject_recursive_types(V)]
pub struct QueryArray1<K, V> {
    params: ArrayVec<[(K, V); 1]>,
}

/// The names and values that a list of two parameters with borrowed values
/// holds, in order.
pub uninterp spec fn str_pairs(params: QueryArray2<&'static str, &'static str>) -> Seq<
    (Seq<char>, Seq<char>),
>;

/// The names and values that a list of two parameters with owned values
/// holds, in order.
pub uninterp spec fn string_pairs(params: QueryArray2<&'static str, String>) -> Seq<
    (Seq<char>, Seq<char>),
>;

/// The name and value that a list of one parameter holds.
pub uninterp spec fn single_pair(params: QueryArray1<&'static str, String>) -> Seq<
    (Seq<char>, Seq<char>),
>;

/// `ArrayVec::from` on an array of two pairs with borrowed values: a list
/// that holds the array's pairs in their order.
#[verifier::external_body]
fn str_array<'a>(pairs: [(&'a str, &'a str); 2]) -> (params: QueryArray2<&'a str, &'a str>)
    ensures
        str_pairs(params) == seq![(pairs[0].0@, pairs[0].1@), (pairs[1].0@, pairs[1].1@)],
{
    QueryArray2 { params: ArrayVec::from(pairs) }
}

/// `ArrayVec::from` on an array of two pairs with owned values: a list that
/// holds the array's pairs in their order.
#[verifier::external_body]
fn string_array<'a>(pairs: [(&'a str, String); 2]) -> (params: QueryArray2<&'a str, String>)
    ensures
        string_pairs(params) == seq![(pairs[0].0@, pairs[0].1@), (pairs[1].0@, pairs[1].1@)],
{
    QueryArray2 { params: ArrayVec::from(pairs) }
}

/// `ArrayVec::from` on an array of one pair: a list that holds the pair.
#[verifier::external_body]
fn single_array<'a>(pairs: [(&'a str, String); 1]) -> (params: QueryArray1<&'a str, String>)
    ensures
        single_pair(params) == seq![(pairs[0].0@, pairs[0].1@)],
{
    QueryArray1 { params: ArrayVec::from(pairs) }
}

/// The names and values of `pairs` as texts.
pub open spec fn pair_texts<V: View<V = Seq<char>>>(pairs: Seq<(&str, V)>) -> Seq<
    (Seq<char>, Seq<char>),
> {
    Seq::new(pairs.len(), |i: int| (pairs[i].0@, pairs[i].1@))
}

/// `ArrayVec::as_slice` on a list of two parameters with borrowed values: the
/// pairs that the list holds, in order.
#[verifier::external_body]
fn str_slice<'a, 'b>(params: &'b QueryArray2<&'a str, &'a str>) -> (pairs: &'b [(
    &'a str,
    &'a str,
)])
    ensures
        pair_texts(pairs@) == str_pairs(*params),
{
    params.params.as_slice()
}

/// `ArrayVec::as_slice` on a list of two parameters with owned values: the
/// pairs that the list holds, in order.
#[verifier::external_body]
fn string_slice<'a, 'b>(params: &'b QueryArray2<&'a str, String>) -> (pairs: &'b [(
    &'a str,
    String,
)])
    ensures
        pair_texts(pairs@) == string_pairs(*params),
{
    params.params.as_slice()
}

/// `ArrayVec::as_slice` on a list of one parameter: the pair that the list
/// holds.
#[verifier::external_body]
fn single_slice<'a, 'b>(params: &'b QueryArray1<&'a str, String>) -> (pairs: &'b [(
    &'a str,
    String,
)])
    ensures
        pair_texts(pairs@) == single_pair(*params),
{
    params.params.as_slice()
}

/// `serde_json::to_string` on the filters of a list request: the filters as
/// JSON, or the serializer's error. Nothing is claimed of the text: the order
/// in which a hash map is written out is not fixed.
#[verifier::external_body]
fn filters_json(filters: &HashMap<&str, Vec<&str>>) -> (json: Result<String, serde_json::Error>) {
    serde_json::to_string(filters)
}

/// The parameters `pairs` as the query of a URL, if they can be written as
/// one: what `serde_urlencoded::to_string` makes of them.
pub uninterp spec fn urlencoded(pairs: Seq<(Seq<char>, Seq<char>)>) -> Option<Seq<char>>;

/// `serde_urlencoded::to_string` on pairs with borrowed values: the pairs as
/// a query, or the encoder's error where it refuses them.
#[verifier::external_body]
fn urlencode_strs(pairs: &[(&str, &str)]) -> (query: Result<String, serde_urlencoded::ser::Error>)
    ensures
        match query {
            Ok(q) => urlencoded(pair_texts(pairs@)) == Some(q@),
            Err(_) => urlencoded(pair_texts(pairs@)) is None,
        },
{
    serde_urlencoded::to_string(pairs)
}

/// `serde_urlencoded::to_string` on pairs with owned values: the pairs as a
/// query, or the encoder's error where it refuses them.
#[verifier::external_body]
fn urlencode_strings(pairs: &[(&str, String)]) -> (query: Result<
    String,
    serde_urlencoded::ser::Error,
>)
    ensures
        match query {
            Ok(q) => urlencoded(pair_texts(pairs@)) == Some(q@),
            Err(_) => urlencoded(pair_texts(pairs@)) is None,
        },
{
    serde_urlencoded::to_string(pairs)
}

impl<'a> QueryArray2<&'a str, &'a str> {
    /// The parameters as the query of a URL.
    pub fn encode(&self) -> (query: Result<String, serde_urlencoded::ser::Error>)
        ensures
            match query {
                Ok(q) => urlencoded(str_pairs(*self)) == Some(q@),
                Err(_) => urlencoded(str_pairs(*self)) is None,
            },
    {
        urlencode_strs(self.as_slice())
    }

    /// The parameters, in order.
    pub fn as_slice(&self) -> (pairs: &[(&'a str, &'a str)])
        ensures
            pair_texts(pairs@) == str_pairs(*self),
    {
        str_slice(self)
    }
}

impl<'a> QueryArray2<&'a str, String> {
    /// The parameters as the query of a URL.
    pub fn encode(&self) -> (query: Result<String, serde_urlencoded::ser::Error>)
        ensures
            match query {
                Ok(q) => urlencoded(string_pairs(*self)) == Some(q@),
                Err(_) => urlencoded(string_pairs(*self)) is None,
            },
    {
        urlencode_strings(self.as_slice())
    }

    /// The parameters, in order.
    pub fn as_slice(&self) -> (pairs: &[(&'a str, String)])
        ensures
            pair_texts(pairs@) == string_pairs(*self),
    {
        string_slice(self)
    }
}

impl<'a> QueryArray1<&'a str, String> {
    /// The parameter as the query of a URL.
    pub fn encode(&self) -> (query: Result<String, serde_urlencoded::ser::Error>)
        ensures
            match query {
                Ok(q) => urlencoded(single_pair(*self)) == Some(q@),
                Err(_) => urlencoded(single_pair(*self)) is None,
            },
    {
        urlencode_strings(self.as_slice())
    }

    /// The parameter.
    pub fn as_slice(&self) -> (pairs: &[(&'a str, String)])
        ensures
            pair_texts(pairs@) == single_pair(*self),
    {
        single_slice(self)
    }
}

/// The text that a query parameter carries for a truth value.
pub open spec fn bool_text(b: bool) -> Seq<char> {
    if b {
        TRUE_STR@
    } else {
        FALSE_STR@
    }
}

/// What turns the options of an Inspect Network request into its query.
#[allow(missing_docs)]
pub trait InspectNetworkQueryParams<K, V> {
    fn into_array(self) -> Result<QueryArray2<K, V>, QueryError>;
}

impl<'a> InspectNetworkQueryParams<&'a str, &'a str> for InspectNetworkOptions<&'a str> {
    /// The parameters `verbose`, as `true` or `false`, and `scope`.
    fn into_array(self) -> (query: Result<QueryArray2<&'a str, &'a str>, QueryError>)
        ensures
            query matches Ok(params) && str_pairs(params) == seq![
                ("verbose"@, bool_text(self.verbose)),
                ("scope"@, self.scope@),
            ],
    {
        Ok(
            str_array(
                [("verbose", if self.verbose {
                    TRUE_STR
                } else {
                    FALSE_STR
                }), ("scope", self.scope)],
            ),
        )
    }
}

impl<'a> InspectNetworkQueryParams<&'a str, String> for InspectNetworkOptions<String> {
    /// The parameters `verbose`, as `true` or `false`, and `scope`.
    fn into_array(self) -> (query: Result<QueryArray2<&'a str, String>, QueryError>)
        ensures
            query matches Ok(params) && string_pairs(params) == seq![
                ("verbose"@, bool_text(self.verbose)),
                ("scope"@, self.scope@),
            ],
    {
        let verbose = if self.verbose {
            TRUE_STR
        } else {
            FALSE_STR
        };
        Ok(string_array([("verbose", verbose.to_owned()), ("scope", self.scope)]))
    }
}

/// What turns the options of a List Networks request into its query.
#[allow(missing_docs)]
pub trait ListNetworksQueryParams<K, V> {
    fn into_array(self) -> Result<QueryArray1<K, String>, QueryError>;
}

/// The query of a List Networks request whose filters were written as `json`:
/// the one parameter `filters` with that text, or the serializer's error
/// with the text that it is displayed with.
pub fn filters_query<'a>(json: Result<String, serde_json::Error>) -> (query: Result<
    QueryArray1<&'a str, String>,
    QueryError,
>)
    ensures
        match json {
            Ok(text) => query matches Ok(params) && single_pair(params) == seq![
                ("filters"@, text@),
            ],
            Err(e) => query matches Err(QueryError::JsonSerializeError { message })
                && vstd::string::to_string_from_display_ensures::<serde_json::Error>(&e, message),
        },
{
    match json {
        Ok(text) => Ok(single_array([("filters", text)])),
        Err(e) => Err(QueryError::JsonSerializeError { message: e.to_string() }),
    }
}

impl<'a> ListNetworksQueryParams<&'a str, String> for ListNetworksOptions<&'a str> {
    /// The one parameter `filters`, whose value is the filters as JSON.
    fn into_array(self) -> (query: Result<QueryArray1<&'a str, String>, QueryError>)
        ensures
            query matches Ok(params) ==> single_pair(params).len() == 1 && single_pair(
                params,
            )[0].0 == "filters"@,
    {
        filters_query(filters_json(&self.filters))
    }
}

/// The request that creates a network: its configuration goes as the body.
pub fn create_network() -> (route: Route)
    ensures
        route.is(Method::Post, "/networks/create"@, false, Payload::Json),
{
    Route {
        method: Method::Post,
        path: String::from_str("/networks/create"),
        query: false,
        payload: Payload::Json,
    }
}

/// The request that removes the network `network_name`.
pub fn remove_network(network_name: &str) -> (route: Route)
    ensures
        route.is(Method::Delete, "/networks/"@ + network_name@, false, Payload::Empty),
{
    Route {
        method: Method::Delete,
        path: String::from_str("/networks/").concat(network_name),
        query: false,
        payload: Payload::Empty,
    }
}

/// The request that inspects the network `network_name`; its options go as
/// the query.
pub fn inspect_network(network_name: &str) -> (route: Route)
    ensures
        route.is(Method::Get, "/networks/"@ + network_name@, true, Payload::Empty),
{
    Route {
        method: Method::Get,
        path: String::from_str("/networks/").concat(network_name),
        query: true,
        payload: Payload::Empty,
    }
}

/// The request that lists the networks; its options go as the query.
pub fn list_networks() -> (route: Route)
    ensures
        route.is(Method::Get, "/networks"@, true, Payload::Empty),
{
    Route {
        method: Method::Get,
        path: String::from_str("/networks"),
        query: true,
        payload: Payload::Empty,
    }
}

/// The request that connects a container to the network `network_name`:
/// its configuration goes as the body.
pub fn connect_network(network_name: &str) -> (route: Route)
    ensures
        route.is(Method::Post, "/networks/"@ + network_name@ + "/connect"@, false, Payload::Json),
{
    Route {
        method: Method::Post,
        path: String::from_str("/networks/").concat(network_name).concat("/connect"),
        query: false,
        payload: Payload::Json,
    }
}

/// The request that disconnects a container from the network
/// `network_name`: its configuration goes as the body.
pub fn disconnect_network(network_name: &str) -> (route: Route)
    ensures
        route.is(Method::Post, "/networks/"@ + network_name@ + "/disconnect"@, false, Payload::Json),
{
    Route {
        method: Method::Post,
        path: String::from_str("/networks/").concat(network_name).concat("/disconnect"),
        query: false,
        payload: Payload::Json,
    }
}

} // verus!
