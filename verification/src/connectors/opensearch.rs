//! OpenSearch client set-up: a single-node connection to the configured URL with
//! basic authentication.

use vstd::prelude::*;
use crate::constants::OpenSearchConfig;

verus! {

#[verifier::external_type_specification]
#[verifier::external_body]
pub struct ExOpenSearch(::opensearch::OpenSearch);

#[verifier::external_type_specification]
#[verifier::external_body]
pub struct ExUrl(::opensearch::http::Url);

#[verifier::external_type_specification]
#[verifier::external_body]
pub struct ExSingleNodeConnectionPool(::opensearch::http::transport::SingleNodeConnectionPool);

#[verifier::external_type_specification]
#[verifier::external_body]
pub struct ExTransportBuilder(::opensearch::http::transport::TransportBuilder);

#[verifier::external_type_specification]
#[verifier::external_body]
pub struct ExTransport(::opensearch::http::transport::Transport);

/// What `Url::parse` makes of a text: the URL, or `None` where it refuses it.
pub uninterp spec fn parsed_url(text: Seq<char>) -> Option<::opensearch::http::Url>;

/// The URL of the connection that `Connection::new` makes for `url`: `url` with
/// a slash appended to its path where the path does not end with one.
pub uninterp spec fn node_url(url: ::opensearch::http::Url) -> ::opensearch::http::Url;

/// The URL of the one connection of a single-node pool.
pub uninterp spec fn pool_node(
    pool: ::opensearch::http::transport::SingleNodeConnectionPool,
) -> ::opensearch::http::Url;

/// What a transport builder holds of the settings that matter here: the URL of
/// its pool's node, and the basic-authentication user name and password, if any.
pub uninterp spec fn builder_settings(
    builder: ::opensearch::http::transport::TransportBuilder,
) -> (::opensearch::http::Url, Option<(Seq<char>, Seq<char>)>);

/// The same settings, as held by a built transport.
pub uninterp spec fn transport_settings(
    transport: ::opensearch::http::transport::Transport,
) -> (::opensearch::http::Url, Option<(Seq<char>, Seq<char>)>);

/// The same settings, as held by the transport of a client.
pub uninterp spec fn client_settings(
    client: ::opensearch::OpenSearch,
) -> (::opensearch::http::Url, Option<(Seq<char>, Seq<char>)>);

/// Parses a URL (`<Url as FromStr>::from_str`, that is `Url::parse`); `None` where
/// it fails.
#[verifier::external_body]
fn parse_url(text: &str) -> (r: Option<::opensearch::http::Url>)
    ensures
        r == parsed_url(text@),
{
    text.parse::<::opensearch::http::Url>().ok()
}

/// `SingleNodeConnectionPool::new`: a pool of the one connection to `url`.
#[verifier::external_body]
fn single_node_pool(url: ::opensearch::http::Url) -> (r:
    ::opensearch::http::transport::SingleNodeConnectionPool)
    ensures
        pool_node(r) == node_url(url),
{
    ::opensearch::http::transport::SingleNodeConnectionPool::new(url)
}

/// `TransportBuilder::new`: a builder of transports over the pool, without
/// credentials.
#[verifier::external_body]
fn transport_builder(
    pool: ::opensearch::http::transport::SingleNodeConnectionPool,
) -> (r: ::opensearch::http::transport::TransportBuilder)
    ensures
        builder_settings(r) == (pool_node(pool), None::<(Seq<char>, Seq<char>)>),
{
    ::opensearch::http::transport::TransportBuilder::new(pool)
}

/// `TransportBuilder::auth` with `Credentials::Basic(username, password)`: the
/// builder with these credentials.
#[verifier::external_body]
fn with_basic_auth(
    builder: ::opensearch::http::transport::TransportBuilder,
    username: String,
    password: String,
) -> (r: ::opensearch::http::transport::TransportBuilder)
    ensures
        builder_settings(r) == (builder_settings(builder).0, Some((username@, password@))),
{
    builder.auth(::opensearch::auth::Credentials::Basic(username, password))
}

/// `TransportBuilder::build`; `None` where it fails. It fails where the HTTP
/// client cannot be built on this machine, which nothing here can foresee; a
/// transport it builds keeps the builder's pool and credentials.
#[verifier::external_body]
fn build_transport(
    builder: ::opensearch::http::transport::TransportBuilder,
) -> (r: Option<::opensearch::http::transport::Transport>)
    ensures
        r matches Some(t) ==> transport_settings(t) == builder_settings(builder),
{
    builder.build().ok()
}

/// `OpenSearch::new`: the root client over a transport.
#[verifier::external_body]
fn client_over(transport: ::opensearch::http::transport::Transport) -> (r: ::opensearch::OpenSearch)
    ensures
        client_settings(r) == transport_settings(transport),
{
    ::opensearch::OpenSearch::new(transport)
}

/// Why an OpenSearch client could not be created.
#[derive(Debug, PartialEq, Eq, Structural)]
pub enum ClientError {
    /// The configured URL is not a valid URL.
    InvalidUrl,
    /// The HTTP transport could not be built.
    Transport,
}

/// Creates an OpenSearch client with a single-node pool at the configured URL,
/// authenticating with the configured user name and password; `None` where the
/// HTTP transport cannot be built on this machine.
pub fn create_client(config: &OpenSearchConfig) -> (r: Option<::opensearch::OpenSearch>)
    requires
        parsed_url(config.url@) is Some,
    ensures
        r matches Some(c) ==> client_settings(c) == (
            node_url(parsed_url(config.url@)->0),
            Some((config.username@, config.password@)),
        ),
{
    let url = match parse_url(config.url.as_str()) {
        Some(u) => u,
        None => return None,
    };
    let pool = single_node_pool(url);
    let builder = with_basic_auth(
        transport_builder(pool),
        config.username.clone(),
        config.password.clone(),
    );
    match build_transport(builder) {
        Some(transport) => Some(client_over(transport)),
        None => None,
    }
}

/// Creates the client of `create_client`, or says why it cannot: `InvalidUrl`
/// exactly where the configured URL does not parse, and `Transport` where the
/// HTTP transport cannot be built.
pub fn client_for_config(config: &OpenSearchConfig) -> (r: Result<::opensearch::OpenSearch, ClientError>)
    ensures
        parsed_url(config.url@) is None <==> r == Err::<::opensearch::OpenSearch, ClientError>(
            ClientError::InvalidUrl,
        ),
        r matches Ok(c) ==> client_settings(c) == (
            node_url(parsed_url(config.url@)->0),
            Some((config.username@, config.password@)),
        ),
{
    if parse_url(config.url.as_str()).is_none() {
        return Err(ClientError::InvalidUrl);
    }
    match create_client(config) {
        Some(c) => Ok(c),
        None => Err(ClientError::Transport),
    }
}

} // verus!
