//! A client library for a connector cluster's REST API: the domain model of
//! connectors, tasks and topics, the decoders that turn the API's JSON into
//! that model, the multi-cluster configuration and the rules that map HTTP
//! replies to outcomes.
use vstd::prelude::*;

pub mod json;
pub mod text;
pub mod decode;
pub mod http;
pub mod connect;
pub mod config;
pub mod cluster;
pub mod tasks;
pub mod topics;
pub mod connector_plugins;
pub mod cli;

pub use connect::{Connector, ConnectorName, ConnectorType, CreateConnector, Task};
use connect::{collection_url, connector_text, decode_connector, decode_names, names_text};
use http::{check_reply, join, outcome, reply_body, ApiError, ApiFault, HttpReply, Method, Request};

verus! {

/// Where the cluster API is reached.
#[derive(Debug)]
pub struct Config {
    pub connect_uri: String,
}

impl Config {
    pub fn from(uri: String) -> (r: Config)
        ensures
            r.connect_uri == uri,
    {
        Config { connect_uri: uri }
    }
}

/// A client for listing and creating connectors.
#[derive(Debug)]
pub struct Client {
    pub config: Config,
}

impl Client {
    pub fn from_config(config: Config) -> (r: Client)
        ensures
            r.config == config,
    {
        Client { config }
    }

    /// `GET` on the connector collection.
    pub fn list_connectors_request(&self) -> (r: Request)
        ensures
            r@.method == Method::Get,
            r@.url == collection_url(self.config.connect_uri@),
            r@.query.len() == 0,
    {
        Request { method: Method::Get, url: join(self.config.connect_uri.as_str(), "connectors"), query: Vec::new() }
    }

    /// Reads the reply of the connector listing: the names, in order.
    pub fn list_connectors(&self, reply: &HttpReply) -> (r: Result<Vec<ConnectorName>, ApiError>)
        ensures
            match r {
                Ok(ns) => outcome(reply@, names_text(reply_body(reply@)), None)
                    == Ok::<Seq<Seq<char>>, ApiFault>(ns@.map_values(|n: ConnectorName| n@)),
                Err(e) => outcome(reply@, names_text(reply_body(reply@)), None) == Err::<Seq<Seq<char>>, ApiFault>(e@),
            },
    {
        let body = check_reply(reply, None)?;
        match decode_names(body.as_str()) {
            Ok(ns) => Ok(ns),
            Err(e) => Err(ApiError::MalformedResponse { error: e, body: body.clone() }),
        }
    }

    /// `POST` on the connector collection; the body holds the name and the settings.
    pub fn create_connector_request(&self) -> (r: Request)
        ensures
            r@.method == Method::Post,
            r@.url == collection_url(self.config.connect_uri@),
            r@.query.len() == 0,
    {
        Request { method: Method::Post, url: join(self.config.connect_uri.as_str(), "connectors"), query: Vec::new() }
    }

    /// Reads the reply of a creation.
    pub fn create_connector(&self, reply: &HttpReply) -> (r: Result<Connector, ApiError>)
        ensures
            r matches Ok(c) ==> c.config.wf(),
            connect::result_view(r) == outcome(reply@, connector_text(reply_body(reply@)), None),
    {
        let body = check_reply(reply, None)?;
        match decode_connector(body.as_str()) {
            Ok(c) => Ok(c),
            Err(e) => Err(ApiError::MalformedResponse { error: e, body: body.clone() }),
        }
    }
}

} // verus!
