//! The connector plugins installed on the cluster, and checking settings
//! against a plugin.
use vstd::prelude::*;
use vstd::string::*;
use crate::connect::{get_setting, setting, ConnectorConfig};
use crate::decode::{document, read_document};
use crate::http::{check_reply, join, join_path, outcome, reply_body, ApiError, ApiFault, HttpReply, Method, Request};
use crate::json::{json_view, JsonV};

verus! {

/// The URL of the plugin collection under `uri`.
pub fn plugins_endpoint(uri: &str) -> (r: String)
    ensures
        r@ == join_path(uri@, "connector-plugins"@),
{
    join(uri, "connector-plugins")
}

/// `GET` on the plugin collection.
pub fn list_plugins_request(host: &str) -> (r: Request)
    ensures
        r@.method == Method::Get,
        r@.url == join_path(host@, "connector-plugins"@),
        r@.query.len() == 0,
{
    Request { method: Method::Get, url: plugins_endpoint(host), query: Vec::new() }
}

/// `PUT` on a plugin's validation resource; the body holds the settings.
pub fn validate_config_request(host: &str, class_name: &str) -> (r: Request)
    ensures
        r@.method == Method::Put,
        r@.url == join_path(host@, "connector-plugins"@) + "/"@ + class_name@ + "/config/validate"@,
        r@.query.len() == 0,
{
    let mut url = plugins_endpoint(host);
    url.append("/");
    url.append(class_name);
    url.append("/config/validate");
    Request { method: Method::Put, url, query: Vec::new() }
}

/// Reads a reply whose body is any JSON document.
fn json_reply(reply: &HttpReply) -> (r: Result<serde_json::Value, ApiError>)
    ensures
        match r {
            Ok(v) => outcome(reply@, document(reply_body(reply@)), None) == Ok::<JsonV, ApiFault>(json_view(v)),
            Err(e) => outcome(reply@, document(reply_body(reply@)), None) == Err::<JsonV, ApiFault>(e@),
        },
{
    let body = check_reply(reply, None)?;
    match read_document(body.as_str()) {
        Ok(v) => Ok(v),
        Err(e) => Err(ApiError::MalformedResponse { error: e, body: body.clone() }),
    }
}

/// Reads the reply of the plugin listing: the document as the server sent it.
pub fn list_plugins(reply: &HttpReply) -> (r: Result<serde_json::Value, ApiError>)
    ensures
        match r {
            Ok(v) => outcome(reply@, document(reply_body(reply@)), None) == Ok::<JsonV, ApiFault>(json_view(v)),
            Err(e) => outcome(reply@, document(reply_body(reply@)), None) == Err::<JsonV, ApiFault>(e@),
        },
{
    json_reply(reply)
}

/// Reads the reply of a validation: the server's verdict as it sent it.
pub fn validate_config(reply: &HttpReply) -> (r: Result<serde_json::Value, ApiError>)
    ensures
        match r {
            Ok(v) => outcome(reply@, document(reply_body(reply@)), None) == Ok::<JsonV, ApiFault>(json_view(v)),
            Err(e) => outcome(reply@, document(reply_body(reply@)), None) == Err::<JsonV, ApiFault>(e@),
        },
{
    json_reply(reply)
}

/// The plugin class to validate against: the one given, else the
/// `connector.class` setting; `None` where neither is there.
pub open spec fn class_name_of(explicit: Option<Seq<char>>, config: Seq<(Seq<char>, Seq<char>)>) -> Option<Seq<char>> {
    match explicit {
        Some(n) => Some(n),
        None => setting(config, "connector.class"@),
    }
}

/// The plugin class to validate against.
pub fn class_name(explicit: Option<String>, config: &ConnectorConfig) -> (r: Option<String>)
    requires
        config.wf(),
    ensures
        match r {
            Some(n) => class_name_of(crate::connect::opt_view(explicit), config@) == Some(n@),
            None => class_name_of(crate::connect::opt_view(explicit), config@) is None,
        },
{
    match explicit {
        Some(n) => Some(n),
        None => get_setting(config, "connector.class"),
    }
}

} // verus!
