//! The registry data model: services, the nodes they run on, their
//! endpoints, and the record handed out by a watch.
//!
//! String-keyed metadata is held as a vector of key/value pairs; the
//! coordination-store client in front of this crate converts to and from
//! whatever map type the wire format uses.

use vstd::prelude::*;

verus! {

/// A service as announced to the registry.  Aggregation identity is the
/// pair `(name, version)`: records sharing both are one logical service.
#[derive(Debug)]
pub struct Service {
    pub name: String,
    pub version: String,
    pub metadata: Vec<(String, String)>,
    pub endpoints: Vec<Endpoint>,
    pub nodes: Vec<Node>,
    pub options: Option<Options>,
    pub apis: Option<OpenApi>,
}

impl Service {
    /// An empty service: all strings empty, no metadata, endpoints or
    /// nodes, and no options or API description.
    pub fn new() -> (r: Service)
        ensures
            r.name@ == Seq::<char>::empty(),
            r.version@ == Seq::<char>::empty(),
            r.metadata@ == Seq::<(String, String)>::empty(),
            r.endpoints@ == Seq::<Endpoint>::empty(),
            r.nodes@ == Seq::<Node>::empty(),
            r.options is None,
            r.apis is None,
    {
        Service {
            name: String::new(),
            version: String::new(),
            metadata: Vec::new(),
            endpoints: Vec::new(),
            nodes: Vec::new(),
            options: None,
            apis: None,
        }
    }
}

/// A node a service runs on.  Its content identity is the combination of
/// all four fields; metadata is compared without regard to pair order.
#[derive(Debug)]
pub struct Node {
    pub id: String,
    pub address: String,
    pub port: i64,
    pub metadata: Vec<(String, String)>,
}

/// An endpoint provided by a service.
#[derive(Debug)]
pub struct Endpoint {
    pub name: String,
    pub request: Option<Value>,
    pub response: Option<Value>,
    pub metadata: Vec<(String, String)>,
}

/// An opaque value describing a request or response.
#[derive(Debug)]
pub struct Value {
    pub name: String,
    pub rtype: String,
    pub values: Vec<Value>,
}

/// Registry options carried inside a stored service record.
#[derive(Debug)]
pub struct Options {
    pub ttl: i64,
}

/// One domain-level change, as handed out by a watch: what happened
/// (`create`, `update` or `delete`), the single-node service it happened
/// to, and a unix timestamp.
#[derive(Debug)]
pub struct WatchResult {
    pub action: String,
    pub service: Option<Service>,
    pub timestamp: i64,
}

impl WatchResult {
    /// An empty record: no action, no service, timestamp zero.
    pub fn new() -> (r: WatchResult)
        ensures
            r.action@ == Seq::<char>::empty(),
            r.service is None,
            r.timestamp == 0,
    {
        WatchResult { action: String::new(), service: None, timestamp: 0 }
    }

    pub fn set_action(&mut self, action: String)
        ensures
            final(self).action == action,
            final(self).service == old(self).service,
            final(self).timestamp == old(self).timestamp,
    {
        self.action = action;
    }

    pub fn set_service(&mut self, service: Service)
        ensures
            final(self).service == Some(service),
            final(self).action == old(self).action,
            final(self).timestamp == old(self).timestamp,
    {
        self.service = Some(service);
    }

    pub fn set_timestamp(&mut self, timestamp: i64)
        ensures
            final(self).timestamp == timestamp,
            final(self).action == old(self).action,
            final(self).service == old(self).service,
    {
        self.timestamp = timestamp;
    }
}

/// A registry event record.
#[derive(Debug)]
pub struct Event {
    /// Event id.
    pub id: String,
    /// The kind of event.
    pub kind: i32,
    /// Unix timestamp of the event.
    pub timestamp: i64,
    /// The service entry the event concerns.
    pub service: Option<Service>,
}

/// An OpenAPI description embedded in a service record.  These types are
/// pure data: the registry stores and returns them unchanged.
#[derive(Debug)]
pub struct OpenApi {
    pub openapi: String,
    pub info: Option<OpenApiInfo>,
    pub external_docs: Option<OpenApiExternalDocs>,
    pub servers: Vec<OpenApiServer>,
    pub tags: Vec<OpenApiTag>,
    pub paths: Vec<(String, OpenApiPath)>,
    pub components: Option<OpenApiComponents>,
}

#[derive(Debug)]
pub struct OpenApiServer {
    pub url: String,
    pub description: String,
}

#[derive(Debug)]
pub struct OpenApiInfo {
    pub title: String,
    pub description: String,
    pub terms_of_service: String,
    pub contact: Option<OpenApiContact>,
    pub license: Option<OpenApiLicense>,
    pub version: String,
}

#[derive(Debug)]
pub struct OpenApiContact {
    pub name: String,
    pub email: String,
}

#[derive(Debug)]
pub struct OpenApiLicense {
    pub name: String,
    pub url: String,
}

#[derive(Debug)]
pub struct OpenApiTag {
    pub name: String,
    pub description: String,
    pub external_docs: Option<OpenApiExternalDocs>,
}

#[derive(Debug)]
pub struct OpenApiExternalDocs {
    pub description: String,
    pub url: String,
}

#[derive(Debug)]
pub struct OpenApiPath {
    pub get: Option<OpenApiPathDocs>,
    pub post: Option<OpenApiPathDocs>,
    pub put: Option<OpenApiPathDocs>,
    pub patch: Option<OpenApiPathDocs>,
    pub delete: Option<OpenApiPathDocs>,
}

#[derive(Debug)]
pub struct OpenApiPathDocs {
    pub tags: Vec<String>,
    pub summary: String,
    pub description: String,
    pub operation_id: String,
    pub deprecated: bool,
    pub request_body: Option<PathRequestBody>,
    pub parameters: Vec<PathParameters>,
    pub responses: Vec<(String, PathResponse)>,
    pub security: Vec<PathSecurity>,
}

#[derive(Debug)]
pub struct PathSecurity {
    pub basic: Vec<String>,
    pub api_keys: Vec<String>,
    pub bearer: Vec<String>,
}

#[derive(Debug)]
pub struct PathParameters {
    /// Where the parameter lives: query, cookie or path.
    pub location: String,
    pub name: String,
    pub required: bool,
    pub description: String,
    pub allow_reserved: bool,
    pub style: String,
    pub explode: bool,
    pub allow_empty_value: bool,
    pub schema: Option<Schema>,
    pub example: String,
}

#[derive(Debug)]
pub struct PathRequestBody {
    pub description: String,
    pub required: bool,
    pub content: Option<PathRequestBodyContent>,
}

#[derive(Debug)]
pub struct PathRequestBodyContent {
    pub application_json: Option<ApplicationContent>,
    pub application_xml: Option<ApplicationContent>,
}

#[derive(Debug)]
pub struct ApplicationContent {
    pub schema: Option<Schema>,
}

/// A response in an OpenAPI path description.
#[derive(Debug)]
pub struct PathResponse {
    pub description: String,
    pub content: Option<PathRequestBodyContent>,
}

#[derive(Debug)]
pub struct OpenApiComponents {
    pub security_schemes: Option<SecuritySchemes>,
    pub schemas: Vec<(String, Model)>,
}

#[derive(Debug)]
pub struct SecuritySchemes {
    pub basic: Option<BasicSecurity>,
    pub api_keys: Option<ApiKeysSecurity>,
    pub bearer: Option<BearerSecurity>,
}

/// Basic-authorization security scheme.
#[derive(Debug)]
pub struct BasicSecurity {
    /// The scheme kind: http, apiKey, oauth or openIdConnect.
    pub kind: String,
    pub scheme: String,
}

/// API-key security scheme.
#[derive(Debug)]
pub struct ApiKeysSecurity {
    pub kind: String,
    /// Where the key is carried, usually a header.
    pub location: String,
    pub name: String,
}

/// Bearer-token security scheme.
#[derive(Debug)]
pub struct BearerSecurity {
    pub kind: String,
    pub scheme: String,
    /// The token format, for example JWT.
    pub bearer_format: String,
}

/// A named data model in an OpenAPI schema section.
#[derive(Debug)]
pub struct Model {
    /// string, number, integer, boolean, array or object.
    pub kind: String,
    pub properties: Vec<(String, Schema)>,
    pub required: Vec<String>,
}

#[derive(Debug)]
pub struct Schema {
    pub kind: String,
    pub format: String,
    pub description: String,
    pub example: String,
    pub pattern: String,
    pub nullable: bool,
    pub read_only: bool,
    pub write_only: bool,
    pub required: bool,
    pub reference: String,
    pub default: String,
    pub min_length: i32,
    pub max_length: i32,
    pub multiple_of: i32,
    pub minimum: i32,
    pub exclusive_minimum: bool,
    pub maximum: i32,
    pub exclusive_maximum: bool,
    pub enumeration: Vec<String>,
    pub items: Option<Box<Schema>>,
    pub parameters: Vec<PathParameters>,
    pub additional_properties: Option<Box<Schema>>,
}

} // verus!
