//! Tools that make one call of the AWX API.
use crate::builders::awx::{
    api_call, checked_response, opt_str, param_texts, AwxCommandBuilder, HttpMethod,
};
use crate::config::{AwxConfig, BridgeConfig};
use crate::error::{agrees, checked, invalid_request, BridgeError, Refusal};
use crate::json::{
    bool_value, contents, copied_value, fields, number_value, set_field, text_value, Json,
};
use crate::shell::render;
use crate::text::{decimal, decimal_text};
use crate::tool::{call_agrees, required_args, unreadable, Call, RemoteCall, ToolHandler};
use vstd::prelude::*;

verus! {

/// One call of the AWX API.
pub struct ApiRequest {
    pub method: HttpMethod,
    pub endpoint: Seq<char>,
    pub params: Seq<(Seq<char>, Seq<char>)>,
    pub body: Option<Seq<char>>,
    /// Limit for the call in seconds, where the caller sets one.
    pub timeout: Option<u64>,
}

/// The limit for a call: the one that the caller sets, or else the configured one.
pub open spec fn timeout_or(timeout: Option<u64>, awx: AwxConfig) -> u64 {
    match timeout {
        Some(t) => t,
        None => awx.api_timeout,
    }
}

/// The command that makes the call. A checked call also reports the HTTP status.
pub open spec fn request_command(awx: AwxConfig, request: ApiRequest, with_status: bool) -> Seq<
    char,
> {
    render(
        api_call(
            awx.url@,
            awx.token@,
            request.endpoint,
            request.method,
            request.body,
            awx.verify_ssl,
            request.params,
            timeout_or(request.timeout, awx),
            with_status,
        ),
    )
}

/// The command of a request that may have been refused.
pub open spec fn request_outcome(
    awx: AwxConfig,
    request: Result<ApiRequest, Refusal>,
    with_status: bool,
) -> Result<Seq<char>, Refusal> {
    match request {
        Ok(q) => Ok(request_command(awx, q, with_status)),
        Err(refusal) => Err(refusal),
    }
}

/// The refusal of every AWX tool where the configuration has no AWX server.
pub open spec fn not_configured() -> Refusal {
    Refusal::InvalidRequest("AWX not configured. Add 'awx:' section to config.yaml"@)
}

/// A tool that makes one call of the AWX API.
pub trait AwxTool: ToolHandler {
    type Args;

    /// Whether the call reports the HTTP status, so that a failure is noticed.
    const CHECKED: bool;

    /// Why the arguments are refused whatever the configuration is, if they are.
    spec fn refusal(args: Self::Args) -> Option<Refusal>;

    /// The call that the arguments stand for.
    spec fn request(args: Self::Args) -> Result<ApiRequest, Refusal>;

    fn validate(args: &Self::Args) -> (r: Result<(), BridgeError>)
        ensures
            checked(r, Self::refusal(*args)),
    ;

    fn build_command(args: &Self::Args, awx: &AwxConfig) -> (r: Result<String, BridgeError>)
        ensures
            agrees(r, request_outcome(*awx, Self::request(*args), Self::CHECKED)),
    ;

    /// Turns a request into a command and the host to run it on. `args` is what reading the
    /// arguments gave: `None` where the request has none, `Err` where they could not be read.
    fn prepare(&self, args: Option<Result<Self::Args, String>>, config: &BridgeConfig) -> (r:
        Result<RemoteCall, BridgeError>)
        ensures
            call_agrees(
                r,
                match args {
                    Some(Ok(a)) => awx_planned(
                        Self::refusal(a),
                        Self::request(a),
                        Self::CHECKED,
                        *config,
                    ),
                    _ => Err(unreadable(args)->0),
                },
            ),
    {
        let a: Self::Args = match required_args(args) {
            Ok(a) => a,
            Err(e) => {
                return Err(e);
            },
        };
        match Self::validate(&a) {
            Ok(()) => {},
            Err(e) => {
                return Err(e);
            },
        }
        let awx: &AwxConfig = match &config.awx {
            Some(awx) => awx,
            None => {
                return Err(
                    invalid_request("AWX not configured. Add 'awx:' section to config.yaml"),
                );
            },
        };
        let command: String = match Self::build_command(&a, awx) {
            Ok(command) => command,
            Err(e) => {
                return Err(e);
            },
        };
        let host: String = awx.ssh_host.as_str().to_owned();
        match config.host(host.as_str()) {
            Some(_) => Ok(RemoteCall { host, command }),
            None => Err(BridgeError::UnknownHost { host }),
        }
    }

    /// Reads the output of the command.
    fn read_response(&self, raw: &str) -> (r: Result<String, BridgeError>)
        ensures
            agrees(r, response(raw@, Self::CHECKED)),
    {
        if Self::CHECKED {
            AwxCommandBuilder::parse_checked_response(raw)
        } else {
            Ok(raw.to_owned())
        }
    }
}

/// What the output of a call says: of a checked call what its status allows, else all of it.
pub open spec fn response(raw: Seq<char>, with_status: bool) -> Result<Seq<char>, Refusal> {
    if with_status {
        checked_response(raw)
    } else {
        Ok(raw)
    }
}

/// What an AWX tool makes of arguments that could be read. These are asked in turn, and the first
/// that fails decides: the tool accepts the arguments, an AWX server is configured, the arguments
/// stand for a call, and the host that makes the calls is configured.
pub open spec fn awx_planned(
    refusal: Option<Refusal>,
    request: Result<ApiRequest, Refusal>,
    with_status: bool,
    config: BridgeConfig,
) -> Result<Call, Refusal> {
    match (refusal, config.awx, request) {
        (Some(refusal), _, _) => Err(refusal),
        (None, None, _) => Err(not_configured()),
        (None, Some(_), Err(refusal)) => Err(refusal),
        (None, Some(awx), Ok(q)) => if config.knows(awx.ssh_host@) {
            Ok(Call { host: awx.ssh_host@, command: request_command(awx, q, with_status) })
        } else {
            Err(Refusal::UnknownHost(awx.ssh_host@))
        },
    }
}

/// The command of one call.
pub fn call_command(
    awx: &AwxConfig,
    method: HttpMethod,
    endpoint: &str,
    params: &[(&str, &str)],
    body: Option<&str>,
    timeout: Option<u64>,
    with_status: bool,
) -> (r: String)
    ensures
        r@ == request_command(
            *awx,
            (ApiRequest {
                method,
                endpoint: endpoint@,
                params: param_texts(params@),
                body: opt_str(body),
                timeout,
            }),
            with_status,
        ),
{
    let limit: u64 = match timeout {
        Some(t) => t,
        None => awx.api_timeout,
    };
    if with_status {
        AwxCommandBuilder::build_api_call_checked(
            awx.url.as_str(),
            awx.token.as_str(),
            endpoint,
            method,
            body,
            awx.verify_ssl,
            params,
            limit,
        )
    } else {
        AwxCommandBuilder::build_api_call(
            awx.url.as_str(),
            awx.token.as_str(),
            endpoint,
            method,
            body,
            awx.verify_ssl,
            params,
            limit,
        )
    }
}

/// An endpoint with an ID in it.
pub open spec fn endpoint_with_id(before: &str, id: u64, after: &str) -> Seq<char> {
    before@ + decimal(id as nat) + after@
}

/// Puts an ID into an endpoint.
pub fn id_endpoint(before: &str, id: u64, after: &str) -> (r: String)
    ensures
        r@ == endpoint_with_id(before, id, after),
{
    let mut s: String = before.to_owned();
    s.append(decimal_text(id).as_str());
    s.append(after);
    s
}

/// The page size that is asked for, or else `default`.
pub open spec fn page_size_or(page_size: Option<u32>, default: u32) -> Seq<char> {
    match page_size {
        Some(n) => decimal(n as nat),
        None => decimal(default as nat),
    }
}

/// Writes the page size that is asked for, or else `default`.
pub fn page_size_text(page_size: Option<u32>, default: u32) -> (r: String)
    ensures
        r@ == page_size_or(page_size, default),
{
    match page_size {
        Some(n) => decimal_text(n as u64),
        None => decimal_text(default as u64),
    }
}

/// Why an ID is refused, if it is.
pub open spec fn id_refusal(id: u64) -> Option<Refusal> {
    if id > 0 {
        None
    } else {
        Some(Refusal::Denied(crate::builders::awx::id_complaint()))
    }
}

/// `object` with the field set where there is a value for it.
pub open spec fn with_field(
    object: Map<Seq<char>, Json>,
    name: &str,
    value: Option<Json>,
) -> Map<Seq<char>, Json> {
    match value {
        Some(v) => object.insert(name@, v),
        None => object,
    }
}

/// A number as a JSON value.
pub open spec fn json_number(n: u64) -> Json {
    Json::Number(decimal(n as nat))
}

pub open spec fn opt_json_number(n: Option<u64>) -> Option<Json> {
    match n {
        Some(v) => Some(json_number(v)),
        None => None,
    }
}

pub open spec fn opt_json_text(s: Option<String>) -> Option<Json> {
    match s {
        Some(v) => Some(Json::Text(v@)),
        None => None,
    }
}

pub open spec fn opt_json_bool(b: Option<bool>) -> Option<Json> {
    match b {
        Some(v) => Some(Json::Bool(v)),
        None => None,
    }
}

pub open spec fn opt_contents(value: Option<serde_json::Value>) -> Option<Json> {
    match value {
        Some(v) => Some(contents(v)),
        None => None,
    }
}

pub fn set_number(
    object: &mut serde_json::Map<String, serde_json::Value>,
    name: &str,
    n: Option<u64>,
)
    ensures
        fields(*final(object)) == with_field(fields(*old(object)), name, opt_json_number(n)),
{
    if let Some(v) = n {
        set_field(object, name, number_value(v));
    }
}

pub fn set_text(
    object: &mut serde_json::Map<String, serde_json::Value>,
    name: &str,
    s: &Option<String>,
)
    ensures
        fields(*final(object)) == with_field(fields(*old(object)), name, opt_json_text(*s)),
{
    if let Some(v) = s {
        set_field(object, name, text_value(v.as_str().to_owned()));
    }
}

pub fn set_bool(
    object: &mut serde_json::Map<String, serde_json::Value>,
    name: &str,
    b: Option<bool>,
)
    ensures
        fields(*final(object)) == with_field(fields(*old(object)), name, opt_json_bool(b)),
{
    if let Some(v) = b {
        set_field(object, name, bool_value(v));
    }
}

pub fn set_value(
    object: &mut serde_json::Map<String, serde_json::Value>,
    name: &str,
    value: &Option<serde_json::Value>,
)
    ensures
        fields(*final(object)) == with_field(fields(*old(object)), name, opt_contents(*value)),
{
    if let Some(v) = value {
        set_field(object, name, copied_value(v));
    }
}

} // verus!
