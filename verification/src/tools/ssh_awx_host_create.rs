//! Handler for the `ssh_awx_host_create` tool.
//!
//! Adds a host to an AWX inventory by building a `curl` POST command and
//! relaying it via SSH to the configured AWX host.
use crate::awx::{
    call_command, endpoint_with_id, id_endpoint, id_refusal, opt_contents, opt_json_bool,
    opt_json_text, set_bool, set_text, set_value, with_field, ApiRequest, AwxTool,
};
use crate::builders::awx::{AwxCommandBuilder, HttpMethod};
use crate::config::AwxConfig;
use crate::error::{BridgeError, Refusal};
use crate::json::{
    contents, json_text, new_object, no_fields, object_value, set_field, text_value, value_text,
    Json,
};
use crate::tool::{Annotation, OutputKind, ToolHandler};
use vstd::prelude::*;

verus! {

/// Arguments for the `ssh_awx_host_create` tool.
#[derive(Debug)]
pub struct SshAwxHostCreateArgs {
    /// Inventory ID to add the host to.
    pub inventory_id: u64,
    /// Name of the host (hostname or IP).
    pub name: String,
    /// Host variables (native JSON object).
    pub variables: Option<serde_json::Value>,
    /// Whether the host is enabled.
    pub enabled: Option<bool>,
    /// Optional description for the host.
    pub description: Option<String>,
}

/// The request body: the name and the optional fields that are present.
pub open spec fn host_fields(args: SshAwxHostCreateArgs) -> Map<Seq<char>, Json> {
    let named = no_fields().insert("name"@, Json::Text(args.name@));
    let described = with_field(named, "description", opt_json_text(args.description));
    let enabled = with_field(described, "enabled", opt_json_bool(args.enabled));
    with_field(enabled, "variables", opt_contents(args.variables))
}

/// Builds the request body.
pub fn build_host_body(args: &SshAwxHostCreateArgs) -> (r: serde_json::Value)
    ensures
        contents(r) == Json::Object(host_fields(*args)),
{
    let mut body = new_object();
    set_field(&mut body, "name", text_value(args.name.as_str().to_owned()));
    set_text(&mut body, "description", &args.description);
    set_bool(&mut body, "enabled", args.enabled);
    set_value(&mut body, "variables", &args.variables);
    object_value(body)
}

/// Handler for adding a host to an AWX inventory.
pub struct SshAwxHostCreateHandler;

impl Default for SshAwxHostCreateHandler {
    fn default() -> (r: Self)
        ensures
            r == SshAwxHostCreateHandler,
    {
        Self::new()
    }
}

impl SshAwxHostCreateHandler {
    /// Create a new handler instance.
    #[must_use]
    pub fn new() -> (r: Self)
        ensures
            r == SshAwxHostCreateHandler,
    {
        SshAwxHostCreateHandler
    }
}

/// What the tool is for, in words for its clients.
pub const DESCRIPTION: &'static str =
    "Add a host to an AWX inventory. Returns the created host object. \
    Use ssh_awx_inventory_hosts to list inventory hosts.";

/// The JSON schema of the tool's arguments.
pub const SCHEMA: &'static str = r#"{
    "type": "object",
    "properties": {
        "inventory_id": {
            "type": "integer",
            "description": "Inventory ID to add the host to",
            "minimum": 1
        },
        "name": {
            "type": "string",
            "description": "Name of the host (hostname or IP)"
        },
        "variables": {
            "type": "object",
            "description": "Host variables (native JSON object)"
        },
        "enabled": {
            "type": "boolean",
            "description": "Whether the host is enabled"
        },
        "description": {
            "type": "string",
            "description": "Optional description for the host"
        }
    },
    "required": ["inventory_id", "name"]
}"#;

impl ToolHandler for SshAwxHostCreateHandler {
    const TOOL_NAME: &'static str = "ssh_awx_host_create";

    const TOOL_DESCRIPTION: &'static str = DESCRIPTION;

    const INPUT_SCHEMA: &'static str = SCHEMA;

    const TOOL_GROUP: &'static str = "awx";

    const EFFECT: Annotation = Annotation::Mutating;

    const KIND: OutputKind = OutputKind::Json;
}

impl AwxTool for SshAwxHostCreateHandler {
    type Args = SshAwxHostCreateArgs;

    const CHECKED: bool = true;

    open spec fn refusal(args: SshAwxHostCreateArgs) -> Option<Refusal> {
        id_refusal(args.inventory_id)
    }

    open spec fn request(args: SshAwxHostCreateArgs) -> Result<ApiRequest, Refusal> {
        Ok(
            ApiRequest {
                method: HttpMethod::Post,
                endpoint: endpoint_with_id("/api/v2/inventories/", args.inventory_id, "/hosts/"),
                params: seq![],
                body: Some(json_text(Json::Object(host_fields(args)))),
                timeout: None,
            },
        )
    }

    fn validate(args: &SshAwxHostCreateArgs) -> (r: Result<(), BridgeError>) {
        AwxCommandBuilder::validate_id(args.inventory_id)
    }

    fn build_command(
        args: &SshAwxHostCreateArgs,
        awx: &AwxConfig,
    ) -> (r: Result<String, BridgeError>) {
        let endpoint: String = id_endpoint("/api/v2/inventories/", args.inventory_id, "/hosts/");
        let body: String = value_text(&build_host_body(args));
        Ok(
            call_command(
                awx,
                HttpMethod::Post,
                endpoint.as_str(),
                &[],
                Some(body.as_str()),
                None,
                true,
            ),
        )
    }
}

/// What clients are told of the tool.
pub proof fn presents_itself()
    ensures
        <SshAwxHostCreateHandler as ToolHandler>::TOOL_NAME@ == "ssh_awx_host_create"@,
        <SshAwxHostCreateHandler as ToolHandler>::TOOL_DESCRIPTION@ == DESCRIPTION@,
        <SshAwxHostCreateHandler as ToolHandler>::INPUT_SCHEMA@ == SCHEMA@,
        <SshAwxHostCreateHandler as ToolHandler>::TOOL_GROUP@ == "awx"@,
        <SshAwxHostCreateHandler as ToolHandler>::EFFECT == Annotation::Mutating,
        <SshAwxHostCreateHandler as ToolHandler>::KIND == OutputKind::Json,
        <SshAwxHostCreateHandler as AwxTool>::CHECKED,
{
}

} // verus!
