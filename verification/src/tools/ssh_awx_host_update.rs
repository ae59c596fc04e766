//! Handler for the `ssh_awx_host_update` tool.
//!
//! Patches an existing AWX host by building a `curl` PATCH command
//! and relaying it via SSH to the configured AWX host.
use crate::awx::{
    call_command, endpoint_with_id, id_endpoint, id_refusal, opt_contents, opt_json_bool,
    opt_json_text, set_bool, set_text, set_value, with_field, ApiRequest, AwxTool,
};
use crate::builders::awx::{AwxCommandBuilder, HttpMethod};
use crate::config::AwxConfig;
use crate::error::{invalid_request, BridgeError, Refusal};
use crate::json::{
    fields, has_no_fields, json_text, new_object, no_fields, object_value, value_text, Json,
};
use crate::tool::{Annotation, OutputKind, ToolHandler};
use vstd::prelude::*;

verus! {

/// Arguments for the `ssh_awx_host_update` tool.
#[derive(Debug)]
pub struct SshAwxHostUpdateArgs {
    /// Host ID to patch.
    pub host_id: u64,
    /// Whether the host is enabled for job runs.
    pub enabled: Option<bool>,
    /// Host variables (native JSON/YAML object).
    pub variables: Option<serde_json::Value>,
    /// Host description.
    pub description: Option<String>,
}

/// The request body: the fields that are present.
pub open spec fn update_fields(args: SshAwxHostUpdateArgs) -> Map<Seq<char>, Json> {
    let enabled = with_field(no_fields(), "enabled", opt_json_bool(args.enabled));
    let set = with_field(enabled, "variables", opt_contents(args.variables));
    with_field(set, "description", opt_json_text(args.description))
}

/// Builds the object of the fields that are present.
pub fn build_update_fields(args: &SshAwxHostUpdateArgs) -> (r: serde_json::Map<
    String,
    serde_json::Value,
>)
    ensures
        fields(r) == update_fields(*args),
{
    let mut body = new_object();
    set_bool(&mut body, "enabled", args.enabled);
    set_value(&mut body, "variables", &args.variables);
    set_text(&mut body, "description", &args.description);
    body
}

/// Handler for patching AWX hosts.
pub struct SshAwxHostUpdateHandler;

impl Default for SshAwxHostUpdateHandler {
    fn default() -> (r: Self)
        ensures
            r == SshAwxHostUpdateHandler,
    {
        Self::new()
    }
}

impl SshAwxHostUpdateHandler {
    /// Create a new handler instance.
    #[must_use]
    pub fn new() -> (r: Self)
        ensures
            r == SshAwxHostUpdateHandler,
    {
        SshAwxHostUpdateHandler
    }
}

/// What the tool is for, in words for its clients.
pub const DESCRIPTION: &'static str =
    "Patch an existing AWX host (enabled, variables, description). \
    Only the fields you supply are changed; at least one is required.";

/// The JSON schema of the tool's arguments.
pub const SCHEMA: &'static str = r#"{
    "type": "object",
    "properties": {
        "host_id": {
            "type": "integer",
            "description": "Host ID to patch",
            "minimum": 1
        },
        "enabled": {
            "type": "boolean",
            "description": "Whether the host is enabled for job runs"
        },
        "variables": {
            "type": "object",
            "description": "Host variables (native JSON/YAML object)"
        },
        "description": {
            "type": "string",
            "description": "Host description"
        }
    },
    "required": ["host_id"]
}"#;

impl ToolHandler for SshAwxHostUpdateHandler {
    const TOOL_NAME: &'static str = "ssh_awx_host_update";

    const TOOL_DESCRIPTION: &'static str = DESCRIPTION;

    const INPUT_SCHEMA: &'static str = SCHEMA;

    const TOOL_GROUP: &'static str = "awx";

    const EFFECT: Annotation = Annotation::Mutating;

    const KIND: OutputKind = OutputKind::Json;
}

impl AwxTool for SshAwxHostUpdateHandler {
    type Args = SshAwxHostUpdateArgs;

    const CHECKED: bool = true;

    open spec fn refusal(args: SshAwxHostUpdateArgs) -> Option<Refusal> {
        id_refusal(args.host_id)
    }

    open spec fn request(args: SshAwxHostUpdateArgs) -> Result<ApiRequest, Refusal> {
        if update_fields(args) == no_fields() {
            Err(Refusal::InvalidRequest("no fields to update"@))
        } else {
            Ok(
                ApiRequest {
                    method: HttpMethod::Patch,
                    endpoint: endpoint_with_id("/api/v2/hosts/", args.host_id, "/"),
                    params: seq![],
                    body: Some(json_text(Json::Object(update_fields(args)))),
                    timeout: None,
                },
            )
        }
    }

    fn validate(args: &SshAwxHostUpdateArgs) -> (r: Result<(), BridgeError>) {
        AwxCommandBuilder::validate_id(args.host_id)
    }

    fn build_command(
        args: &SshAwxHostUpdateArgs,
        awx: &AwxConfig,
    ) -> (r: Result<String, BridgeError>) {
        let fields = build_update_fields(args);
        if has_no_fields(&fields) {
            return Err(invalid_request("no fields to update"));
        }
        let endpoint: String = id_endpoint("/api/v2/hosts/", args.host_id, "/");
        let body: String = value_text(&object_value(fields));
        Ok(
            call_command(
                awx,
                HttpMethod::Patch,
                endpoint.as_str(),
                &[],
                Some(body.as_str()),
                None,
                true,
            ),
        )
    }
}

/// What clients are told of the tool.
pub proof fn presents_itself()
    ensures
        <SshAwxHostUpdateHandler as ToolHandler>::TOOL_NAME@ == "ssh_awx_host_update"@,
        <SshAwxHostUpdateHandler as ToolHandler>::TOOL_DESCRIPTION@ == DESCRIPTION@,
        <SshAwxHostUpdateHandler as ToolHandler>::INPUT_SCHEMA@ == SCHEMA@,
        <SshAwxHostUpdateHandler as ToolHandler>::TOOL_GROUP@ == "awx"@,
        <SshAwxHostUpdateHandler as ToolHandler>::EFFECT == Annotation::Mutating,
        <SshAwxHostUpdateHandler as ToolHandler>::KIND == OutputKind::Json,
        <SshAwxHostUpdateHandler as AwxTool>::CHECKED,
{
}

} // verus!
