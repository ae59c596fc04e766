//! Handler for the `ssh_awx_adhoc_launch` tool.
//!
//! Launches an AWX ad-hoc command against an inventory by building a `curl`
//! POST command and relaying it via SSH to the configured AWX host.
use crate::awx::{
    call_command, id_refusal, json_number, opt_json_bool, opt_json_text, set_bool, set_text,
    with_field, ApiRequest, AwxTool,
};
use crate::builders::awx::{AwxCommandBuilder, HttpMethod};
use crate::config::AwxConfig;
use crate::error::{first_of, BridgeError, Refusal};
use crate::json::{
    json_text, new_object, no_fields, number_value, object_value, set_field, text_value, value_text,
    Json,
};
use crate::tool::{Annotation, OutputKind, ToolHandler};
use vstd::prelude::*;

verus! {

/// Arguments for the `ssh_awx_adhoc_launch` tool.
#[derive(Debug)]
pub struct SshAwxAdhocLaunchArgs {
    /// Inventory ID to run the ad-hoc command against.
    pub inventory: u64,
    /// Credential ID to authenticate against the target hosts.
    pub credential: u64,
    /// Ansible module to run (e.g. `command`, `shell`, `ping`).
    pub module_name: String,
    /// Arguments passed to the module (sent in the JSON body, never the shell).
    pub module_args: String,
    /// Limit pattern restricting the host subset.
    pub limit: Option<String>,
    /// Verbosity level (0-5).
    pub verbosity: Option<u8>,
    /// Whether to run the command with privilege escalation.
    pub become_enabled: Option<bool>,
}

/// Default Ansible module for an ad-hoc command.
pub fn default_module_name() -> (r: String)
    ensures
        r@ == "command"@,
{
    "command".to_owned()
}

/// The verbosity as a JSON value.
pub open spec fn verbosity_field(verbosity: Option<u8>) -> Option<Json> {
    match verbosity {
        Some(v) => Some(json_number(v as u64)),
        None => None,
    }
}

/// The request body: the required fields and the optional ones that are present.
pub open spec fn adhoc_fields(args: SshAwxAdhocLaunchArgs) -> Map<Seq<char>, Json> {
    let required = no_fields()
        .insert("inventory"@, json_number(args.inventory))
        .insert("credential"@, json_number(args.credential))
        .insert("module_name"@, Json::Text(args.module_name@))
        .insert("module_args"@, Json::Text(args.module_args@));
    let limited = with_field(required, "limit", opt_json_text(args.limit));
    let verbose = with_field(limited, "verbosity", verbosity_field(args.verbosity));
    with_field(verbose, "become_enabled", opt_json_bool(args.become_enabled))
}

/// Builds the request body.
pub fn build_adhoc_body(args: &SshAwxAdhocLaunchArgs) -> (r: serde_json::Value)
    ensures
        crate::json::contents(r) == Json::Object(adhoc_fields(*args)),
{
    let mut body = new_object();
    set_field(&mut body, "inventory", number_value(args.inventory));
    set_field(&mut body, "credential", number_value(args.credential));
    set_field(&mut body, "module_name", text_value(args.module_name.as_str().to_owned()));
    set_field(&mut body, "module_args", text_value(args.module_args.as_str().to_owned()));
    set_text(&mut body, "limit", &args.limit);
    if let Some(v) = args.verbosity {
        set_field(&mut body, "verbosity", number_value(v as u64));
    }
    set_bool(&mut body, "become_enabled", args.become_enabled);
    object_value(body)
}

/// Handler for launching AWX ad-hoc commands.
pub struct SshAwxAdhocLaunchHandler;

impl Default for SshAwxAdhocLaunchHandler {
    fn default() -> (r: Self)
        ensures
            r == SshAwxAdhocLaunchHandler,
    {
        Self::new()
    }
}

impl SshAwxAdhocLaunchHandler {
    /// Create a new handler instance.
    #[must_use]
    pub fn new() -> (r: Self)
        ensures
            r == SshAwxAdhocLaunchHandler,
    {
        SshAwxAdhocLaunchHandler
    }
}

/// What the tool is for, in words for its clients.
pub const DESCRIPTION: &'static str =
    "Launch an AWX ad-hoc command (Ansible module) against an inventory. \
    Returns the ad-hoc command ID and initial status. \
    module_args is sent in the JSON body, never interpolated into the shell.";

/// The JSON schema of the tool's arguments.
pub const SCHEMA: &'static str = r#"{
    "type": "object",
    "properties": {
        "inventory": {
            "type": "integer",
            "description": "Inventory ID to run the ad-hoc command against",
            "minimum": 1
        },
        "credential": {
            "type": "integer",
            "description": "Credential ID to authenticate against the target hosts",
            "minimum": 1
        },
        "module_name": {
            "type": "string",
            "description": "Ansible module to run (e.g. command, shell, ping)",
            "default": "command"
        },
        "module_args": {
            "type": "string",
            "description": "Arguments passed to the module (sent in the JSON body, never the shell)"
        },
        "limit": {
            "type": "string",
            "description": "Limit pattern restricting the host subset"
        },
        "verbosity": {
            "type": "integer",
            "description": "Verbosity level (0-5)",
            "minimum": 0,
            "maximum": 5
        },
        "become_enabled": {
            "type": "boolean",
            "description": "Whether to run the command with privilege escalation"
        }
    },
    "required": ["inventory", "credential", "module_args"]
}"#;

impl ToolHandler for SshAwxAdhocLaunchHandler {
    const TOOL_NAME: &'static str = "ssh_awx_adhoc_launch";

    const TOOL_DESCRIPTION: &'static str = DESCRIPTION;

    const INPUT_SCHEMA: &'static str = SCHEMA;

    const TOOL_GROUP: &'static str = "awx";

    const EFFECT: Annotation = Annotation::Mutating;

    const KIND: OutputKind = OutputKind::Json;
}

impl AwxTool for SshAwxAdhocLaunchHandler {
    type Args = SshAwxAdhocLaunchArgs;

    const CHECKED: bool = true;

    open spec fn refusal(args: SshAwxAdhocLaunchArgs) -> Option<Refusal> {
        first_of(id_refusal(args.inventory), id_refusal(args.credential))
    }

    open spec fn request(args: SshAwxAdhocLaunchArgs) -> Result<ApiRequest, Refusal> {
        Ok(
            ApiRequest {
                method: HttpMethod::Post,
                endpoint: "/api/v2/ad_hoc_commands/"@,
                params: seq![],
                body: Some(json_text(Json::Object(adhoc_fields(args)))),
                timeout: None,
            },
        )
    }

    fn validate(args: &SshAwxAdhocLaunchArgs) -> (r: Result<(), BridgeError>) {
        AwxCommandBuilder::validate_id(args.inventory)?;
        AwxCommandBuilder::validate_id(args.credential)
    }

    fn build_command(
        args: &SshAwxAdhocLaunchArgs,
        awx: &AwxConfig,
    ) -> (r: Result<String, BridgeError>) {
        let body: String = value_text(&build_adhoc_body(args));
        Ok(
            call_command(
                awx,
                HttpMethod::Post,
                "/api/v2/ad_hoc_commands/",
                &[],
                Some(body.as_str()),
                None,
                true,
            ),
        )
    }
}

/// What clients are told of the tool.
pub proof fn presents_itself()
    ensures
        <SshAwxAdhocLaunchHandler as ToolHandler>::TOOL_NAME@ == "ssh_awx_adhoc_launch"@,
        <SshAwxAdhocLaunchHandler as ToolHandler>::TOOL_DESCRIPTION@ == DESCRIPTION@,
        <SshAwxAdhocLaunchHandler as ToolHandler>::INPUT_SCHEMA@ == SCHEMA@,
        <SshAwxAdhocLaunchHandler as ToolHandler>::TOOL_GROUP@ == "awx"@,
        <SshAwxAdhocLaunchHandler as ToolHandler>::EFFECT == Annotation::Mutating,
        <SshAwxAdhocLaunchHandler as ToolHandler>::KIND == OutputKind::Json,
        <SshAwxAdhocLaunchHandler as AwxTool>::CHECKED,
{
}

} // verus!
