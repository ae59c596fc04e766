//! SSH AWX Resolve Tool Handler
//!
//! Resolves an AWX object name to its id via REST API relayed through SSH.
use crate::awx::{call_command, ApiRequest, AwxTool};
use crate::builders::awx::{param_texts, HttpMethod};
use crate::config::AwxConfig;
use crate::error::{complaint, BridgeError, Refusal};
use crate::text::same_text;
use crate::tool::{Annotation, OutputKind, ToolHandler};
use vstd::prelude::*;

verus! {

/// Arguments for `ssh_awx_resolve` tool.
#[derive(Debug)]
pub struct SshAwxResolveArgs {
    pub kind: String,
    pub name: String,
    pub exact: Option<bool>,
    pub timeout_seconds: Option<u64>,
}

/// The object kinds that can be resolved by name.
pub open spec fn allowed_kind(kind: Seq<char>) -> bool {
    kind == "job_templates"@ || kind == "workflow_job_templates"@ || kind == "inventories"@
        || kind == "projects"@ || kind == "credentials"@ || kind == "hosts"@
}

/// Tells whether objects of a kind can be resolved by name.
pub fn is_allowed_kind(kind: &str) -> (r: bool)
    ensures
        r == allowed_kind(kind@),
{
    same_text(kind, "job_templates") || same_text(kind, "workflow_job_templates") || same_text(
        kind,
        "inventories",
    ) || same_text(kind, "projects") || same_text(kind, "credentials") || same_text(kind, "hosts")
}

/// What stands behind the kind in the message that refuses it.
pub const KINDS_HINT: &'static str =
    ". Allowed: job_templates, workflow_job_templates, inventories, projects, credentials, hosts";

/// The filter for the name: exact unless the caller asks for a part of it.
pub open spec fn name_filter(exact: Option<bool>) -> &'static str {
    match exact {
        Some(false) => "name__icontains",
        _ => "name__iexact",
    }
}

/// Handler for the `ssh_awx_resolve` tool.
pub struct SshAwxResolveHandler;

impl Default for SshAwxResolveHandler {
    fn default() -> (r: Self)
        ensures
            r == SshAwxResolveHandler,
    {
        Self::new()
    }
}

impl SshAwxResolveHandler {
    /// Create a new handler instance.
    #[must_use]
    pub fn new() -> (r: Self)
        ensures
            r == SshAwxResolveHandler,
    {
        SshAwxResolveHandler
    }
}

/// What the tool is for, in words for its clients.
pub const DESCRIPTION: &'static str =
    "Resolve an AWX object name to its id. Returns matching {id,name}. \
    jq_filter='.results[] | {id,name}'";

/// The JSON schema of the tool's arguments.
pub const SCHEMA: &'static str = r#"{
        "type": "object",
        "properties": {
            "kind": {
                "type": "string",
                "description": "Object type to resolve",
                "enum": [
                    "job_templates",
                    "workflow_job_templates",
                    "inventories",
                    "projects",
                    "credentials",
                    "hosts"
                ]
            },
            "name": {
                "type": "string",
                "description": "Object name to look up"
            },
            "exact": {
                "type": "boolean",
                "description": "Match the name exactly (case-insensitive). Default: true. When false, matches substrings."
            },
            "timeout_seconds": {
                "type": "integer",
                "description": "Optional timeout in seconds (default: from config)",
                "minimum": 1,
                "maximum": 3600
            }
        },
        "required": ["kind", "name"]
    }"#;

impl ToolHandler for SshAwxResolveHandler {
    const TOOL_NAME: &'static str = "ssh_awx_resolve";

    const TOOL_DESCRIPTION: &'static str = DESCRIPTION;

    const INPUT_SCHEMA: &'static str = SCHEMA;

    const TOOL_GROUP: &'static str = "awx";

    const EFFECT: Annotation = Annotation::ReadOnly;

    const KIND: OutputKind = OutputKind::Json;
}

impl AwxTool for SshAwxResolveHandler {
    type Args = SshAwxResolveArgs;

    const CHECKED: bool = true;

    open spec fn refusal(args: SshAwxResolveArgs) -> Option<Refusal> {
        if allowed_kind(args.kind@) {
            None
        } else {
            Some(Refusal::InvalidRequest(complaint("Unknown kind ", args.kind@, KINDS_HINT)))
        }
    }

    open spec fn request(args: SshAwxResolveArgs) -> Result<ApiRequest, Refusal> {
        Ok(
            ApiRequest {
                method: HttpMethod::Get,
                endpoint: "/api/v2/"@ + args.kind@ + "/"@,
                params: seq![(name_filter(args.exact)@, args.name@)],
                body: None,
                timeout: args.timeout_seconds,
            },
        )
    }

    fn validate(args: &SshAwxResolveArgs) -> (r: Result<(), BridgeError>) {
        if is_allowed_kind(args.kind.as_str()) {
            return Ok(());
        }
        let mut message: String = "Unknown kind ".to_owned();
        message.append("'");
        message.append(args.kind.as_str());
        message.append("'");
        message.append(KINDS_HINT);
        Err(BridgeError::McpInvalidRequest(message))
    }

    fn build_command(
        args: &SshAwxResolveArgs,
        awx: &AwxConfig,
    ) -> (r: Result<String, BridgeError>) {
        let filter: &str = match args.exact {
            Some(false) => "name__icontains",
            _ => "name__iexact",
        };
        let params: [(&str, &str); 1] = [(filter, args.name.as_str())];
        let mut endpoint: String = "/api/v2/".to_owned();
        endpoint.append(args.kind.as_str());
        endpoint.append("/");
        assert(param_texts(params@) =~= seq![(name_filter(args.exact)@, args.name@)]);
        Ok(
            call_command(
                awx,
                HttpMethod::Get,
                endpoint.as_str(),
                &params,
                None,
                args.timeout_seconds,
                true,
            ),
        )
    }
}

/// What clients are told of the tool.
pub proof fn presents_itself()
    ensures
        <SshAwxResolveHandler as ToolHandler>::TOOL_NAME@ == "ssh_awx_resolve"@,
        <SshAwxResolveHandler as ToolHandler>::TOOL_DESCRIPTION@ == DESCRIPTION@,
        <SshAwxResolveHandler as ToolHandler>::INPUT_SCHEMA@ == SCHEMA@,
        <SshAwxResolveHandler as ToolHandler>::TOOL_GROUP@ == "awx"@,
        <SshAwxResolveHandler as ToolHandler>::EFFECT == Annotation::ReadOnly,
        <SshAwxResolveHandler as ToolHandler>::KIND == OutputKind::Json,
        <SshAwxResolveHandler as AwxTool>::CHECKED,
{
}

} // verus!
