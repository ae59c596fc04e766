//! SSH AWX Jobs Tool Handler
//!
//! Lists recent unified jobs (jobs, workflow/project/inventory updates) via the
//! AWX REST API relayed through SSH.
use crate::awx::{call_command, page_size_or, page_size_text, ApiRequest, AwxTool};
use crate::builders::awx::{param_texts, HttpMethod};
use crate::config::AwxConfig;
use crate::error::{BridgeError, Refusal};
use crate::tool::{Annotation, OutputKind, ToolHandler};
use vstd::prelude::*;

verus! {

/// Arguments for `ssh_awx_jobs` tool.
#[derive(Debug)]
pub struct SshAwxJobsArgs {
    pub status: Option<String>,
    pub job_type: Option<String>,
    pub name_contains: Option<String>,
    pub page_size: Option<u32>,
    pub timeout_seconds: Option<u64>,
}

/// A query parameter where there is a value for it.
pub open spec fn filter(name: &str, value: Option<String>) -> Seq<(Seq<char>, Seq<char>)> {
    match value {
        Some(v) => seq![(name@, v@)],
        None => seq![],
    }
}

/// The query: the page size, the filters that are present, and the newest first.
pub open spec fn jobs_params(args: SshAwxJobsArgs) -> Seq<(Seq<char>, Seq<char>)> {
    seq![("page_size"@, page_size_or(args.page_size, 25))] + filter("status", args.status) + filter(
        "type",
        args.job_type,
    ) + filter("name__icontains", args.name_contains) + seq![("order_by"@, "-finished"@)]
}

fn push_filter<'a>(
    params: &mut Vec<(&'a str, &'a str)>,
    name: &'a str,
    value: &'a Option<String>,
)
    ensures
        param_texts(final(params)@) == param_texts(old(params)@) + filter(name, *value),
{
    if let Some(v) = value {
        params.push((name, v.as_str()));
    }
    assert(param_texts(params@) =~= param_texts(old(params)@) + filter(name, *value));
}

/// Handler for the `ssh_awx_jobs` tool.
pub struct SshAwxJobsHandler;

impl Default for SshAwxJobsHandler {
    fn default() -> (r: Self)
        ensures
            r == SshAwxJobsHandler,
    {
        Self::new()
    }
}

impl SshAwxJobsHandler {
    /// Create a new handler instance.
    #[must_use]
    pub fn new() -> (r: Self)
        ensures
            r == SshAwxJobsHandler,
    {
        SshAwxJobsHandler
    }
}

/// What the tool is for, in words for its clients.
pub const DESCRIPTION: &'static str =
    "List recent jobs/workflow/project/inventory updates across AWX (triage 'what ran/failed'). \
    jq_filter='.results[] | {id,name,type,status,finished}' output_format=tsv";

/// The JSON schema of the tool's arguments.
pub const SCHEMA: &'static str = r#"{
        "type": "object",
        "properties": {
            "status": {
                "type": "string",
                "description": "Filter by job status (e.g. successful, failed, running, canceled)"
            },
            "job_type": {
                "type": "string",
                "description": "Filter by unified job type (maps to the AWX 'type' query)"
            },
            "name_contains": {
                "type": "string",
                "description": "Case-insensitive substring filter on the job name"
            },
            "page_size": {
                "type": "integer",
                "description": "Number of results per page (default: 25)",
                "minimum": 1,
                "maximum": 200
            },
            "timeout_seconds": {
                "type": "integer",
                "description": "Optional timeout in seconds (default: from config)",
                "minimum": 1,
                "maximum": 3600
            }
        },
        "required": []
    }"#;

impl ToolHandler for SshAwxJobsHandler {
    const TOOL_NAME: &'static str = "ssh_awx_jobs";

    const TOOL_DESCRIPTION: &'static str = DESCRIPTION;

    const INPUT_SCHEMA: &'static str = SCHEMA;

    const TOOL_GROUP: &'static str = "awx";

    const EFFECT: Annotation = Annotation::ReadOnly;

    const KIND: OutputKind = OutputKind::Json;
}

impl AwxTool for SshAwxJobsHandler {
    type Args = SshAwxJobsArgs;

    const CHECKED: bool = true;

    open spec fn refusal(args: SshAwxJobsArgs) -> Option<Refusal> {
        None
    }

    open spec fn request(args: SshAwxJobsArgs) -> Result<ApiRequest, Refusal> {
        Ok(
            ApiRequest {
                method: HttpMethod::Get,
                endpoint: "/api/v2/unified_jobs/"@,
                params: jobs_params(args),
                body: None,
                timeout: args.timeout_seconds,
            },
        )
    }

    fn validate(args: &SshAwxJobsArgs) -> (r: Result<(), BridgeError>) {
        Ok(())
    }

    fn build_command(args: &SshAwxJobsArgs, awx: &AwxConfig) -> (r: Result<String, BridgeError>) {
        let page_size: String = page_size_text(args.page_size, 25);
        let mut params: Vec<(&str, &str)> = Vec::new();
        params.push(("page_size", page_size.as_str()));
        assert(param_texts(params@) =~= seq![("page_size"@, page_size_or(args.page_size, 25))]);
        push_filter(&mut params, "status", &args.status);
        push_filter(&mut params, "type", &args.job_type);
        push_filter(&mut params, "name__icontains", &args.name_contains);
        let ghost filtered = param_texts(params@);
        params.push(("order_by", "-finished"));
        assert(param_texts(params@) =~= filtered + seq![("order_by"@, "-finished"@)]);
        Ok(
            call_command(
                awx,
                HttpMethod::Get,
                "/api/v2/unified_jobs/",
                params.as_slice(),
                None,
                args.timeout_seconds,
                true,
            ),
        )
    }
}

/// What clients are told of the tool.
pub proof fn presents_itself()
    ensures
        <SshAwxJobsHandler as ToolHandler>::TOOL_NAME@ == "ssh_awx_jobs"@,
        <SshAwxJobsHandler as ToolHandler>::TOOL_DESCRIPTION@ == DESCRIPTION@,
        <SshAwxJobsHandler as ToolHandler>::INPUT_SCHEMA@ == SCHEMA@,
        <SshAwxJobsHandler as ToolHandler>::TOOL_GROUP@ == "awx"@,
        <SshAwxJobsHandler as ToolHandler>::EFFECT == Annotation::ReadOnly,
        <SshAwxJobsHandler as ToolHandler>::KIND == OutputKind::Json,
        <SshAwxJobsHandler as AwxTool>::CHECKED,
{
}

} // verus!
