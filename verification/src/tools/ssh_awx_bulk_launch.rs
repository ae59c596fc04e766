//! Handler for the `ssh_awx_bulk_launch` tool.
//!
//! Launches N AWX jobs atomically via the bulk job-launch endpoint by building
//! a `curl` POST command and relaying it via SSH to the configured AWX host.
use crate::awx::{
    call_command, id_refusal, json_number, opt_contents, opt_json_number, opt_json_text, set_number,
    set_text, set_value, with_field, ApiRequest, AwxTool,
};
use crate::builders::awx::{AwxCommandBuilder, HttpMethod};
use crate::config::AwxConfig;
use crate::error::{checked, first_of, invalid_request, BridgeError, Refusal};
use crate::json::{
    array_value, contents, json_text, new_object, no_fields, number_value, object_value, set_field,
    text_value, value_text, Json,
};
use crate::tool::{Annotation, OutputKind, ToolHandler};
use vstd::prelude::*;

verus! {

/// A single job entry in a bulk launch request.
#[derive(Debug)]
pub struct BulkJob {
    /// Unified job template ID to launch.
    pub unified_job_template: u64,
    /// Inventory ID to use instead of the template default.
    pub inventory: Option<u64>,
    /// Limit pattern for the job (host subset).
    pub limit: Option<String>,
    /// Extra variables to pass to the job template (JSON object).
    pub extra_vars: Option<serde_json::Value>,
}

/// Arguments for the `ssh_awx_bulk_launch` tool.
#[derive(Debug)]
pub struct SshAwxBulkLaunchArgs {
    /// Jobs to launch in a single atomic bulk request (must be non-empty).
    pub jobs: Vec<BulkJob>,
    /// Optional name for the bulk job.
    pub name: Option<String>,
}

/// The name that a bulk launch goes by where the caller gives none.
pub const DEFAULT_BULK_NAME: &'static str = "bridge-mcp bulk launch";

/// The entry of one job: its template always, the other fields where present.
pub open spec fn job_fields(job: BulkJob) -> Map<Seq<char>, Json> {
    let template = no_fields().insert(
        "unified_job_template"@,
        json_number(job.unified_job_template),
    );
    let placed = with_field(template, "inventory", opt_json_number(job.inventory));
    let limited = with_field(placed, "limit", opt_json_text(job.limit));
    with_field(limited, "extra_vars", opt_contents(job.extra_vars))
}

/// The entries of all jobs, in order.
pub open spec fn job_entries(jobs: Seq<BulkJob>) -> Seq<Json> {
    Seq::new(jobs.len(), |i: int| Json::Object(job_fields(jobs[i])))
}

/// The name that is sent.
pub open spec fn bulk_name(name: Option<String>) -> Seq<char> {
    match name {
        Some(n) => n@,
        None => DEFAULT_BULK_NAME@,
    }
}

/// The request body.
pub open spec fn bulk_fields(args: SshAwxBulkLaunchArgs) -> Map<Seq<char>, Json> {
    no_fields()
        .insert("name"@, Json::Text(bulk_name(args.name)))
        .insert("jobs"@, Json::Array(job_entries(args.jobs@)))
}

/// Why one job is refused, if it is.
pub open spec fn job_refusal(job: BulkJob) -> Option<Refusal> {
    first_of(
        id_refusal(job.unified_job_template),
        match job.inventory {
            Some(inventory) => id_refusal(inventory),
            None => None,
        },
    )
}

/// Why a list of jobs is refused, if it is: the first job that is refused decides.
pub open spec fn jobs_refusal(jobs: Seq<BulkJob>) -> Option<Refusal>
    decreases jobs.len(),
{
    if jobs.len() == 0 {
        None
    } else {
        first_of(job_refusal(jobs[0]), jobs_refusal(jobs.skip(1)))
    }
}

fn validate_job(job: &BulkJob) -> (r: Result<(), BridgeError>)
    ensures
        checked(r, job_refusal(*job)),
{
    AwxCommandBuilder::validate_id(job.unified_job_template)?;
    if let Some(inventory) = job.inventory {
        AwxCommandBuilder::validate_id(inventory)?;
    }
    Ok(())
}

fn build_job(job: &BulkJob) -> (r: serde_json::Value)
    ensures
        contents(r) == Json::Object(job_fields(*job)),
{
    let mut entry = new_object();
    set_field(&mut entry, "unified_job_template", number_value(job.unified_job_template));
    set_number(&mut entry, "inventory", job.inventory);
    set_text(&mut entry, "limit", &job.limit);
    set_value(&mut entry, "extra_vars", &job.extra_vars);
    object_value(entry)
}

/// Build the bulk job-launch request body.
///
/// `name` is always emitted (defaulted when the caller omits it) because AWX's
/// bulk serializer treats it as required on some releases; per-job `None` fields
/// are omitted. Each job entry always carries `unified_job_template`.
pub fn build_bulk_body(args: &SshAwxBulkLaunchArgs) -> (r: serde_json::Value)
    ensures
        contents(r) == Json::Object(bulk_fields(*args)),
{
    let mut jobs: Vec<serde_json::Value> = Vec::new();
    let mut i: usize = 0;
    while i < args.jobs.len()
        invariant
            i <= args.jobs@.len(),
            jobs@.len() == i,
            forall|j: int|
                0 <= j < i ==> contents(#[trigger] jobs@[j]) == Json::Object(
                    job_fields(args.jobs@[j]),
                ),
        decreases args.jobs@.len() - i,
    {
        jobs.push(build_job(&args.jobs[i]));
        i += 1;
    }
    let name: &str = match &args.name {
        Some(n) => n.as_str(),
        None => DEFAULT_BULK_NAME,
    };
    assert(Seq::new(jobs@.len(), |j: int| contents(jobs@[j])) =~= job_entries(args.jobs@));
    let mut body = new_object();
    set_field(&mut body, "name", text_value(name.to_owned()));
    set_field(&mut body, "jobs", array_value(jobs));
    object_value(body)
}

/// Handler for launching N AWX jobs atomically.
pub struct SshAwxBulkLaunchHandler;

impl Default for SshAwxBulkLaunchHandler {
    fn default() -> (r: Self)
        ensures
            r == SshAwxBulkLaunchHandler,
    {
        Self::new()
    }
}

impl SshAwxBulkLaunchHandler {
    /// Create a new handler instance.
    #[must_use]
    pub fn new() -> (r: Self)
        ensures
            r == SshAwxBulkLaunchHandler,
    {
        SshAwxBulkLaunchHandler
    }
}

/// What the tool is for, in words for its clients.
pub const DESCRIPTION: &'static str =
    "Launch N AWX jobs atomically in a single bulk request. Returns the bulk \
    job and the spawned job IDs. Use ssh_awx_job_status to monitor each.";

/// The JSON schema of the tool's arguments.
pub const SCHEMA: &'static str = r#"{
    "type": "object",
    "properties": {
        "jobs": {
            "type": "array",
            "description": "Jobs to launch in a single atomic bulk request (must be non-empty)",
            "minItems": 1,
            "items": {
                "type": "object",
                "properties": {
                    "unified_job_template": {
                        "type": "integer",
                        "description": "Unified job template ID to launch",
                        "minimum": 1
                    },
                    "inventory": {
                        "type": "integer",
                        "description": "Inventory ID to use instead of the template default",
                        "minimum": 1
                    },
                    "limit": {
                        "type": "string",
                        "description": "Limit pattern for the job (host subset)"
                    },
                    "extra_vars": {
                        "type": "object",
                        "description": "Extra variables to pass to the job template (JSON object)"
                    }
                },
                "required": ["unified_job_template"]
            }
        },
        "name": {
            "type": "string",
            "description": "Name for the bulk job (defaults to 'bridge-mcp bulk launch' if omitted)"
        }
    },
    "required": ["jobs"]
}"#;

impl ToolHandler for SshAwxBulkLaunchHandler {
    const TOOL_NAME: &'static str = "ssh_awx_bulk_launch";

    const TOOL_DESCRIPTION: &'static str = DESCRIPTION;

    const INPUT_SCHEMA: &'static str = SCHEMA;

    const TOOL_GROUP: &'static str = "awx";

    const EFFECT: Annotation = Annotation::Mutating;

    const KIND: OutputKind = OutputKind::Json;
}

impl AwxTool for SshAwxBulkLaunchHandler {
    type Args = SshAwxBulkLaunchArgs;

    const CHECKED: bool = true;

    open spec fn refusal(args: SshAwxBulkLaunchArgs) -> Option<Refusal> {
        if args.jobs@.len() == 0 {
            Some(Refusal::InvalidRequest("jobs must contain at least one job"@))
        } else {
            jobs_refusal(args.jobs@)
        }
    }

    open spec fn request(args: SshAwxBulkLaunchArgs) -> Result<ApiRequest, Refusal> {
        Ok(
            ApiRequest {
                method: HttpMethod::Post,
                endpoint: "/api/v2/bulk/job_launch/"@,
                params: seq![],
                body: Some(json_text(Json::Object(bulk_fields(args)))),
                timeout: None,
            },
        )
    }

    fn validate(args: &SshAwxBulkLaunchArgs) -> (r: Result<(), BridgeError>) {
        if args.jobs.is_empty() {
            return Err(invalid_request("jobs must contain at least one job"));
        }
        let mut i: usize = 0;
        assert(args.jobs@.skip(0) =~= args.jobs@);
        while i < args.jobs.len()
            invariant
                i <= args.jobs@.len(),
                args.jobs@.len() > 0,
                jobs_refusal(args.jobs@) == jobs_refusal(args.jobs@.skip(i as int)),
            decreases args.jobs@.len() - i,
        {
            proof {
                let rest = args.jobs@.skip(i as int);
                assert(rest[0] == args.jobs@[i as int]);
                assert(rest.skip(1) =~= args.jobs@.skip(i + 1));
            }
            validate_job(&args.jobs[i])?;
            i += 1;
        }
        Ok(())
    }

    fn build_command(
        args: &SshAwxBulkLaunchArgs,
        awx: &AwxConfig,
    ) -> (r: Result<String, BridgeError>) {
        let body: String = value_text(&build_bulk_body(args));
        Ok(
            call_command(
                awx,
                HttpMethod::Post,
                "/api/v2/bulk/job_launch/",
                &[],
                Some(body.as_str()),
                None,
                true,
            ),
        )
    }
}

/// What clients are told of the tool.
pub proof fn presents_itself()
    ensures
        <SshAwxBulkLaunchHandler as ToolHandler>::TOOL_NAME@ == "ssh_awx_bulk_launch"@,
        <SshAwxBulkLaunchHandler as ToolHandler>::TOOL_DESCRIPTION@ == DESCRIPTION@,
        <SshAwxBulkLaunchHandler as ToolHandler>::INPUT_SCHEMA@ == SCHEMA@,
        <SshAwxBulkLaunchHandler as ToolHandler>::TOOL_GROUP@ == "awx"@,
        <SshAwxBulkLaunchHandler as ToolHandler>::EFFECT == Annotation::Mutating,
        <SshAwxBulkLaunchHandler as ToolHandler>::KIND == OutputKind::Json,
        <SshAwxBulkLaunchHandler as AwxTool>::CHECKED,
{
}

} // verus!
