//! Handler for the `ssh_awx_schedule_set` tool.
//!
//! Enables or disables an AWX schedule by building a `curl` PATCH command
//! and relaying it via SSH to the configured AWX host.
use crate::awx::{call_command, endpoint_with_id, id_endpoint, id_refusal, ApiRequest, AwxTool};
use crate::builders::awx::{AwxCommandBuilder, HttpMethod};
use crate::config::AwxConfig;
use crate::error::{BridgeError, Refusal};
use crate::json::{
    bool_value, contents, json_text, new_object, no_fields, object_value, set_field, value_text,
    Json,
};
use crate::tool::{Annotation, OutputKind, ToolHandler};
use vstd::prelude::*;

verus! {

/// Arguments for the `ssh_awx_schedule_set` tool.
#[derive(Debug)]
pub struct SshAwxScheduleSetArgs {
    /// Schedule ID to enable or disable.
    pub schedule_id: u64,
    /// Whether the schedule should be enabled (`true`) or disabled (`false`).
    pub enabled: bool,
}

/// The request body.
pub open spec fn schedule_fields(enabled: bool) -> Map<Seq<char>, Json> {
    no_fields().insert("enabled"@, Json::Bool(enabled))
}

/// Builds the request body.
pub fn build_schedule_body(enabled: bool) -> (r: serde_json::Value)
    ensures
        contents(r) == Json::Object(schedule_fields(enabled)),
{
    let mut body = new_object();
    set_field(&mut body, "enabled", bool_value(enabled));
    object_value(body)
}

/// Handler for enabling/disabling AWX schedules.
pub struct SshAwxScheduleSetHandler;

impl Default for SshAwxScheduleSetHandler {
    fn default() -> (r: Self)
        ensures
            r == SshAwxScheduleSetHandler,
    {
        Self::new()
    }
}

impl SshAwxScheduleSetHandler {
    /// Create a new handler instance.
    #[must_use]
    pub fn new() -> (r: Self)
        ensures
            r == SshAwxScheduleSetHandler,
    {
        SshAwxScheduleSetHandler
    }
}

/// What the tool is for, in words for its clients.
pub const DESCRIPTION: &'static str =
    "Enable or disable an AWX schedule by id. Returns the updated schedule. \
    Use ssh_awx_schedules to list schedules and find the id.";

/// The JSON schema of the tool's arguments.
pub const SCHEMA: &'static str = r#"{
    "type": "object",
    "properties": {
        "schedule_id": {
            "type": "integer",
            "description": "Schedule ID to enable or disable",
            "minimum": 1
        },
        "enabled": {
            "type": "boolean",
            "description": "Whether the schedule should be enabled (true) or disabled (false)"
        }
    },
    "required": ["schedule_id", "enabled"]
}"#;

impl ToolHandler for SshAwxScheduleSetHandler {
    const TOOL_NAME: &'static str = "ssh_awx_schedule_set";

    const TOOL_DESCRIPTION: &'static str = DESCRIPTION;

    const INPUT_SCHEMA: &'static str = SCHEMA;

    const TOOL_GROUP: &'static str = "awx";

    const EFFECT: Annotation = Annotation::MutatingIdempotent;

    const KIND: OutputKind = OutputKind::Json;
}

impl AwxTool for SshAwxScheduleSetHandler {
    type Args = SshAwxScheduleSetArgs;

    const CHECKED: bool = true;

    open spec fn refusal(args: SshAwxScheduleSetArgs) -> Option<Refusal> {
        id_refusal(args.schedule_id)
    }

    open spec fn request(args: SshAwxScheduleSetArgs) -> Result<ApiRequest, Refusal> {
        Ok(
            ApiRequest {
                method: HttpMethod::Patch,
                endpoint: endpoint_with_id("/api/v2/schedules/", args.schedule_id, "/"),
                params: seq![],
                body: Some(json_text(Json::Object(schedule_fields(args.enabled)))),
                timeout: None,
            },
        )
    }

    fn validate(args: &SshAwxScheduleSetArgs) -> (r: Result<(), BridgeError>) {
        AwxCommandBuilder::validate_id(args.schedule_id)
    }

    fn build_command(
        args: &SshAwxScheduleSetArgs,
        awx: &AwxConfig,
    ) -> (r: Result<String, BridgeError>) {
        let endpoint: String = id_endpoint("/api/v2/schedules/", args.schedule_id, "/");
        let body: String = value_text(&build_schedule_body(args.enabled));
        Ok(
            call_command(
                awx,
                HttpMethod::Patch,
                endpoint.as_str(),
                &[],
                Some(body.as_str()),
                None,
                true,
            ),
        )
    }
}

/// What clients are told of the tool.
pub proof fn presents_itself()
    ensures
        <SshAwxScheduleSetHandler as ToolHandler>::TOOL_NAME@ == "ssh_awx_schedule_set"@,
        <SshAwxScheduleSetHandler as ToolHandler>::TOOL_DESCRIPTION@ == DESCRIPTION@,
        <SshAwxScheduleSetHandler as ToolHandler>::INPUT_SCHEMA@ == SCHEMA@,
        <SshAwxScheduleSetHandler as ToolHandler>::TOOL_GROUP@ == "awx"@,
        <SshAwxScheduleSetHandler as ToolHandler>::EFFECT == Annotation::MutatingIdempotent,
        <SshAwxScheduleSetHandler as ToolHandler>::KIND == OutputKind::Json,
        <SshAwxScheduleSetHandler as AwxTool>::CHECKED,
{
}

} // verus!
