//! crictl logs Tool Handler — stream/dump container logs from a K3s node.
use crate::builders::crictl::{
    container_id_refusal, logs_command, validate_container_id, CrictlCommandBuilder,
};
use crate::config::HostConfig;
use crate::error::{missing_param, BridgeError, Refusal};
use crate::shell::command_unless;
use crate::tool::{
    handler_presents_its_tool, Annotation, CommonArgs, NoCheck, OutputKind, StandardTool,
    StandardToolHandler, ToolHandler,
};
use vstd::prelude::*;

verus! {

/// Arguments for the `ssh_crictl_logs` tool.
#[derive(Debug)]
pub struct SshCrictlLogsArgs {
    pub host: String,
    pub container_id: String,
    pub tail: Option<u64>,
    pub since: Option<String>,
    pub previous: bool,
    pub timestamps: bool,
    pub crictl_bin: Option<String>,
    pub timeout_seconds: Option<u64>,
    pub max_output: Option<u64>,
    pub save_output: Option<String>,
}

impl CommonArgs for SshCrictlLogsArgs {
    open spec fn host_name(&self) -> Seq<char> {
        self.host@
    }

    fn host(&self) -> (r: &str) {
        self.host.as_str()
    }
}

/// Handler marker for `ssh_crictl_logs`.
pub struct CrictlLogsTool;

/// What the tool is for, in words for its clients.
pub const DESCRIPTION: &'static str =
    "Fetch logs from a CRI container on a K3s node via `crictl logs`. \
    Use `tail` to limit output lines, `since` for a time window (e.g. '5m', '1h'), \
    `previous=true` for the last-terminated container, and `timestamps=true` to include \
    RFC3339 timestamps. Use save_output for large log capture.";

/// The JSON schema of the tool's arguments.
pub const SCHEMA: &'static str = r#"{
        "type": "object",
        "properties": {
            "host": {"type": "string", "description": "Host alias from config.yaml (use ssh_status to list hosts)"},
            "container_id": {"type": "string", "description": "Container ID to fetch logs from (from ssh_crictl_ps)"},
            "tail": {"type": "integer", "description": "Number of most recent log lines to show", "minimum": 1},
            "since": {"type": "string", "description": "Show logs since a duration ago (e.g. '5m', '1h', '30s')"},
            "previous": {"type": "boolean", "description": "Show logs from the previous (terminated) container instance. Default false."},
            "timestamps": {"type": "boolean", "description": "Prepend RFC3339 timestamps to each log line. Default false."},
            "crictl_bin": {"type": "string", "description": "Custom crictl binary/prefix (default: auto-detect 'k3s crictl')"},
            "timeout_seconds": {"type": "integer", "description": "Optional timeout in seconds (default: from config)", "minimum": 1, "maximum": 3600},
            "max_output": {"type": "integer", "description": "Max output characters (0 = no limit). Truncated output yields an output_id for ssh_output_fetch.", "minimum": 0},
            "save_output": {"type": "string", "description": "Save full output to a local file on the MCP server."}
        },
        "required": ["host", "container_id"]
    }"#;

impl StandardTool for CrictlLogsTool {
    type Args = SshCrictlLogsArgs;

    type Check = NoCheck;

    const NAME: &'static str = "ssh_crictl_logs";

    const DESCRIPTION: &'static str = DESCRIPTION;

    const SCHEMA: &'static str = SCHEMA;

    const GROUP: &'static str = "cri";

    const ANNOTATION: Annotation = Annotation::ReadOnly;

    const OUTPUT_KIND: OutputKind = OutputKind::RawText;

    open spec fn command(args: SshCrictlLogsArgs) -> Result<Seq<char>, Refusal> {
        if args.container_id@.len() == 0 {
            Err(Refusal::MissingParam("container_id"@))
        } else {
            command_unless(
                container_id_refusal(args.container_id@),
                logs_command(
                    args.crictl_bin,
                    args.container_id@,
                    args.tail,
                    args.since,
                    args.previous,
                    args.timestamps,
                ),
            )
        }
    }

    fn build_command(
        args: &SshCrictlLogsArgs,
        _host_config: &HostConfig,
    ) -> (r: Result<String, BridgeError>) {
        if args.container_id.as_str().is_empty() {
            return Err(missing_param("container_id"));
        }
        validate_container_id(args.container_id.as_str())?;
        Ok(
            CrictlCommandBuilder::build_logs_command(
                &args.crictl_bin,
                args.container_id.as_str(),
                args.tail,
                &args.since,
                args.previous,
                args.timestamps,
            ),
        )
    }
}

/// Handler for `ssh_crictl_logs`.
pub type SshCrictlLogsHandler = StandardToolHandler<CrictlLogsTool>;

/// What clients are told of the tool.
pub proof fn presents_itself()
    ensures
        <SshCrictlLogsHandler as ToolHandler>::TOOL_NAME@ == "ssh_crictl_logs"@,
        <SshCrictlLogsHandler as ToolHandler>::TOOL_DESCRIPTION@ == DESCRIPTION@,
        <SshCrictlLogsHandler as ToolHandler>::INPUT_SCHEMA@ == SCHEMA@,
        <SshCrictlLogsHandler as ToolHandler>::TOOL_GROUP@ == "cri"@,
        <SshCrictlLogsHandler as ToolHandler>::EFFECT == Annotation::ReadOnly,
        <SshCrictlLogsHandler as ToolHandler>::KIND == OutputKind::RawText,
{
    handler_presents_its_tool::<CrictlLogsTool>();
}

} // verus!
