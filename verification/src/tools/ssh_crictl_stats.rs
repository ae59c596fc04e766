//! crictl stats Tool Handler — one-shot container resource stats on a K3s node.
use crate::builders::crictl::{
    container_id_refusal, stats_command, validate_container_id, CrictlCommandBuilder,
};
use crate::config::HostConfig;
use crate::error::{if_some, BridgeError, Refusal};
use crate::shell::command_unless;
use crate::tool::{
    handler_presents_its_tool, Annotation, CommonArgs, NoCheck, OutputKind, StandardTool,
    StandardToolHandler, ToolHandler,
};
use vstd::prelude::*;

verus! {

/// Arguments for the `ssh_crictl_stats` tool.
#[derive(Debug)]
pub struct SshCrictlStatsArgs {
    pub host: String,
    pub all: bool,
    pub id: Option<String>,
    pub output: Option<String>,
    pub crictl_bin: Option<String>,
    pub timeout_seconds: Option<u64>,
    pub max_output: Option<u64>,
    pub save_output: Option<String>,
}

impl CommonArgs for SshCrictlStatsArgs {
    open spec fn host_name(&self) -> Seq<char> {
        self.host@
    }

    fn host(&self) -> (r: &str) {
        self.host.as_str()
    }
}

/// Stats cover all containers unless the caller says otherwise.
pub fn default_true() -> (r: bool)
    ensures
        r,
{
    true
}

/// Handler marker for `ssh_crictl_stats`.
pub struct CrictlStatsTool;

/// What the tool is for, in words for its clients.
pub const DESCRIPTION: &'static str = "Collect one-shot CPU/memory stats for CRI containers on a \
    K3s node via `crictl stats`. Defaults to all containers (`all=true`) and JSON output \
    for jq_filter reduction. Filter to a single container with `id`.";

/// The JSON schema of the tool's arguments.
pub const SCHEMA: &'static str = r#"{
        "type": "object",
        "properties": {
            "host": {"type": "string", "description": "Host alias from config.yaml (use ssh_status to list hosts)"},
            "all": {"type": "boolean", "description": "Include all containers (crictl stats -a). Default true."},
            "id": {"type": "string", "description": "Filter stats to a single container ID"},
            "output": {"type": "string", "description": "Output format: json (default), table, yaml"},
            "crictl_bin": {"type": "string", "description": "Custom crictl binary/prefix (default: auto-detect 'k3s crictl')"},
            "timeout_seconds": {"type": "integer", "description": "Optional timeout in seconds (default: from config)", "minimum": 1, "maximum": 3600},
            "max_output": {"type": "integer", "description": "Max output characters (0 = no limit). Truncated output yields an output_id for ssh_output_fetch.", "minimum": 0},
            "save_output": {"type": "string", "description": "Save full output to a local file on the MCP server."}
        },
        "required": ["host"]
    }"#;

impl StandardTool for CrictlStatsTool {
    type Args = SshCrictlStatsArgs;

    type Check = NoCheck;

    const NAME: &'static str = "ssh_crictl_stats";

    const DESCRIPTION: &'static str = DESCRIPTION;

    const SCHEMA: &'static str = SCHEMA;

    const GROUP: &'static str = "cri";

    const ANNOTATION: Annotation = Annotation::ReadOnly;

    const OUTPUT_KIND: OutputKind = OutputKind::Auto;

    open spec fn command(args: SshCrictlStatsArgs) -> Result<Seq<char>, Refusal> {
        command_unless(
            if_some(args.id, |id: Seq<char>| container_id_refusal(id)),
            stats_command(args.crictl_bin, args.all, args.id, args.output),
        )
    }

    fn build_command(
        args: &SshCrictlStatsArgs,
        _host_config: &HostConfig,
    ) -> (r: Result<String, BridgeError>) {
        if let Some(id) = &args.id {
            validate_container_id(id.as_str())?;
        }
        Ok(
            CrictlCommandBuilder::build_stats_command(
                &args.crictl_bin,
                args.all,
                &args.id,
                &args.output,
            ),
        )
    }
}

/// Handler for `ssh_crictl_stats`.
pub type SshCrictlStatsHandler = StandardToolHandler<CrictlStatsTool>;

/// What clients are told of the tool.
pub proof fn presents_itself()
    ensures
        <SshCrictlStatsHandler as ToolHandler>::TOOL_NAME@ == "ssh_crictl_stats"@,
        <SshCrictlStatsHandler as ToolHandler>::TOOL_DESCRIPTION@ == DESCRIPTION@,
        <SshCrictlStatsHandler as ToolHandler>::INPUT_SCHEMA@ == SCHEMA@,
        <SshCrictlStatsHandler as ToolHandler>::TOOL_GROUP@ == "cri"@,
        <SshCrictlStatsHandler as ToolHandler>::EFFECT == Annotation::ReadOnly,
        <SshCrictlStatsHandler as ToolHandler>::KIND == OutputKind::Auto,
{
    handler_presents_its_tool::<CrictlStatsTool>();
}

} // verus!
