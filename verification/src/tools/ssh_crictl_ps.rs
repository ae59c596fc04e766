//! crictl ps Tool Handler — list CRI containers on a K3s node.
use crate::builders::crictl::{ps_command, CrictlCommandBuilder};
use crate::config::HostConfig;
use crate::error::{BridgeError, Refusal};
use crate::shell::render;
use crate::tool::{
    handler_presents_its_tool, Annotation, CommonArgs, NoCheck, OutputKind, StandardTool,
    StandardToolHandler, ToolHandler,
};
use vstd::prelude::*;

verus! {

/// Arguments for the `ssh_crictl_ps` tool.
#[derive(Debug)]
pub struct SshCrictlPsArgs {
    pub host: String,
    pub all: bool,
    pub state: Option<String>,
    pub name: Option<String>,
    pub label: Option<String>,
    pub output: Option<String>,
    pub crictl_bin: Option<String>,
    pub timeout_seconds: Option<u64>,
    pub max_output: Option<u64>,
    pub save_output: Option<String>,
}

impl CommonArgs for SshCrictlPsArgs {
    open spec fn host_name(&self) -> Seq<char> {
        self.host@
    }

    fn host(&self) -> (r: &str) {
        self.host.as_str()
    }
}

/// Handler marker for `ssh_crictl_ps`.
pub struct CrictlPsTool;

/// What the tool is for, in words for its clients.
pub const DESCRIPTION: &'static str = "List CRI containers on a K3s node via `crictl ps` \
    (embedded containerd — works when the apiserver is down, unlike ssh_k8s_get). \
    Defaults to JSON output for jq_filter reduction. Filter with `state`/`name`/`label`; \
    `all=true` includes exited containers.";

/// The JSON schema of the tool's arguments.
pub const SCHEMA: &'static str = r#"{
        "type": "object",
        "properties": {
            "host": {"type": "string", "description": "Host alias from config.yaml (use ssh_status to list hosts)"},
            "all": {"type": "boolean", "description": "Include non-running containers (crictl ps -a). Default false."},
            "state": {"type": "string", "description": "Filter by state: created, running, exited, unknown"},
            "name": {"type": "string", "description": "Filter by container name substring"},
            "label": {"type": "string", "description": "Filter by label key=value"},
            "output": {"type": "string", "description": "Output format: json (default), table, yaml"},
            "crictl_bin": {"type": "string", "description": "Custom crictl binary/prefix (default: auto-detect 'k3s crictl')"},
            "timeout_seconds": {"type": "integer", "description": "Optional timeout in seconds (default: from config)", "minimum": 1, "maximum": 3600},
            "max_output": {"type": "integer", "description": "Max output characters (0 = no limit). Truncated output yields an output_id for ssh_output_fetch.", "minimum": 0},
            "save_output": {"type": "string", "description": "Save full output to a local file on the MCP server."}
        },
        "required": ["host"]
    }"#;

impl StandardTool for CrictlPsTool {
    type Args = SshCrictlPsArgs;

    type Check = NoCheck;

    const NAME: &'static str = "ssh_crictl_ps";

    const DESCRIPTION: &'static str = DESCRIPTION;

    const SCHEMA: &'static str = SCHEMA;

    const GROUP: &'static str = "cri";

    const ANNOTATION: Annotation = Annotation::ReadOnly;

    const OUTPUT_KIND: OutputKind = OutputKind::Auto;

    open spec fn command(args: SshCrictlPsArgs) -> Result<Seq<char>, Refusal> {
        Ok(
            render(
                ps_command(
                    args.crictl_bin,
                    args.all,
                    args.state,
                    args.name,
                    args.label,
                    args.output,
                ),
            ),
        )
    }

    fn build_command(
        args: &SshCrictlPsArgs,
        _host_config: &HostConfig,
    ) -> (r: Result<String, BridgeError>) {
        Ok(
            CrictlCommandBuilder::build_ps_command(
                &args.crictl_bin,
                args.all,
                &args.state,
                &args.name,
                &args.label,
                &args.output,
            ),
        )
    }
}

/// Handler for `ssh_crictl_ps`.
pub type SshCrictlPsHandler = StandardToolHandler<CrictlPsTool>;

/// What clients are told of the tool.
pub proof fn presents_itself()
    ensures
        <SshCrictlPsHandler as ToolHandler>::TOOL_NAME@ == "ssh_crictl_ps"@,
        <SshCrictlPsHandler as ToolHandler>::TOOL_DESCRIPTION@ == DESCRIPTION@,
        <SshCrictlPsHandler as ToolHandler>::INPUT_SCHEMA@ == SCHEMA@,
        <SshCrictlPsHandler as ToolHandler>::TOOL_GROUP@ == "cri"@,
        <SshCrictlPsHandler as ToolHandler>::EFFECT == Annotation::ReadOnly,
        <SshCrictlPsHandler as ToolHandler>::KIND == OutputKind::Auto,
{
    handler_presents_its_tool::<CrictlPsTool>();
}

} // verus!
