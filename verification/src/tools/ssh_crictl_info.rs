//! crictl info Tool Handler — CRI runtime/node info on a K3s node.
use crate::builders::crictl::{info_command, CrictlCommandBuilder};
use crate::config::HostConfig;
use crate::error::{BridgeError, Refusal};
use crate::shell::render;
use crate::tool::{
    handler_presents_its_tool, Annotation, CommonArgs, NoCheck, OutputKind, StandardTool,
    StandardToolHandler, ToolHandler,
};
use vstd::prelude::*;

verus! {

/// Arguments for the `ssh_crictl_info` tool.
#[derive(Debug)]
pub struct SshCrictlInfoArgs {
    pub host: String,
    pub output: Option<String>,
    pub crictl_bin: Option<String>,
    pub timeout_seconds: Option<u64>,
    pub max_output: Option<u64>,
    pub save_output: Option<String>,
}

impl CommonArgs for SshCrictlInfoArgs {
    open spec fn host_name(&self) -> Seq<char> {
        self.host@
    }

    fn host(&self) -> (r: &str) {
        self.host.as_str()
    }
}

/// Handler marker for `ssh_crictl_info`.
pub struct CrictlInfoTool;

/// What the tool is for, in words for its clients.
pub const DESCRIPTION: &'static str =
    "Show CRI runtime and node-level information via `crictl info`. \
    Returns containerd version, runtime endpoint, config, and node status. \
    Defaults to JSON output for jq_filter reduction.";

/// The JSON schema of the tool's arguments.
pub const SCHEMA: &'static str = r#"{
        "type": "object",
        "properties": {
            "host": {"type": "string", "description": "Host alias from config.yaml (use ssh_status to list hosts)"},
            "output": {"type": "string", "description": "Output format: json (default), yaml"},
            "crictl_bin": {"type": "string", "description": "Custom crictl binary/prefix (default: auto-detect 'k3s crictl')"},
            "timeout_seconds": {"type": "integer", "description": "Optional timeout in seconds (default: from config)", "minimum": 1, "maximum": 3600},
            "max_output": {"type": "integer", "description": "Max output characters (0 = no limit). Truncated output yields an output_id for ssh_output_fetch.", "minimum": 0},
            "save_output": {"type": "string", "description": "Save full output to a local file on the MCP server."}
        },
        "required": ["host"]
    }"#;

impl StandardTool for CrictlInfoTool {
    type Args = SshCrictlInfoArgs;

    type Check = NoCheck;

    const NAME: &'static str = "ssh_crictl_info";

    const DESCRIPTION: &'static str = DESCRIPTION;

    const SCHEMA: &'static str = SCHEMA;

    const GROUP: &'static str = "cri";

    const ANNOTATION: Annotation = Annotation::ReadOnly;

    const OUTPUT_KIND: OutputKind = OutputKind::Auto;

    open spec fn command(args: SshCrictlInfoArgs) -> Result<Seq<char>, Refusal> {
        Ok(render(info_command(args.crictl_bin, args.output)))
    }

    fn build_command(
        args: &SshCrictlInfoArgs,
        _host_config: &HostConfig,
    ) -> (r: Result<String, BridgeError>) {
        Ok(CrictlCommandBuilder::build_info_command(&args.crictl_bin, &args.output))
    }
}

/// Handler for `ssh_crictl_info`.
pub type SshCrictlInfoHandler = StandardToolHandler<CrictlInfoTool>;

/// What clients are told of the tool.
pub proof fn presents_itself()
    ensures
        <SshCrictlInfoHandler as ToolHandler>::TOOL_NAME@ == "ssh_crictl_info"@,
        <SshCrictlInfoHandler as ToolHandler>::TOOL_DESCRIPTION@ == DESCRIPTION@,
        <SshCrictlInfoHandler as ToolHandler>::INPUT_SCHEMA@ == SCHEMA@,
        <SshCrictlInfoHandler as ToolHandler>::TOOL_GROUP@ == "cri"@,
        <SshCrictlInfoHandler as ToolHandler>::EFFECT == Annotation::ReadOnly,
        <SshCrictlInfoHandler as ToolHandler>::KIND == OutputKind::Auto,
{
    handler_presents_its_tool::<CrictlInfoTool>();
}

} // verus!
