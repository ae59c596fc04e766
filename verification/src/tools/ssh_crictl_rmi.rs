//! crictl rmi Tool Handler — remove a CRI container image from a K3s node.
use crate::builders::crictl::{rmi_command, CrictlCommandBuilder};
use crate::config::HostConfig;
use crate::error::{BridgeError, Refusal};
use crate::tool::{
    handler_presents_its_tool, Annotation, CommonArgs, NoCheck, OutputKind, StandardTool,
    StandardToolHandler, ToolHandler,
};
use vstd::prelude::*;

verus! {

/// Arguments for the `ssh_crictl_rmi` tool.
#[derive(Debug)]
pub struct SshCrictlRmiArgs {
    pub host: String,
    pub image: Option<String>,
    pub prune: bool,
    pub crictl_bin: Option<String>,
    pub timeout_seconds: Option<u64>,
    pub max_output: Option<u64>,
    pub save_output: Option<String>,
}

impl CommonArgs for SshCrictlRmiArgs {
    open spec fn host_name(&self) -> Seq<char> {
        self.host@
    }

    fn host(&self) -> (r: &str) {
        self.host.as_str()
    }
}

/// Handler marker for `ssh_crictl_rmi`.
pub struct CrictlRmiTool;

/// What the tool is for, in words for its clients.
pub const DESCRIPTION: &'static str =
    "Remove a container image (or prune all unused images) from a K3s node via \
    `crictl rmi`. DESTRUCTIVE: image deletion is irreversible and cannot be rolled back \
    without a fresh pull. Specify exactly one of `image` (a specific image ref) or \
    `prune=true` (remove all unused images).";

/// The JSON schema of the tool's arguments.
pub const SCHEMA: &'static str = r#"{
        "type": "object",
        "properties": {
            "host": {"type": "string", "description": "Host alias from config.yaml (use ssh_status to list hosts)"},
            "image": {"type": "string", "description": "Image reference to remove (e.g. 'ubuntu:22.04', 'registry.io/app:v1.0'). Mutually exclusive with prune."},
            "prune": {"type": "boolean", "description": "Remove ALL unused images (crictl rmi --prune). Mutually exclusive with image. Default false."},
            "crictl_bin": {"type": "string", "description": "Custom crictl binary/prefix (default: auto-detect 'k3s crictl')"},
            "timeout_seconds": {"type": "integer", "description": "Optional timeout in seconds (default: from config)", "minimum": 1, "maximum": 3600},
            "max_output": {"type": "integer", "description": "Max output characters (0 = no limit). Truncated output yields an output_id for ssh_output_fetch.", "minimum": 0},
            "save_output": {"type": "string", "description": "Save full output to a local file on the MCP server."}
        },
        "required": ["host"]
    }"#;

impl StandardTool for CrictlRmiTool {
    type Args = SshCrictlRmiArgs;

    type Check = NoCheck;

    const NAME: &'static str = "ssh_crictl_rmi";

    const DESCRIPTION: &'static str = DESCRIPTION;

    const SCHEMA: &'static str = SCHEMA;

    const GROUP: &'static str = "cri";

    const ANNOTATION: Annotation = Annotation::Destructive;

    const OUTPUT_KIND: OutputKind = OutputKind::Auto;

    open spec fn command(args: SshCrictlRmiArgs) -> Result<Seq<char>, Refusal> {
        rmi_command(args.crictl_bin, args.image, args.prune)
    }

    fn build_command(
        args: &SshCrictlRmiArgs,
        _host_config: &HostConfig,
    ) -> (r: Result<String, BridgeError>) {
        CrictlCommandBuilder::build_rmi_command(&args.crictl_bin, &args.image, args.prune)
    }
}

/// Handler for `ssh_crictl_rmi`.
pub type SshCrictlRmiHandler = StandardToolHandler<CrictlRmiTool>;

/// What clients are told of the tool.
pub proof fn presents_itself()
    ensures
        <SshCrictlRmiHandler as ToolHandler>::TOOL_NAME@ == "ssh_crictl_rmi"@,
        <SshCrictlRmiHandler as ToolHandler>::TOOL_DESCRIPTION@ == DESCRIPTION@,
        <SshCrictlRmiHandler as ToolHandler>::INPUT_SCHEMA@ == SCHEMA@,
        <SshCrictlRmiHandler as ToolHandler>::TOOL_GROUP@ == "cri"@,
        <SshCrictlRmiHandler as ToolHandler>::EFFECT == Annotation::Destructive,
        <SshCrictlRmiHandler as ToolHandler>::KIND == OutputKind::Auto,
{
    handler_presents_its_tool::<CrictlRmiTool>();
}

} // verus!
