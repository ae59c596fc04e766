//! `ssh_k3s_check_config` Tool Handler — validate k3s kernel/OS prerequisites.
use crate::builders::k3s::{check_config_command, K3sCommandBuilder};
use crate::config::HostConfig;
use crate::error::{BridgeError, Refusal};
use crate::shell::render;
use crate::tool::{
    handler_presents_its_tool, Annotation, CommonArgs, NoCheck, OutputKind, StandardTool,
    StandardToolHandler, ToolHandler,
};
use vstd::prelude::*;

verus! {

/// Arguments for the `ssh_k3s_check_config` tool.
#[derive(Debug)]
pub struct SshK3sCheckConfigArgs {
    pub host: String,
    pub k3s_bin: Option<String>,
    pub timeout_seconds: Option<u64>,
    pub max_output: Option<u64>,
    pub save_output: Option<String>,
}

impl CommonArgs for SshK3sCheckConfigArgs {
    open spec fn host_name(&self) -> Seq<char> {
        self.host@
    }

    fn host(&self) -> (r: &str) {
        self.host.as_str()
    }
}

/// Handler marker for `ssh_k3s_check_config`.
pub struct SshK3sCheckConfigTool;

/// What the tool is for, in words for its clients.
pub const DESCRIPTION: &'static str =
    "Validate kernel and OS prerequisites for k3s (`k3s check-config`). \
    Reports missing kernel modules, cgroup settings, and other \
    requirements needed for k3s to operate correctly.";

/// The JSON schema of the tool's arguments.
pub const SCHEMA: &'static str = r#"{
        "type": "object",
        "properties": {
            "host": {"type": "string", "description": "Host alias from config.yaml (use ssh_status to list hosts)"},
            "k3s_bin": {"type": "string", "description": "Custom k3s binary path (default: auto-detect 'k3s')."},
            "timeout_seconds": {"type": "integer", "description": "Optional timeout in seconds (default: from config).", "minimum": 1, "maximum": 3600},
            "max_output": {"type": "integer", "description": "Max output characters (0 = no limit).", "minimum": 0},
            "save_output": {"type": "string", "description": "Save full output to a local file on the MCP server."}
        },
        "required": ["host"]
    }"#;

impl StandardTool for SshK3sCheckConfigTool {
    type Args = SshK3sCheckConfigArgs;

    type Check = NoCheck;

    const NAME: &'static str = "ssh_k3s_check_config";

    const DESCRIPTION: &'static str = DESCRIPTION;

    const SCHEMA: &'static str = SCHEMA;

    const GROUP: &'static str = "k3s";

    const ANNOTATION: Annotation = Annotation::ReadOnly;

    const OUTPUT_KIND: OutputKind = OutputKind::RawText;

    open spec fn command(args: SshK3sCheckConfigArgs) -> Result<Seq<char>, Refusal> {
        Ok(render(check_config_command(args.k3s_bin)))
    }

    fn build_command(
        args: &SshK3sCheckConfigArgs,
        _host_config: &HostConfig,
    ) -> (r: Result<String, BridgeError>) {
        Ok(K3sCommandBuilder::build_check_config_command(&args.k3s_bin))
    }
}

/// Handler for `ssh_k3s_check_config`.
pub type SshK3sCheckConfigHandler = StandardToolHandler<SshK3sCheckConfigTool>;

/// What clients are told of the tool.
pub proof fn presents_itself()
    ensures
        <SshK3sCheckConfigHandler as ToolHandler>::TOOL_NAME@ == "ssh_k3s_check_config"@,
        <SshK3sCheckConfigHandler as ToolHandler>::TOOL_DESCRIPTION@ == DESCRIPTION@,
        <SshK3sCheckConfigHandler as ToolHandler>::INPUT_SCHEMA@ == SCHEMA@,
        <SshK3sCheckConfigHandler as ToolHandler>::TOOL_GROUP@ == "k3s"@,
        <SshK3sCheckConfigHandler as ToolHandler>::EFFECT == Annotation::ReadOnly,
        <SshK3sCheckConfigHandler as ToolHandler>::KIND == OutputKind::RawText,
{
    handler_presents_its_tool::<SshK3sCheckConfigTool>();
}

} // verus!
