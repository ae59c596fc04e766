//! K3s uninstall — removes k3s server or agent from the node.
//! DESTRUCTIVE: permanently removes the k3s installation.
use crate::builders::k3s::{
    default_uninstaller, script_command, uninstaller_refusal, K3sCommandBuilder,
};
use crate::config::HostConfig;
use crate::error::{if_some, BridgeError, Refusal};
use crate::shell::command_unless;
use crate::tool::{
    handler_presents_its_tool, Annotation, CommonArgs, NoCheck, OutputKind, StandardTool,
    StandardToolHandler, ToolHandler,
};
use vstd::prelude::*;

verus! {

/// Arguments for the `ssh_k3s_uninstall` tool.
#[derive(Debug)]
pub struct SshK3sUninstallArgs {
    pub host: String,
    pub agent: bool,
    pub script_path: Option<String>,
    pub timeout_seconds: Option<u64>,
    pub max_output: Option<u64>,
    pub save_output: Option<String>,
}

impl CommonArgs for SshK3sUninstallArgs {
    open spec fn host_name(&self) -> Seq<char> {
        self.host@
    }

    fn host(&self) -> (r: &str) {
        self.host.as_str()
    }
}

/// Handler marker for the `ssh_k3s_uninstall` tool.
pub struct K3sUninstallTool;

/// What the tool is for, in words for its clients.
pub const DESCRIPTION: &'static str = "Uninstall K3s from the node by running the \
    official uninstall script. \
    **DESTRUCTIVE and IRREVERSIBLE**: permanently removes the k3s binary, \
    systemd units, config files, data directories, and all cluster state \
    from the node. \
    Set `agent=true` to run `k3s-agent-uninstall.sh` (for agent nodes) \
    instead of `k3s-uninstall.sh` (for server nodes, the default). \
    Run `ssh_k3s_killall` first to stop all k3s processes before uninstalling.";

/// The JSON schema of the tool's arguments.
pub const SCHEMA: &'static str = r#"{
        "type": "object",
        "properties": {
            "host": {"type": "string", "description": "Host alias from config.yaml"},
            "agent": {"type": "boolean", "description": "Uninstall an agent node (runs k3s-agent-uninstall.sh). Default false = server node (k3s-uninstall.sh).", "default": false},
            "script_path": {"type": "string", "description": "Absolute path to the uninstall script. Overrides default. Must be k3s-uninstall.sh or k3s-agent-uninstall.sh."},
            "timeout_seconds": {"type": "integer", "description": "Timeout in seconds", "minimum": 1, "maximum": 3600},
            "max_output": {"type": "integer", "description": "Max output characters (0 = no limit)", "minimum": 0},
            "save_output": {"type": "string", "description": "Save full output to a file on the MCP server"}
        },
        "required": ["host"]
    }"#;

impl StandardTool for K3sUninstallTool {
    type Args = SshK3sUninstallArgs;

    type Check = NoCheck;

    const NAME: &'static str = "ssh_k3s_uninstall";

    const DESCRIPTION: &'static str = DESCRIPTION;

    const SCHEMA: &'static str = SCHEMA;

    const GROUP: &'static str = "k3s";

    const ANNOTATION: Annotation = Annotation::Destructive;

    const OUTPUT_KIND: OutputKind = OutputKind::RawText;

    open spec fn command(args: SshK3sUninstallArgs) -> Result<Seq<char>, Refusal> {
        command_unless(
            if_some(args.script_path, |p: Seq<char>| uninstaller_refusal(p)),
            script_command(args.script_path, default_uninstaller(args.agent)),
        )
    }

    fn build_command(
        args: &SshK3sUninstallArgs,
        _host_config: &HostConfig,
    ) -> (r: Result<String, BridgeError>) {
        K3sCommandBuilder::build_uninstall_command(args.agent, &args.script_path)
    }
}

/// Handler for the `ssh_k3s_uninstall` tool.
pub type SshK3sUninstallHandler = StandardToolHandler<K3sUninstallTool>;

/// What clients are told of the tool.
pub proof fn presents_itself()
    ensures
        <SshK3sUninstallHandler as ToolHandler>::TOOL_NAME@ == "ssh_k3s_uninstall"@,
        <SshK3sUninstallHandler as ToolHandler>::TOOL_DESCRIPTION@ == DESCRIPTION@,
        <SshK3sUninstallHandler as ToolHandler>::INPUT_SCHEMA@ == SCHEMA@,
        <SshK3sUninstallHandler as ToolHandler>::TOOL_GROUP@ == "k3s"@,
        <SshK3sUninstallHandler as ToolHandler>::EFFECT == Annotation::Destructive,
        <SshK3sUninstallHandler as ToolHandler>::KIND == OutputKind::RawText,
{
    handler_presents_its_tool::<K3sUninstallTool>();
}

} // verus!
