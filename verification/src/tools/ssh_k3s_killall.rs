//! K3s killall — kills all k3s processes, containers, and network namespaces.
//! DESTRUCTIVE: stops ALL k3s-related processes on the node immediately.
use crate::builders::k3s::{
    script_command, script_path_refusal, validate_script_path, K3sCommandBuilder, KILLALL_SCRIPT,
};
use crate::config::HostConfig;
use crate::error::{complaint, denied, first_of, if_some, unless, BridgeError, Refusal};
use crate::shell::command_unless;
use crate::text::{base_name, file_name, same_text};
use crate::tool::{
    handler_presents_its_tool, Annotation, CommonArgs, NoCheck, OutputKind, StandardTool,
    StandardToolHandler, ToolHandler,
};
use vstd::prelude::*;

verus! {

/// Arguments for the `ssh_k3s_killall` tool.
#[derive(Debug)]
pub struct SshK3sKillallArgs {
    pub host: String,
    pub script_path: Option<String>,
    pub timeout_seconds: Option<u64>,
    pub max_output: Option<u64>,
    pub save_output: Option<String>,
}

impl CommonArgs for SshK3sKillallArgs {
    open spec fn host_name(&self) -> Seq<char> {
        self.host@
    }

    fn host(&self) -> (r: &str) {
        self.host.as_str()
    }
}

/// Why a script is not taken for the killall script, if it is not: the path has to be in order,
/// and the file has to go by the script's name.
pub open spec fn killall_refusal(path: Seq<char>) -> Option<Refusal> {
    first_of(
        script_path_refusal(path),
        unless(
            base_name(path) == "k3s-killall.sh"@,
            complaint("script basename must be 'k3s-killall.sh', got ", base_name(path), ""),
        ),
    )
}

/// Handler marker for the `ssh_k3s_killall` tool.
pub struct K3sKillallTool;

/// What the tool is for, in words for its clients.
pub const DESCRIPTION: &'static str = "Run the k3s killall script \
    (`/usr/local/bin/k3s-killall.sh` by default). \
    **DESTRUCTIVE**: kills ALL k3s processes, containers, and cleans up \
    network namespaces and interfaces on the node immediately. \
    This is a hard stop — unlike `ssh_service_stop`, it also forcibly \
    removes containerd-shims and CNI state. Use before uninstalling k3s \
    or for emergency node recovery. \
    If `script_path` is specified it must be an absolute path to `k3s-killall.sh`.";

/// The JSON schema of the tool's arguments.
pub const SCHEMA: &'static str = r#"{
        "type": "object",
        "properties": {
            "host": {"type": "string", "description": "Host alias from config.yaml"},
            "script_path": {"type": "string", "description": "Absolute path to k3s-killall.sh (default: /usr/local/bin/k3s-killall.sh). Must be an absolute path and basename must be k3s-killall.sh."},
            "timeout_seconds": {"type": "integer", "description": "Timeout in seconds", "minimum": 1, "maximum": 3600},
            "max_output": {"type": "integer", "description": "Max output characters (0 = no limit)", "minimum": 0},
            "save_output": {"type": "string", "description": "Save full output to a file on the MCP server"}
        },
        "required": ["host"]
    }"#;

impl StandardTool for K3sKillallTool {
    type Args = SshK3sKillallArgs;

    type Check = NoCheck;

    const NAME: &'static str = "ssh_k3s_killall";

    const DESCRIPTION: &'static str = DESCRIPTION;

    const SCHEMA: &'static str = SCHEMA;

    const GROUP: &'static str = "k3s";

    const ANNOTATION: Annotation = Annotation::Destructive;

    const OUTPUT_KIND: OutputKind = OutputKind::RawText;

    open spec fn command(args: SshK3sKillallArgs) -> Result<Seq<char>, Refusal> {
        command_unless(
            if_some(args.script_path, |p: Seq<char>| killall_refusal(p)),
            script_command(args.script_path, KILLALL_SCRIPT),
        )
    }

    fn build_command(
        args: &SshK3sKillallArgs,
        _host_config: &HostConfig,
    ) -> (r: Result<String, BridgeError>) {
        if let Some(p) = &args.script_path {
            validate_script_path(p.as_str())?;
            let name: &str = file_name(p.as_str());
            if !same_text(name, "k3s-killall.sh") {
                return Err(denied("script basename must be 'k3s-killall.sh', got ", name, ""));
            }
        }
        Ok(K3sCommandBuilder::build_killall_command(&args.script_path))
    }
}

/// Handler for the `ssh_k3s_killall` tool.
pub type SshK3sKillallHandler = StandardToolHandler<K3sKillallTool>;

/// What clients are told of the tool.
pub proof fn presents_itself()
    ensures
        <SshK3sKillallHandler as ToolHandler>::TOOL_NAME@ == "ssh_k3s_killall"@,
        <SshK3sKillallHandler as ToolHandler>::TOOL_DESCRIPTION@ == DESCRIPTION@,
        <SshK3sKillallHandler as ToolHandler>::INPUT_SCHEMA@ == SCHEMA@,
        <SshK3sKillallHandler as ToolHandler>::TOOL_GROUP@ == "k3s"@,
        <SshK3sKillallHandler as ToolHandler>::EFFECT == Annotation::Destructive,
        <SshK3sKillallHandler as ToolHandler>::KIND == OutputKind::RawText,
{
    handler_presents_its_tool::<K3sKillallTool>();
}

} // verus!
