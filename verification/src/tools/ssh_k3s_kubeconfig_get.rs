//! `ssh_k3s_kubeconfig_get` Tool Handler — retrieve the k3s kubeconfig file.
use crate::builders::k3s::{
    kubeconfig_command, path_refusal, server_ip_refusal, validate_path, validate_server_ip,
    K3sCommandBuilder,
};
use crate::config::HostConfig;
use crate::error::{first_of, if_some, BridgeError, Refusal};
use crate::shell::command_unless;
use crate::tool::{
    handler_presents_its_tool, Annotation, CommonArgs, NoCheck, OutputKind, StandardTool,
    StandardToolHandler, ToolHandler,
};
use vstd::prelude::*;

verus! {

/// Arguments for the `ssh_k3s_kubeconfig_get` tool.
#[derive(Debug)]
pub struct SshK3sKubeconfigGetArgs {
    pub host: String,
    pub path: Option<String>,
    pub server_ip: Option<String>,
    pub timeout_seconds: Option<u64>,
    pub max_output: Option<u64>,
    pub save_output: Option<String>,
}

impl CommonArgs for SshK3sKubeconfigGetArgs {
    open spec fn host_name(&self) -> Seq<char> {
        self.host@
    }

    fn host(&self) -> (r: &str) {
        self.host.as_str()
    }
}

/// Handler marker for `ssh_k3s_kubeconfig_get`.
pub struct SshK3sKubeconfigGetTool;

/// What the tool is for, in words for its clients.
pub const DESCRIPTION: &'static str =
    "Retrieve the k3s kubeconfig file (`/etc/rancher/k3s/k3s.yaml`). \
    Optionally rewrite the server address with `server_ip` so the file \
    is usable from outside the node (replaces 127.0.0.1 and 0.0.0.0). \
    Use `save_output` to write it directly to the MCP server.";

/// The JSON schema of the tool's arguments.
pub const SCHEMA: &'static str = r#"{
        "type": "object",
        "properties": {
            "host": {"type": "string", "description": "Host alias from config.yaml (use ssh_status to list hosts)"},
            "path": {"type": "string", "description": "Absolute path to the kubeconfig file (default: /etc/rancher/k3s/k3s.yaml)."},
            "server_ip": {"type": "string", "description": "Replace the server address (127.0.0.1/0.0.0.0) with this IP or hostname. Charset: [A-Za-z0-9.-] only."},
            "timeout_seconds": {"type": "integer", "description": "Optional timeout in seconds (default: from config).", "minimum": 1, "maximum": 3600},
            "max_output": {"type": "integer", "description": "Max output characters (0 = no limit).", "minimum": 0},
            "save_output": {"type": "string", "description": "Save full output to a local file on the MCP server."}
        },
        "required": ["host"]
    }"#;

impl StandardTool for SshK3sKubeconfigGetTool {
    type Args = SshK3sKubeconfigGetArgs;

    type Check = NoCheck;

    const NAME: &'static str = "ssh_k3s_kubeconfig_get";

    const DESCRIPTION: &'static str = DESCRIPTION;

    const SCHEMA: &'static str = SCHEMA;

    const GROUP: &'static str = "k3s";

    const ANNOTATION: Annotation = Annotation::ReadOnly;

    const OUTPUT_KIND: OutputKind = OutputKind::RawText;

    open spec fn command(args: SshK3sKubeconfigGetArgs) -> Result<Seq<char>, Refusal> {
        command_unless(
            first_of(
                if_some(args.path, |p: Seq<char>| path_refusal(p)),
                if_some(args.server_ip, |ip: Seq<char>| server_ip_refusal(ip)),
            ),
            kubeconfig_command(args.path, args.server_ip),
        )
    }

    fn build_command(
        args: &SshK3sKubeconfigGetArgs,
        _host_config: &HostConfig,
    ) -> (r: Result<String, BridgeError>) {
        if let Some(p) = &args.path {
            validate_path(p.as_str())?;
        }
        if let Some(ip) = &args.server_ip {
            validate_server_ip(ip.as_str())?;
        }
        Ok(K3sCommandBuilder::build_kubeconfig_get_command(&args.path, &args.server_ip))
    }
}

/// Handler for `ssh_k3s_kubeconfig_get`.
pub type SshK3sKubeconfigGetHandler = StandardToolHandler<SshK3sKubeconfigGetTool>;

/// What clients are told of the tool.
pub proof fn presents_itself()
    ensures
        <SshK3sKubeconfigGetHandler as ToolHandler>::TOOL_NAME@ == "ssh_k3s_kubeconfig_get"@,
        <SshK3sKubeconfigGetHandler as ToolHandler>::TOOL_DESCRIPTION@ == DESCRIPTION@,
        <SshK3sKubeconfigGetHandler as ToolHandler>::INPUT_SCHEMA@ == SCHEMA@,
        <SshK3sKubeconfigGetHandler as ToolHandler>::TOOL_GROUP@ == "k3s"@,
        <SshK3sKubeconfigGetHandler as ToolHandler>::EFFECT == Annotation::ReadOnly,
        <SshK3sKubeconfigGetHandler as ToolHandler>::KIND == OutputKind::RawText,
{
    handler_presents_its_tool::<SshK3sKubeconfigGetTool>();
}

} // verus!
