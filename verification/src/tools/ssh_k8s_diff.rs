//! K8s Diff Tool Handler
//!
//! Previews changes a manifest would make (kubectl diff) via SSH.
use crate::builders::kubernetes::{diff_command, KubernetesCommandBuilder};
use crate::builders::names::namespace_refusal;
use crate::config::HostConfig;
use crate::error::{if_some, BridgeError, Refusal};
use crate::shell::command_unless;
use crate::tool::{
    handler_presents_its_tool, Annotation, CommonArgs, NoCheck, OutputKind, StandardTool,
    StandardToolHandler, ToolHandler,
};
use vstd::prelude::*;

verus! {

/// Arguments for the `ssh_k8s_diff` tool.
#[derive(Debug)]
pub struct SshK8sDiffArgs {
    pub host: String,
    pub manifest: String,
    pub namespace: Option<String>,
    pub kubectl_bin: Option<String>,
    pub timeout_seconds: Option<u64>,
    pub max_output: Option<u64>,
    pub save_output: Option<String>,
}

impl CommonArgs for SshK8sDiffArgs {
    open spec fn host_name(&self) -> Seq<char> {
        self.host@
    }

    fn host(&self) -> (r: &str) {
        self.host.as_str()
    }
}

/// Handler marker for the `ssh_k8s_diff` tool.
pub struct K8sDiffTool;

/// What the tool is for, in words for its clients.
pub const DESCRIPTION: &'static str =
    "Preview the changes a manifest would make against the live cluster (kubectl diff -f). \
    manifest is a remote file path (starts with /, ./, ~) or inline YAML. \
    Read-only — use before ssh_k8s_apply.";

/// The JSON schema of the tool's arguments.
pub const SCHEMA: &'static str = r#"{
        "type": "object",
        "properties": {
            "host": {
                "type": "string",
                "description": "Host alias from config.yaml (use ssh_status to list available hosts)"
            },
            "manifest": {
                "type": "string",
                "description": "Path to manifest file on the remote host (must start with '/', './', or '~') or raw inline YAML content. Strings that start with any of those prefixes are treated as file paths; everything else is piped as inline YAML."
            },
            "namespace": {
                "type": "string",
                "description": "Kubernetes namespace"
            },
            "kubectl_bin": {
                "type": "string",
                "description": "Custom kubectl binary path (default: auto-detect kubectl, k3s kubectl, microk8s kubectl)"
            },
            "timeout_seconds": {
                "type": "integer",
                "description": "Optional timeout in seconds (default: from config)",
                "minimum": 1,
                "maximum": 3600
            },
            "max_output": {
                "type": "integer",
                "description": "Max output characters (default: from server config, typically 20000, 0 = no limit). Truncated output includes an output_id for retrieval via ssh_output_fetch.",
                "minimum": 0
            },
            "save_output": {
                "type": "string",
                "description": "Save full output to a local file (on MCP server). The client can then read this file directly with its Read tool."
            }
        },
        "required": ["host", "manifest"]
    }"#;

impl StandardTool for K8sDiffTool {
    type Args = SshK8sDiffArgs;

    type Check = NoCheck;

    const NAME: &'static str = "ssh_k8s_diff";

    const DESCRIPTION: &'static str = DESCRIPTION;

    const SCHEMA: &'static str = SCHEMA;

    const GROUP: &'static str = "kubernetes";

    const ANNOTATION: Annotation = Annotation::ReadOnly;

    const OUTPUT_KIND: OutputKind = OutputKind::RawText;

    open spec fn command(args: SshK8sDiffArgs) -> Result<Seq<char>, Refusal> {
        command_unless(
            if_some(args.namespace, |ns: Seq<char>| namespace_refusal(ns)),
            diff_command(args.kubectl_bin, args.manifest@, args.namespace),
        )
    }

    fn build_command(
        args: &SshK8sDiffArgs,
        _host_config: &HostConfig,
    ) -> (r: Result<String, BridgeError>) {
        if let Some(ns) = &args.namespace {
            KubernetesCommandBuilder::validate_namespace(ns.as_str())?;
        }
        Ok(
            KubernetesCommandBuilder::build_diff_command(
                &args.kubectl_bin,
                args.manifest.as_str(),
                &args.namespace,
            ),
        )
    }
}

/// Handler for the `ssh_k8s_diff` tool.
pub type SshK8sDiffHandler = StandardToolHandler<K8sDiffTool>;

/// What clients are told of the tool.
pub proof fn presents_itself()
    ensures
        <SshK8sDiffHandler as ToolHandler>::TOOL_NAME@ == "ssh_k8s_diff"@,
        <SshK8sDiffHandler as ToolHandler>::TOOL_DESCRIPTION@ == DESCRIPTION@,
        <SshK8sDiffHandler as ToolHandler>::INPUT_SCHEMA@ == SCHEMA@,
        <SshK8sDiffHandler as ToolHandler>::TOOL_GROUP@ == "kubernetes"@,
        <SshK8sDiffHandler as ToolHandler>::EFFECT == Annotation::ReadOnly,
        <SshK8sDiffHandler as ToolHandler>::KIND == OutputKind::RawText,
{
    handler_presents_its_tool::<K8sDiffTool>();
}

} // verus!
