//! K8s Auth Whoami Tool Handler
//!
//! Returns the current identity (user, groups, extra) as seen by the API server
//! via `kubectl auth whoami`. Read-only; useful for diagnosing which identity
//! a kubeconfig or service account token is presenting.
use crate::builders::kubernetes::{auth_whoami_command, KubernetesCommandBuilder};
use crate::builders::names::{context_refusal, validate_context};
use crate::config::HostConfig;
use crate::error::{if_some, BridgeError, Refusal};
use crate::shell::command_unless;
use crate::tool::{
    handler_presents_its_tool, Annotation, CommonArgs, NoCheck, OutputKind, StandardTool,
    StandardToolHandler, ToolHandler,
};
use vstd::prelude::*;

verus! {

/// Arguments for the `ssh_k8s_auth_whoami` tool.
#[derive(Debug)]
pub struct SshK8sAuthWhoamiArgs {
    pub host: String,
    pub output: Option<String>,
    pub context: Option<String>,
    pub kubectl_bin: Option<String>,
    pub timeout_seconds: Option<u64>,
    pub max_output: Option<u64>,
    pub save_output: Option<String>,
}

impl CommonArgs for SshK8sAuthWhoamiArgs {
    open spec fn host_name(&self) -> Seq<char> {
        self.host@
    }

    fn host(&self) -> (r: &str) {
        self.host.as_str()
    }
}

/// Handler marker for the `ssh_k8s_auth_whoami` tool.
pub struct K8sAuthWhoamiTool;

/// What the tool is for, in words for its clients.
pub const DESCRIPTION: &'static str = "Return the current identity (username, groups, extra \
    attributes) as seen by the Kubernetes API server via `kubectl auth whoami`. \
    Read-only; useful for diagnosing which identity a kubeconfig or service account \
    token is presenting. Use `context` for multi-cluster targeting. \
    Requires Kubernetes ≥ 1.28 (SelfSubjectReview GA).";

/// The JSON schema of the tool's arguments.
pub const SCHEMA: &'static str = r#"{
        "type": "object",
        "properties": {
            "host": {
                "type": "string",
                "description": "Host alias from config.yaml (use ssh_status to list available hosts)"
            },
            "output": {
                "type": "string",
                "description": "Output format: 'yaml' (default) or 'json'",
                "enum": ["yaml", "json"]
            },
            "context": {
                "type": "string",
                "description": "kubectl context for multi-cluster targeting (e.g. 'east', 'prod-us-east-1')"
            },
            "kubectl_bin": {
                "type": "string",
                "description": "Custom kubectl binary path (default: auto-detect kubectl, k3s kubectl, microk8s kubectl)"
            },
            "timeout_seconds": {
                "type": "integer",
                "description": "Optional timeout in seconds (default: from config)",
                "minimum": 1,
                "maximum": 3600
            },
            "max_output": {
                "type": "integer",
                "description": "Max output characters (default: from server config, typically 20000, 0 = no limit). Truncated output includes an output_id for retrieval via ssh_output_fetch.",
                "minimum": 0
            },
            "save_output": {
                "type": "string",
                "description": "Save full output to a local file (on MCP server). The client can then read this file directly with its Read tool."
            }
        },
        "required": ["host"]
    }"#;

impl StandardTool for K8sAuthWhoamiTool {
    type Args = SshK8sAuthWhoamiArgs;

    type Check = NoCheck;

    const NAME: &'static str = "ssh_k8s_auth_whoami";

    const DESCRIPTION: &'static str = DESCRIPTION;

    const SCHEMA: &'static str = SCHEMA;

    const GROUP: &'static str = "kubernetes";

    const ANNOTATION: Annotation = Annotation::ReadOnly;

    const OUTPUT_KIND: OutputKind = OutputKind::RawText;

    open spec fn command(args: SshK8sAuthWhoamiArgs) -> Result<Seq<char>, Refusal> {
        command_unless(
            if_some(args.context, |c: Seq<char>| context_refusal(c)),
            auth_whoami_command(args.kubectl_bin, args.output, args.context),
        )
    }

    fn build_command(
        args: &SshK8sAuthWhoamiArgs,
        _host_config: &HostConfig,
    ) -> (r: Result<String, BridgeError>) {
        if let Some(c) = &args.context {
            validate_context(c.as_str())?;
        }
        Ok(
            KubernetesCommandBuilder::build_auth_whoami_command(
                &args.kubectl_bin,
                &args.output,
                &args.context,
            ),
        )
    }
}

/// Handler for the `ssh_k8s_auth_whoami` tool.
pub type SshK8sAuthWhoamiHandler = StandardToolHandler<K8sAuthWhoamiTool>;

/// What clients are told of the tool.
pub proof fn presents_itself()
    ensures
        <SshK8sAuthWhoamiHandler as ToolHandler>::TOOL_NAME@ == "ssh_k8s_auth_whoami"@,
        <SshK8sAuthWhoamiHandler as ToolHandler>::TOOL_DESCRIPTION@ == DESCRIPTION@,
        <SshK8sAuthWhoamiHandler as ToolHandler>::INPUT_SCHEMA@ == SCHEMA@,
        <SshK8sAuthWhoamiHandler as ToolHandler>::TOOL_GROUP@ == "kubernetes"@,
        <SshK8sAuthWhoamiHandler as ToolHandler>::EFFECT == Annotation::ReadOnly,
        <SshK8sAuthWhoamiHandler as ToolHandler>::KIND == OutputKind::RawText,
{
    handler_presents_its_tool::<K8sAuthWhoamiTool>();
}

} // verus!
