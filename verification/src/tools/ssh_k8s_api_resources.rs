//! K8s API Resources Tool Handler
//!
//! List supported API resource types via `kubectl api-resources`.
use crate::builders::kubernetes::{api_resources_command, KubernetesCommandBuilder};
use crate::builders::names::{context_refusal, validate_context};
use crate::config::HostConfig;
use crate::error::{if_some, BridgeError, Refusal};
use crate::shell::command_unless;
use crate::tool::{
    handler_presents_its_tool, Annotation, CommonArgs, NoCheck, OutputKind, StandardTool,
    StandardToolHandler, ToolHandler,
};
use vstd::prelude::*;

verus! {

/// Arguments for the `ssh_k8s_api_resources` tool.
#[derive(Debug)]
pub struct SshK8sApiResourcesArgs {
    pub host: String,
    pub namespaced: Option<bool>,
    pub api_group: Option<String>,
    pub verbs: Option<String>,
    pub output: Option<String>,
    pub context: Option<String>,
    pub kubectl_bin: Option<String>,
    pub timeout_seconds: Option<u64>,
    pub max_output: Option<u64>,
    pub save_output: Option<String>,
}

impl CommonArgs for SshK8sApiResourcesArgs {
    open spec fn host_name(&self) -> Seq<char> {
        self.host@
    }

    fn host(&self) -> (r: &str) {
        self.host.as_str()
    }
}

/// Handler marker for the `ssh_k8s_api_resources` tool.
pub struct K8sApiResourcesTool;

/// What the tool is for, in words for its clients.
pub const DESCRIPTION: &'static str =
    "List supported API resource types via `kubectl api-resources`. \
    Filter by `namespaced`, `api_group`, or `verbs` to narrow results. \
    Use `output=wide` for additional columns. \
    Use `context` for multi-cluster targeting.";

/// The JSON schema of the tool's arguments.
pub const SCHEMA: &'static str = r#"{
        "type": "object",
        "properties": {
            "host": {
                "type": "string",
                "description": "Host alias from config.yaml (use ssh_status to list available hosts)"
            },
            "namespaced": {
                "type": "boolean",
                "description": "Filter to only namespaced (true) or cluster-scoped (false) resources"
            },
            "api_group": {
                "type": "string",
                "description": "Filter by API group, e.g. 'apps', 'batch', 'networking.k8s.io'"
            },
            "verbs": {
                "type": "string",
                "description": "Filter by supported verbs, e.g. 'get,list,watch'"
            },
            "output": {
                "type": "string",
                "description": "Output format: 'wide' for additional columns, 'name' for resource names only"
            },
            "context": {
                "type": "string",
                "description": "kubectl context for multi-cluster targeting (e.g. 'east', 'prod-us-east-1')"
            },
            "kubectl_bin": {
                "type": "string",
                "description": "Custom kubectl binary path (default: auto-detect kubectl, k3s kubectl, microk8s kubectl)"
            },
            "timeout_seconds": {
                "type": "integer",
                "description": "Optional timeout in seconds (default: from config)",
                "minimum": 1,
                "maximum": 3600
            },
            "max_output": {
                "type": "integer",
                "description": "Max output characters (default: from server config, typically 20000, 0 = no limit). Truncated output includes an output_id for retrieval via ssh_output_fetch.",
                "minimum": 0
            },
            "save_output": {
                "type": "string",
                "description": "Save full output to a local file (on MCP server). The client can then read this file directly with its Read tool."
            }
        },
        "required": ["host"]
    }"#;

impl StandardTool for K8sApiResourcesTool {
    type Args = SshK8sApiResourcesArgs;

    type Check = NoCheck;

    const NAME: &'static str = "ssh_k8s_api_resources";

    const DESCRIPTION: &'static str = DESCRIPTION;

    const SCHEMA: &'static str = SCHEMA;

    const GROUP: &'static str = "kubernetes";

    const ANNOTATION: Annotation = Annotation::ReadOnly;

    const OUTPUT_KIND: OutputKind = OutputKind::RawText;

    open spec fn command(args: SshK8sApiResourcesArgs) -> Result<Seq<char>, Refusal> {
        command_unless(
            if_some(args.context, |c: Seq<char>| context_refusal(c)),
            api_resources_command(
                args.kubectl_bin,
                args.namespaced,
                args.api_group,
                args.verbs,
                args.output,
                args.context,
            ),
        )
    }

    fn build_command(
        args: &SshK8sApiResourcesArgs,
        _host_config: &HostConfig,
    ) -> (r: Result<String, BridgeError>) {
        if let Some(c) = &args.context {
            validate_context(c.as_str())?;
        }
        Ok(
            KubernetesCommandBuilder::build_api_resources_command(
                &args.kubectl_bin,
                args.namespaced,
                &args.api_group,
                &args.verbs,
                &args.output,
                &args.context,
            ),
        )
    }
}

/// Handler for the `ssh_k8s_api_resources` tool.
pub type SshK8sApiResourcesHandler = StandardToolHandler<K8sApiResourcesTool>;

/// What clients are told of the tool.
pub proof fn presents_itself()
    ensures
        <SshK8sApiResourcesHandler as ToolHandler>::TOOL_NAME@ == "ssh_k8s_api_resources"@,
        <SshK8sApiResourcesHandler as ToolHandler>::TOOL_DESCRIPTION@ == DESCRIPTION@,
        <SshK8sApiResourcesHandler as ToolHandler>::INPUT_SCHEMA@ == SCHEMA@,
        <SshK8sApiResourcesHandler as ToolHandler>::TOOL_GROUP@ == "kubernetes"@,
        <SshK8sApiResourcesHandler as ToolHandler>::EFFECT == Annotation::ReadOnly,
        <SshK8sApiResourcesHandler as ToolHandler>::KIND == OutputKind::RawText,
{
    handler_presents_its_tool::<K8sApiResourcesTool>();
}

} // verus!
