//! K8s Auth Can-I Tool Handler
//!
//! RBAC preflight — check whether an identity can perform a verb on a resource
//! via `kubectl auth can-i`.
use crate::builders::kubernetes::{auth_can_i_command, KubernetesCommandBuilder};
use crate::builders::names::{context_refusal, namespace_refusal, validate_context};
use crate::config::HostConfig;
use crate::error::{first_of, if_some, BridgeError, Refusal};
use crate::shell::command_unless;
use crate::tool::{
    handler_presents_its_tool, Annotation, CommonArgs, NoCheck, OutputKind, StandardTool,
    StandardToolHandler, ToolHandler,
};
use vstd::prelude::*;

verus! {

/// Arguments for the `ssh_k8s_auth_can_i` tool.
#[derive(Debug)]
pub struct SshK8sAuthCanIArgs {
    pub host: String,
    pub verb: String,
    pub resource: String,
    pub namespace: Option<String>,
    pub as_user: Option<String>,
    pub context: Option<String>,
    pub kubectl_bin: Option<String>,
    pub timeout_seconds: Option<u64>,
    pub max_output: Option<u64>,
    pub save_output: Option<String>,
}

impl CommonArgs for SshK8sAuthCanIArgs {
    open spec fn host_name(&self) -> Seq<char> {
        self.host@
    }

    fn host(&self) -> (r: &str) {
        self.host.as_str()
    }
}

/// Handler marker for the `ssh_k8s_auth_can_i` tool.
pub struct K8sAuthCanITool;

/// What the tool is for, in words for its clients.
pub const DESCRIPTION: &'static str = "RBAC preflight — check whether the current (or \
    impersonated via `as_user`) identity can perform `<verb>` on `<resource>` via \
    `kubectl auth can-i`. Read-only; run before a mutating change to fail fast on \
    permissions. Use `context` for multi-cluster targeting.";

/// The JSON schema of the tool's arguments.
pub const SCHEMA: &'static str = r#"{
        "type": "object",
        "properties": {
            "host": {
                "type": "string",
                "description": "Host alias from config.yaml (use ssh_status to list available hosts)"
            },
            "verb": {
                "type": "string",
                "description": "The action to check, e.g. 'create', 'delete', 'get', 'list', 'update', 'patch', 'watch'"
            },
            "resource": {
                "type": "string",
                "description": "The resource type to check, e.g. 'deployments', 'pods', 'services', 'secrets'"
            },
            "namespace": {
                "type": "string",
                "description": "Kubernetes namespace to scope the check (omit for cluster-scoped resources)"
            },
            "as_user": {
                "type": "string",
                "description": "Impersonate a user or service account (maps to kubectl --as), e.g. 'system:serviceaccount:ci:deployer'"
            },
            "context": {
                "type": "string",
                "description": "kubectl context for multi-cluster targeting (e.g. 'east', 'prod-us-east-1')"
            },
            "kubectl_bin": {
                "type": "string",
                "description": "Custom kubectl binary path (default: auto-detect kubectl, k3s kubectl, microk8s kubectl)"
            },
            "timeout_seconds": {
                "type": "integer",
                "description": "Optional timeout in seconds (default: from config)",
                "minimum": 1,
                "maximum": 3600
            },
            "max_output": {
                "type": "integer",
                "description": "Max output characters (default: from server config, typically 20000, 0 = no limit). Truncated output includes an output_id for retrieval via ssh_output_fetch.",
                "minimum": 0
            },
            "save_output": {
                "type": "string",
                "description": "Save full output to a local file (on MCP server). The client can then read this file directly with its Read tool."
            }
        },
        "required": ["host", "verb", "resource"]
    }"#;

impl StandardTool for K8sAuthCanITool {
    type Args = SshK8sAuthCanIArgs;

    type Check = NoCheck;

    const NAME: &'static str = "ssh_k8s_auth_can_i";

    const DESCRIPTION: &'static str = DESCRIPTION;

    const SCHEMA: &'static str = SCHEMA;

    const GROUP: &'static str = "kubernetes";

    const ANNOTATION: Annotation = Annotation::ReadOnly;

    const OUTPUT_KIND: OutputKind = OutputKind::RawText;

    open spec fn command(args: SshK8sAuthCanIArgs) -> Result<Seq<char>, Refusal> {
        command_unless(
            first_of(
                if_some(args.namespace, |ns: Seq<char>| namespace_refusal(ns)),
                if_some(args.context, |c: Seq<char>| context_refusal(c)),
            ),
            auth_can_i_command(
                args.kubectl_bin,
                args.verb@,
                args.resource@,
                args.namespace,
                args.as_user,
                args.context,
            ),
        )
    }

    fn build_command(
        args: &SshK8sAuthCanIArgs,
        _host_config: &HostConfig,
    ) -> (r: Result<String, BridgeError>) {
        if let Some(ns) = &args.namespace {
            KubernetesCommandBuilder::validate_namespace(ns.as_str())?;
        }
        if let Some(c) = &args.context {
            validate_context(c.as_str())?;
        }
        Ok(
            KubernetesCommandBuilder::build_auth_can_i_command(
                &args.kubectl_bin,
                args.verb.as_str(),
                args.resource.as_str(),
                &args.namespace,
                &args.as_user,
                &args.context,
            ),
        )
    }
}

/// Handler for the `ssh_k8s_auth_can_i` tool.
pub type SshK8sAuthCanIHandler = StandardToolHandler<K8sAuthCanITool>;

/// What clients are told of the tool.
pub proof fn presents_itself()
    ensures
        <SshK8sAuthCanIHandler as ToolHandler>::TOOL_NAME@ == "ssh_k8s_auth_can_i"@,
        <SshK8sAuthCanIHandler as ToolHandler>::TOOL_DESCRIPTION@ == DESCRIPTION@,
        <SshK8sAuthCanIHandler as ToolHandler>::INPUT_SCHEMA@ == SCHEMA@,
        <SshK8sAuthCanIHandler as ToolHandler>::TOOL_GROUP@ == "kubernetes"@,
        <SshK8sAuthCanIHandler as ToolHandler>::EFFECT == Annotation::ReadOnly,
        <SshK8sAuthCanIHandler as ToolHandler>::KIND == OutputKind::RawText,
{
    handler_presents_its_tool::<K8sAuthCanITool>();
}

} // verus!
