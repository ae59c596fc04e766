//! K8s Auth Reconcile Tool Handler
//!
//! Reconcile cluster RBAC objects from a manifest via `kubectl auth reconcile`.
//! Idempotent — repeated calls converge the cluster to the declared state.
use crate::builders::kubernetes::{auth_reconcile_command, KubernetesCommandBuilder};
use crate::builders::names::{context_refusal, validate_context};
use crate::config::HostConfig;
use crate::error::{if_some, BridgeError, Refusal};
use crate::shell::command_unless;
use crate::tool::{
    handler_presents_its_tool, Annotation, CommonArgs, NoCheck, OutputKind, StandardTool,
    StandardToolHandler, ToolHandler,
};
use vstd::prelude::*;

verus! {

/// Arguments for the `ssh_k8s_auth_reconcile` tool.
#[derive(Debug)]
pub struct SshK8sAuthReconcileArgs {
    pub host: String,
    pub manifest: String,
    pub dry_run: bool,
    pub remove_extra_permissions: bool,
    pub remove_extra_subjects: bool,
    pub context: Option<String>,
    pub kubectl_bin: Option<String>,
    pub timeout_seconds: Option<u64>,
    pub max_output: Option<u64>,
    pub save_output: Option<String>,
}

impl CommonArgs for SshK8sAuthReconcileArgs {
    open spec fn host_name(&self) -> Seq<char> {
        self.host@
    }

    fn host(&self) -> (r: &str) {
        self.host.as_str()
    }
}

/// Handler marker for the `ssh_k8s_auth_reconcile` tool.
pub struct K8sAuthReconcileTool;

/// What the tool is for, in words for its clients.
pub const DESCRIPTION: &'static str = "Reconcile Kubernetes RBAC objects from a manifest via \
    `kubectl auth reconcile -f`. Unlike `kubectl apply`, this command merges rules — \
    existing permissions not mentioned in the manifest are preserved unless \
    `remove_extra_permissions=true` or `remove_extra_subjects=true`. \
    Idempotent — running it twice converges to the same state. \
    `manifest` may be a file path (starting with `/`, `./`, or `~`) \
    or inline YAML/JSON content.";

/// The JSON schema of the tool's arguments.
pub const SCHEMA: &'static str = r#"{
        "type": "object",
        "properties": {
            "host": {
                "type": "string",
                "description": "Host alias from config.yaml"
            },
            "manifest": {
                "type": "string",
                "description": "File path (starting with '/', './', or '~') or inline YAML/JSON content for the RBAC manifest"
            },
            "dry_run": {
                "type": "boolean",
                "description": "Preview changes without applying (--dry-run=client)",
                "default": false
            },
            "remove_extra_permissions": {
                "type": "boolean",
                "description": "Remove permissions from roles not present in the manifest (--remove-extra-permissions)",
                "default": false
            },
            "remove_extra_subjects": {
                "type": "boolean",
                "description": "Remove subjects from bindings not present in the manifest (--remove-extra-subjects)",
                "default": false
            },
            "context": {
                "type": "string",
                "description": "kubectl context for multi-cluster targeting"
            },
            "kubectl_bin": {
                "type": "string",
                "description": "Custom kubectl binary path"
            },
            "timeout_seconds": {
                "type": "integer",
                "description": "Optional timeout in seconds",
                "minimum": 1,
                "maximum": 3600
            },
            "max_output": {
                "type": "integer",
                "description": "Max output characters",
                "minimum": 0
            },
            "save_output": {
                "type": "string",
                "description": "Save full output to a local file"
            }
        },
        "required": ["host", "manifest"]
    }"#;

impl StandardTool for K8sAuthReconcileTool {
    type Args = SshK8sAuthReconcileArgs;

    type Check = NoCheck;

    const NAME: &'static str = "ssh_k8s_auth_reconcile";

    const DESCRIPTION: &'static str = DESCRIPTION;

    const SCHEMA: &'static str = SCHEMA;

    const GROUP: &'static str = "kubernetes";

    const ANNOTATION: Annotation = Annotation::MutatingIdempotent;

    const OUTPUT_KIND: OutputKind = OutputKind::RawText;

    open spec fn command(args: SshK8sAuthReconcileArgs) -> Result<Seq<char>, Refusal> {
        command_unless(
            if_some(args.context, |c: Seq<char>| context_refusal(c)),
            auth_reconcile_command(
                args.kubectl_bin,
                args.manifest@,
                args.dry_run,
                args.remove_extra_permissions,
                args.remove_extra_subjects,
                args.context,
            ),
        )
    }

    fn build_command(
        args: &SshK8sAuthReconcileArgs,
        _host_config: &HostConfig,
    ) -> (r: Result<String, BridgeError>) {
        if let Some(c) = &args.context {
            validate_context(c.as_str())?;
        }
        Ok(
            KubernetesCommandBuilder::build_auth_reconcile_command(
                &args.kubectl_bin,
                args.manifest.as_str(),
                args.dry_run,
                args.remove_extra_permissions,
                args.remove_extra_subjects,
                &args.context,
            ),
        )
    }
}

/// Handler for the `ssh_k8s_auth_reconcile` tool.
pub type SshK8sAuthReconcileHandler = StandardToolHandler<K8sAuthReconcileTool>;

/// What clients are told of the tool.
pub proof fn presents_itself()
    ensures
        <SshK8sAuthReconcileHandler as ToolHandler>::TOOL_NAME@ == "ssh_k8s_auth_reconcile"@,
        <SshK8sAuthReconcileHandler as ToolHandler>::TOOL_DESCRIPTION@ == DESCRIPTION@,
        <SshK8sAuthReconcileHandler as ToolHandler>::INPUT_SCHEMA@ == SCHEMA@,
        <SshK8sAuthReconcileHandler as ToolHandler>::TOOL_GROUP@ == "kubernetes"@,
        <SshK8sAuthReconcileHandler as ToolHandler>::EFFECT == Annotation::MutatingIdempotent,
        <SshK8sAuthReconcileHandler as ToolHandler>::KIND == OutputKind::RawText,
{
    handler_presents_its_tool::<K8sAuthReconcileTool>();
}

} // verus!
