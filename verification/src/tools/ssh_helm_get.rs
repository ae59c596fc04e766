//! Helm Get Tool Handler
//!
//! Inspects a deployed Helm release's values/manifest/hooks/notes via SSH.
use crate::builders::helm::{get_command, HelmCommandBuilder};
use crate::builders::kubernetes::KubernetesCommandBuilder;
use crate::builders::names::{helm_get_refusal, namespace_refusal};
use crate::config::HostConfig;
use crate::error::{first_of, if_some, BridgeError, Refusal};
use crate::shell::command_unless;
use crate::tool::{
    handler_presents_its_tool, Annotation, CommonArgs, NoCheck, OutputKind, StandardTool,
    StandardToolHandler, ToolHandler,
};
use vstd::prelude::*;

verus! {

/// Arguments for the `ssh_helm_get` tool.
#[derive(Debug)]
pub struct SshHelmGetArgs {
    pub host: String,
    pub subcommand: String,
    pub release: String,
    pub namespace: Option<String>,
    pub revision: Option<u64>,
    pub output: Option<String>,
    pub helm_bin: Option<String>,
    pub kubeconfig: Option<String>,
    pub timeout_seconds: Option<u64>,
    pub max_output: Option<u64>,
    pub save_output: Option<String>,
}

impl CommonArgs for SshHelmGetArgs {
    open spec fn host_name(&self) -> Seq<char> {
        self.host@
    }

    fn host(&self) -> (r: &str) {
        self.host.as_str()
    }
}

/// Handler marker for the `ssh_helm_get` tool.
pub struct HelmGetTool;

/// What the tool is for, in words for its clients.
pub const DESCRIPTION: &'static str =
    "Inspect a deployed Helm release. subcommand: all | values | manifest | hooks | notes. \
    Use revision to inspect a prior release version. Read-only — the evidence base for \
    drift/rollback decisions.";

/// The JSON schema of the tool's arguments.
pub const SCHEMA: &'static str = r#"{
        "type": "object",
        "properties": {
            "host": {
                "type": "string",
                "description": "Host alias from config.yaml (use ssh_status to list available hosts)"
            },
            "subcommand": {
                "type": "string",
                "enum": ["all", "values", "manifest", "hooks", "notes", "metadata"],
                "description": "What to fetch: all | values | manifest | hooks | notes | metadata"
            },
            "release": {
                "type": "string",
                "description": "Helm release name"
            },
            "namespace": {
                "type": "string",
                "description": "Kubernetes namespace (default: current context namespace)"
            },
            "revision": {
                "type": "integer",
                "description": "Inspect a specific release revision",
                "minimum": 1
            },
            "output": {
                "type": "string",
                "enum": ["json", "yaml"],
                "description": "Output format (json or yaml)"
            },
            "helm_bin": {
                "type": "string",
                "description": "Custom helm binary path (default: auto-detect)"
            },
            "kubeconfig": {
                "type": "string",
                "description": "Path to kubeconfig file (e.g., /etc/rancher/k3s/k3s.yaml for K3s)"
            },
            "timeout_seconds": {
                "type": "integer",
                "description": "Optional timeout in seconds (default: from config)",
                "minimum": 1,
                "maximum": 3600
            },
            "max_output": {
                "type": "integer",
                "description": "Max output characters (default: from server config, typically 20000, 0 = no limit). Truncated output includes an output_id for retrieval via ssh_output_fetch.",
                "minimum": 0
            }
        },
        "required": ["host", "subcommand", "release"]
    }"#;

impl StandardTool for HelmGetTool {
    type Args = SshHelmGetArgs;

    type Check = NoCheck;

    const NAME: &'static str = "ssh_helm_get";

    const DESCRIPTION: &'static str = DESCRIPTION;

    const SCHEMA: &'static str = SCHEMA;

    const GROUP: &'static str = "kubernetes";

    const ANNOTATION: Annotation = Annotation::ReadOnly;

    const OUTPUT_KIND: OutputKind = OutputKind::Auto;

    open spec fn command(args: SshHelmGetArgs) -> Result<Seq<char>, Refusal> {
        command_unless(
            first_of(
                helm_get_refusal(args.subcommand@),
                if_some(args.namespace, |ns: Seq<char>| namespace_refusal(ns)),
            ),
            get_command(
                args.helm_bin,
                args.kubeconfig,
                args.subcommand@,
                args.release@,
                args.namespace,
                args.revision,
                args.output,
            ),
        )
    }

    fn build_command(
        args: &SshHelmGetArgs,
        _host_config: &HostConfig,
    ) -> (r: Result<String, BridgeError>) {
        KubernetesCommandBuilder::validate_helm_get_subcommand(args.subcommand.as_str())?;
        if let Some(ns) = &args.namespace {
            KubernetesCommandBuilder::validate_namespace(ns.as_str())?;
        }
        Ok(
            HelmCommandBuilder::build_get_command(
                &args.helm_bin,
                &args.kubeconfig,
                args.subcommand.as_str(),
                args.release.as_str(),
                &args.namespace,
                args.revision,
                &args.output,
            ),
        )
    }
}

/// Handler for the `ssh_helm_get` tool.
pub type SshHelmGetHandler = StandardToolHandler<HelmGetTool>;

/// What clients are told of the tool.
pub proof fn presents_itself()
    ensures
        <SshHelmGetHandler as ToolHandler>::TOOL_NAME@ == "ssh_helm_get"@,
        <SshHelmGetHandler as ToolHandler>::TOOL_DESCRIPTION@ == DESCRIPTION@,
        <SshHelmGetHandler as ToolHandler>::INPUT_SCHEMA@ == SCHEMA@,
        <SshHelmGetHandler as ToolHandler>::TOOL_GROUP@ == "kubernetes"@,
        <SshHelmGetHandler as ToolHandler>::EFFECT == Annotation::ReadOnly,
        <SshHelmGetHandler as ToolHandler>::KIND == OutputKind::Auto,
{
    handler_presents_its_tool::<HelmGetTool>();
}

} // verus!
