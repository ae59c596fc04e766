//! SSH K3s Addon Manifests Tool Handler
//!
//! Lists the K3s auto-deploy manifests directory, HelmChart CRDs,
//! HelmChart job status, and helm-install jobs in kube-system.
use crate::builders::kubernetes::{
    addon_manifests_refusal, addon_manifests_script, KubernetesCommandBuilder,
};
use crate::config::HostConfig;
use crate::error::{BridgeError, Refusal};
use crate::shell::command_unless;
use crate::tool::{
    handler_presents_its_tool, Annotation, CommonArgs, NoCheck, OutputKind, StandardTool,
    StandardToolHandler, ToolHandler,
};
use vstd::prelude::*;

verus! {

/// Arguments for the `ssh_k3s_addon_manifests` tool.
#[derive(Debug)]
pub struct SshK3sAddonManifestsArgs {
    pub host: String,
    /// Path to the K3s auto-deploy manifests directory (default: /var/lib/rancher/k3s/server/manifests).
    pub manifests_dir: Option<String>,
    pub context: Option<String>,
    pub kubectl_bin: Option<String>,
    pub timeout_seconds: Option<u64>,
    pub max_output: Option<u64>,
    pub save_output: Option<String>,
}

impl CommonArgs for SshK3sAddonManifestsArgs {
    open spec fn host_name(&self) -> Seq<char> {
        self.host@
    }

    fn host(&self) -> (r: &str) {
        self.host.as_str()
    }
}

/// Handler marker for the `ssh_k3s_addon_manifests` tool.
pub struct K3sAddonManifests;

/// What the tool is for, in words for its clients.
pub const DESCRIPTION: &'static str =
    "Inspect K3s addon manifests: lists the auto-deploy manifests \
    directory, HelmChart CRDs (k3s addon installs via helm-controller), HelmChart job status, \
    and helm-install jobs in kube-system. Useful for understanding what addons K3s has deployed \
    or is managing via the built-in Helm controller.";

/// The JSON schema of the tool's arguments.
pub const SCHEMA: &'static str = r#"{
        "type": "object",
        "properties": {
            "host": {
                "type": "string",
                "description": "Host alias from config.yaml (use ssh_status to list available hosts)"
            },
            "manifests_dir": {
                "type": "string",
                "description": "Path to the K3s auto-deploy manifests directory (default: /var/lib/rancher/k3s/server/manifests)"
            },
            "context": {
                "type": "string",
                "description": "kubectl context for multi-cluster targeting"
            },
            "kubectl_bin": {
                "type": "string",
                "description": "Custom kubectl binary path (default: auto-detect kubectl/k3s/microk8s)"
            },
            "timeout_seconds": {
                "type": "integer",
                "description": "SSH command timeout in seconds (default: from config)",
                "minimum": 1,
                "maximum": 3600
            },
            "max_output": {
                "type": "integer",
                "description": "Max output characters (0 = no limit). Truncated output yields an output_id for ssh_output_fetch.",
                "minimum": 0
            },
            "save_output": {
                "type": "string",
                "description": "Save full output to a file on the MCP server."
            }
        },
        "required": ["host"]
    }"#;

impl StandardTool for K3sAddonManifests {
    type Args = SshK3sAddonManifestsArgs;

    type Check = NoCheck;

    const NAME: &'static str = "ssh_k3s_addon_manifests";

    const DESCRIPTION: &'static str = DESCRIPTION;

    const SCHEMA: &'static str = SCHEMA;

    const GROUP: &'static str = "kubernetes";

    const ANNOTATION: Annotation = Annotation::ReadOnly;

    const OUTPUT_KIND: OutputKind = OutputKind::Auto;

    open spec fn command(args: SshK3sAddonManifestsArgs) -> Result<Seq<char>, Refusal> {
        command_unless(
            addon_manifests_refusal(args.manifests_dir, args.context),
            addon_manifests_script(args.kubectl_bin, args.manifests_dir, args.context),
        )
    }

    fn build_command(
        args: &SshK3sAddonManifestsArgs,
        _host_config: &HostConfig,
    ) -> (r: Result<String, BridgeError>) {
        KubernetesCommandBuilder::build_addon_manifests_command(
            &args.kubectl_bin,
            &args.manifests_dir,
            &args.context,
        )
    }
}

/// Handler for the `ssh_k3s_addon_manifests` tool.
pub type SshK3sAddonManifestsHandler = StandardToolHandler<K3sAddonManifests>;

/// What clients are told of the tool.
pub proof fn presents_itself()
    ensures
        <SshK3sAddonManifestsHandler as ToolHandler>::TOOL_NAME@ == "ssh_k3s_addon_manifests"@,
        <SshK3sAddonManifestsHandler as ToolHandler>::TOOL_DESCRIPTION@ == DESCRIPTION@,
        <SshK3sAddonManifestsHandler as ToolHandler>::INPUT_SCHEMA@ == SCHEMA@,
        <SshK3sAddonManifestsHandler as ToolHandler>::TOOL_GROUP@ == "kubernetes"@,
        <SshK3sAddonManifestsHandler as ToolHandler>::EFFECT == Annotation::ReadOnly,
        <SshK3sAddonManifestsHandler as ToolHandler>::KIND == OutputKind::Auto,
{
    handler_presents_its_tool::<K3sAddonManifests>();
}

} // verus!
