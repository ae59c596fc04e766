//! SSH K3s ServiceLB Status Tool Handler
//!
//! Shows all `type=LoadBalancer` services cluster-wide, klipper svclb
//! daemonsets, and svclb pods with their node/hostPort mappings.
use crate::builders::kubernetes::{servicelb_refusal, servicelb_script, KubernetesCommandBuilder};
use crate::config::HostConfig;
use crate::error::{BridgeError, Refusal};
use crate::shell::command_unless;
use crate::tool::{
    handler_presents_its_tool, Annotation, CommonArgs, NoCheck, OutputKind, StandardTool,
    StandardToolHandler, ToolHandler,
};
use vstd::prelude::*;

verus! {

/// Arguments for the `ssh_k3s_servicelb_status` tool.
#[derive(Debug)]
pub struct SshK3sServicelbStatusArgs {
    pub host: String,
    pub namespace: Option<String>,
    pub context: Option<String>,
    pub kubectl_bin: Option<String>,
    pub timeout_seconds: Option<u64>,
    pub max_output: Option<u64>,
    pub save_output: Option<String>,
}

impl CommonArgs for SshK3sServicelbStatusArgs {
    open spec fn host_name(&self) -> Seq<char> {
        self.host@
    }

    fn host(&self) -> (r: &str) {
        self.host.as_str()
    }
}

/// Handler marker for the `ssh_k3s_servicelb_status` tool.
pub struct K3sServicelbStatus;

/// What the tool is for, in words for its clients.
pub const DESCRIPTION: &'static str =
    "Show K3s ServiceLB (klipper) status: lists all type=LoadBalancer \
    services cluster-wide with external IPs, klipper svclb daemonsets, and svclb pods with their \
    node and hostPort mappings. Essential for diagnosing K3s LoadBalancer provisioning issues.";

/// The JSON schema of the tool's arguments.
pub const SCHEMA: &'static str = r#"{
        "type": "object",
        "properties": {
            "host": {
                "type": "string",
                "description": "Host alias from config.yaml (use ssh_status to list available hosts)"
            },
            "namespace": {
                "type": "string",
                "description": "Kubernetes namespace filter for LoadBalancer services (optional; daemonsets/pods always use kube-system)"
            },
            "context": {
                "type": "string",
                "description": "kubectl context for multi-cluster targeting"
            },
            "kubectl_bin": {
                "type": "string",
                "description": "Custom kubectl binary path (default: auto-detect kubectl/k3s/microk8s)"
            },
            "timeout_seconds": {
                "type": "integer",
                "description": "SSH command timeout in seconds (default: from config)",
                "minimum": 1,
                "maximum": 3600
            },
            "max_output": {
                "type": "integer",
                "description": "Max output characters (0 = no limit). Truncated output yields an output_id for ssh_output_fetch.",
                "minimum": 0
            },
            "save_output": {
                "type": "string",
                "description": "Save full output to a file on the MCP server."
            }
        },
        "required": ["host"]
    }"#;

impl StandardTool for K3sServicelbStatus {
    type Args = SshK3sServicelbStatusArgs;

    type Check = NoCheck;

    const NAME: &'static str = "ssh_k3s_servicelb_status";

    const DESCRIPTION: &'static str = DESCRIPTION;

    const SCHEMA: &'static str = SCHEMA;

    const GROUP: &'static str = "kubernetes";

    const ANNOTATION: Annotation = Annotation::ReadOnly;

    const OUTPUT_KIND: OutputKind = OutputKind::Auto;

    open spec fn command(args: SshK3sServicelbStatusArgs) -> Result<Seq<char>, Refusal> {
        command_unless(
            servicelb_refusal(args.namespace, args.context),
            servicelb_script(args.kubectl_bin, args.namespace, args.context),
        )
    }

    fn build_command(
        args: &SshK3sServicelbStatusArgs,
        _host_config: &HostConfig,
    ) -> (r: Result<String, BridgeError>) {
        KubernetesCommandBuilder::build_servicelb_status_command(
            &args.kubectl_bin,
            &args.namespace,
            &args.context,
        )
    }
}

/// Handler for the `ssh_k3s_servicelb_status` tool.
pub type SshK3sServicelbStatusHandler = StandardToolHandler<K3sServicelbStatus>;

/// What clients are told of the tool.
pub proof fn presents_itself()
    ensures
        <SshK3sServicelbStatusHandler as ToolHandler>::TOOL_NAME@ == "ssh_k3s_servicelb_status"@,
        <SshK3sServicelbStatusHandler as ToolHandler>::TOOL_DESCRIPTION@ == DESCRIPTION@,
        <SshK3sServicelbStatusHandler as ToolHandler>::INPUT_SCHEMA@ == SCHEMA@,
        <SshK3sServicelbStatusHandler as ToolHandler>::TOOL_GROUP@ == "kubernetes"@,
        <SshK3sServicelbStatusHandler as ToolHandler>::EFFECT == Annotation::ReadOnly,
        <SshK3sServicelbStatusHandler as ToolHandler>::KIND == OutputKind::Auto,
{
    handler_presents_its_tool::<K3sServicelbStatus>();
}

} // verus!
