//! SSH Kubernetes DNS Check Tool Handler
//!
//! Composite `CoreDNS` health check: shows pods, service, endpoints, Corefile,
//! and optionally resolves a DNS name via a short-lived busybox pod.
use crate::builders::kubernetes::{dns_check_refusal, dns_check_script, KubernetesCommandBuilder};
use crate::config::HostConfig;
use crate::error::{BridgeError, Refusal};
use crate::shell::command_unless;
use crate::tool::{
    handler_presents_its_tool, Annotation, CommonArgs, NoCheck, OutputKind, StandardTool,
    StandardToolHandler, ToolHandler,
};
use vstd::prelude::*;

verus! {

/// Arguments for the `ssh_k8s_dns_check` tool.
#[derive(Debug)]
pub struct SshK8sDnsCheckArgs {
    pub host: String,
    /// Optional DNS name to resolve (e.g. `kubernetes.default.svc.cluster.local`).
    pub resolve_name: Option<String>,
    pub namespace: Option<String>,
    pub context: Option<String>,
    pub kubectl_bin: Option<String>,
    pub timeout_seconds: Option<u64>,
    pub max_output: Option<u64>,
    pub save_output: Option<String>,
}

impl CommonArgs for SshK8sDnsCheckArgs {
    open spec fn host_name(&self) -> Seq<char> {
        self.host@
    }

    fn host(&self) -> (r: &str) {
        self.host.as_str()
    }
}

/// Handler marker for the `ssh_k8s_dns_check` tool.
pub struct K8sDnsCheck;

/// What the tool is for, in words for its clients.
pub const DESCRIPTION: &'static str =
    "Check CoreDNS health in a Kubernetes cluster: shows CoreDNS pod status, \
    the kube-dns service and endpoints, the Corefile configuration, and optionally \
    resolves a DNS name using a short-lived busybox pod (nslookup). \
    Useful for diagnosing DNS resolution failures inside the cluster.";

/// The JSON schema of the tool's arguments.
pub const SCHEMA: &'static str = r#"{
        "type": "object",
        "properties": {
            "host": {
                "type": "string",
                "description": "Host alias from config.yaml (use ssh_status to list available hosts)"
            },
            "resolve_name": {
                "type": "string",
                "description": "DNS name to resolve via nslookup in a busybox pod (e.g. kubernetes.default.svc.cluster.local)"
            },
            "namespace": {
                "type": "string",
                "description": "Namespace for the DNS probe pod (default: current context namespace)"
            },
            "context": {
                "type": "string",
                "description": "kubectl context for multi-cluster targeting"
            },
            "kubectl_bin": {
                "type": "string",
                "description": "Custom kubectl binary path (default: auto-detect kubectl/k3s/microk8s)"
            },
            "timeout_seconds": {
                "type": "integer",
                "description": "SSH command timeout in seconds (default: from config)",
                "minimum": 1,
                "maximum": 3600
            },
            "max_output": {
                "type": "integer",
                "description": "Max output characters (0 = no limit). Truncated output yields an output_id for ssh_output_fetch.",
                "minimum": 0
            },
            "save_output": {
                "type": "string",
                "description": "Save full output to a file on the MCP server."
            }
        },
        "required": ["host"]
    }"#;

impl StandardTool for K8sDnsCheck {
    type Args = SshK8sDnsCheckArgs;

    type Check = NoCheck;

    const NAME: &'static str = "ssh_k8s_dns_check";

    const DESCRIPTION: &'static str = DESCRIPTION;

    const SCHEMA: &'static str = SCHEMA;

    const GROUP: &'static str = "kubernetes";

    const ANNOTATION: Annotation = Annotation::ReadOnly;

    const OUTPUT_KIND: OutputKind = OutputKind::Auto;

    open spec fn command(args: SshK8sDnsCheckArgs) -> Result<Seq<char>, Refusal> {
        command_unless(
            dns_check_refusal(args.resolve_name, args.namespace, args.context),
            dns_check_script(args.kubectl_bin, args.resolve_name, args.namespace, args.context),
        )
    }

    fn build_command(
        args: &SshK8sDnsCheckArgs,
        _host_config: &HostConfig,
    ) -> (r: Result<String, BridgeError>) {
        KubernetesCommandBuilder::build_dns_check_command(
            &args.kubectl_bin,
            &args.resolve_name,
            &args.namespace,
            &args.context,
        )
    }
}

/// Handler for the `ssh_k8s_dns_check` tool.
pub type SshK8sDnsCheckHandler = StandardToolHandler<K8sDnsCheck>;

/// What clients are told of the tool.
pub proof fn presents_itself()
    ensures
        <SshK8sDnsCheckHandler as ToolHandler>::TOOL_NAME@ == "ssh_k8s_dns_check"@,
        <SshK8sDnsCheckHandler as ToolHandler>::TOOL_DESCRIPTION@ == DESCRIPTION@,
        <SshK8sDnsCheckHandler as ToolHandler>::INPUT_SCHEMA@ == SCHEMA@,
        <SshK8sDnsCheckHandler as ToolHandler>::TOOL_GROUP@ == "kubernetes"@,
        <SshK8sDnsCheckHandler as ToolHandler>::EFFECT == Annotation::ReadOnly,
        <SshK8sDnsCheckHandler as ToolHandler>::KIND == OutputKind::Auto,
{
    handler_presents_its_tool::<K8sDnsCheck>();
}

} // verus!
