//! crictl pods Tool Handler — list CRI pod sandboxes on a K3s node.
use crate::builders::crictl::{
    pod_state_refusal, pods_command, validate_pod_state, CrictlCommandBuilder,
};
use crate::config::HostConfig;
use crate::error::{if_some, BridgeError, Refusal};
use crate::shell::command_unless;
use crate::tool::{
    handler_presents_its_tool, Annotation, CommonArgs, NoCheck, OutputKind, StandardTool,
    StandardToolHandler, ToolHandler,
};
use vstd::prelude::*;

verus! {

/// Arguments for the `ssh_crictl_pods` tool.
#[derive(Debug)]
pub struct SshCrictlPodsArgs {
    pub host: String,
    pub state: Option<String>,
    pub name: Option<String>,
    pub label: Option<String>,
    pub namespace: Option<String>,
    pub output: Option<String>,
    pub crictl_bin: Option<String>,
    pub timeout_seconds: Option<u64>,
    pub max_output: Option<u64>,
    pub save_output: Option<String>,
}

impl CommonArgs for SshCrictlPodsArgs {
    open spec fn host_name(&self) -> Seq<char> {
        self.host@
    }

    fn host(&self) -> (r: &str) {
        self.host.as_str()
    }
}

/// Handler marker for `ssh_crictl_pods`.
pub struct CrictlPodsTool;

/// What the tool is for, in words for its clients.
pub const DESCRIPTION: &'static str = "List CRI pod sandboxes on a K3s node via `crictl pods`. \
    Complements ssh_crictl_ps (containers) — shows pod-level status including sandboxes that \
    have no running containers. Defaults to JSON output for jq_filter reduction. \
    Filter with `state`/`name`/`label`/`namespace`.";

/// The JSON schema of the tool's arguments.
pub const SCHEMA: &'static str = r#"{
        "type": "object",
        "properties": {
            "host": {"type": "string", "description": "Host alias from config.yaml (use ssh_status to list hosts)"},
            "state": {"type": "string", "description": "Filter by pod state: ready or notready"},
            "name": {"type": "string", "description": "Filter by pod name substring"},
            "label": {"type": "string", "description": "Filter by label key=value"},
            "namespace": {"type": "string", "description": "Filter by Kubernetes namespace"},
            "output": {"type": "string", "description": "Output format: json (default), table, yaml"},
            "crictl_bin": {"type": "string", "description": "Custom crictl binary/prefix (default: auto-detect 'k3s crictl')"},
            "timeout_seconds": {"type": "integer", "description": "Optional timeout in seconds (default: from config)", "minimum": 1, "maximum": 3600},
            "max_output": {"type": "integer", "description": "Max output characters (0 = no limit). Truncated output yields an output_id for ssh_output_fetch.", "minimum": 0},
            "save_output": {"type": "string", "description": "Save full output to a local file on the MCP server."}
        },
        "required": ["host"]
    }"#;

impl StandardTool for CrictlPodsTool {
    type Args = SshCrictlPodsArgs;

    type Check = NoCheck;

    const NAME: &'static str = "ssh_crictl_pods";

    const DESCRIPTION: &'static str = DESCRIPTION;

    const SCHEMA: &'static str = SCHEMA;

    const GROUP: &'static str = "cri";

    const ANNOTATION: Annotation = Annotation::ReadOnly;

    const OUTPUT_KIND: OutputKind = OutputKind::Auto;

    open spec fn command(args: SshCrictlPodsArgs) -> Result<Seq<char>, Refusal> {
        command_unless(
            if_some(args.state, |s: Seq<char>| pod_state_refusal(s)),
            pods_command(
                args.crictl_bin,
                args.state,
                args.name,
                args.label,
                args.namespace,
                args.output,
            ),
        )
    }

    fn build_command(
        args: &SshCrictlPodsArgs,
        _host_config: &HostConfig,
    ) -> (r: Result<String, BridgeError>) {
        if let Some(s) = &args.state {
            validate_pod_state(s.as_str())?;
        }
        Ok(
            CrictlCommandBuilder::build_pods_command(
                &args.crictl_bin,
                &args.state,
                &args.name,
                &args.label,
                &args.namespace,
                &args.output,
            ),
        )
    }
}

/// Handler for `ssh_crictl_pods`.
pub type SshCrictlPodsHandler = StandardToolHandler<CrictlPodsTool>;

/// What clients are told of the tool.
pub proof fn presents_itself()
    ensures
        <SshCrictlPodsHandler as ToolHandler>::TOOL_NAME@ == "ssh_crictl_pods"@,
        <SshCrictlPodsHandler as ToolHandler>::TOOL_DESCRIPTION@ == DESCRIPTION@,
        <SshCrictlPodsHandler as ToolHandler>::INPUT_SCHEMA@ == SCHEMA@,
        <SshCrictlPodsHandler as ToolHandler>::TOOL_GROUP@ == "cri"@,
        <SshCrictlPodsHandler as ToolHandler>::EFFECT == Annotation::ReadOnly,
        <SshCrictlPodsHandler as ToolHandler>::KIND == OutputKind::Auto,
{
    handler_presents_its_tool::<CrictlPodsTool>();
}

} // verus!
