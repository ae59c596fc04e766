//! SSH Helm Dependency Tool Handler
//!
//! Manages Helm chart dependencies on a remote host via SSH.
use crate::builders::helm::{dependency_command, dependency_refusal, HelmCommandBuilder};
use crate::config::HostConfig;
use crate::error::{BridgeError, Refusal};
use crate::shell::{command_unless, is_on, on};
use crate::tool::{
    handler_presents_its_tool, Annotation, CommonArgs, NoCheck, OutputKind, StandardTool,
    StandardToolHandler, ToolHandler,
};
use vstd::prelude::*;

verus! {

/// Arguments for the `ssh_helm_dependency` tool.
#[derive(Debug)]
pub struct SshHelmDependencyArgs {
    pub host: String,
    pub subcommand: String,
    pub chart_path: String,
    pub skip_refresh: Option<bool>,
    pub verify: Option<bool>,
    pub helm_bin: Option<String>,
    pub timeout_seconds: Option<u64>,
    pub max_output: Option<u64>,
    pub save_output: Option<String>,
}

impl CommonArgs for SshHelmDependencyArgs {
    open spec fn host_name(&self) -> Seq<char> {
        self.host@
    }

    fn host(&self) -> (r: &str) {
        self.host.as_str()
    }
}

/// Handler marker for the `ssh_helm_dependency` tool.
pub struct HelmDependencyTool;

/// What the tool is for, in words for its clients.
pub const DESCRIPTION: &'static str = "Manage Helm chart dependencies on a remote host. \
    subcommand: build | update | list. \
    Use build to rebuild the charts/ directory from Chart.lock. \
    Use update to update and rebuild charts/ from Chart.yaml. \
    Use list to list all chart dependencies. Auto-detects helm binary.";

/// The JSON schema of the tool's arguments.
pub const SCHEMA: &'static str = r#"{
        "type": "object",
        "properties": {
            "host": {
                "type": "string",
                "description": "Host alias from config.yaml (use ssh_status to list available hosts)"
            },
            "subcommand": {
                "type": "string",
                "enum": ["build", "update", "list"],
                "description": "Dependency action: build | update | list"
            },
            "chart_path": {
                "type": "string",
                "description": "Path to the chart directory on the remote host"
            },
            "skip_refresh": {
                "type": "boolean",
                "description": "Do not refresh the local repository cache (build/update only)"
            },
            "verify": {
                "type": "boolean",
                "description": "Verify the packages against signatures"
            },
            "helm_bin": {
                "type": "string",
                "description": "Custom helm binary path (default: auto-detect)"
            },
            "timeout_seconds": {
                "type": "integer",
                "description": "Optional timeout in seconds (default: from config)",
                "minimum": 1,
                "maximum": 3600
            },
            "max_output": {
                "type": "integer",
                "description": "Max output characters (default: from server config, typically 20000, 0 = no limit). Truncated output includes an output_id for retrieval via ssh_output_fetch.",
                "minimum": 0
            }
        },
        "required": ["host", "subcommand", "chart_path"]
    }"#;

impl StandardTool for HelmDependencyTool {
    type Args = SshHelmDependencyArgs;

    type Check = NoCheck;

    const NAME: &'static str = "ssh_helm_dependency";

    const DESCRIPTION: &'static str = DESCRIPTION;

    const SCHEMA: &'static str = SCHEMA;

    const GROUP: &'static str = "kubernetes";

    const ANNOTATION: Annotation = Annotation::MutatingIdempotent;

    const OUTPUT_KIND: OutputKind = OutputKind::RawText;

    open spec fn command(args: SshHelmDependencyArgs) -> Result<Seq<char>, Refusal> {
        command_unless(
            dependency_refusal(args.subcommand@),
            dependency_command(
                args.helm_bin,
                args.subcommand@,
                args.chart_path@,
                is_on(args.skip_refresh),
                is_on(args.verify),
            ),
        )
    }

    fn build_command(
        args: &SshHelmDependencyArgs,
        _host_config: &HostConfig,
    ) -> (r: Result<String, BridgeError>) {
        HelmCommandBuilder::validate_dependency_subcommand(args.subcommand.as_str())?;
        Ok(
            HelmCommandBuilder::build_dependency_command(
                &args.helm_bin,
                args.subcommand.as_str(),
                args.chart_path.as_str(),
                on(args.skip_refresh),
                on(args.verify),
            ),
        )
    }
}

/// Handler for the `ssh_helm_dependency` tool.
pub type SshHelmDependencyHandler = StandardToolHandler<HelmDependencyTool>;

/// What clients are told of the tool.
pub proof fn presents_itself()
    ensures
        <SshHelmDependencyHandler as ToolHandler>::TOOL_NAME@ == "ssh_helm_dependency"@,
        <SshHelmDependencyHandler as ToolHandler>::TOOL_DESCRIPTION@ == DESCRIPTION@,
        <SshHelmDependencyHandler as ToolHandler>::INPUT_SCHEMA@ == SCHEMA@,
        <SshHelmDependencyHandler as ToolHandler>::TOOL_GROUP@ == "kubernetes"@,
        <SshHelmDependencyHandler as ToolHandler>::EFFECT == Annotation::MutatingIdempotent,
        <SshHelmDependencyHandler as ToolHandler>::KIND == OutputKind::RawText,
{
    handler_presents_its_tool::<HelmDependencyTool>();
}

} // verus!
