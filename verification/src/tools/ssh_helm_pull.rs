//! SSH Helm Pull Tool Handler
//!
//! Downloads Helm charts to a remote host via SSH.
use crate::builders::helm::{pull_command, repo_url_refusal, HelmCommandBuilder};
use crate::config::HostConfig;
use crate::error::{if_some, BridgeError, Refusal};
use crate::shell::{command_unless, is_on, on};
use crate::tool::{
    handler_presents_its_tool, Annotation, CommonArgs, NoCheck, OutputKind, StandardTool,
    StandardToolHandler, ToolHandler,
};
use vstd::prelude::*;

verus! {

/// Arguments for the `ssh_helm_pull` tool.
#[derive(Debug)]
pub struct SshHelmPullArgs {
    pub host: String,
    pub chart: String,
    pub version: Option<String>,
    pub repo: Option<String>,
    pub untar: Option<bool>,
    pub destination: Option<String>,
    pub devel: Option<bool>,
    pub verify: Option<bool>,
    pub helm_bin: Option<String>,
    pub timeout_seconds: Option<u64>,
    pub max_output: Option<u64>,
    pub save_output: Option<String>,
}

impl CommonArgs for SshHelmPullArgs {
    open spec fn host_name(&self) -> Seq<char> {
        self.host@
    }

    fn host(&self) -> (r: &str) {
        self.host.as_str()
    }
}

/// Handler marker for the `ssh_helm_pull` tool.
pub struct HelmPullTool;

/// What the tool is for, in words for its clients.
pub const DESCRIPTION: &'static str = "Download a Helm chart to a remote host. \
    Pulls the chart archive (.tgz) from a repository and saves it locally on the host. \
    Use untar to extract after download. Use destination to specify download directory. \
    Auto-detects helm binary.";

/// The JSON schema of the tool's arguments.
pub const SCHEMA: &'static str = r#"{
        "type": "object",
        "properties": {
            "host": {
                "type": "string",
                "description": "Host alias from config.yaml (use ssh_status to list available hosts)"
            },
            "chart": {
                "type": "string",
                "description": "Chart name (e.g. bitnami/nginx) or OCI reference (oci://registry/chart)"
            },
            "version": {
                "type": "string",
                "description": "Chart version to pull (default: latest)"
            },
            "repo": {
                "type": "string",
                "description": "Chart repository URL"
            },
            "untar": {
                "type": "boolean",
                "description": "Extract the chart after downloading"
            },
            "destination": {
                "type": "string",
                "description": "Directory to save the chart (default: current directory)"
            },
            "devel": {
                "type": "boolean",
                "description": "Include development versions (alpha, beta, rc)"
            },
            "verify": {
                "type": "boolean",
                "description": "Verify the chart before pulling"
            },
            "helm_bin": {
                "type": "string",
                "description": "Custom helm binary path (default: auto-detect)"
            },
            "timeout_seconds": {
                "type": "integer",
                "description": "Optional timeout in seconds (default: from config)",
                "minimum": 1,
                "maximum": 3600
            },
            "max_output": {
                "type": "integer",
                "description": "Max output characters (default: from server config, typically 20000, 0 = no limit). Truncated output includes an output_id for retrieval via ssh_output_fetch.",
                "minimum": 0
            }
        },
        "required": ["host", "chart"]
    }"#;

impl StandardTool for HelmPullTool {
    type Args = SshHelmPullArgs;

    type Check = NoCheck;

    const NAME: &'static str = "ssh_helm_pull";

    const DESCRIPTION: &'static str = DESCRIPTION;

    const SCHEMA: &'static str = SCHEMA;

    const GROUP: &'static str = "kubernetes";

    const ANNOTATION: Annotation = Annotation::MutatingIdempotent;

    const OUTPUT_KIND: OutputKind = OutputKind::RawText;

    open spec fn command(args: SshHelmPullArgs) -> Result<Seq<char>, Refusal> {
        command_unless(
            if_some(args.repo, |url: Seq<char>| repo_url_refusal(url)),
            pull_command(
                args.helm_bin,
                args.chart@,
                args.version,
                args.repo,
                is_on(args.untar),
                args.destination,
                is_on(args.devel),
                is_on(args.verify),
            ),
        )
    }

    fn build_command(
        args: &SshHelmPullArgs,
        _host_config: &HostConfig,
    ) -> (r: Result<String, BridgeError>) {
        if let Some(url) = &args.repo {
            HelmCommandBuilder::validate_repo_url(url.as_str())?;
        }
        Ok(
            HelmCommandBuilder::build_pull_command(
                &args.helm_bin,
                args.chart.as_str(),
                &args.version,
                &args.repo,
                on(args.untar),
                &args.destination,
                on(args.devel),
                on(args.verify),
            ),
        )
    }
}

/// Handler for the `ssh_helm_pull` tool.
pub type SshHelmPullHandler = StandardToolHandler<HelmPullTool>;

/// What clients are told of the tool.
pub proof fn presents_itself()
    ensures
        <SshHelmPullHandler as ToolHandler>::TOOL_NAME@ == "ssh_helm_pull"@,
        <SshHelmPullHandler as ToolHandler>::TOOL_DESCRIPTION@ == DESCRIPTION@,
        <SshHelmPullHandler as ToolHandler>::INPUT_SCHEMA@ == SCHEMA@,
        <SshHelmPullHandler as ToolHandler>::TOOL_GROUP@ == "kubernetes"@,
        <SshHelmPullHandler as ToolHandler>::EFFECT == Annotation::MutatingIdempotent,
        <SshHelmPullHandler as ToolHandler>::KIND == OutputKind::RawText,
{
    handler_presents_its_tool::<HelmPullTool>();
}

} // verus!
