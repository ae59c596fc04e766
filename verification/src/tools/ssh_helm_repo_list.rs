//! SSH Helm Repo List Tool Handler
//!
//! Lists configured Helm chart repositories on a remote host via SSH.
use crate::builders::helm::{helm_output_refusal, repo_list_command, HelmCommandBuilder};
use crate::config::HostConfig;
use crate::error::{if_some, BridgeError, Refusal};
use crate::shell::command_unless;
use crate::tool::{
    handler_presents_its_tool, Annotation, CommonArgs, NoCheck, OutputKind, StandardTool,
    StandardToolHandler, ToolHandler,
};
use vstd::prelude::*;

verus! {

/// Arguments for the `ssh_helm_repo_list` tool.
#[derive(Debug)]
pub struct SshHelmRepoListArgs {
    pub host: String,
    pub output: Option<String>,
    pub helm_bin: Option<String>,
    pub timeout_seconds: Option<u64>,
    pub max_output: Option<u64>,
    pub save_output: Option<String>,
}

impl CommonArgs for SshHelmRepoListArgs {
    open spec fn host_name(&self) -> Seq<char> {
        self.host@
    }

    fn host(&self) -> (r: &str) {
        self.host.as_str()
    }
}

/// Handler marker for the `ssh_helm_repo_list` tool.
pub struct HelmRepoListTool;

/// What the tool is for, in words for its clients.
pub const DESCRIPTION: &'static str = "List configured Helm chart repositories on a remote host. \
    Shows name and URL for each configured repo. Run ssh_helm_repo_update afterwards \
    to refresh the index. Output as table, JSON, or YAML. Auto-detects helm binary.";

/// The JSON schema of the tool's arguments.
pub const SCHEMA: &'static str = r#"{
        "type": "object",
        "properties": {
            "host": {
                "type": "string",
                "description": "Host alias from config.yaml (use ssh_status to list available hosts)"
            },
            "output": {
                "type": "string",
                "enum": ["table", "json", "yaml"],
                "description": "Output format (default: table)"
            },
            "helm_bin": {
                "type": "string",
                "description": "Custom helm binary path (default: auto-detect)"
            },
            "timeout_seconds": {
                "type": "integer",
                "description": "Optional timeout in seconds (default: from config)",
                "minimum": 1,
                "maximum": 3600
            },
            "max_output": {
                "type": "integer",
                "description": "Max output characters (default: from server config, typically 20000, 0 = no limit). Truncated output includes an output_id for retrieval via ssh_output_fetch.",
                "minimum": 0
            }
        },
        "required": ["host"]
    }"#;

impl StandardTool for HelmRepoListTool {
    type Args = SshHelmRepoListArgs;

    type Check = NoCheck;

    const NAME: &'static str = "ssh_helm_repo_list";

    const DESCRIPTION: &'static str = DESCRIPTION;

    const SCHEMA: &'static str = SCHEMA;

    const GROUP: &'static str = "kubernetes";

    const ANNOTATION: Annotation = Annotation::ReadOnly;

    const OUTPUT_KIND: OutputKind = OutputKind::Auto;

    open spec fn command(args: SshHelmRepoListArgs) -> Result<Seq<char>, Refusal> {
        command_unless(
            if_some(args.output, |o: Seq<char>| helm_output_refusal(o)),
            repo_list_command(args.helm_bin, args.output),
        )
    }

    fn build_command(
        args: &SshHelmRepoListArgs,
        _host_config: &HostConfig,
    ) -> (r: Result<String, BridgeError>) {
        if let Some(o) = &args.output {
            HelmCommandBuilder::validate_helm_output(o.as_str())?;
        }
        Ok(HelmCommandBuilder::build_repo_list_command(&args.helm_bin, &args.output))
    }
}

/// Handler for the `ssh_helm_repo_list` tool.
pub type SshHelmRepoListHandler = StandardToolHandler<HelmRepoListTool>;

/// What clients are told of the tool.
pub proof fn presents_itself()
    ensures
        <SshHelmRepoListHandler as ToolHandler>::TOOL_NAME@ == "ssh_helm_repo_list"@,
        <SshHelmRepoListHandler as ToolHandler>::TOOL_DESCRIPTION@ == DESCRIPTION@,
        <SshHelmRepoListHandler as ToolHandler>::INPUT_SCHEMA@ == SCHEMA@,
        <SshHelmRepoListHandler as ToolHandler>::TOOL_GROUP@ == "kubernetes"@,
        <SshHelmRepoListHandler as ToolHandler>::EFFECT == Annotation::ReadOnly,
        <SshHelmRepoListHandler as ToolHandler>::KIND == OutputKind::Auto,
{
    handler_presents_its_tool::<HelmRepoListTool>();
}

} // verus!
