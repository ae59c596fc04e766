//! SSH Helm Repo Update Tool Handler
//!
//! Updates Helm chart repositories on a remote host via SSH.
use crate::builders::helm::{repo_names_refusal, repo_update_command, HelmCommandBuilder};
use crate::config::HostConfig;
use crate::error::{BridgeError, Refusal};
use crate::shell::{command_unless, opt_texts, texts};
use crate::tool::{
    handler_presents_its_tool, Annotation, CommonArgs, NoCheck, OutputKind, StandardTool,
    StandardToolHandler, ToolHandler,
};
use vstd::prelude::*;

verus! {

/// Arguments for the `ssh_helm_repo_update` tool.
#[derive(Debug)]
pub struct SshHelmRepoUpdateArgs {
    pub host: String,
    pub repos: Option<Vec<String>>,
    pub helm_bin: Option<String>,
    pub timeout_seconds: Option<u64>,
    pub max_output: Option<u64>,
    pub save_output: Option<String>,
}

impl CommonArgs for SshHelmRepoUpdateArgs {
    open spec fn host_name(&self) -> Seq<char> {
        self.host@
    }

    fn host(&self) -> (r: &str) {
        self.host.as_str()
    }
}

/// Handler marker for the `ssh_helm_repo_update` tool.
pub struct HelmRepoUpdateTool;

/// What the tool is for, in words for its clients.
pub const DESCRIPTION: &'static str =
    "Update Helm chart repository indexes on a remote host. Refreshes the local \
    cache of chart information from all configured repos (or specific repos if named). \
    Run this before searching or installing to get the latest chart versions. \
    Auto-detects helm binary.";

/// The JSON schema of the tool's arguments.
pub const SCHEMA: &'static str = r#"{
        "type": "object",
        "properties": {
            "host": {
                "type": "string",
                "description": "Host alias from config.yaml (use ssh_status to list available hosts)"
            },
            "repos": {
                "type": "array",
                "items": {"type": "string"},
                "description": "Specific repo names to update (default: update all repos)"
            },
            "helm_bin": {
                "type": "string",
                "description": "Custom helm binary path (default: auto-detect)"
            },
            "timeout_seconds": {
                "type": "integer",
                "description": "Optional timeout in seconds (default: from config)",
                "minimum": 1,
                "maximum": 3600
            },
            "max_output": {
                "type": "integer",
                "description": "Max output characters (default: from server config, typically 20000, 0 = no limit). Truncated output includes an output_id for retrieval via ssh_output_fetch.",
                "minimum": 0
            }
        },
        "required": ["host"]
    }"#;

impl StandardTool for HelmRepoUpdateTool {
    type Args = SshHelmRepoUpdateArgs;

    type Check = NoCheck;

    const NAME: &'static str = "ssh_helm_repo_update";

    const DESCRIPTION: &'static str = DESCRIPTION;

    const SCHEMA: &'static str = SCHEMA;

    const GROUP: &'static str = "kubernetes";

    const ANNOTATION: Annotation = Annotation::MutatingIdempotent;

    const OUTPUT_KIND: OutputKind = OutputKind::RawText;

    open spec fn command(args: SshHelmRepoUpdateArgs) -> Result<Seq<char>, Refusal> {
        command_unless(
            repo_names_refusal(opt_texts(args.repos)),
            repo_update_command(args.helm_bin, args.repos),
        )
    }

    fn build_command(
        args: &SshHelmRepoUpdateArgs,
        _host_config: &HostConfig,
    ) -> (r: Result<String, BridgeError>) {
        if let Some(repos) = &args.repos {
            let mut i: usize = 0;
            assert(texts(repos@).skip(0) =~= texts(repos@));
            while i < repos.len()
                invariant
                    i <= repos@.len(),
                    args.repos == Some(*repos),
                    repo_names_refusal(texts(repos@)) == repo_names_refusal(
                        texts(repos@).skip(i as int),
                    ),
                decreases repos@.len() - i,
            {
                proof {
                    let rest = texts(repos@).skip(i as int);
                    assert(rest[0] == repos@[i as int]@);
                    assert(rest.skip(1) =~= texts(repos@).skip(i + 1));
                }
                HelmCommandBuilder::validate_repo_name(repos[i].as_str())?;
                i += 1;
            }
        }
        Ok(HelmCommandBuilder::build_repo_update_command(&args.helm_bin, &args.repos))
    }
}

/// Handler for the `ssh_helm_repo_update` tool.
pub type SshHelmRepoUpdateHandler = StandardToolHandler<HelmRepoUpdateTool>;

/// What clients are told of the tool.
pub proof fn presents_itself()
    ensures
        <SshHelmRepoUpdateHandler as ToolHandler>::TOOL_NAME@ == "ssh_helm_repo_update"@,
        <SshHelmRepoUpdateHandler as ToolHandler>::TOOL_DESCRIPTION@ == DESCRIPTION@,
        <SshHelmRepoUpdateHandler as ToolHandler>::INPUT_SCHEMA@ == SCHEMA@,
        <SshHelmRepoUpdateHandler as ToolHandler>::TOOL_GROUP@ == "kubernetes"@,
        <SshHelmRepoUpdateHandler as ToolHandler>::EFFECT == Annotation::MutatingIdempotent,
        <SshHelmRepoUpdateHandler as ToolHandler>::KIND == OutputKind::RawText,
{
    handler_presents_its_tool::<HelmRepoUpdateTool>();
}

} // verus!
