//! K3s upgrade — upgrades k3s to a pinned version via the official installer.
//! DESTRUCTIVE: swaps the k3s binary and restarts the service; can break the node.
use crate::builders::k3s::{upgrade_command, upgrade_refusal, K3sCommandBuilder};
use crate::config::HostConfig;
use crate::error::{BridgeError, Refusal};
use crate::shell::command_unless;
use crate::tool::{
    handler_presents_its_tool, Annotation, CommonArgs, NoCheck, OutputKind, StandardTool,
    StandardToolHandler, ToolHandler,
};
use vstd::prelude::*;

verus! {

/// Arguments for the `ssh_k3s_upgrade` tool.
#[derive(Debug)]
pub struct SshK3sUpgradeArgs {
    pub host: String,
    pub version: String,
    pub channel: Option<String>,
    pub timeout_seconds: Option<u64>,
    pub max_output: Option<u64>,
    pub save_output: Option<String>,
}

impl CommonArgs for SshK3sUpgradeArgs {
    open spec fn host_name(&self) -> Seq<char> {
        self.host@
    }

    fn host(&self) -> (r: &str) {
        self.host.as_str()
    }
}

/// Handler marker for the `ssh_k3s_upgrade` tool.
pub struct K3sUpgradeTool;

/// What the tool is for, in words for its clients.
pub const DESCRIPTION: &'static str = "Upgrade (or downgrade) K3s to a specific pinned \
    version via the official installer (`curl -sfL https://get.k3s.io | sudo ...`). \
    **DESTRUCTIVE**: re-runs the installer, which swaps the k3s binary and restarts \
    the service — a failed upgrade can leave the node in a broken state. \
    `version` is REQUIRED and must be a pinned release tag such as `v1.30.2+k3s1` \
    or a plain semver like `v1.30.2`. Channel names (`latest`, `stable`, `testing`) \
    are rejected as version values to prevent accidental unpinned upgrades; use the \
    `channel` parameter instead if you need channel-based installs. \
    The installer URL `https://get.k3s.io` is a fixed literal — never interpolated.";

/// The JSON schema of the tool's arguments.
pub const SCHEMA: &'static str = r#"{
        "type": "object",
        "properties": {
            "host": {"type": "string", "description": "Host alias from config.yaml"},
            "version": {"type": "string", "description": "Pinned k3s release tag, e.g. 'v1.30.2+k3s1' or 'v1.30.2'. REQUIRED. Channel names (latest/stable/testing) are rejected here — use the channel param instead."},
            "channel": {"type": "string", "description": "Optional release channel: 'stable', 'latest', or 'testing'. Use only when version is a semver and you want to combine with a channel.", "enum": ["stable", "latest", "testing"]},
            "timeout_seconds": {"type": "integer", "description": "Timeout in seconds", "minimum": 1, "maximum": 3600},
            "max_output": {"type": "integer", "description": "Max output characters (0 = no limit)", "minimum": 0},
            "save_output": {"type": "string", "description": "Save full output to a file on the MCP server"}
        },
        "required": ["host", "version"]
    }"#;

impl StandardTool for K3sUpgradeTool {
    type Args = SshK3sUpgradeArgs;

    type Check = NoCheck;

    const NAME: &'static str = "ssh_k3s_upgrade";

    const DESCRIPTION: &'static str = DESCRIPTION;

    const SCHEMA: &'static str = SCHEMA;

    const GROUP: &'static str = "k3s";

    const ANNOTATION: Annotation = Annotation::Destructive;

    const OUTPUT_KIND: OutputKind = OutputKind::RawText;

    open spec fn command(args: SshK3sUpgradeArgs) -> Result<Seq<char>, Refusal> {
        command_unless(
            upgrade_refusal(args.version@, args.channel),
            upgrade_command(args.version@, args.channel),
        )
    }

    fn build_command(
        args: &SshK3sUpgradeArgs,
        _host_config: &HostConfig,
    ) -> (r: Result<String, BridgeError>) {
        K3sCommandBuilder::build_upgrade_command(args.version.as_str(), &args.channel)
    }
}

/// Handler for the `ssh_k3s_upgrade` tool.
pub type SshK3sUpgradeHandler = StandardToolHandler<K3sUpgradeTool>;

/// What clients are told of the tool.
pub proof fn presents_itself()
    ensures
        <SshK3sUpgradeHandler as ToolHandler>::TOOL_NAME@ == "ssh_k3s_upgrade"@,
        <SshK3sUpgradeHandler as ToolHandler>::TOOL_DESCRIPTION@ == DESCRIPTION@,
        <SshK3sUpgradeHandler as ToolHandler>::INPUT_SCHEMA@ == SCHEMA@,
        <SshK3sUpgradeHandler as ToolHandler>::TOOL_GROUP@ == "k3s"@,
        <SshK3sUpgradeHandler as ToolHandler>::EFFECT == Annotation::Destructive,
        <SshK3sUpgradeHandler as ToolHandler>::KIND == OutputKind::RawText,
{
    handler_presents_its_tool::<K3sUpgradeTool>();
}

} // verus!
