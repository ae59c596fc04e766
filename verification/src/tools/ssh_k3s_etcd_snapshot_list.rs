//! `ssh_k3s_etcd_snapshot_list` Tool Handler — list k3s etcd snapshots as JSON.
use crate::builders::k3s::{path_refusal, snapshot_list_command, validate_path, K3sCommandBuilder};
use crate::config::HostConfig;
use crate::error::{if_some, BridgeError, Refusal};
use crate::shell::command_unless;
use crate::tool::{
    handler_presents_its_tool, Annotation, CommonArgs, NoCheck, OutputKind, StandardTool,
    StandardToolHandler, ToolHandler,
};
use vstd::prelude::*;

verus! {

/// Arguments for the `ssh_k3s_etcd_snapshot_list` tool.
#[derive(Debug)]
pub struct SshK3sEtcdSnapshotListArgs {
    pub host: String,
    pub dir: Option<String>,
    pub k3s_bin: Option<String>,
    pub timeout_seconds: Option<u64>,
    pub max_output: Option<u64>,
    pub save_output: Option<String>,
}

impl CommonArgs for SshK3sEtcdSnapshotListArgs {
    open spec fn host_name(&self) -> Seq<char> {
        self.host@
    }

    fn host(&self) -> (r: &str) {
        self.host.as_str()
    }
}

/// Handler marker for `ssh_k3s_etcd_snapshot_list`.
pub struct SshK3sEtcdSnapshotListTool;

/// What the tool is for, in words for its clients.
pub const DESCRIPTION: &'static str =
    "List k3s embedded-etcd snapshots as JSON (`k3s etcd-snapshot ls -o json`). \
    Use `jq_filter` to extract specific snapshot metadata. \
    Filter by directory with `dir`.";

/// The JSON schema of the tool's arguments.
pub const SCHEMA: &'static str = r#"{
        "type": "object",
        "properties": {
            "host": {"type": "string", "description": "Host alias from config.yaml (use ssh_status to list hosts)"},
            "dir": {"type": "string", "description": "Absolute path to the snapshots directory to list."},
            "k3s_bin": {"type": "string", "description": "Custom k3s binary path (default: auto-detect 'k3s')."},
            "timeout_seconds": {"type": "integer", "description": "Optional timeout in seconds (default: from config).", "minimum": 1, "maximum": 3600},
            "max_output": {"type": "integer", "description": "Max output characters (0 = no limit).", "minimum": 0},
            "save_output": {"type": "string", "description": "Save full output to a local file on the MCP server."}
        },
        "required": ["host"]
    }"#;

impl StandardTool for SshK3sEtcdSnapshotListTool {
    type Args = SshK3sEtcdSnapshotListArgs;

    type Check = NoCheck;

    const NAME: &'static str = "ssh_k3s_etcd_snapshot_list";

    const DESCRIPTION: &'static str = DESCRIPTION;

    const SCHEMA: &'static str = SCHEMA;

    const GROUP: &'static str = "k3s";

    const ANNOTATION: Annotation = Annotation::ReadOnly;

    const OUTPUT_KIND: OutputKind = OutputKind::Auto;

    open spec fn command(args: SshK3sEtcdSnapshotListArgs) -> Result<Seq<char>, Refusal> {
        command_unless(
            if_some(args.dir, |d: Seq<char>| path_refusal(d)),
            snapshot_list_command(args.k3s_bin, args.dir),
        )
    }

    fn build_command(
        args: &SshK3sEtcdSnapshotListArgs,
        _host_config: &HostConfig,
    ) -> (r: Result<String, BridgeError>) {
        if let Some(d) = &args.dir {
            validate_path(d.as_str())?;
        }
        Ok(K3sCommandBuilder::build_etcd_snapshot_list_command(&args.k3s_bin, &args.dir))
    }
}

/// Handler for `ssh_k3s_etcd_snapshot_list`.
pub type SshK3sEtcdSnapshotListHandler = StandardToolHandler<SshK3sEtcdSnapshotListTool>;

/// What clients are told of the tool.
pub proof fn presents_itself()
    ensures
        <SshK3sEtcdSnapshotListHandler as ToolHandler>::TOOL_NAME@ == "ssh_k3s_etcd_snapshot_list"@,
        <SshK3sEtcdSnapshotListHandler as ToolHandler>::TOOL_DESCRIPTION@ == DESCRIPTION@,
        <SshK3sEtcdSnapshotListHandler as ToolHandler>::INPUT_SCHEMA@ == SCHEMA@,
        <SshK3sEtcdSnapshotListHandler as ToolHandler>::TOOL_GROUP@ == "k3s"@,
        <SshK3sEtcdSnapshotListHandler as ToolHandler>::EFFECT == Annotation::ReadOnly,
        <SshK3sEtcdSnapshotListHandler as ToolHandler>::KIND == OutputKind::Auto,
{
    handler_presents_its_tool::<SshK3sEtcdSnapshotListTool>();
}

} // verus!
