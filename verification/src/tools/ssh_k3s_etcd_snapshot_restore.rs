//! K3s etcd snapshot restore — rolls cluster back to a snapshot.
//! DESTRUCTIVE: wipes current etcd datastore. Stop k3s service BEFORE running.
use crate::builders::k3s::{path_refusal, snapshot_restore_command, K3sCommandBuilder};
use crate::config::HostConfig;
use crate::error::{BridgeError, Refusal};
use crate::shell::command_unless;
use crate::tool::{
    handler_presents_its_tool, Annotation, CommonArgs, NoCheck, OutputKind, StandardTool,
    StandardToolHandler, ToolHandler,
};
use vstd::prelude::*;

verus! {

/// Arguments for the `ssh_k3s_etcd_snapshot_restore` tool.
#[derive(Debug)]
pub struct SshK3sEtcdSnapshotRestoreArgs {
    pub host: String,
    pub snapshot_path: String,
    pub k3s_bin: Option<String>,
    pub timeout_seconds: Option<u64>,
    pub max_output: Option<u64>,
    pub save_output: Option<String>,
}

impl CommonArgs for SshK3sEtcdSnapshotRestoreArgs {
    open spec fn host_name(&self) -> Seq<char> {
        self.host@
    }

    fn host(&self) -> (r: &str) {
        self.host.as_str()
    }
}

/// Handler marker for the `ssh_k3s_etcd_snapshot_restore` tool.
pub struct K3sEtcdSnapshotRestoreTool;

/// What the tool is for, in words for its clients.
pub const DESCRIPTION: &'static str = "Restore K3s embedded etcd from a snapshot \
    (`k3s server --cluster-reset --cluster-reset-restore-path=<path>`). \
    **DESTRUCTIVE and IRREVERSIBLE**: wipes the current etcd datastore and rolls \
    back all cluster state to the snapshot. \
    **REQUIRED prerequisite**: stop k3s first (`ssh_service_stop service=k3s`), \
    then run this tool, then restart k3s. \
    `snapshot_path` must be an absolute path to the snapshot file.";

/// The JSON schema of the tool's arguments.
pub const SCHEMA: &'static str = r#"{
        "type": "object",
        "properties": {
            "host": {"type": "string", "description": "Host alias from config.yaml"},
            "snapshot_path": {"type": "string", "description": "Absolute path to the etcd snapshot file (e.g. /var/lib/rancher/k3s/server/db/snapshots/on-demand-2026-01-01.db)"},
            "k3s_bin": {"type": "string", "description": "Custom k3s binary path (default: auto-detect 'k3s')"},
            "timeout_seconds": {"type": "integer", "description": "Timeout in seconds", "minimum": 1, "maximum": 3600},
            "max_output": {"type": "integer", "description": "Max output characters (0 = no limit)", "minimum": 0},
            "save_output": {"type": "string", "description": "Save full output to a file on the MCP server"}
        },
        "required": ["host", "snapshot_path"]
    }"#;

impl StandardTool for K3sEtcdSnapshotRestoreTool {
    type Args = SshK3sEtcdSnapshotRestoreArgs;

    type Check = NoCheck;

    const NAME: &'static str = "ssh_k3s_etcd_snapshot_restore";

    const DESCRIPTION: &'static str = DESCRIPTION;

    const SCHEMA: &'static str = SCHEMA;

    const GROUP: &'static str = "k3s";

    const ANNOTATION: Annotation = Annotation::Destructive;

    const OUTPUT_KIND: OutputKind = OutputKind::RawText;

    open spec fn command(args: SshK3sEtcdSnapshotRestoreArgs) -> Result<Seq<char>, Refusal> {
        command_unless(
            path_refusal(args.snapshot_path@),
            snapshot_restore_command(args.k3s_bin, args.snapshot_path@),
        )
    }

    fn build_command(
        args: &SshK3sEtcdSnapshotRestoreArgs,
        _host_config: &HostConfig,
    ) -> (r: Result<String, BridgeError>) {
        K3sCommandBuilder::build_etcd_snapshot_restore_command(
            &args.k3s_bin,
            args.snapshot_path.as_str(),
        )
    }
}

/// Handler for the `ssh_k3s_etcd_snapshot_restore` tool.
pub type SshK3sEtcdSnapshotRestoreHandler = StandardToolHandler<K3sEtcdSnapshotRestoreTool>;

/// What clients are told of the tool.
pub proof fn presents_itself()
    ensures
        <SshK3sEtcdSnapshotRestoreHandler as ToolHandler>::TOOL_NAME@ == "ssh_k3s_etcd_snapshot_restore"@,
        <SshK3sEtcdSnapshotRestoreHandler as ToolHandler>::TOOL_DESCRIPTION@ == DESCRIPTION@,
        <SshK3sEtcdSnapshotRestoreHandler as ToolHandler>::INPUT_SCHEMA@ == SCHEMA@,
        <SshK3sEtcdSnapshotRestoreHandler as ToolHandler>::TOOL_GROUP@ == "k3s"@,
        <SshK3sEtcdSnapshotRestoreHandler as ToolHandler>::EFFECT == Annotation::Destructive,
        <SshK3sEtcdSnapshotRestoreHandler as ToolHandler>::KIND == OutputKind::RawText,
{
    handler_presents_its_tool::<K3sEtcdSnapshotRestoreTool>();
}

} // verus!
