//! `ssh_k3s_etcd_snapshot_save` Tool Handler — trigger a k3s etcd snapshot.
use crate::builders::k3s::{
    path_refusal, snapshot_name_refusal, snapshot_save_command, validate_path,
    validate_snapshot_name, K3sCommandBuilder,
};
use crate::config::HostConfig;
use crate::error::{first_of, if_some, BridgeError, Refusal};
use crate::shell::command_unless;
use crate::tool::{
    handler_presents_its_tool, Annotation, CommonArgs, NoCheck, OutputKind, StandardTool,
    StandardToolHandler, ToolHandler,
};
use vstd::prelude::*;

verus! {

/// Arguments for the `ssh_k3s_etcd_snapshot_save` tool.
#[derive(Debug)]
pub struct SshK3sEtcdSnapshotSaveArgs {
    pub host: String,
    pub name: Option<String>,
    pub dir: Option<String>,
    pub k3s_bin: Option<String>,
    pub timeout_seconds: Option<u64>,
    pub max_output: Option<u64>,
    pub save_output: Option<String>,
}

impl CommonArgs for SshK3sEtcdSnapshotSaveArgs {
    open spec fn host_name(&self) -> Seq<char> {
        self.host@
    }

    fn host(&self) -> (r: &str) {
        self.host.as_str()
    }
}

/// Handler marker for `ssh_k3s_etcd_snapshot_save`.
pub struct SshK3sEtcdSnapshotSaveTool;

/// What the tool is for, in words for its clients.
pub const DESCRIPTION: &'static str =
    "Trigger a k3s embedded-etcd snapshot (`k3s etcd-snapshot save`). \
    Saves a point-in-time backup of the cluster state. \
    Use `ssh_k3s_etcd_snapshot_list` to verify the snapshot afterwards.";

/// The JSON schema of the tool's arguments.
pub const SCHEMA: &'static str = r#"{
        "type": "object",
        "properties": {
            "host": {"type": "string", "description": "Host alias from config.yaml (use ssh_status to list hosts)"},
            "name": {"type": "string", "description": "Snapshot name (default: auto-generated timestamp). Charset: [A-Za-z0-9._-], no leading '-'."},
            "dir": {"type": "string", "description": "Absolute path to the output directory (default: /var/lib/rancher/k3s/server/db/snapshots)."},
            "k3s_bin": {"type": "string", "description": "Custom k3s binary path (default: auto-detect 'k3s')."},
            "timeout_seconds": {"type": "integer", "description": "Optional timeout in seconds (default: from config).", "minimum": 1, "maximum": 3600},
            "max_output": {"type": "integer", "description": "Max output characters (0 = no limit).", "minimum": 0},
            "save_output": {"type": "string", "description": "Save full output to a local file on the MCP server."}
        },
        "required": ["host"]
    }"#;

impl StandardTool for SshK3sEtcdSnapshotSaveTool {
    type Args = SshK3sEtcdSnapshotSaveArgs;

    type Check = NoCheck;

    const NAME: &'static str = "ssh_k3s_etcd_snapshot_save";

    const DESCRIPTION: &'static str = DESCRIPTION;

    const SCHEMA: &'static str = SCHEMA;

    const GROUP: &'static str = "k3s";

    const ANNOTATION: Annotation = Annotation::Mutating;

    const OUTPUT_KIND: OutputKind = OutputKind::RawText;

    open spec fn command(args: SshK3sEtcdSnapshotSaveArgs) -> Result<Seq<char>, Refusal> {
        command_unless(
            first_of(
                if_some(args.name, |n: Seq<char>| snapshot_name_refusal(n)),
                if_some(args.dir, |d: Seq<char>| path_refusal(d)),
            ),
            snapshot_save_command(args.k3s_bin, args.name, args.dir),
        )
    }

    fn build_command(
        args: &SshK3sEtcdSnapshotSaveArgs,
        _host_config: &HostConfig,
    ) -> (r: Result<String, BridgeError>) {
        if let Some(n) = &args.name {
            validate_snapshot_name(n.as_str())?;
        }
        if let Some(d) = &args.dir {
            validate_path(d.as_str())?;
        }
        Ok(
            K3sCommandBuilder::build_etcd_snapshot_save_command(
                &args.k3s_bin,
                &args.name,
                &args.dir,
            ),
        )
    }
}

/// Handler for `ssh_k3s_etcd_snapshot_save`.
pub type SshK3sEtcdSnapshotSaveHandler = StandardToolHandler<SshK3sEtcdSnapshotSaveTool>;

/// What clients are told of the tool.
pub proof fn presents_itself()
    ensures
        <SshK3sEtcdSnapshotSaveHandler as ToolHandler>::TOOL_NAME@ == "ssh_k3s_etcd_snapshot_save"@,
        <SshK3sEtcdSnapshotSaveHandler as ToolHandler>::TOOL_DESCRIPTION@ == DESCRIPTION@,
        <SshK3sEtcdSnapshotSaveHandler as ToolHandler>::INPUT_SCHEMA@ == SCHEMA@,
        <SshK3sEtcdSnapshotSaveHandler as ToolHandler>::TOOL_GROUP@ == "k3s"@,
        <SshK3sEtcdSnapshotSaveHandler as ToolHandler>::EFFECT == Annotation::Mutating,
        <SshK3sEtcdSnapshotSaveHandler as ToolHandler>::KIND == OutputKind::RawText,
{
    handler_presents_its_tool::<SshK3sEtcdSnapshotSaveTool>();
}

} // verus!
