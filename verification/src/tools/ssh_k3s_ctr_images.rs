//! `ssh_k3s_ctr_images` Tool Handler — manage images via k3s ctr.
use crate::builders::k3s::{
    ctr_action_refusal, ctr_images_command, path_refusal, validate_ctr_action, validate_path,
    K3sCommandBuilder,
};
use crate::config::HostConfig;
use crate::error::{first_of, if_some, BridgeError, Refusal};
use crate::tool::{
    handler_presents_its_tool, Annotation, CommonArgs, NoCheck, OutputKind, StandardTool,
    StandardToolHandler, ToolHandler,
};
use vstd::prelude::*;

verus! {

/// Arguments for the `ssh_k3s_ctr_images` tool.
#[derive(Debug)]
pub struct SshK3sCtrImagesArgs {
    pub host: String,
    pub action: String,
    pub tarball: Option<String>,
    pub k3s_bin: Option<String>,
    pub timeout_seconds: Option<u64>,
    pub max_output: Option<u64>,
    pub save_output: Option<String>,
}

impl CommonArgs for SshK3sCtrImagesArgs {
    open spec fn host_name(&self) -> Seq<char> {
        self.host@
    }

    fn host(&self) -> (r: &str) {
        self.host.as_str()
    }
}

/// Handler marker for `ssh_k3s_ctr_images`.
pub struct SshK3sCtrImagesTool;

/// What the tool is for, in words for its clients.
pub const DESCRIPTION: &'static str = "Manage container images via `k3s ctr images`. \
    Supports listing (`ls`/`list`) and importing from a tarball (`import`). \
    The `import` action requires a `tarball` path. \
    Use `jq_filter` on `ls` output to reduce token usage.";

/// The JSON schema of the tool's arguments.
pub const SCHEMA: &'static str = r#"{
        "type": "object",
        "properties": {
            "host": {"type": "string", "description": "Host alias from config.yaml (use ssh_status to list hosts)"},
            "action": {"type": "string", "description": "Action to perform: 'ls', 'list', or 'import'."},
            "tarball": {"type": "string", "description": "Absolute path to the tarball to import (required for action='import')."},
            "k3s_bin": {"type": "string", "description": "Custom k3s binary path (default: auto-detect 'k3s')."},
            "timeout_seconds": {"type": "integer", "description": "Optional timeout in seconds (default: from config).", "minimum": 1, "maximum": 3600},
            "max_output": {"type": "integer", "description": "Max output characters (0 = no limit).", "minimum": 0},
            "save_output": {"type": "string", "description": "Save full output to a local file on the MCP server."}
        },
        "required": ["host", "action"]
    }"#;

impl StandardTool for SshK3sCtrImagesTool {
    type Args = SshK3sCtrImagesArgs;

    type Check = NoCheck;

    const NAME: &'static str = "ssh_k3s_ctr_images";

    const DESCRIPTION: &'static str = DESCRIPTION;

    const SCHEMA: &'static str = SCHEMA;

    const GROUP: &'static str = "k3s";

    const ANNOTATION: Annotation = Annotation::Mutating;

    const OUTPUT_KIND: OutputKind = OutputKind::Auto;

    open spec fn command(args: SshK3sCtrImagesArgs) -> Result<Seq<char>, Refusal> {
        match first_of(
            ctr_action_refusal(args.action@),
            if_some(args.tarball, |p: Seq<char>| path_refusal(p)),
        ) {
            Some(refusal) => Err(refusal),
            None => ctr_images_command(args.k3s_bin, args.action@, args.tarball),
        }
    }

    fn build_command(
        args: &SshK3sCtrImagesArgs,
        _host_config: &HostConfig,
    ) -> (r: Result<String, BridgeError>) {
        validate_ctr_action(args.action.as_str())?;
        if let Some(t) = &args.tarball {
            validate_path(t.as_str())?;
        }
        K3sCommandBuilder::build_ctr_images_command(
            &args.k3s_bin,
            args.action.as_str(),
            &args.tarball,
        )
    }
}

/// Handler for `ssh_k3s_ctr_images`.
pub type SshK3sCtrImagesHandler = StandardToolHandler<SshK3sCtrImagesTool>;

/// What clients are told of the tool.
pub proof fn presents_itself()
    ensures
        <SshK3sCtrImagesHandler as ToolHandler>::TOOL_NAME@ == "ssh_k3s_ctr_images"@,
        <SshK3sCtrImagesHandler as ToolHandler>::TOOL_DESCRIPTION@ == DESCRIPTION@,
        <SshK3sCtrImagesHandler as ToolHandler>::INPUT_SCHEMA@ == SCHEMA@,
        <SshK3sCtrImagesHandler as ToolHandler>::TOOL_GROUP@ == "k3s"@,
        <SshK3sCtrImagesHandler as ToolHandler>::EFFECT == Annotation::Mutating,
        <SshK3sCtrImagesHandler as ToolHandler>::KIND == OutputKind::Auto,
{
    handler_presents_its_tool::<SshK3sCtrImagesTool>();
}

} // verus!
