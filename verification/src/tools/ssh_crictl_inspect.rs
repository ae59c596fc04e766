//! crictl inspect Tool Handler — inspect a CRI container, pod, or image.
use crate::builders::crictl::{
    container_id_refusal, inspect_command, inspect_kind_refusal, validate_container_id,
    validate_inspect_kind, CrictlCommandBuilder,
};
use crate::config::HostConfig;
use crate::error::{first_of, missing_param, BridgeError, Refusal};
use crate::shell::command_unless;
use crate::tool::{
    handler_presents_its_tool, Annotation, CommonArgs, NoCheck, OutputKind, StandardTool,
    StandardToolHandler, ToolHandler,
};
use vstd::prelude::*;

verus! {

/// Arguments for the `ssh_crictl_inspect` tool.
#[derive(Debug)]
pub struct SshCrictlInspectArgs {
    pub host: String,
    pub kind: String,
    pub id: String,
    pub output: Option<String>,
    pub crictl_bin: Option<String>,
    pub timeout_seconds: Option<u64>,
    pub max_output: Option<u64>,
    pub save_output: Option<String>,
}

impl CommonArgs for SshCrictlInspectArgs {
    open spec fn host_name(&self) -> Seq<char> {
        self.host@
    }

    fn host(&self) -> (r: &str) {
        self.host.as_str()
    }
}

/// Handler marker for `ssh_crictl_inspect`.
pub struct CrictlInspectTool;

/// What the tool is for, in words for its clients.
pub const DESCRIPTION: &'static str =
    "Inspect a CRI object (container, pod sandbox, or image) on a K3s node. \
    Maps `kind` to the correct crictl sub-command: `container` → `crictl inspect`, \
    `pod` → `crictl inspectp`, `image` → `crictl inspecti`. \
    Defaults to JSON output for jq_filter reduction.";

/// The JSON schema of the tool's arguments.
pub const SCHEMA: &'static str = r#"{
        "type": "object",
        "properties": {
            "host": {"type": "string", "description": "Host alias from config.yaml (use ssh_status to list hosts)"},
            "kind": {"type": "string", "description": "Object type to inspect: container, pod, or image"},
            "id": {"type": "string", "description": "Container/pod/image ID to inspect"},
            "output": {"type": "string", "description": "Output format: json (default), yaml, go-template"},
            "crictl_bin": {"type": "string", "description": "Custom crictl binary/prefix (default: auto-detect 'k3s crictl')"},
            "timeout_seconds": {"type": "integer", "description": "Optional timeout in seconds (default: from config)", "minimum": 1, "maximum": 3600},
            "max_output": {"type": "integer", "description": "Max output characters (0 = no limit). Truncated output yields an output_id for ssh_output_fetch.", "minimum": 0},
            "save_output": {"type": "string", "description": "Save full output to a local file on the MCP server."}
        },
        "required": ["host", "kind", "id"]
    }"#;

impl StandardTool for CrictlInspectTool {
    type Args = SshCrictlInspectArgs;

    type Check = NoCheck;

    const NAME: &'static str = "ssh_crictl_inspect";

    const DESCRIPTION: &'static str = DESCRIPTION;

    const SCHEMA: &'static str = SCHEMA;

    const GROUP: &'static str = "cri";

    const ANNOTATION: Annotation = Annotation::ReadOnly;

    const OUTPUT_KIND: OutputKind = OutputKind::Auto;

    open spec fn command(args: SshCrictlInspectArgs) -> Result<Seq<char>, Refusal> {
        if args.kind@.len() == 0 {
            Err(Refusal::MissingParam("kind"@))
        } else if args.id@.len() == 0 {
            Err(Refusal::MissingParam("id"@))
        } else {
            command_unless(
                first_of(inspect_kind_refusal(args.kind@), container_id_refusal(args.id@)),
                inspect_command(args.crictl_bin, args.kind@, args.id@, args.output),
            )
        }
    }

    fn build_command(
        args: &SshCrictlInspectArgs,
        _host_config: &HostConfig,
    ) -> (r: Result<String, BridgeError>) {
        if args.kind.as_str().is_empty() {
            return Err(missing_param("kind"));
        }
        if args.id.as_str().is_empty() {
            return Err(missing_param("id"));
        }
        validate_inspect_kind(args.kind.as_str())?;
        validate_container_id(args.id.as_str())?;
        Ok(
            CrictlCommandBuilder::build_inspect_command(
                &args.crictl_bin,
                args.kind.as_str(),
                args.id.as_str(),
                &args.output,
            ),
        )
    }
}

/// Handler for `ssh_crictl_inspect`.
pub type SshCrictlInspectHandler = StandardToolHandler<CrictlInspectTool>;

/// What clients are told of the tool.
pub proof fn presents_itself()
    ensures
        <SshCrictlInspectHandler as ToolHandler>::TOOL_NAME@ == "ssh_crictl_inspect"@,
        <SshCrictlInspectHandler as ToolHandler>::TOOL_DESCRIPTION@ == DESCRIPTION@,
        <SshCrictlInspectHandler as ToolHandler>::INPUT_SCHEMA@ == SCHEMA@,
        <SshCrictlInspectHandler as ToolHandler>::TOOL_GROUP@ == "cri"@,
        <SshCrictlInspectHandler as ToolHandler>::EFFECT == Annotation::ReadOnly,
        <SshCrictlInspectHandler as ToolHandler>::KIND == OutputKind::Auto,
{
    handler_presents_its_tool::<CrictlInspectTool>();
}

} // verus!
