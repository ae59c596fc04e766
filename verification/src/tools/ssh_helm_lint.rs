//! SSH Helm Lint Tool Handler
//!
//! Lints Helm charts on a remote host via SSH.
use crate::builders::helm::{lint_command, HelmCommandBuilder};
use crate::config::HostConfig;
use crate::error::{BridgeError, Refusal};
use crate::shell::{is_on, on, render};
use crate::string_map::StringMap;
use crate::tool::{
    handler_presents_its_tool, Annotation, CommonArgs, NoCheck, OutputKind, StandardTool,
    StandardToolHandler, ToolHandler,
};
use vstd::prelude::*;

verus! {

/// Arguments for the `ssh_helm_lint` tool.
#[derive(Debug)]
pub struct SshHelmLintArgs {
    pub host: String,
    pub chart_path: String,
    pub strict: Option<bool>,
    pub values_files: Option<Vec<String>>,
    pub set_values: Option<StringMap>,
    pub quiet: Option<bool>,
    pub helm_bin: Option<String>,
    pub timeout_seconds: Option<u64>,
    pub max_output: Option<u64>,
    pub save_output: Option<String>,
}

impl CommonArgs for SshHelmLintArgs {
    open spec fn host_name(&self) -> Seq<char> {
        self.host@
    }

    fn host(&self) -> (r: &str) {
        self.host.as_str()
    }
}

/// Handler marker for the `ssh_helm_lint` tool.
pub struct HelmLintTool;

/// What the tool is for, in words for its clients.
pub const DESCRIPTION: &'static str =
    "Lint a Helm chart on a remote host. Validates chart structure, \
    templates, and values. Use strict mode to treat warnings as errors. \
    Supply values files or --set overrides to lint with specific configuration. \
    Auto-detects helm binary.";

/// The JSON schema of the tool's arguments.
pub const SCHEMA: &'static str = r#"{
        "type": "object",
        "properties": {
            "host": {
                "type": "string",
                "description": "Host alias from config.yaml (use ssh_status to list available hosts)"
            },
            "chart_path": {
                "type": "string",
                "description": "Path to the chart directory or archive on the remote host"
            },
            "strict": {
                "type": "boolean",
                "description": "Fail on lint warnings (not just errors)"
            },
            "values_files": {
                "type": "array",
                "items": {"type": "string"},
                "description": "Value files to use during linting (-f flag for each)"
            },
            "set_values": {
                "type": "object",
                "additionalProperties": {"type": "string"},
                "description": "Key-value pairs to pass as --set overrides"
            },
            "quiet": {
                "type": "boolean",
                "description": "Print only warnings and errors"
            },
            "helm_bin": {
                "type": "string",
                "description": "Custom helm binary path (default: auto-detect)"
            },
            "timeout_seconds": {
                "type": "integer",
                "description": "Optional timeout in seconds (default: from config)",
                "minimum": 1,
                "maximum": 3600
            },
            "max_output": {
                "type": "integer",
                "description": "Max output characters (default: from server config, typically 20000, 0 = no limit). Truncated output includes an output_id for retrieval via ssh_output_fetch.",
                "minimum": 0
            }
        },
        "required": ["host", "chart_path"]
    }"#;

impl StandardTool for HelmLintTool {
    type Args = SshHelmLintArgs;

    type Check = NoCheck;

    const NAME: &'static str = "ssh_helm_lint";

    const DESCRIPTION: &'static str = DESCRIPTION;

    const SCHEMA: &'static str = SCHEMA;

    const GROUP: &'static str = "kubernetes";

    const ANNOTATION: Annotation = Annotation::ReadOnly;

    const OUTPUT_KIND: OutputKind = OutputKind::RawText;

    open spec fn command(args: SshHelmLintArgs) -> Result<Seq<char>, Refusal> {
        Ok(
            render(
                lint_command(
                    args.helm_bin,
                    args.chart_path@,
                    is_on(args.strict),
                    args.values_files,
                    args.set_values,
                    is_on(args.quiet),
                ),
            ),
        )
    }

    fn build_command(
        args: &SshHelmLintArgs,
        _host_config: &HostConfig,
    ) -> (r: Result<String, BridgeError>) {
        Ok(
            HelmCommandBuilder::build_lint_command(
                &args.helm_bin,
                args.chart_path.as_str(),
                on(args.strict),
                &args.values_files,
                &args.set_values,
                on(args.quiet),
            ),
        )
    }
}

/// Handler for the `ssh_helm_lint` tool.
pub type SshHelmLintHandler = StandardToolHandler<HelmLintTool>;

/// What clients are told of the tool.
pub proof fn presents_itself()
    ensures
        <SshHelmLintHandler as ToolHandler>::TOOL_NAME@ == "ssh_helm_lint"@,
        <SshHelmLintHandler as ToolHandler>::TOOL_DESCRIPTION@ == DESCRIPTION@,
        <SshHelmLintHandler as ToolHandler>::INPUT_SCHEMA@ == SCHEMA@,
        <SshHelmLintHandler as ToolHandler>::TOOL_GROUP@ == "kubernetes"@,
        <SshHelmLintHandler as ToolHandler>::EFFECT == Annotation::ReadOnly,
        <SshHelmLintHandler as ToolHandler>::KIND == OutputKind::RawText,
{
    handler_presents_its_tool::<HelmLintTool>();
}

} // verus!
