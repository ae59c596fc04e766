//! SSH Helm Diff Tool Handler
//!
//! Shows diff of Helm releases using the helm-diff plugin on a remote host via SSH.
use crate::builders::helm::{diff_refusal, helm_diff_command, HelmCommandBuilder};
use crate::config::HostConfig;
use crate::error::{denied_because, first_of, unless, BridgeError, Refusal};
use crate::shell::{command_unless, is_on, on};
use crate::string_map::StringMap;
use crate::text::same_text;
use crate::tool::{
    handler_presents_its_tool, Annotation, CommonArgs, NoCheck, OutputKind, StandardTool,
    StandardToolHandler, ToolHandler,
};
use vstd::prelude::*;

verus! {

/// Arguments for the `ssh_helm_diff` tool.
#[derive(Debug)]
pub struct SshHelmDiffArgs {
    pub host: String,
    pub subcommand: String,
    pub release: String,
    pub chart: Option<String>,
    pub namespace: Option<String>,
    pub values_files: Option<Vec<String>>,
    pub set_values: Option<StringMap>,
    pub version: Option<String>,
    pub detailed_exitcode: Option<bool>,
    pub helm_bin: Option<String>,
    pub timeout_seconds: Option<u64>,
    pub max_output: Option<u64>,
    pub save_output: Option<String>,
}

impl CommonArgs for SshHelmDiffArgs {
    open spec fn host_name(&self) -> Seq<char> {
        self.host@
    }

    fn host(&self) -> (r: &str) {
        self.host.as_str()
    }
}

/// Handler marker for the `ssh_helm_diff` tool.
pub struct HelmDiffTool;

/// What the tool is for, in words for its clients.
pub const DESCRIPTION: &'static str =
    "Show diff of Helm changes using the helm-diff plugin on a remote host. \
    Requires the helm-diff plugin to be installed (helm plugin install https://github.com/databus23/helm-diff). \
    subcommand: upgrade | rollback | release | revision. \
    Use upgrade to preview changes before helm upgrade. Use rollback to see what a rollback would do. \
    Auto-detects helm binary. Exits with code 4 if helm-diff plugin is not installed.";

/// The JSON schema of the tool's arguments.
pub const SCHEMA: &'static str = r#"{
        "type": "object",
        "properties": {
            "host": {
                "type": "string",
                "description": "Host alias from config.yaml (use ssh_status to list available hosts)"
            },
            "subcommand": {
                "type": "string",
                "enum": ["upgrade", "rollback", "release", "revision"],
                "description": "Diff subcommand: upgrade | rollback | release | revision"
            },
            "release": {
                "type": "string",
                "description": "Helm release name"
            },
            "chart": {
                "type": "string",
                "description": "Chart name or path (required for upgrade subcommand)"
            },
            "namespace": {
                "type": "string",
                "description": "Kubernetes namespace"
            },
            "values_files": {
                "type": "array",
                "items": {"type": "string"},
                "description": "Value files to use during diff (-f flag for each)"
            },
            "set_values": {
                "type": "object",
                "additionalProperties": {"type": "string"},
                "description": "Key-value pairs to pass as --set overrides"
            },
            "version": {
                "type": "string",
                "description": "Chart version to diff against"
            },
            "detailed_exitcode": {
                "type": "boolean",
                "description": "Exit with 2 if there are changes, 0 if no changes"
            },
            "helm_bin": {
                "type": "string",
                "description": "Custom helm binary path (default: auto-detect)"
            },
            "timeout_seconds": {
                "type": "integer",
                "description": "Optional timeout in seconds (default: from config)",
                "minimum": 1,
                "maximum": 3600
            },
            "max_output": {
                "type": "integer",
                "description": "Max output characters (default: from server config, typically 20000, 0 = no limit). Truncated output includes an output_id for retrieval via ssh_output_fetch.",
                "minimum": 0
            }
        },
        "required": ["host", "subcommand", "release"]
    }"#;

impl StandardTool for HelmDiffTool {
    type Args = SshHelmDiffArgs;

    type Check = NoCheck;

    const NAME: &'static str = "ssh_helm_diff";

    const DESCRIPTION: &'static str = DESCRIPTION;

    const SCHEMA: &'static str = SCHEMA;

    const GROUP: &'static str = "kubernetes";

    const ANNOTATION: Annotation = Annotation::ReadOnly;

    const OUTPUT_KIND: OutputKind = OutputKind::RawText;

    open spec fn command(args: SshHelmDiffArgs) -> Result<Seq<char>, Refusal> {
        command_unless(
            first_of(
                diff_refusal(args.subcommand@),
                unless(
                    args.subcommand@ != "upgrade"@ || args.chart is Some,
                    "chart is required for the upgrade subcommand"@,
                ),
            ),
            helm_diff_command(
                args.helm_bin,
                args.subcommand@,
                args.release@,
                args.chart,
                args.namespace,
                args.values_files,
                args.set_values,
                args.version,
                is_on(args.detailed_exitcode),
            ),
        )
    }

    fn build_command(
        args: &SshHelmDiffArgs,
        _host_config: &HostConfig,
    ) -> (r: Result<String, BridgeError>) {
        HelmCommandBuilder::validate_diff_subcommand(args.subcommand.as_str())?;
        if same_text(args.subcommand.as_str(), "upgrade") && args.chart.is_none() {
            return Err(denied_because("chart is required for the upgrade subcommand"));
        }
        Ok(
            HelmCommandBuilder::build_diff_command(
                &args.helm_bin,
                args.subcommand.as_str(),
                args.release.as_str(),
                &args.chart,
                &args.namespace,
                &args.values_files,
                &args.set_values,
                &args.version,
                on(args.detailed_exitcode),
            ),
        )
    }
}

/// Handler for the `ssh_helm_diff` tool.
pub type SshHelmDiffHandler = StandardToolHandler<HelmDiffTool>;

/// What clients are told of the tool.
pub proof fn presents_itself()
    ensures
        <SshHelmDiffHandler as ToolHandler>::TOOL_NAME@ == "ssh_helm_diff"@,
        <SshHelmDiffHandler as ToolHandler>::TOOL_DESCRIPTION@ == DESCRIPTION@,
        <SshHelmDiffHandler as ToolHandler>::INPUT_SCHEMA@ == SCHEMA@,
        <SshHelmDiffHandler as ToolHandler>::TOOL_GROUP@ == "kubernetes"@,
        <SshHelmDiffHandler as ToolHandler>::EFFECT == Annotation::ReadOnly,
        <SshHelmDiffHandler as ToolHandler>::KIND == OutputKind::RawText,
{
    handler_presents_its_tool::<HelmDiffTool>();
}

} // verus!
