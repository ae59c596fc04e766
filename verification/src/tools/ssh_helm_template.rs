//! Helm Template Tool Handler
//!
//! Renders a chart's manifests client-side (helm template) via SSH — no cluster mutation.
use crate::builders::helm::{template_command, HelmCommandBuilder};
use crate::builders::kubernetes::KubernetesCommandBuilder;
use crate::builders::names::namespace_refusal;
use crate::config::HostConfig;
use crate::error::{if_some, BridgeError, Refusal};
use crate::shell::command_unless;
use crate::string_map::StringMap;
use crate::tool::{
    handler_presents_its_tool, Annotation, CommonArgs, NoCheck, OutputKind, StandardTool,
    StandardToolHandler, ToolHandler,
};
use vstd::prelude::*;

verus! {

/// Arguments for the `ssh_helm_template` tool.
#[derive(Debug)]
pub struct SshHelmTemplateArgs {
    pub host: String,
    pub release: String,
    pub chart: String,
    pub namespace: Option<String>,
    pub set_values: Option<StringMap>,
    pub values_files: Option<Vec<String>>,
    pub version: Option<String>,
    pub show_only: Option<Vec<String>>,
    pub helm_bin: Option<String>,
    pub kubeconfig: Option<String>,
    pub timeout_seconds: Option<u64>,
    pub max_output: Option<u64>,
    pub save_output: Option<String>,
}

impl CommonArgs for SshHelmTemplateArgs {
    open spec fn host_name(&self) -> Seq<char> {
        self.host@
    }

    fn host(&self) -> (r: &str) {
        self.host.as_str()
    }
}

/// Handler marker for the `ssh_helm_template` tool.
pub struct HelmTemplateTool;

/// What the tool is for, in words for its clients.
pub const DESCRIPTION: &'static str =
    "Render a Helm chart's Kubernetes manifests locally (helm template) without touching the \
    cluster. Validate image tags/limits/securityContext before an install/upgrade. Use \
    show_only to render a single template.";

/// The JSON schema of the tool's arguments.
pub const SCHEMA: &'static str = r#"{
        "type": "object",
        "properties": {
            "host": {
                "type": "string",
                "description": "Host alias from config.yaml (use ssh_status to list available hosts)"
            },
            "release": {
                "type": "string",
                "description": "Helm release name"
            },
            "chart": {
                "type": "string",
                "description": "Chart reference (repo/chart or local path)"
            },
            "namespace": {
                "type": "string",
                "description": "Kubernetes namespace (default: current context namespace)"
            },
            "set_values": {
                "type": "object",
                "description": "Key-value pairs for --set",
                "additionalProperties": { "type": "string" }
            },
            "values_files": {
                "type": "array",
                "items": { "type": "string" },
                "description": "Paths to values YAML files on the remote host"
            },
            "version": {
                "type": "string",
                "description": "Chart version constraint"
            },
            "show_only": {
                "type": "array",
                "items": { "type": "string" },
                "description": "Only render listed templates, e.g. templates/deployment.yaml"
            },
            "helm_bin": {
                "type": "string",
                "description": "Custom helm binary path (default: auto-detect)"
            },
            "kubeconfig": {
                "type": "string",
                "description": "Path to kubeconfig file (e.g., /etc/rancher/k3s/k3s.yaml for K3s)"
            },
            "timeout_seconds": {
                "type": "integer",
                "description": "Optional timeout in seconds (default: from config)",
                "minimum": 1,
                "maximum": 3600
            },
            "max_output": {
                "type": "integer",
                "description": "Max output characters (default: from server config, typically 20000, 0 = no limit). Truncated output includes an output_id for retrieval via ssh_output_fetch.",
                "minimum": 0
            }
        },
        "required": ["host", "release", "chart"]
    }"#;

impl StandardTool for HelmTemplateTool {
    type Args = SshHelmTemplateArgs;

    type Check = NoCheck;

    const NAME: &'static str = "ssh_helm_template";

    const DESCRIPTION: &'static str = DESCRIPTION;

    const SCHEMA: &'static str = SCHEMA;

    const GROUP: &'static str = "kubernetes";

    const ANNOTATION: Annotation = Annotation::ReadOnly;

    const OUTPUT_KIND: OutputKind = OutputKind::Yaml;

    open spec fn command(args: SshHelmTemplateArgs) -> Result<Seq<char>, Refusal> {
        command_unless(
            if_some(args.namespace, |ns: Seq<char>| namespace_refusal(ns)),
            template_command(
                args.helm_bin,
                args.kubeconfig,
                args.release@,
                args.chart@,
                args.namespace,
                args.set_values,
                args.values_files,
                args.version,
                args.show_only,
            ),
        )
    }

    fn build_command(
        args: &SshHelmTemplateArgs,
        _host_config: &HostConfig,
    ) -> (r: Result<String, BridgeError>) {
        if let Some(ns) = &args.namespace {
            KubernetesCommandBuilder::validate_namespace(ns.as_str())?;
        }
        Ok(
            HelmCommandBuilder::build_template_command(
                &args.helm_bin,
                &args.kubeconfig,
                args.release.as_str(),
                args.chart.as_str(),
                &args.namespace,
                &args.set_values,
                &args.values_files,
                &args.version,
                &args.show_only,
            ),
        )
    }
}

/// Handler for the `ssh_helm_template` tool.
pub type SshHelmTemplateHandler = StandardToolHandler<HelmTemplateTool>;

/// What clients are told of the tool.
pub proof fn presents_itself()
    ensures
        <SshHelmTemplateHandler as ToolHandler>::TOOL_NAME@ == "ssh_helm_template"@,
        <SshHelmTemplateHandler as ToolHandler>::TOOL_DESCRIPTION@ == DESCRIPTION@,
        <SshHelmTemplateHandler as ToolHandler>::INPUT_SCHEMA@ == SCHEMA@,
        <SshHelmTemplateHandler as ToolHandler>::TOOL_GROUP@ == "kubernetes"@,
        <SshHelmTemplateHandler as ToolHandler>::EFFECT == Annotation::ReadOnly,
        <SshHelmTemplateHandler as ToolHandler>::KIND == OutputKind::Yaml,
{
    handler_presents_its_tool::<HelmTemplateTool>();
}

} // verus!
