//! K8s Create `ConfigMap` Tool Handler
use crate::builders::kubernetes::{
    configmap_command, configmap_refusal, pair_texts, KubernetesCommandBuilder,
};
use crate::config::HostConfig;
use crate::error::{BridgeError, Refusal};
use crate::shell::{command_unless, texts};
use crate::string_map::StringMap;
use crate::tool::{
    handler_presents_its_tool, Annotation, CommonArgs, NoCheck, OutputKind, StandardTool,
    StandardToolHandler, ToolHandler,
};
use vstd::prelude::*;

verus! {

/// Arguments for the `ssh_k8s_create_configmap` tool.
#[derive(Debug)]
pub struct SshK8sCreateConfigmapArgs {
    pub host: String,
    pub name: String,
    pub from_literal: StringMap,
    pub from_file: Vec<String>,
    pub from_env_file: Option<String>,
    pub namespace: Option<String>,
    pub dry_run: Option<String>,
    pub context: Option<String>,
    pub kubectl_bin: Option<String>,
    pub timeout_seconds: Option<u64>,
    pub max_output: Option<u64>,
    pub save_output: Option<String>,
}

impl CommonArgs for SshK8sCreateConfigmapArgs {
    open spec fn host_name(&self) -> Seq<char> {
        self.host@
    }

    fn host(&self) -> (r: &str) {
        self.host.as_str()
    }
}

/// The entries of a map, as the builder takes them.
fn literal_pairs(map: &StringMap) -> (r: Vec<(String, String)>)
    ensures
        pair_texts(r@) == map@,
{
    let mut pairs: Vec<(String, String)> = Vec::new();
    let n: usize = map.len();
    let mut i: usize = 0;
    while i < n
        invariant
            i <= n,
            n == map@.len(),
            pairs@.len() == i,
            forall|j: int|
                0 <= j < i ==> (#[trigger] pairs@[j]).0@ == map@[j].0 && pairs@[j].1@ == map@[j].1,
        decreases n - i,
    {
        pairs.push((map.key(i).to_owned(), map.value(i).to_owned()));
        i += 1;
    }
    assert(pair_texts(pairs@) =~= map@);
    pairs
}

/// Handler marker for `ssh_k8s_create_configmap`.
pub struct K8sCreateConfigmapTool;

/// What the tool is for, in words for its clients.
pub const DESCRIPTION: &'static str =
    "Create a Kubernetes ConfigMap via `kubectl create configmap`. \
    Supports from_literal (key→value map), from_file (file paths on host), and \
    from_env_file (KEY=VALUE env file path). At least one source is required. \
    Not idempotent (errors AlreadyExists on re-run; use dry_run=client to preflight).";

/// The JSON schema of the tool's arguments.
pub const SCHEMA: &'static str = r#"{
        "type": "object",
        "properties": {
            "host": {"type": "string", "description": "Host alias from config.yaml"},
            "name": {"type": "string", "description": "ConfigMap name (DNS-1123 subdomain)"},
            "from_literal": {"type": "object", "description": "Key-value pairs for configmap (non-secret config data)", "additionalProperties": {"type": "string"}},
            "from_file": {"type": "array", "items": {"type": "string"}, "description": "File paths on host: 'key=/path' or '/path'"},
            "from_env_file": {"type": "string", "description": "Path to KEY=VALUE env file on host"},
            "namespace": {"type": "string", "description": "Kubernetes namespace"},
            "dry_run": {"type": "string", "description": "Dry-run mode: 'client', 'server', or 'none'"},
            "context": {"type": "string", "description": "kubectl context for multi-cluster targeting"},
            "kubectl_bin": {"type": "string", "description": "Custom kubectl binary path"},
            "timeout_seconds": {"type": "integer", "description": "Command timeout in seconds", "minimum": 1, "maximum": 3600},
            "max_output": {"type": "integer", "description": "Max output characters", "minimum": 0},
            "save_output": {"type": "string", "description": "Save full output to a file on the bridge host"}
        },
        "required": ["host", "name"]
    }"#;

impl StandardTool for K8sCreateConfigmapTool {
    type Args = SshK8sCreateConfigmapArgs;

    type Check = NoCheck;

    const NAME: &'static str = "ssh_k8s_create_configmap";

    const DESCRIPTION: &'static str = DESCRIPTION;

    const SCHEMA: &'static str = SCHEMA;

    const GROUP: &'static str = "kubernetes";

    const ANNOTATION: Annotation = Annotation::Mutating;

    const OUTPUT_KIND: OutputKind = OutputKind::Auto;

    open spec fn command(args: SshK8sCreateConfigmapArgs) -> Result<Seq<char>, Refusal> {
        command_unless(
            configmap_refusal(
                args.name@,
                args.from_literal@,
                texts(args.from_file@),
                args.from_env_file,
                args.namespace,
                args.dry_run,
                args.context,
            ),
            configmap_command(
                args.kubectl_bin,
                args.name@,
                args.from_literal@,
                texts(args.from_file@),
                args.from_env_file,
                args.namespace,
                args.dry_run,
                args.context,
            ),
        )
    }

    fn build_command(
        args: &SshK8sCreateConfigmapArgs,
        _host_config: &HostConfig,
    ) -> (r: Result<String, BridgeError>) {
        let pairs: Vec<(String, String)> = literal_pairs(&args.from_literal);
        KubernetesCommandBuilder::build_create_configmap_command(
            &args.kubectl_bin,
            args.name.as_str(),
            &pairs,
            &args.from_file,
            &args.from_env_file,
            &args.namespace,
            &args.dry_run,
            &args.context,
        )
    }
}

/// Handler for the `ssh_k8s_create_configmap` tool.
pub type SshK8sCreateConfigmapHandler = StandardToolHandler<K8sCreateConfigmapTool>;

/// What clients are told of the tool.
pub proof fn presents_itself()
    ensures
        <SshK8sCreateConfigmapHandler as ToolHandler>::TOOL_NAME@ == "ssh_k8s_create_configmap"@,
        <SshK8sCreateConfigmapHandler as ToolHandler>::TOOL_DESCRIPTION@ == DESCRIPTION@,
        <SshK8sCreateConfigmapHandler as ToolHandler>::INPUT_SCHEMA@ == SCHEMA@,
        <SshK8sCreateConfigmapHandler as ToolHandler>::TOOL_GROUP@ == "kubernetes"@,
        <SshK8sCreateConfigmapHandler as ToolHandler>::EFFECT == Annotation::Mutating,
        <SshK8sCreateConfigmapHandler as ToolHandler>::KIND == OutputKind::Auto,
{
    handler_presents_its_tool::<K8sCreateConfigmapTool>();
}

} // verus!
