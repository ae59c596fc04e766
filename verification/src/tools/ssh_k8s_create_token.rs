//! K8s Create Token Tool Handler
//!
//! Create a short-lived token for a Kubernetes service account via
//! `kubectl create token`. The output contains a bearer token — treat as
//! sensitive. Mutating (creates a token object in the API server).
use crate::builders::kubernetes::{create_token_command, KubernetesCommandBuilder};
use crate::builders::names::{
    bound_kind_refusal, context_refusal, duration_refusal, namespace_refusal, sa_name_refusal,
    validate_bound_kind, validate_context, validate_duration, validate_sa_name,
};
use crate::config::HostConfig;
use crate::error::{denied_because, first_of, if_some, unless, BridgeError, Refusal};
use crate::shell::command_unless;
use crate::tool::{
    handler_presents_its_tool, Annotation, CommonArgs, NoCheck, OutputKind, StandardTool,
    StandardToolHandler, ToolHandler,
};
use vstd::prelude::*;

verus! {

/// Arguments for the `ssh_k8s_create_token` tool.
#[derive(Debug)]
pub struct SshK8sCreateTokenArgs {
    pub host: String,
    pub service_account: String,
    pub namespace: Option<String>,
    pub duration: Option<String>,
    pub audiences: Option<Vec<String>>,
    pub bound_object_kind: Option<String>,
    pub bound_object_name: Option<String>,
    pub context: Option<String>,
    pub kubectl_bin: Option<String>,
    pub timeout_seconds: Option<u64>,
    pub max_output: Option<u64>,
    pub save_output: Option<String>,
}

impl CommonArgs for SshK8sCreateTokenArgs {
    open spec fn host_name(&self) -> Seq<char> {
        self.host@
    }

    fn host(&self) -> (r: &str) {
        self.host.as_str()
    }
}

/// Why a token is refused, if it is. The first of these that fails decides: the name of the
/// service account, the namespace, the lifetime, the kind of the object that the token is bound
/// to, the kind being there where the object is named, and the context.
pub open spec fn token_refusal(args: SshK8sCreateTokenArgs) -> Option<Refusal> {
    first_of(
        sa_name_refusal(args.service_account@),
        first_of(
            if_some(args.namespace, |ns: Seq<char>| namespace_refusal(ns)),
            first_of(
                if_some(args.duration, |d: Seq<char>| duration_refusal(d)),
                first_of(
                    if_some(args.bound_object_kind, |k: Seq<char>| bound_kind_refusal(k)),
                    first_of(
                        unless(
                            args.bound_object_name is None || args.bound_object_kind is Some,
                            "bound_object_name requires bound_object_kind to be set"@,
                        ),
                        first_of(
                            unless(
                                args.bound_object_kind is None || args.bound_object_name is Some,
                                "bound_object_kind requires bound_object_name to be set"@,
                            ),
                            if_some(args.context, |c: Seq<char>| context_refusal(c)),
                        ),
                    ),
                ),
            ),
        ),
    )
}

/// Handler marker for the `ssh_k8s_create_token` tool.
pub struct K8sCreateTokenTool;

/// What the tool is for, in words for its clients.
pub const DESCRIPTION: &'static str = "Create a short-lived bearer token for a Kubernetes \
    service account via `kubectl create token`. The resulting token is printed to stdout — \
    treat it as sensitive and do not log it. Use `duration` to control token lifetime \
    (e.g. '1h', '30m'). Use `bound_object_kind` + `bound_object_name` to bind the \
    token to a specific Pod or Secret. Mutating (creates a TokenRequest in the API server).";

/// The JSON schema of the tool's arguments.
pub const SCHEMA: &'static str = r#"{
        "type": "object",
        "properties": {
            "host": {
                "type": "string",
                "description": "Host alias from config.yaml (use ssh_status to list available hosts)"
            },
            "service_account": {
                "type": "string",
                "description": "Name of the service account to create a token for"
            },
            "namespace": {
                "type": "string",
                "description": "Kubernetes namespace of the service account (default: current namespace)"
            },
            "duration": {
                "type": "string",
                "description": "Token lifetime, e.g. '3600s', '1h', '30m' (default: server default, usually 1h)"
            },
            "audiences": {
                "type": "array",
                "items": {"type": "string"},
                "description": "Intended audiences for the token (default: API server audience)"
            },
            "bound_object_kind": {
                "type": "string",
                "description": "Bind token to this object kind: 'Pod' or 'Secret'",
                "enum": ["Pod", "Secret"]
            },
            "bound_object_name": {
                "type": "string",
                "description": "Name of the object to bind the token to (required when bound_object_kind is set)"
            },
            "context": {
                "type": "string",
                "description": "kubectl context for multi-cluster targeting"
            },
            "kubectl_bin": {
                "type": "string",
                "description": "Custom kubectl binary path (default: auto-detect kubectl, k3s kubectl, microk8s kubectl)"
            },
            "timeout_seconds": {
                "type": "integer",
                "description": "Optional timeout in seconds (default: from config)",
                "minimum": 1,
                "maximum": 3600
            },
            "max_output": {
                "type": "integer",
                "description": "Max output characters (default: from server config, typically 20000, 0 = no limit).",
                "minimum": 0
            },
            "save_output": {
                "type": "string",
                "description": "Save full output to a local file (on MCP server)."
            }
        },
        "required": ["host", "service_account"]
    }"#;

impl StandardTool for K8sCreateTokenTool {
    type Args = SshK8sCreateTokenArgs;

    type Check = NoCheck;

    const NAME: &'static str = "ssh_k8s_create_token";

    const DESCRIPTION: &'static str = DESCRIPTION;

    const SCHEMA: &'static str = SCHEMA;

    const GROUP: &'static str = "kubernetes";

    const ANNOTATION: Annotation = Annotation::Mutating;

    const OUTPUT_KIND: OutputKind = OutputKind::RawText;

    open spec fn command(args: SshK8sCreateTokenArgs) -> Result<Seq<char>, Refusal> {
        command_unless(
            token_refusal(args),
            create_token_command(
                args.kubectl_bin,
                args.service_account@,
                args.namespace,
                args.duration,
                args.audiences,
                args.bound_object_kind,
                args.bound_object_name,
                args.context,
            ),
        )
    }

    fn build_command(
        args: &SshK8sCreateTokenArgs,
        _host_config: &HostConfig,
    ) -> (r: Result<String, BridgeError>) {
        validate_sa_name(args.service_account.as_str())?;
        if let Some(ns) = &args.namespace {
            KubernetesCommandBuilder::validate_namespace(ns.as_str())?;
        }
        if let Some(d) = &args.duration {
            validate_duration(d.as_str())?;
        }
        if let Some(k) = &args.bound_object_kind {
            validate_bound_kind(k.as_str())?;
        }
        if args.bound_object_name.is_some() && args.bound_object_kind.is_none() {
            return Err(denied_because("bound_object_name requires bound_object_kind to be set"));
        }
        if args.bound_object_kind.is_some() && args.bound_object_name.is_none() {
            return Err(denied_because("bound_object_kind requires bound_object_name to be set"));
        }
        if let Some(c) = &args.context {
            validate_context(c.as_str())?;
        }
        Ok(
            KubernetesCommandBuilder::build_create_token_command(
                &args.kubectl_bin,
                args.service_account.as_str(),
                &args.namespace,
                &args.duration,
                &args.audiences,
                &args.bound_object_kind,
                &args.bound_object_name,
                &args.context,
            ),
        )
    }
}

/// Handler for the `ssh_k8s_create_token` tool.
pub type SshK8sCreateTokenHandler = StandardToolHandler<K8sCreateTokenTool>;

/// What clients are told of the tool.
pub proof fn presents_itself()
    ensures
        <SshK8sCreateTokenHandler as ToolHandler>::TOOL_NAME@ == "ssh_k8s_create_token"@,
        <SshK8sCreateTokenHandler as ToolHandler>::TOOL_DESCRIPTION@ == DESCRIPTION@,
        <SshK8sCreateTokenHandler as ToolHandler>::INPUT_SCHEMA@ == SCHEMA@,
        <SshK8sCreateTokenHandler as ToolHandler>::TOOL_GROUP@ == "kubernetes"@,
        <SshK8sCreateTokenHandler as ToolHandler>::EFFECT == Annotation::Mutating,
        <SshK8sCreateTokenHandler as ToolHandler>::KIND == OutputKind::RawText,
{
    handler_presents_its_tool::<K8sCreateTokenTool>();
}

} // verus!
