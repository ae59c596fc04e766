//! K3s certificate rotation — regenerates TLS certificates for k3s services.
//! DESTRUCTIVE: a failed rotate can lock the API server. Cluster must be restarted after.
use crate::builders::k3s::{
    cert_rotate_command, cert_services_refusal, validate_cert_service, K3sCommandBuilder,
};
use crate::config::HostConfig;
use crate::error::{BridgeError, Refusal};
use crate::shell::{command_unless, opt_texts, texts};
use crate::tool::{
    handler_presents_its_tool, Annotation, CommonArgs, NoCheck, OutputKind, StandardTool,
    StandardToolHandler, ToolHandler,
};
use vstd::prelude::*;

verus! {

/// Arguments for the `ssh_k3s_cert_rotate` tool.
#[derive(Debug)]
pub struct SshK3sCertRotateArgs {
    pub host: String,
    pub service: Option<Vec<String>>,
    pub k3s_bin: Option<String>,
    pub timeout_seconds: Option<u64>,
    pub max_output: Option<u64>,
    pub save_output: Option<String>,
}

impl CommonArgs for SshK3sCertRotateArgs {
    open spec fn host_name(&self) -> Seq<char> {
        self.host@
    }

    fn host(&self) -> (r: &str) {
        self.host.as_str()
    }
}

/// Handler marker for the `ssh_k3s_cert_rotate` tool.
pub struct K3sCertRotateTool;

/// What the tool is for, in words for its clients.
pub const DESCRIPTION: &'static str = "Rotate TLS certificates for K3s services \
    (`k3s certificate rotate`). \
    **DESTRUCTIVE**: regenerates certificates — a botched rotate can lock the \
    API server and require manual recovery. The cluster must be restarted after \
    rotation for new certs to take effect. \
    Omit `service` to rotate all certificates. Provide `service` to limit \
    rotation to specific services (e.g. `[\"etcd\", \"api-server\"]`). \
    Allowed services: admin, api-server, controller-manager, scheduler, \
    k3s-controller, k3s-server, cloud-controller, etcd, auth-proxy, kubelet, \
    kube-proxy, k3s-server-load-balancer.";

/// The JSON schema of the tool's arguments.
pub const SCHEMA: &'static str = r#"{
        "type": "object",
        "properties": {
            "host": {"type": "string", "description": "Host alias from config.yaml"},
            "service": {
                "type": "array",
                "items": {"type": "string"},
                "description": "Optional list of k3s cert services to rotate. Omit to rotate all. Allowed: admin, api-server, controller-manager, scheduler, k3s-controller, k3s-server, cloud-controller, etcd, auth-proxy, kubelet, kube-proxy, k3s-server-load-balancer"
            },
            "k3s_bin": {"type": "string", "description": "Custom k3s binary path (default: auto-detect 'k3s')"},
            "timeout_seconds": {"type": "integer", "description": "Timeout in seconds", "minimum": 1, "maximum": 3600},
            "max_output": {"type": "integer", "description": "Max output characters (0 = no limit)", "minimum": 0},
            "save_output": {"type": "string", "description": "Save full output to a file on the MCP server"}
        },
        "required": ["host"]
    }"#;

impl StandardTool for K3sCertRotateTool {
    type Args = SshK3sCertRotateArgs;

    type Check = NoCheck;

    const NAME: &'static str = "ssh_k3s_cert_rotate";

    const DESCRIPTION: &'static str = DESCRIPTION;

    const SCHEMA: &'static str = SCHEMA;

    const GROUP: &'static str = "k3s";

    const ANNOTATION: Annotation = Annotation::Destructive;

    const OUTPUT_KIND: OutputKind = OutputKind::RawText;

    open spec fn command(args: SshK3sCertRotateArgs) -> Result<Seq<char>, Refusal> {
        command_unless(
            cert_services_refusal(opt_texts(args.service)),
            cert_rotate_command(args.k3s_bin, args.service),
        )
    }

    fn build_command(
        args: &SshK3sCertRotateArgs,
        _host_config: &HostConfig,
    ) -> (r: Result<String, BridgeError>) {
        if let Some(services) = &args.service {
            let mut i: usize = 0;
            assert(texts(services@).skip(0) =~= texts(services@));
            while i < services.len()
                invariant
                    i <= services@.len(),
                    args.service == Some(*services),
                    cert_services_refusal(texts(services@)) == cert_services_refusal(
                        texts(services@).skip(i as int),
                    ),
                decreases services@.len() - i,
            {
                proof {
                    let rest = texts(services@).skip(i as int);
                    assert(rest[0] == services@[i as int]@);
                    assert(rest.skip(1) =~= texts(services@).skip(i + 1));
                }
                validate_cert_service(services[i].as_str())?;
                i += 1;
            }
        }
        Ok(K3sCommandBuilder::build_cert_rotate_command(&args.k3s_bin, &args.service))
    }
}

/// Handler for the `ssh_k3s_cert_rotate` tool.
pub type SshK3sCertRotateHandler = StandardToolHandler<K3sCertRotateTool>;

/// What clients are told of the tool.
pub proof fn presents_itself()
    ensures
        <SshK3sCertRotateHandler as ToolHandler>::TOOL_NAME@ == "ssh_k3s_cert_rotate"@,
        <SshK3sCertRotateHandler as ToolHandler>::TOOL_DESCRIPTION@ == DESCRIPTION@,
        <SshK3sCertRotateHandler as ToolHandler>::INPUT_SCHEMA@ == SCHEMA@,
        <SshK3sCertRotateHandler as ToolHandler>::TOOL_GROUP@ == "k3s"@,
        <SshK3sCertRotateHandler as ToolHandler>::EFFECT == Annotation::Destructive,
        <SshK3sCertRotateHandler as ToolHandler>::KIND == OutputKind::RawText,
{
    handler_presents_its_tool::<K3sCertRotateTool>();
}

} // verus!
