//! K8s Create Secret Tool Handler
//!
//! Create a Kubernetes Secret (generic/Opaque, tls, or docker-registry) via
//! `kubectl create secret`. Secret VALUES are stored as [`RedactedSecret`] so
//! they never appear in `Debug` output or audit logs.
use crate::builders::kubernetes::{
    pair_texts, secret_command, secret_refusal, KubernetesCommandBuilder, Parts, SecretParts,
};
use crate::config::HostConfig;
use crate::error::{BridgeError, Refusal};
use crate::secret::{
    show_text, shown_list, shown_opt_number, shown_opt_secret, shown_opt_text, shown_text,
    DebugText, RedactedSecret, REDACTED,
};
use crate::shell::{command_unless, opt_text, texts};
use crate::tool::{
    handler_presents_its_tool, Annotation, CommonArgs, NoCheck, OutputKind, StandardTool,
    StandardToolHandler, ToolHandler,
};
use vstd::prelude::*;

verus! {

/// A key-value pair where the value is a redacted secret.
///
/// Used for `--from-literal` entries in `ssh_k8s_create_secret`: the key is
/// safe to log but the value must never appear in `Debug`, audit logs, or
/// error messages.
pub struct SecretLiteralEntry {
    pub key: String,
    /// The value is a `RedactedSecret`, which shows itself as `[REDACTED]`. The
    /// one place where the plaintext is taken out is where the command is built.
    pub value: RedactedSecret,
}

/// Arguments for the `ssh_k8s_create_secret` tool.
///
/// Note: `from_literal` uses `Vec<SecretLiteralEntry>` (not a bare
/// map of texts) so that secret values are wrapped in `RedactedSecret` and are
/// structurally incapable of leaking through `debug_text`.
pub struct SshK8sCreateSecretArgs {
    pub host: String,
    pub name: String,
    pub secret_type: Option<String>,
    /// Secret key→value pairs. Values are redacted in Debug.
    pub from_literal: Vec<SecretLiteralEntry>,
    pub from_file: Vec<String>,
    pub from_env_file: Option<String>,
    pub tls_cert: Option<String>,
    pub tls_key: Option<String>,
    pub docker_server: Option<String>,
    pub docker_username: Option<String>,
    /// Docker registry password. Stored as `RedactedSecret` so it is never
    /// visible in `Debug` output or audit logs.
    pub docker_password: Option<RedactedSecret>,
    pub docker_email: Option<String>,
    pub namespace: Option<String>,
    pub dry_run: Option<String>,
    pub context: Option<String>,
    pub kubectl_bin: Option<String>,
    pub timeout_seconds: Option<u64>,
    pub max_output: Option<u64>,
    pub save_output: Option<String>,
}

impl CommonArgs for SshK8sCreateSecretArgs {
    open spec fn host_name(&self) -> Seq<char> {
        self.host@
    }

    fn host(&self) -> (r: &str) {
        self.host.as_str()
    }
}

/// The type of secret, generic unless the caller names another.
pub open spec fn secret_type_or_generic(secret_type: Option<String>) -> Seq<char> {
    match secret_type {
        Some(t) => t@,
        None => "generic"@,
    }
}

/// The texts of the literals, secret values included.
pub open spec fn literal_texts(entries: Seq<SecretLiteralEntry>) -> Seq<(Seq<char>, Seq<char>)> {
    Seq::new(entries.len(), |i: int| (entries[i].key@, entries[i].value@))
}

/// The text of a secret that may be absent.
pub open spec fn opt_secret(value: Option<RedactedSecret>) -> Option<Seq<char>> {
    match value {
        Some(v) => Some(v@),
        None => None,
    }
}

/// What the secret is made of.
pub open spec fn parts_of(args: SshK8sCreateSecretArgs) -> Parts {
    Parts {
        from_literal: literal_texts(args.from_literal@),
        from_file: texts(args.from_file@),
        from_env_file: opt_text(args.from_env_file),
        tls_cert: opt_text(args.tls_cert),
        tls_key: opt_text(args.tls_key),
        docker_server: opt_text(args.docker_server),
        docker_username: opt_text(args.docker_username),
        docker_password: opt_secret(args.docker_password),
        docker_email: opt_text(args.docker_email),
    }
}

fn copied(value: &Option<String>) -> (r: Option<String>)
    ensures
        opt_text(r) == opt_text(*value),
{
    match value {
        Some(v) => Some(v.as_str().to_owned()),
        None => None,
    }
}

fn copied_list(values: &Vec<String>) -> (r: Vec<String>)
    ensures
        texts(r@) == texts(values@),
{
    let mut out: Vec<String> = Vec::new();
    let mut i: usize = 0;
    while i < values.len()
        invariant
            i <= values@.len(),
            out@.len() == i,
            forall|j: int| 0 <= j < i ==> (#[trigger] out@[j])@ == values@[j]@,
        decreases values@.len() - i,
    {
        out.push(values[i].as_str().to_owned());
        i += 1;
    }
    assert(texts(out@) =~= texts(values@));
    out
}

/// The one place where the secret values are taken out of their wrapping.
fn plain_parts(args: &SshK8sCreateSecretArgs) -> (r: SecretParts)
    ensures
        r@ == parts_of(*args),
{
    let mut from_literal: Vec<(String, String)> = Vec::new();
    let mut i: usize = 0;
    while i < args.from_literal.len()
        invariant
            i <= args.from_literal@.len(),
            from_literal@.len() == i,
            forall|j: int|
                0 <= j < i ==> (#[trigger] from_literal@[j]).0@ == args.from_literal@[j].key@
                    && from_literal@[j].1@ == args.from_literal@[j].value@,
        decreases args.from_literal@.len() - i,
    {
        let entry: &SecretLiteralEntry = &args.from_literal[i];
        from_literal.push((entry.key.as_str().to_owned(), entry.value.as_str().to_owned()));
        i += 1;
    }
    assert(pair_texts(from_literal@) =~= literal_texts(args.from_literal@));
    let docker_password: Option<String> = match &args.docker_password {
        Some(p) => Some(p.as_str().to_owned()),
        None => None,
    };
    SecretParts {
        from_literal,
        from_file: copied_list(&args.from_file),
        from_env_file: copied(&args.from_env_file),
        tls_cert: copied(&args.tls_cert),
        tls_key: copied(&args.tls_key),
        docker_server: copied(&args.docker_server),
        docker_username: copied(&args.docker_username),
        docker_password,
        docker_email: copied(&args.docker_email),
    }
}

/// An entry as it is shown: its key, and that there is a value.
pub open spec fn shown_entry(key: Seq<char>) -> Seq<char> {
    "SecretLiteralEntry { key: "@ + shown_text(key) + ", value: "@ + REDACTED@ + " }"@
}

impl SecretLiteralEntry {
    /// The text that the entry is shown by.
    pub fn debug_text(&self) -> (r: String)
        ensures
            r@ == shown_entry(self.key@),
    {
        let mut out = DebugText::new("SecretLiteralEntry { key: ");
        out.text(self.key.as_str());
        out.raw(", value: ");
        out.raw(self.value.debug_text().as_str());
        out.raw(" }");
        out.into_text()
    }
}

/// The literals as they are shown.
pub open spec fn shown_entries(entries: Seq<SecretLiteralEntry>) -> Seq<Seq<char>> {
    Seq::new(entries.len(), |i: int| shown_entry(entries[i].key@))
}

/// A list of texts as they are shown.
pub open spec fn shown_texts(values: Seq<Seq<char>>) -> Seq<Seq<char>> {
    Seq::new(values.len(), |i: int| shown_text(values[i]))
}

/// The arguments as they are shown. Of the secret values it says only that they are there.
pub open spec fn shown_args(args: SshK8sCreateSecretArgs) -> Seq<char> {
    "SshK8sCreateSecretArgs { host: "@ + shown_text(args.host@) + ", name: "@ + shown_text(
        args.name@,
    ) + ", secret_type: "@ + shown_opt_text(args.secret_type) + ", from_literal: "@ + shown_list(
        shown_entries(args.from_literal@),
    ) + ", from_file: "@ + shown_list(shown_texts(texts(args.from_file@))) + ", from_env_file: "@
        + shown_opt_text(args.from_env_file) + ", tls_cert: "@ + shown_opt_text(args.tls_cert)
        + ", tls_key: "@ + shown_opt_text(args.tls_key) + ", docker_server: "@ + shown_opt_text(
        args.docker_server,
    ) + ", docker_username: "@ + shown_opt_text(args.docker_username) + ", docker_password: "@
        + shown_opt_secret(args.docker_password is Some) + ", docker_email: "@ + shown_opt_text(
        args.docker_email,
    ) + ", namespace: "@ + shown_opt_text(args.namespace) + ", dry_run: "@ + shown_opt_text(
        args.dry_run,
    ) + ", context: "@ + shown_opt_text(args.context) + ", kubectl_bin: "@ + shown_opt_text(
        args.kubectl_bin,
    ) + ", timeout_seconds: "@ + shown_opt_number(args.timeout_seconds) + ", max_output: "@
        + shown_opt_number(args.max_output) + ", save_output: "@ + shown_opt_text(args.save_output)
        + " }"@
}

impl SshK8sCreateSecretArgs {
    /// The text that the arguments are shown by.
    pub fn debug_text(&self) -> (r: String)
        ensures
            r@ == shown_args(*self),
    {
        let mut entries: Vec<String> = Vec::new();
        let mut i: usize = 0;
        while i < self.from_literal.len()
            invariant
                i <= self.from_literal@.len(),
                entries@.len() == i,
                forall|j: int|
                    0 <= j < i ==> (#[trigger] entries@[j])@ == shown_entry(
                        self.from_literal@[j].key@,
                    ),
            decreases self.from_literal@.len() - i,
        {
            entries.push(self.from_literal[i].debug_text());
            i += 1;
        }
        assert(texts(entries@) =~= shown_entries(self.from_literal@));
        let mut files: Vec<String> = Vec::new();
        let mut j: usize = 0;
        while j < self.from_file.len()
            invariant
                j <= self.from_file@.len(),
                files@.len() == j,
                forall|k: int|
                    0 <= k < j ==> (#[trigger] files@[k])@ == shown_text(self.from_file@[k]@),
            decreases self.from_file@.len() - j,
        {
            files.push(show_text(self.from_file[j].as_str()));
            j += 1;
        }
        assert(texts(files@) =~= shown_texts(texts(self.from_file@)));
        let mut out = DebugText::new("SshK8sCreateSecretArgs { host: ");
        out.text(self.host.as_str());
        out.raw(", name: ");
        out.text(self.name.as_str());
        out.raw(", secret_type: ");
        out.opt_text(&self.secret_type);
        out.raw(", from_literal: ");
        out.list(&entries);
        out.raw(", from_file: ");
        out.list(&files);
        out.raw(", from_env_file: ");
        out.opt_text(&self.from_env_file);
        out.raw(", tls_cert: ");
        out.opt_text(&self.tls_cert);
        out.raw(", tls_key: ");
        out.opt_text(&self.tls_key);
        out.raw(", docker_server: ");
        out.opt_text(&self.docker_server);
        out.raw(", docker_username: ");
        out.opt_text(&self.docker_username);
        out.raw(", docker_password: ");
        out.opt_secret(&self.docker_password);
        out.raw(", docker_email: ");
        out.opt_text(&self.docker_email);
        out.raw(", namespace: ");
        out.opt_text(&self.namespace);
        out.raw(", dry_run: ");
        out.opt_text(&self.dry_run);
        out.raw(", context: ");
        out.opt_text(&self.context);
        out.raw(", kubectl_bin: ");
        out.opt_text(&self.kubectl_bin);
        out.raw(", timeout_seconds: ");
        out.opt_number(self.timeout_seconds);
        out.raw(", max_output: ");
        out.opt_number(self.max_output);
        out.raw(", save_output: ");
        out.opt_text(&self.save_output);
        out.raw(" }");
        out.into_text()
    }
}

/// Two requests that differ in nothing but their secret values.
pub open spec fn same_but_secrets(a: SshK8sCreateSecretArgs, b: SshK8sCreateSecretArgs) -> bool {
    &&& a.from_literal@.len() == b.from_literal@.len()
    &&& forall|i: int|
        0 <= i < a.from_literal@.len() ==> (#[trigger] a.from_literal@[i]).key@
            == b.from_literal@[i].key@
    &&& a.docker_password is Some == b.docker_password is Some
    &&& a == (SshK8sCreateSecretArgs {
        from_literal: a.from_literal,
        docker_password: a.docker_password,
        ..b
    })
}

/// What is shown of a request does not depend on the secret values in it: whoever sees it cannot
/// tell one value from another.
pub proof fn shown_args_hide_secrets(a: SshK8sCreateSecretArgs, b: SshK8sCreateSecretArgs)
    requires
        same_but_secrets(a, b),
    ensures
        shown_args(a) == shown_args(b),
{
    assert(shown_entries(a.from_literal@) =~= shown_entries(b.from_literal@));
}

/// Whether a request is refused, and with what message, does not depend on the secret values in
/// it: no error message gives one away.
pub proof fn refusals_hide_secrets(a: SshK8sCreateSecretArgs, b: SshK8sCreateSecretArgs)
    requires
        same_but_secrets(a, b),
    ensures
        K8sCreateSecretTool::command(a) is Ok <==> K8sCreateSecretTool::command(b) is Ok,
        K8sCreateSecretTool::command(a) is Err ==> K8sCreateSecretTool::command(a)
            == K8sCreateSecretTool::command(b),
{
}

/// Handler marker for `ssh_k8s_create_secret`.
pub struct K8sCreateSecretTool;

/// What the tool is for, in words for its clients.
pub const DESCRIPTION: &'static str = "Create a Kubernetes Secret via `kubectl create secret`. \
    Supports `generic`/`Opaque` (from_literal, from_file, from_env_file), `tls` \
    (tls_cert + tls_key paths on host), and `docker-registry` types. \
    Secret VALUES are never logged — they appear in the host process argv \
    (air-gapped acceptable); prefer from_file/from_env_file for higher \
    sensitivity. Use `dry_run=client` to preflight. Not idempotent (errors \
    AlreadyExists on re-run).";

/// The JSON schema of the tool's arguments.
pub const SCHEMA: &'static str = r#"{
        "type": "object",
        "properties": {
            "host": {"type": "string", "description": "Host alias from config.yaml"},
            "name": {"type": "string", "description": "Secret name (DNS-1123 subdomain)"},
            "secret_type": {"type": "string", "description": "Secret type: 'Opaque'/'generic' (default), 'tls', or 'docker-registry'"},
            "from_literal": {
                "type": "array",
                "items": {
                    "type": "object",
                    "properties": {
                        "key": {"type": "string"},
                        "value": {"type": "string"}
                    },
                    "required": ["key", "value"]
                },
                "description": "Key-value pairs for generic secret (values are secret, never logged)"
            },
            "from_file": {"type": "array", "items": {"type": "string"}, "description": "File paths on host: 'key=/path' or '/path'"},
            "from_env_file": {"type": "string", "description": "Path to KEY=VALUE env file on host (contents treated as secret)"},
            "tls_cert": {"type": "string", "description": "Path to PEM cert on host (required for tls type)"},
            "tls_key": {"type": "string", "description": "Path to PEM private key on host (required for tls type)"},
            "docker_server": {"type": "string", "description": "Registry URL (required for docker-registry type)"},
            "docker_username": {"type": "string", "description": "Registry username (required for docker-registry type)"},
            "docker_password": {"type": "string", "description": "Registry password (required for docker-registry type; never logged)"},
            "docker_email": {"type": "string", "description": "Registry email (optional, docker-registry only)"},
            "namespace": {"type": "string", "description": "Kubernetes namespace"},
            "dry_run": {"type": "string", "description": "Dry-run mode: 'client', 'server', or 'none'"},
            "context": {"type": "string", "description": "kubectl context for multi-cluster targeting"},
            "kubectl_bin": {"type": "string", "description": "Custom kubectl binary path"},
            "timeout_seconds": {"type": "integer", "description": "Command timeout in seconds", "minimum": 1, "maximum": 3600},
            "max_output": {"type": "integer", "description": "Max output characters", "minimum": 0},
            "save_output": {"type": "string", "description": "Save full output to a file on the bridge host"}
        },
        "required": ["host", "name"]
    }"#;

impl StandardTool for K8sCreateSecretTool {
    type Args = SshK8sCreateSecretArgs;

    type Check = NoCheck;

    const NAME: &'static str = "ssh_k8s_create_secret";

    const DESCRIPTION: &'static str = DESCRIPTION;

    const SCHEMA: &'static str = SCHEMA;

    const GROUP: &'static str = "kubernetes";

    const ANNOTATION: Annotation = Annotation::Mutating;

    const OUTPUT_KIND: OutputKind = OutputKind::Auto;

    open spec fn command(args: SshK8sCreateSecretArgs) -> Result<Seq<char>, Refusal> {
        command_unless(
            secret_refusal(
                args.name@,
                secret_type_or_generic(args.secret_type),
                parts_of(args),
                args.namespace,
                args.dry_run,
                args.context,
            ),
            secret_command(
                args.kubectl_bin,
                args.name@,
                secret_type_or_generic(args.secret_type),
                parts_of(args),
                args.namespace,
                args.dry_run,
                args.context,
            ),
        )
    }

    fn build_command(
        args: &SshK8sCreateSecretArgs,
        _host_config: &HostConfig,
    ) -> (r: Result<String, BridgeError>) {
        let secret_type: &str = match &args.secret_type {
            Some(t) => t.as_str(),
            None => "generic",
        };
        let parts: SecretParts = plain_parts(args);
        KubernetesCommandBuilder::build_create_secret_command(
            &args.kubectl_bin,
            args.name.as_str(),
            secret_type,
            &parts,
            &args.namespace,
            &args.dry_run,
            &args.context,
        )
    }
}

/// Handler for the `ssh_k8s_create_secret` tool.
pub type SshK8sCreateSecretHandler = StandardToolHandler<K8sCreateSecretTool>;

/// What clients are told of the tool.
pub proof fn presents_itself()
    ensures
        <SshK8sCreateSecretHandler as ToolHandler>::TOOL_NAME@ == "ssh_k8s_create_secret"@,
        <SshK8sCreateSecretHandler as ToolHandler>::TOOL_DESCRIPTION@ == DESCRIPTION@,
        <SshK8sCreateSecretHandler as ToolHandler>::INPUT_SCHEMA@ == SCHEMA@,
        <SshK8sCreateSecretHandler as ToolHandler>::TOOL_GROUP@ == "kubernetes"@,
        <SshK8sCreateSecretHandler as ToolHandler>::EFFECT == Annotation::Mutating,
        <SshK8sCreateSecretHandler as ToolHandler>::KIND == OutputKind::Auto,
{
    handler_presents_its_tool::<K8sCreateSecretTool>();
}

} // verus!
