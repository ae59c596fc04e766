//! From a request to a command: the answers of a standard tool, and what is shown of secrets.
use bridge_mcp::config::{BridgeConfig, HostConfig, NamedHost};
use bridge_mcp::error::BridgeError;
use bridge_mcp::result::{ToolCallResult, ToolContent};
use bridge_mcp::secret::RedactedSecret;
use bridge_mcp::table::parse_columnar_output;
use bridge_mcp::tool::{Annotation, ToolHandler};
use bridge_mcp::tools::ssh_awx_schedule_set::SshAwxScheduleSetHandler;
use bridge_mcp::tools::ssh_crictl_inspect::{SshCrictlInspectArgs, SshCrictlInspectHandler};
use bridge_mcp::tools::ssh_env_diff::{
    EnvDiffTool, SshEnvDiffArgs, DEFAULT_SUMMARY_TOKENS, DEFAULT_TIMEOUT_SECONDS, SUMMARY_PROMPT,
};
use bridge_mcp::tools::ssh_esxi_network_list::{EsxiNetworkListTool, SshEsxiNetworkListArgs};
use bridge_mcp::tools::ssh_helm_diff::{SshHelmDiffArgs, SshHelmDiffHandler};
use bridge_mcp::tools::ssh_k3s_cert_rotate::SshK3sCertRotateHandler;
use bridge_mcp::tools::ssh_k8s_create_secret::{
    SecretLiteralEntry, SshK8sCreateSecretArgs, SshK8sCreateSecretHandler,
};
use bridge_mcp::tools::ssh_k8s_create_token::{SshK8sCreateTokenArgs, SshK8sCreateTokenHandler};

fn host_config(hostname: &str) -> HostConfig {
    HostConfig {
        hostname: hostname.to_string(),
        port: 22,
        user: "ops".to_string(),
        description: None,
        proxy_jump: None,
        tags: Vec::new(),
    }
}

fn config() -> BridgeConfig {
    let hosts = vec![
        NamedHost { name: "node1".to_string(), config: host_config("10.0.0.1") },
        NamedHost { name: "node2".to_string(), config: host_config("10.0.0.2") },
        NamedHost { name: "node1".to_string(), config: host_config("10.0.0.3") },
    ];
    BridgeConfig { hosts, awx: None }
}

fn inspect_args(host: &str, kind: &str) -> SshCrictlInspectArgs {
    SshCrictlInspectArgs {
        host: host.to_string(),
        kind: kind.to_string(),
        id: "abc".to_string(),
        output: None,
        crictl_bin: Some("crictl".to_string()),
        timeout_seconds: None,
        max_output: None,
        save_output: None,
    }
}

#[test]
fn first_host_of_a_name_counts() {
    let config = config();
    assert_eq!(config.host("node1").unwrap().hostname, "10.0.0.1");
    assert_eq!(config.host("node2").unwrap().hostname, "10.0.0.2");
    assert!(config.host("node3").is_none());
}

#[test]
fn request_becomes_a_command_on_its_host() {
    let handler = SshCrictlInspectHandler::new();
    let call = handler.prepare(Some(Ok(inspect_args("node2", "pod"))), &config()).unwrap();
    assert_eq!(call.host, "node2");
    assert_eq!(call.command, "crictl inspectp -o 'json' 'abc'");
}

#[test]
fn request_is_refused_for_its_first_fault() {
    let handler = SshCrictlInspectHandler::new();
    match handler.prepare(None, &config()) {
        Err(BridgeError::McpMissingParam { param }) => assert_eq!(param, "arguments"),
        other => panic!("{other:?}"),
    }
    match handler.prepare(Some(Err("missing field `id`".to_string())), &config()) {
        Err(BridgeError::McpInvalidRequest(message)) => assert_eq!(message, "missing field `id`"),
        other => panic!("{other:?}"),
    }
    match handler.prepare(Some(Ok(inspect_args("nowhere", "bad"))), &config()) {
        Err(BridgeError::UnknownHost { host }) => assert_eq!(host, "nowhere"),
        other => panic!("{other:?}"),
    }
    match handler.prepare(Some(Ok(inspect_args("node1", "bad"))), &config()) {
        Err(BridgeError::CommandDenied { reason }) => assert!(reason.contains("'bad'")),
        other => panic!("{other:?}"),
    }
}

fn diff_args(summarize: Option<bool>, tokens: Option<u32>) -> SshEnvDiffArgs {
    SshEnvDiffArgs {
        host: "node1".to_string(),
        summarize,
        summary_max_tokens: tokens,
        timeout_seconds: None,
        max_output: None,
        save_output: None,
    }
}

#[test]
fn summaries_are_made_on_request() {
    assert!(EnvDiffTool::summary_request(&diff_args(None, Some(9))).is_none());
    assert!(EnvDiffTool::summary_request(&diff_args(Some(false), None)).is_none());
    let asked = EnvDiffTool::summary_request(&diff_args(Some(true), None)).unwrap();
    assert_eq!(asked.max_tokens, DEFAULT_SUMMARY_TOKENS);
    assert_eq!(asked.prompt, SUMMARY_PROMPT);
    let short = EnvDiffTool::summary_request(&diff_args(Some(true), Some(64))).unwrap();
    assert_eq!(short.max_tokens, 64);
    assert_eq!(DEFAULT_SUMMARY_TOKENS, 512);
}

fn only_text(answer: &ToolCallResult) -> &str {
    assert_eq!(answer.content.len(), 1);
    match &answer.content[0] {
        ToolContent::Text { text } => text,
        other => panic!("{other:?}"),
    }
}

#[test]
fn summary_stands_behind_the_output() {
    for raw in ["out", "out\n"] {
        let mut answer = ToolCallResult::text(raw.to_string());
        answer.is_error = Some(true);
        answer.structured_content = Some(serde_json::Value::Bool(true));
        let with = EnvDiffTool::enrich(answer, Some("two lines differ".to_string()));
        assert_eq!(only_text(&with), "out\n\n=== LLM SUMMARY ===\ntwo lines differ");
        assert_eq!(with.is_error, Some(true));
        assert_eq!(with.structured_content, Some(serde_json::Value::Bool(true)));
    }
    let without = EnvDiffTool::enrich(ToolCallResult::text("out".to_string()), None);
    assert_eq!(only_text(&without), "out");
}

#[test]
fn headings_are_shown_in_capitals_and_rows_by_heading() {
    let args = SshEsxiNetworkListArgs {
        host: "esx1".to_string(),
        component: None,
        timeout_seconds: None,
        max_output: None,
        save_output: None,
    };
    let table = parse_columnar_output("Name  Straße\nvmk0  a\nvmk1\n").unwrap();
    let answer = EsxiNetworkListTool::table_result(&args, &table);
    assert_eq!(only_text(&answer), "Name\tStraße\nvmk0\ta\nvmk1");
    let app = answer.app.unwrap();
    assert_eq!(app.title, "ESXi Networks");
    assert_eq!(app.columns[1].key, "Straße");
    assert_eq!(app.columns[1].label, "STRASSE");
    assert_eq!(app.rows.len(), 2);
    assert_eq!(app.rows[0].to_string(), "{\"Name\":\"vmk0\",\"Straße\":\"a\"}");
    assert_eq!(app.rows[1].to_string(), "{\"Name\":\"vmk1\",\"Straße\":\"\"}");
    assert_eq!(app.actions[0].tool, "ssh_esxi_network_list");
    assert_eq!(app.actions[0].arguments.to_string(), "{\"host\":\"esx1\"}");
}

fn secret_args(literal: &str, password: &str) -> SshK8sCreateSecretArgs {
    SshK8sCreateSecretArgs {
        host: "node1".to_string(),
        name: "s".to_string(),
        secret_type: None,
        from_literal: vec![SecretLiteralEntry {
            key: "k\"".to_string(),
            value: RedactedSecret::from(literal),
        }],
        from_file: vec!["/f".to_string(), "/g".to_string()],
        from_env_file: None,
        tls_cert: None,
        tls_key: None,
        docker_server: None,
        docker_username: None,
        docker_password: Some(RedactedSecret::from(password)),
        docker_email: None,
        namespace: Some("N".to_string()),
        dry_run: None,
        context: None,
        kubectl_bin: None,
        timeout_seconds: Some(5),
        max_output: None,
        save_output: None,
    }
}

#[test]
fn shown_arguments_are_exact_and_hide_secrets() {
    let shown = secret_args("top", "hidden").debug_text();
    assert_eq!(
        shown,
        "SshK8sCreateSecretArgs { host: \"node1\", name: \"s\", secret_type: None, \
         from_literal: [SecretLiteralEntry { key: \"k\\\"\", value: [REDACTED] }], \
         from_file: [\"/f\", \"/g\"], from_env_file: None, tls_cert: None, tls_key: None, \
         docker_server: None, docker_username: None, docker_password: Some([REDACTED]), \
         docker_email: None, namespace: Some(\"N\"), dry_run: None, context: None, \
         kubectl_bin: None, timeout_seconds: Some(5), max_output: None, save_output: None }"
    );
    assert_eq!(shown, secret_args("other", "words").debug_text());
}

#[test]
fn refusals_do_not_depend_on_secrets() {
    let handler = SshK8sCreateSecretHandler::new();
    let refusal = |literal: &str, password: &str| {
        let args = Some(Ok(secret_args(literal, password)));
        handler.prepare(args, &config()).unwrap_err().to_text()
    };
    assert_eq!(
        refusal("top", "hidden"),
        "Command denied: Invalid namespace 'N': must be a DNS-1123 label"
    );
    assert_eq!(refusal("top", "hidden"), refusal("other", "words"));
}

#[test]
fn tools_say_what_they_do() {
    let inspect = SshCrictlInspectHandler::new();
    assert_eq!((inspect.group(), inspect.annotation()), ("cri", Annotation::ReadOnly));
    let create = SshK8sCreateSecretHandler::new();
    assert_eq!((create.group(), create.annotation()), ("kubernetes", Annotation::Mutating));
    let rotate = SshK3sCertRotateHandler::new();
    assert_eq!((rotate.group(), rotate.annotation()), ("k3s", Annotation::Destructive));
    let schedule = SshAwxScheduleSetHandler::new();
    assert_eq!((schedule.group(), schedule.annotation()), ("awx", Annotation::MutatingIdempotent));
}

#[test]
fn upgrade_preview_needs_a_chart() {
    let prepare = |subcommand: &str, chart: Option<&str>| {
        let args = SshHelmDiffArgs {
            host: "node1".to_string(),
            subcommand: subcommand.to_string(),
            release: "web".to_string(),
            chart: chart.map(|c| c.to_string()),
            namespace: None,
            values_files: None,
            set_values: None,
            version: None,
            detailed_exitcode: None,
            helm_bin: Some("helm".to_string()),
            timeout_seconds: None,
            max_output: None,
            save_output: None,
        };
        SshHelmDiffHandler::new().prepare(Some(Ok(args)), &config())
    };
    assert_eq!(
        prepare("upgrade", None).unwrap_err().to_text(),
        "Command denied: chart is required for the upgrade subcommand"
    );
    assert!(prepare("upgrade", Some("./chart")).is_ok());
    assert!(prepare("rollback", None).is_ok());
}

#[test]
fn tokens_are_bound_by_kind_and_name() {
    let prepare = |kind: Option<&str>, name: Option<&str>| {
        let args = SshK8sCreateTokenArgs {
            host: "node1".to_string(),
            service_account: "robot".to_string(),
            namespace: None,
            duration: None,
            audiences: None,
            bound_object_kind: kind.map(|k| k.to_string()),
            bound_object_name: name.map(|n| n.to_string()),
            context: None,
            kubectl_bin: Some("kubectl".to_string()),
            timeout_seconds: None,
            max_output: None,
            save_output: None,
        };
        SshK8sCreateTokenHandler::new().prepare(Some(Ok(args)), &config())
    };
    assert_eq!(
        prepare(Some("Pod"), None).unwrap_err().to_text(),
        "Command denied: bound_object_kind requires bound_object_name to be set"
    );
    assert_eq!(
        prepare(None, Some("web-0")).unwrap_err().to_text(),
        "Command denied: bound_object_name requires bound_object_kind to be set"
    );
    assert_eq!(
        prepare(Some("Pod"), Some("web-0")).unwrap().command,
        "kubectl create token 'robot' --bound-object-kind 'Pod' --bound-object-name 'web-0'"
    );
    assert!(prepare(None, None).is_ok());
}

#[test]
fn env_diff_runs_a_minute_by_default() {
    let mut args = diff_args(None, None);
    assert_eq!(EnvDiffTool::timeout_seconds(&args), 60);
    assert_eq!(DEFAULT_TIMEOUT_SECONDS, 60);
    args.timeout_seconds = Some(120);
    assert_eq!(EnvDiffTool::timeout_seconds(&args), 120);
}
