use bridge_mcp::config::{BridgeConfig, HostConfig};
use bridge_mcp::error::BridgeError;
use bridge_mcp::secret::RedactedSecret;
use bridge_mcp::tool::{StandardTool, ToolHandler};
use bridge_mcp::tools::ssh_k8s_create_secret::{
    K8sCreateSecretTool, SecretLiteralEntry, SshK8sCreateSecretArgs, SshK8sCreateSecretHandler,
};

fn test_host_config() -> HostConfig {
    HostConfig {
        hostname: "test".to_string(),
        port: 22,
        user: "test".to_string(),
        description: None,
        proxy_jump: None,
        tags: Vec::new(),
    }
}

fn empty_config() -> BridgeConfig {
    BridgeConfig { hosts: Vec::new(), awx: None }
}

#[test]
fn ssh_k8s_create_secret_test_missing_arguments() {
    let handler = SshK8sCreateSecretHandler::new();
    let config = empty_config();
    let result = handler.prepare(None, &config);
    assert!(result.is_err());
    match result.unwrap_err() {
        BridgeError::McpMissingParam { param } => assert_eq!(param, "arguments"),
        e => panic!("Expected McpMissingParam, got: {e:?}"),
    }
}

#[test]
fn ssh_k8s_create_secret_test_unknown_host() {
    let handler = SshK8sCreateSecretHandler::new();
    let config = empty_config();
    let args = SshK8sCreateSecretArgs {
        host: "nonexistent".to_string(),
        name: "my-secret".to_string(),
        secret_type: None,
        from_literal: vec![],
        from_file: vec![],
        from_env_file: None,
        tls_cert: None,
        tls_key: None,
        docker_server: None,
        docker_username: None,
        docker_password: None,
        docker_email: None,
        namespace: None,
        dry_run: None,
        context: None,
        kubectl_bin: None,
        timeout_seconds: None,
        max_output: None,
        save_output: None,
    };
    let result = handler.prepare(Some(Ok(args)), &config);
    assert!(result.is_err());
    match result.unwrap_err() {
        BridgeError::UnknownHost { host } => assert_eq!(host, "nonexistent"),
        e => panic!("Expected UnknownHost, got: {e:?}"),
    }
}

#[test]
fn ssh_k8s_create_secret_test_schema() {
    let handler = SshK8sCreateSecretHandler::new();
    assert_eq!(handler.name(), "ssh_k8s_create_secret");
    assert!(!handler.description().is_empty());
    let schema = handler.schema();
    assert_eq!(schema.name, "ssh_k8s_create_secret");
    let schema_json: serde_json::Value = serde_json::from_str(schema.input_schema).unwrap();
    let required = schema_json["required"].as_array().unwrap();
    assert!(required.contains(&serde_json::Value::from("host")));
    assert!(required.contains(&serde_json::Value::from("name")));
}

#[test]
fn ssh_k8s_create_secret_test_schema_optional_fields() {
    let handler = SshK8sCreateSecretHandler::new();
    let schema = handler.schema();
    let schema_json: serde_json::Value = serde_json::from_str(schema.input_schema).unwrap();
    let properties = schema_json["properties"].as_object().unwrap();
    assert!(properties.contains_key("secret_type"));
    assert!(properties.contains_key("from_literal"));
    assert!(properties.contains_key("namespace"));
    assert!(properties.contains_key("dry_run"));
    assert!(properties.contains_key("timeout_seconds"));
    assert!(properties.contains_key("save_output"));
}

#[test]
fn test_args_debug_does_not_leak_secret_values() {
    let args = SshK8sCreateSecretArgs {
        host: "myhost".to_string(),
        name: "my-secret".to_string(),
        secret_type: Some("generic".to_string()),
        from_literal: vec![SecretLiteralEntry {
            key: "password".to_string(),
            value: RedactedSecret::from("hunter2-super-secret"),
        }],
        from_file: vec![],
        from_env_file: None,
        tls_cert: None,
        tls_key: None,
        docker_server: None,
        docker_username: None,
        docker_password: Some(RedactedSecret::from("docker-pw-secret")),
        docker_email: None,
        namespace: None,
        dry_run: None,
        context: None,
        kubectl_bin: None,
        timeout_seconds: None,
        max_output: None,
        save_output: None,
    };
    let debug_str = args.debug_text();
    assert!(
        !debug_str.contains("hunter2-super-secret"),
        "secret value leaked in Debug: {debug_str}"
    );
    assert!(
        !debug_str.contains("docker-pw-secret"),
        "docker_password leaked in Debug: {debug_str}"
    );
    assert!(
        debug_str.contains("[REDACTED]"),
        "expected [REDACTED] in: {debug_str}"
    );
}

#[test]
fn ssh_k8s_create_secret_test_args_debug() {
    let args = SshK8sCreateSecretArgs {
        host: "myhost".to_string(),
        name: "my-secret".to_string(),
        secret_type: None,
        from_literal: vec![],
        from_file: vec![],
        from_env_file: None,
        tls_cert: None,
        tls_key: None,
        docker_server: None,
        docker_username: None,
        docker_password: None,
        docker_email: None,
        namespace: None,
        dry_run: None,
        context: None,
        kubectl_bin: None,
        timeout_seconds: None,
        max_output: None,
        save_output: None,
    };
    let debug_str = args.debug_text();
    assert!(debug_str.contains("SshK8sCreateSecretArgs"));
}

#[test]
fn ssh_k8s_create_secret_test_invalid_json_type() {
    let handler = SshK8sCreateSecretHandler::new();
    let config = empty_config();
    let result = handler.prepare(Some(Err("invalid type: integer, expected a string".to_string())), &config);
    assert!(result.is_err());
    match result.unwrap_err() {
        BridgeError::McpInvalidRequest(_) => {}
        e => panic!("Expected McpInvalidRequest, got: {e:?}"),
    }
}

#[test]
fn test_build_command_generic_secret() {
    let args = SshK8sCreateSecretArgs {
        host: "s1".into(),
        name: "my-secret".into(),
        secret_type: Some("generic".into()),
        from_literal: vec![SecretLiteralEntry {
            key: "api_key".to_string(),
            value: RedactedSecret::from("s3cr3t"),
        }],
        from_file: vec![],
        from_env_file: None,
        tls_cert: None,
        tls_key: None,
        docker_server: None,
        docker_username: None,
        docker_password: None,
        docker_email: None,
        namespace: Some("default".into()),
        dry_run: None,
        context: None,
        kubectl_bin: Some("kubectl".into()),
        timeout_seconds: None,
        max_output: None,
        save_output: None,
    };
    let cmd = K8sCreateSecretTool::build_command(&args, &test_host_config()).unwrap();
    assert!(cmd.contains("create secret generic"), "cmd: {cmd}");
    assert!(cmd.contains("my-secret"), "cmd: {cmd}");
    assert!(cmd.contains("--from-literal="), "cmd: {cmd}");
    assert!(cmd.contains("-n 'default'"), "cmd: {cmd}");
}

#[test]
fn test_build_command_tls_secret() {
    let args = SshK8sCreateSecretArgs {
        host: "s1".into(),
        name: "tls-secret".into(),
        secret_type: Some("tls".into()),
        from_literal: vec![],
        from_file: vec![],
        from_env_file: None,
        tls_cert: Some("/etc/certs/tls.crt".into()),
        tls_key: Some("/etc/certs/tls.key".into()),
        docker_server: None,
        docker_username: None,
        docker_password: None,
        docker_email: None,
        namespace: None,
        dry_run: None,
        context: Some("east".into()),
        kubectl_bin: Some("kubectl".into()),
        timeout_seconds: None,
        max_output: None,
        save_output: None,
    };
    let cmd = K8sCreateSecretTool::build_command(&args, &test_host_config()).unwrap();
    assert!(cmd.contains("create secret tls"), "cmd: {cmd}");
    assert!(cmd.contains("--cert="), "cmd: {cmd}");
    assert!(cmd.contains("--key="), "cmd: {cmd}");
    assert!(cmd.contains("--context=east"), "cmd: {cmd}");
}
