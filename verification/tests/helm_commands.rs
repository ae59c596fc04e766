//! The `helm` commands, character by character.
use bridge_mcp::builders::helm::HelmCommandBuilder;
use bridge_mcp::string_map::StringMap;

fn text(s: &str) -> Option<String> {
    Some(s.to_string())
}

fn list(items: &[&str]) -> Option<Vec<String>> {
    Some(items.iter().map(|s| s.to_string()).collect())
}

fn bin() -> Option<String> {
    text("helm")
}

fn values() -> Option<StringMap> {
    let mut map = StringMap::new();
    map.insert("image.tag".to_string(), "v1".to_string());
    map.insert("replicas".to_string(), "2".to_string());
    Some(map)
}

#[test]
fn helm_is_found_where_it_is_not_named() {
    assert_eq!(
        HelmCommandBuilder::build_repo_list_command(&None, &None),
        "$(if command -v helm >/dev/null 2>&1; then echo helm; else echo microk8s helm3; fi) \
         repo list"
    );
}

#[test]
fn helm_dependency_command() {
    assert_eq!(
        HelmCommandBuilder::build_dependency_command(&bin(), "update", "./my chart", true, true),
        "helm dependency 'update' './my chart' --skip-refresh --verify"
    );
    assert_eq!(
        HelmCommandBuilder::build_dependency_command(&bin(), "list", "c", true, false),
        "helm dependency 'list' 'c'"
    );
}

#[test]
fn helm_diff_command_asks_for_the_plugin() {
    assert_eq!(
        HelmCommandBuilder::build_diff_command(
            &bin(),
            "upgrade",
            "web",
            &text("./chart"),
            &text("prod"),
            &list(&["a.yaml", "b.yaml"]),
            &values(),
            &text("1.2.3"),
            true
        ),
        "if helm plugin list 2>/dev/null | grep -q ^diff; then helm diff 'upgrade' 'web' \
         './chart' -n 'prod' -f 'a.yaml' -f 'b.yaml' --set 'image.tag'='v1' \
         --set 'replicas'='2' --version '1.2.3' --detailed-exitcode; \
         else echo helm-diff plugin not installed >&2; exit 4; fi"
    );
}

#[test]
fn helm_get_command() {
    assert_eq!(
        HelmCommandBuilder::build_get_command(
            &bin(),
            &text("/k"),
            "values",
            "web",
            &text("prod"),
            Some(3),
            &text("json")
        ),
        "helm get 'values' 'web' -n 'prod' --revision 3 -o 'json' --kubeconfig '/k'"
    );
}

#[test]
fn helm_lint_command() {
    assert_eq!(
        HelmCommandBuilder::build_lint_command(
            &bin(),
            "chart",
            true,
            &list(&["v.yaml"]),
            &None,
            true
        ),
        "helm lint 'chart' --strict -f 'v.yaml' --quiet"
    );
}

#[test]
fn helm_pull_command() {
    assert_eq!(
        HelmCommandBuilder::build_pull_command(
            &bin(),
            "nginx",
            &text("1.0"),
            &text("https://charts.example"),
            true,
            &text("/tmp"),
            true,
            true
        ),
        "helm pull 'nginx' --version '1.0' --repo 'https://charts.example' --untar \
         --destination '/tmp' --devel --verify"
    );
}

#[test]
fn helm_repo_commands() {
    assert_eq!(
        HelmCommandBuilder::build_repo_list_command(&bin(), &text("yaml")),
        "helm repo list -o 'yaml'"
    );
    assert_eq!(HelmCommandBuilder::build_repo_update_command(&bin(), &None), "helm repo update");
    assert_eq!(
        HelmCommandBuilder::build_repo_update_command(&bin(), &list(&["a", "b"])),
        "helm repo update 'a' 'b'"
    );
}

#[test]
fn helm_template_command() {
    assert_eq!(
        HelmCommandBuilder::build_template_command(
            &bin(),
            &text("/k"),
            "web",
            "chart",
            &text("prod"),
            &values(),
            &list(&["v.yaml"]),
            &text("1.0"),
            &list(&["templates/a.yaml"])
        ),
        "helm template 'web' 'chart' -n 'prod' -f 'v.yaml' --set 'image.tag'='v1' \
         --set 'replicas'='2' --version '1.0' --show-only 'templates/a.yaml' --kubeconfig '/k'"
    );
}

#[test]
fn helm_test_command() {
    assert_eq!(
        HelmCommandBuilder::build_test_command(
            &bin(),
            &text("/k"),
            "web",
            &text("prod"),
            true,
            &text("5m"),
            &text("name=smoke")
        ),
        "helm test 'web' -n 'prod' --logs --timeout '5m' --filter 'name=smoke' --kubeconfig '/k'"
    );
}

#[test]
fn helm_subcommands() {
    for s in ["build", "update", "list"] {
        assert!(HelmCommandBuilder::validate_dependency_subcommand(s).is_ok());
    }
    assert_eq!(
        HelmCommandBuilder::validate_dependency_subcommand("rm").unwrap_err().to_text(),
        "Command denied: Invalid dependency subcommand 'rm'. Allowed: build, update, list"
    );
    for s in ["upgrade", "rollback", "release", "revision"] {
        assert!(HelmCommandBuilder::validate_diff_subcommand(s).is_ok());
    }
    assert_eq!(
        HelmCommandBuilder::validate_diff_subcommand("rm").unwrap_err().to_text(),
        "Command denied: Invalid diff subcommand 'rm'. \
         Allowed: upgrade, rollback, release, revision"
    );
    for s in ["table", "json", "yaml"] {
        assert!(HelmCommandBuilder::validate_helm_output(s).is_ok());
    }
    assert_eq!(
        HelmCommandBuilder::validate_helm_output("xml").unwrap_err().to_text(),
        "Command denied: Invalid output format 'xml'. Allowed: table, json, yaml"
    );
}

#[test]
fn helm_repositories() {
    for url in ["https://charts.example/x", "http://a", "oci://r.example/c:1"] {
        assert!(HelmCommandBuilder::validate_repo_url(url).is_ok(), "{url}");
    }
    for url in ["", "ftp://a", "file:///etc", "https://a;id", "https://a b"] {
        assert_eq!(
            HelmCommandBuilder::validate_repo_url(url).unwrap_err().to_text(),
            format!("Command denied: Invalid repository URL '{url}'")
        );
    }
    for name in ["bitnami", "my_repo-2.x"] {
        assert!(HelmCommandBuilder::validate_repo_name(name).is_ok(), "{name}");
    }
    for name in ["", "-x", "a b", "a/b"] {
        assert_eq!(
            HelmCommandBuilder::validate_repo_name(name).unwrap_err().to_text(),
            format!("Command denied: Invalid repository name '{name}'")
        );
    }
}
