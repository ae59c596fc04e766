//! The `crictl` commands, character by character.
use bridge_mcp::builders::crictl::{
    validate_container_id, validate_inspect_kind, validate_pod_state, CrictlCommandBuilder,
};

fn text(s: &str) -> Option<String> {
    Some(s.to_string())
}

fn bin() -> Option<String> {
    text("crictl")
}

#[test]
fn crictl_info_command() {
    assert_eq!(
        CrictlCommandBuilder::build_info_command(&bin(), &None),
        "crictl info -o 'json'"
    );
    assert_eq!(
        CrictlCommandBuilder::build_info_command(&None, &text("yaml")),
        "$(if command -v crictl >/dev/null 2>&1; then echo crictl; else echo k3s crictl; fi) \
         info -o 'yaml'"
    );
}

#[test]
fn crictl_inspect_commands() {
    let inspect = |kind: &str| {
        CrictlCommandBuilder::build_inspect_command(&bin(), kind, "abc", &None)
    };
    assert_eq!(inspect("container"), "crictl inspect -o 'json' 'abc'");
    assert_eq!(inspect("pod"), "crictl inspectp -o 'json' 'abc'");
    assert_eq!(inspect("image"), "crictl inspecti -o 'json' 'abc'");
}

#[test]
fn crictl_logs_commands() {
    assert_eq!(
        CrictlCommandBuilder::build_logs_command(&bin(), "abc", None, &None, false, false),
        "crictl logs 'abc'"
    );
    assert_eq!(
        CrictlCommandBuilder::build_logs_command(
            &bin(),
            "abc",
            Some(50),
            &text("1h"),
            true,
            true
        ),
        "crictl logs -p --tail 50 --since '1h' -t 'abc'"
    );
}

#[test]
fn crictl_pods_command() {
    assert_eq!(
        CrictlCommandBuilder::build_pods_command(
            &bin(),
            &text("ready"),
            &text("web"),
            &text("a=b"),
            &text("default"),
            &None
        ),
        "crictl pods --state 'ready' --name 'web' --label 'a=b' --namespace 'default' -o 'json'"
    );
}

#[test]
fn crictl_ps_command() {
    assert_eq!(
        CrictlCommandBuilder::build_ps_command(
            &bin(),
            true,
            &text("exited"),
            &text("it's"),
            &text("a=b"),
            &text("table")
        ),
        "crictl ps -a --state 'exited' --name 'it'\\''s' --label 'a=b' -o 'table'"
    );
    assert_eq!(
        CrictlCommandBuilder::build_ps_command(&bin(), false, &None, &None, &None, &None),
        "crictl ps -o 'json'"
    );
}

#[test]
fn crictl_rmi_commands() {
    let rmi = |image: Option<String>, prune: bool| {
        CrictlCommandBuilder::build_rmi_command(&bin(), &image, prune)
    };
    assert_eq!(rmi(text("nginx:1"), false).unwrap(), "crictl rmi 'nginx:1'");
    assert_eq!(rmi(None, true).unwrap(), "crictl rmi --prune");
    for image in ["", "--prune", "-a"] {
        assert_eq!(
            rmi(text(image), false).unwrap_err().to_text(),
            format!(
                "Command denied: Invalid image '{image}': must not be empty or begin with -"
            )
        );
    }
    assert_eq!(
        rmi(text("nginx:1"), true).unwrap_err().to_text(),
        "Command denied: 'image' and 'prune' are mutually exclusive"
    );
    assert_eq!(
        rmi(None, false).unwrap_err().to_text(),
        "Command denied: one of 'image' or 'prune' is required"
    );
}

#[test]
fn crictl_stats_command() {
    assert_eq!(
        CrictlCommandBuilder::build_stats_command(&bin(), true, &text("abc"), &None),
        "crictl stats -a --id 'abc' -o 'json'"
    );
}

#[test]
fn container_ids() {
    for id in ["abc123", "docker.io/library/nginx:1.25", "nginx@sha256:ab", "a_b-c"] {
        assert!(validate_container_id(id).is_ok(), "{id}");
    }
    for id in ["", "-x", "a b", "a;b", "$(id)", "a'b"] {
        assert_eq!(
            validate_container_id(id).unwrap_err().to_text(),
            format!(
                "Command denied: Invalid container ID '{id}'. Allowed: letters, digits and -_.:/@"
            )
        );
    }
}

#[test]
fn inspect_kinds_and_pod_states() {
    for kind in ["container", "pod", "image"] {
        assert!(validate_inspect_kind(kind).is_ok());
    }
    assert_eq!(
        validate_inspect_kind("volume").unwrap_err().to_text(),
        "Command denied: Invalid inspect kind 'volume'. Allowed: container, pod, image"
    );
    for state in ["ready", "notready"] {
        assert!(validate_pod_state(state).is_ok());
    }
    assert_eq!(
        validate_pod_state("Ready").unwrap_err().to_text(),
        "Command denied: Invalid pod state 'Ready'. Allowed: ready, notready"
    );
}
