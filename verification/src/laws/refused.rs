//! What a refusal says.
use crate::builders::crictl::{container_id_refusal, inspect_kind_refusal, pod_state_refusal};
use crate::builders::esxi::component_refusal;
use crate::builders::helm::{
    dependency_refusal, diff_refusal, helm_output_refusal, repo_name_refusal, repo_url_refusal,
};
use crate::builders::k3s::{
    cert_service_refusal, channel_refusal, ctr_action_refusal, path_refusal, script_path_refusal,
    server_ip_refusal, snapshot_name_refusal, version_refusal,
};
use crate::builders::names::{
    bound_kind_refusal, context_refusal, dns_name_refusal, dry_run_refusal, duration_refusal,
    helm_get_refusal, namespace_refusal, object_name_refusal, sa_name_refusal, target_host_refusal,
};
use crate::tools::ssh_crictl_inspect::{CrictlInspectTool, SshCrictlInspectArgs};
use crate::tools::ssh_crictl_logs::{CrictlLogsTool, SshCrictlLogsArgs};
use crate::tools::ssh_crictl_pods::{CrictlPodsTool, SshCrictlPodsArgs};
use crate::tools::ssh_crictl_rmi::{CrictlRmiTool, SshCrictlRmiArgs};
use crate::tools::ssh_crictl_stats::{CrictlStatsTool, SshCrictlStatsArgs};
use crate::tools::ssh_helm_dependency::{HelmDependencyTool, SshHelmDependencyArgs};
use crate::tools::ssh_helm_diff::{HelmDiffTool, SshHelmDiffArgs};
use crate::tools::ssh_helm_get::{HelmGetTool, SshHelmGetArgs};
use crate::tools::ssh_helm_pull::{HelmPullTool, SshHelmPullArgs};
use crate::tools::ssh_helm_repo_list::{HelmRepoListTool, SshHelmRepoListArgs};
use crate::tools::ssh_helm_template::{HelmTemplateTool, SshHelmTemplateArgs};
use crate::tools::ssh_helm_test::{HelmTestTool, SshHelmTestArgs};
use crate::tools::ssh_k3s_addon_manifests::{K3sAddonManifests, SshK3sAddonManifestsArgs};
use crate::tools::ssh_k3s_ctr_images::{SshK3sCtrImagesArgs, SshK3sCtrImagesTool};
use crate::tools::ssh_k3s_etcd_snapshot_list::{
    SshK3sEtcdSnapshotListArgs, SshK3sEtcdSnapshotListTool,
};
use crate::tools::ssh_k3s_etcd_snapshot_restore::{
    K3sEtcdSnapshotRestoreTool, SshK3sEtcdSnapshotRestoreArgs,
};
use crate::tools::ssh_k3s_etcd_snapshot_save::{
    SshK3sEtcdSnapshotSaveArgs, SshK3sEtcdSnapshotSaveTool,
};
use crate::tools::ssh_k3s_kubeconfig_get::{SshK3sKubeconfigGetArgs, SshK3sKubeconfigGetTool};
use crate::tools::ssh_k3s_servicelb_status::{K3sServicelbStatus, SshK3sServicelbStatusArgs};
use crate::tools::ssh_k3s_upgrade::{K3sUpgradeTool, SshK3sUpgradeArgs};
use crate::tools::ssh_k8s_api_resources::{K8sApiResourcesTool, SshK8sApiResourcesArgs};
use crate::tools::ssh_k8s_auth_can_i::{K8sAuthCanITool, SshK8sAuthCanIArgs};
use crate::tools::ssh_k8s_auth_reconcile::{K8sAuthReconcileTool, SshK8sAuthReconcileArgs};
use crate::tools::ssh_k8s_auth_whoami::{K8sAuthWhoamiTool, SshK8sAuthWhoamiArgs};
use crate::tools::ssh_k8s_connectivity_test::{K8sConnectivityTest, SshK8sConnectivityTestArgs};
use crate::tools::ssh_k8s_create_configmap::{K8sCreateConfigmapTool, SshK8sCreateConfigmapArgs};
use crate::tools::ssh_k8s_create_secret::{K8sCreateSecretTool, SshK8sCreateSecretArgs};
use crate::tools::ssh_k8s_create_token::{K8sCreateTokenTool, SshK8sCreateTokenArgs};
use crate::tools::ssh_k8s_diff::{K8sDiffTool, SshK8sDiffArgs};
use crate::tools::ssh_k8s_dns_check::{K8sDnsCheck, SshK8sDnsCheckArgs};
use crate::error::{complaint, Refusal};
use crate::tool::StandardTool;
use vstd::prelude::*;

verus! {

/// A refusal denies the command and shows the value, whole and between quotes.
pub open spec fn shows_value(refusal: Option<Refusal>, value: Seq<char>) -> bool {
    refusal matches Some(r) ==> r matches Refusal::Denied(text) && exists|
        front: Seq<char>,
        rest: Seq<char>,
    | text == #[trigger] (front + "'"@ + value + "'"@ + rest)
}

/// Every refusal of a value shows the value that is refused.
pub proof fn refusals_show_the_value(value: Seq<char>)
    ensures
        shows_value(namespace_refusal(value), value),
        shows_value(dns_name_refusal(value), value),
        shows_value(object_name_refusal(value), value),
        shows_value(sa_name_refusal(value), value),
        shows_value(target_host_refusal(value), value),
        shows_value(context_refusal(value), value),
        shows_value(duration_refusal(value), value),
        shows_value(bound_kind_refusal(value), value),
        shows_value(dry_run_refusal(value), value),
        shows_value(helm_get_refusal(value), value),
        shows_value(container_id_refusal(value), value),
        shows_value(inspect_kind_refusal(value), value),
        shows_value(pod_state_refusal(value), value),
        shows_value(dependency_refusal(value), value),
        shows_value(diff_refusal(value), value),
        shows_value(helm_output_refusal(value), value),
        shows_value(repo_url_refusal(value), value),
        shows_value(repo_name_refusal(value), value),
        shows_value(path_refusal(value), value),
        shows_value(script_path_refusal(value), value),
        shows_value(cert_service_refusal(value), value),
        shows_value(ctr_action_refusal(value), value),
        shows_value(snapshot_name_refusal(value), value),
        shows_value(server_ip_refusal(value), value),
        shows_value(version_refusal(value), value),
        shows_value(channel_refusal(value), value),
        shows_value(component_refusal(value), value),
{
}

/// A refusal of `ssh_crictl_inspect` names an argument that is at fault, or what is missing.
pub proof fn inspection_refusal_names_its_cause(args: SshCrictlInspectArgs)
    ensures
        CrictlInspectTool::command(args) matches Err(r) ==> {
            ||| args.kind@.len() == 0 && r == Refusal::MissingParam("kind"@)
            ||| args.id@.len() == 0 && r == Refusal::MissingParam("id"@)
            ||| Some(r) == inspect_kind_refusal(args.kind@)
            ||| Some(r) == container_id_refusal(args.id@)
        },
{
}

/// A refusal of `ssh_crictl_logs` names an argument that is at fault, or what is missing.
pub proof fn logs_refusal_names_its_cause(args: SshCrictlLogsArgs)
    ensures
        CrictlLogsTool::command(args) matches Err(r) ==> {
            ||| args.container_id@.len() == 0 && r == Refusal::MissingParam("container_id"@)
            ||| Some(r) == container_id_refusal(args.container_id@)
        },
{
}

/// A refusal of `ssh_crictl_pods` names an argument that is at fault, or what is missing.
pub proof fn pods_refusal_names_its_cause(args: SshCrictlPodsArgs)
    ensures
        CrictlPodsTool::command(args) matches Err(r) ==> {
            ||| args.state matches Some(v) && Some(r) == pod_state_refusal(v@)
        },
{
}

/// A refusal of `ssh_crictl_stats` names an argument that is at fault, or what is missing.
pub proof fn stats_refusal_names_its_cause(args: SshCrictlStatsArgs)
    ensures
        CrictlStatsTool::command(args) matches Err(r) ==> {
            ||| args.id matches Some(v) && Some(r) == container_id_refusal(v@)
        },
{
}

/// A refusal of `ssh_helm_dependency` names an argument that is at fault, or what is missing.
pub proof fn dependency_refusal_names_its_cause(args: SshHelmDependencyArgs)
    ensures
        HelmDependencyTool::command(args) matches Err(r) ==> {
            ||| Some(r) == dependency_refusal(args.subcommand@)
        },
{
}

/// A refusal of `ssh_helm_diff` names an argument that is at fault, or what is missing.
pub proof fn helm_diff_refusal_names_its_cause(args: SshHelmDiffArgs)
    ensures
        HelmDiffTool::command(args) matches Err(r) ==> {
            ||| Some(r) == diff_refusal(args.subcommand@)
            ||| args.subcommand@ == "upgrade"@ && args.chart is None
                && r == Refusal::Denied("chart is required for the upgrade subcommand"@)
        },
{
}

/// A refusal of `ssh_helm_get` names an argument that is at fault, or what is missing.
pub proof fn release_refusal_names_its_cause(args: SshHelmGetArgs)
    ensures
        HelmGetTool::command(args) matches Err(r) ==> {
            ||| Some(r) == helm_get_refusal(args.subcommand@)
            ||| args.namespace matches Some(v) && Some(r) == namespace_refusal(v@)
        },
{
}

/// A refusal of `ssh_helm_pull` names an argument that is at fault, or what is missing.
pub proof fn pull_refusal_names_its_cause(args: SshHelmPullArgs)
    ensures
        HelmPullTool::command(args) matches Err(r) ==> {
            ||| args.repo matches Some(v) && Some(r) == repo_url_refusal(v@)
        },
{
}

/// A refusal of `ssh_helm_repo_list` names an argument that is at fault, or what is missing.
pub proof fn repo_list_refusal_names_its_cause(args: SshHelmRepoListArgs)
    ensures
        HelmRepoListTool::command(args) matches Err(r) ==> {
            ||| args.output matches Some(v) && Some(r) == helm_output_refusal(v@)
        },
{
}

/// A refusal of `ssh_helm_template` names an argument that is at fault, or what is missing.
pub proof fn template_refusal_names_its_cause(args: SshHelmTemplateArgs)
    ensures
        HelmTemplateTool::command(args) matches Err(r) ==> {
            ||| args.namespace matches Some(v) && Some(r) == namespace_refusal(v@)
        },
{
}

/// A refusal of `ssh_helm_test` names an argument that is at fault, or what is missing.
pub proof fn release_test_refusal_names_its_cause(args: SshHelmTestArgs)
    ensures
        HelmTestTool::command(args) matches Err(r) ==> {
            ||| args.namespace matches Some(v) && Some(r) == namespace_refusal(v@)
        },
{
}

/// A refusal of `ssh_k3s_addon_manifests` names an argument that is at fault, or what is missing.
pub proof fn addons_refusal_names_its_cause(args: SshK3sAddonManifestsArgs)
    ensures
        K3sAddonManifests::command(args) matches Err(r) ==> {
            ||| args.manifests_dir matches Some(v) && Some(r) == path_refusal(v@)
            ||| args.context matches Some(v) && Some(r) == context_refusal(v@)
        },
{
}

/// A refusal of `ssh_k3s_ctr_images` names an argument that is at fault, or what is missing.
pub proof fn images_refusal_names_its_cause(args: SshK3sCtrImagesArgs)
    ensures
        SshK3sCtrImagesTool::command(args) matches Err(r) ==> {
            ||| Some(r) == ctr_action_refusal(args.action@)
            ||| args.tarball matches Some(v) && Some(r) == path_refusal(v@)
            ||| args.action@ == "import"@ && args.tarball is None
                && r == Refusal::Denied("action 'import' requires 'tarball'"@)
        },
{
}

/// A refusal of `ssh_k3s_etcd_snapshot_list` names an argument that is at fault, or what is
/// missing.
pub proof fn snapshot_list_refusal_names_its_cause(args: SshK3sEtcdSnapshotListArgs)
    ensures
        SshK3sEtcdSnapshotListTool::command(args) matches Err(r) ==> {
            ||| args.dir matches Some(v) && Some(r) == path_refusal(v@)
        },
{
}

/// A refusal of `ssh_k3s_etcd_snapshot_restore` names an argument that is at fault, or what is
/// missing.
pub proof fn restore_refusal_names_its_cause(args: SshK3sEtcdSnapshotRestoreArgs)
    ensures
        K3sEtcdSnapshotRestoreTool::command(args) matches Err(r) ==> {
            ||| Some(r) == path_refusal(args.snapshot_path@)
        },
{
}

/// A refusal of `ssh_k3s_etcd_snapshot_save` names an argument that is at fault, or what is
/// missing.
pub proof fn snapshot_refusal_names_its_cause(args: SshK3sEtcdSnapshotSaveArgs)
    ensures
        SshK3sEtcdSnapshotSaveTool::command(args) matches Err(r) ==> {
            ||| args.name matches Some(v) && Some(r) == snapshot_name_refusal(v@)
            ||| args.dir matches Some(v) && Some(r) == path_refusal(v@)
        },
{
}

/// A refusal of `ssh_k3s_kubeconfig_get` names an argument that is at fault, or what is missing.
pub proof fn kubeconfig_refusal_names_its_cause(args: SshK3sKubeconfigGetArgs)
    ensures
        SshK3sKubeconfigGetTool::command(args) matches Err(r) ==> {
            ||| args.path matches Some(v) && Some(r) == path_refusal(v@)
            ||| args.server_ip matches Some(v) && Some(r) == server_ip_refusal(v@)
        },
{
}

/// A refusal of `ssh_k3s_servicelb_status` names an argument that is at fault, or what is missing.
pub proof fn load_balancers_refusal_names_its_cause(args: SshK3sServicelbStatusArgs)
    ensures
        K3sServicelbStatus::command(args) matches Err(r) ==> {
            ||| args.namespace matches Some(v) && Some(r) == namespace_refusal(v@)
            ||| args.context matches Some(v) && Some(r) == context_refusal(v@)
        },
{
}

/// A refusal of `ssh_k3s_upgrade` names an argument that is at fault, or what is missing.
pub proof fn upgrade_refusal_names_its_cause(args: SshK3sUpgradeArgs)
    ensures
        K3sUpgradeTool::command(args) matches Err(r) ==> {
            ||| Some(r) == version_refusal(args.version@)
            ||| args.channel matches Some(v) && Some(r) == channel_refusal(v@)
        },
{
}

/// A refusal of `ssh_k8s_api_resources` names an argument that is at fault, or what is missing.
pub proof fn api_resources_refusal_names_its_cause(args: SshK8sApiResourcesArgs)
    ensures
        K8sApiResourcesTool::command(args) matches Err(r) ==> {
            ||| args.context matches Some(v) && Some(r) == context_refusal(v@)
        },
{
}

/// A refusal of `ssh_k8s_auth_can_i` names an argument that is at fault, or what is missing.
pub proof fn can_i_refusal_names_its_cause(args: SshK8sAuthCanIArgs)
    ensures
        K8sAuthCanITool::command(args) matches Err(r) ==> {
            ||| args.namespace matches Some(v) && Some(r) == namespace_refusal(v@)
            ||| args.context matches Some(v) && Some(r) == context_refusal(v@)
        },
{
}

/// A refusal of `ssh_k8s_auth_reconcile` names an argument that is at fault, or what is missing.
pub proof fn reconcile_refusal_names_its_cause(args: SshK8sAuthReconcileArgs)
    ensures
        K8sAuthReconcileTool::command(args) matches Err(r) ==> {
            ||| args.context matches Some(v) && Some(r) == context_refusal(v@)
        },
{
}

/// A refusal of `ssh_k8s_auth_whoami` names an argument that is at fault, or what is missing.
pub proof fn whoami_refusal_names_its_cause(args: SshK8sAuthWhoamiArgs)
    ensures
        K8sAuthWhoamiTool::command(args) matches Err(r) ==> {
            ||| args.context matches Some(v) && Some(r) == context_refusal(v@)
        },
{
}

/// A refusal of `ssh_k8s_connectivity_test` names an argument that is at fault, or what is missing.
pub proof fn connectivity_refusal_names_its_cause(args: SshK8sConnectivityTestArgs)
    ensures
        K8sConnectivityTest::command(args) matches Err(r) ==> {
            ||| Some(r) == target_host_refusal(args.target_host@)
            ||| args.target_port == 0
                && r == Refusal::Denied("target_port must be between 1 and 65535"@)
            ||| args.namespace matches Some(v) && Some(r) == namespace_refusal(v@)
            ||| !(1 <= args.wait_secs <= 300)
                && r == Refusal::Denied("wait_secs must be between 1 and 300"@)
            ||| args.context matches Some(v) && Some(r) == context_refusal(v@)
        },
{
}

/// A refusal of `ssh_k8s_create_configmap` names an argument that is at fault, or what is missing.
pub proof fn configmap_refusal_names_its_cause(args: SshK8sCreateConfigmapArgs)
    ensures
        K8sCreateConfigmapTool::command(args) matches Err(r) ==> {
            ||| Some(r) == object_name_refusal(args.name@)
            ||| args.namespace matches Some(v) && Some(r) == namespace_refusal(v@)
            ||| args.dry_run matches Some(v) && Some(r) == dry_run_refusal(v@)
            ||| args.context matches Some(v) && Some(r) == context_refusal(v@)
            ||| args.from_literal@.len() == 0 && args.from_file@.len() == 0
                && args.from_env_file is None
                && r == Refusal::Denied(
                "at least one of from_literal, from_file or from_env_file is required"@)
        },
{
}

/// A refusal of `ssh_k8s_create_secret` names an argument that is at fault, or what is missing.
pub proof fn secret_refusal_names_its_cause(args: SshK8sCreateSecretArgs)
    ensures
        K8sCreateSecretTool::command(args) matches Err(r) ==> {
            ||| Some(r) == object_name_refusal(args.name@)
            ||| args.namespace matches Some(v) && Some(r) == namespace_refusal(v@)
            ||| args.dry_run matches Some(v) && Some(r) == dry_run_refusal(v@)
            ||| args.context matches Some(v) && Some(r) == context_refusal(v@)
            ||| args.secret_type matches Some(v) && v@ != "generic"@ && v@ != "Opaque"@
                && v@ != "tls"@ && v@ != "docker-registry"@
                && r == Refusal::Denied(complaint("Invalid secret type ", v@,
                ". Allowed: generic, Opaque, tls, docker-registry"))
            ||| args.secret_type matches Some(t) && t@ == "tls"@ && !(args.tls_cert is Some
                && args.tls_key is Some)
                && r == Refusal::Denied("a tls secret requires tls_cert and tls_key"@)
            ||| args.secret_type matches Some(t) && t@ == "docker-registry"@
                && !(args.docker_server is Some && args.docker_username is Some
                && args.docker_password is Some)
                && r == Refusal::Denied(
                "a docker-registry secret requires docker_server, docker_username and docker_password"@)
        },
{
    reveal_strlit("generic");
    reveal_strlit("tls");
    reveal_strlit("docker-registry");
    assert("generic"@.len() == 7 && "tls"@.len() == 3);
    assert("docker-registry"@.len() == 15);
}

/// A refusal of `ssh_k8s_create_token` names an argument that is at fault, or what is missing.
pub proof fn token_refusal_names_its_cause(args: SshK8sCreateTokenArgs)
    ensures
        K8sCreateTokenTool::command(args) matches Err(r) ==> {
            ||| Some(r) == sa_name_refusal(args.service_account@)
            ||| args.namespace matches Some(v) && Some(r) == namespace_refusal(v@)
            ||| args.duration matches Some(v) && Some(r) == duration_refusal(v@)
            ||| args.bound_object_kind matches Some(v) && Some(r) == bound_kind_refusal(v@)
            ||| args.bound_object_name is Some && args.bound_object_kind is None
                && r == Refusal::Denied("bound_object_name requires bound_object_kind to be set"@)
            ||| args.bound_object_kind is Some && args.bound_object_name is None
                && r == Refusal::Denied("bound_object_kind requires bound_object_name to be set"@)
            ||| args.context matches Some(v) && Some(r) == context_refusal(v@)
        },
{
}

/// A refusal of `ssh_k8s_diff` names an argument that is at fault, or what is missing.
pub proof fn manifest_diff_refusal_names_its_cause(args: SshK8sDiffArgs)
    ensures
        K8sDiffTool::command(args) matches Err(r) ==> {
            ||| args.namespace matches Some(v) && Some(r) == namespace_refusal(v@)
        },
{
}

/// A refusal of `ssh_k8s_dns_check` names an argument that is at fault, or what is missing.
pub proof fn dns_check_refusal_names_its_cause(args: SshK8sDnsCheckArgs)
    ensures
        K8sDnsCheck::command(args) matches Err(r) ==> {
            ||| args.resolve_name matches Some(v) && Some(r) == dns_name_refusal(v@)
            ||| args.namespace matches Some(v) && Some(r) == namespace_refusal(v@)
            ||| args.context matches Some(v) && Some(r) == context_refusal(v@)
        },
{
}

/// A refusal of `ssh_crictl_rmi` names an argument that is at fault, or what is missing.
pub proof fn removal_refusal_names_its_cause(args: SshCrictlRmiArgs)
    ensures
        CrictlRmiTool::command(args) matches Err(r) ==> {
            ||| args.image matches Some(v) && (v@.len() == 0 || v@[0] == '-') && !args.prune
                && r == Refusal::Denied(complaint("Invalid image ", v@,
                ": must not be empty or begin with -"))
            ||| args.image is Some && args.prune
                && r == Refusal::Denied("'image' and 'prune' are mutually exclusive"@)
            ||| args.image is None && !args.prune
                && r == Refusal::Denied("one of 'image' or 'prune' is required"@)
        },
{
}

} // verus!
