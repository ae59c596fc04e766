//! Where the commands run.
use crate::tool::CommonArgs;
use crate::tools::ssh_crictl_info::SshCrictlInfoArgs;
use crate::tools::ssh_crictl_inspect::SshCrictlInspectArgs;
use crate::tools::ssh_crictl_logs::SshCrictlLogsArgs;
use crate::tools::ssh_crictl_pods::SshCrictlPodsArgs;
use crate::tools::ssh_crictl_ps::SshCrictlPsArgs;
use crate::tools::ssh_crictl_rmi::SshCrictlRmiArgs;
use crate::tools::ssh_crictl_stats::SshCrictlStatsArgs;
use crate::tools::ssh_env_diff::SshEnvDiffArgs;
use crate::tools::ssh_esxi_network_list::SshEsxiNetworkListArgs;
use crate::tools::ssh_helm_dependency::SshHelmDependencyArgs;
use crate::tools::ssh_helm_diff::SshHelmDiffArgs;
use crate::tools::ssh_helm_get::SshHelmGetArgs;
use crate::tools::ssh_helm_lint::SshHelmLintArgs;
use crate::tools::ssh_helm_pull::SshHelmPullArgs;
use crate::tools::ssh_helm_repo_list::SshHelmRepoListArgs;
use crate::tools::ssh_helm_repo_update::SshHelmRepoUpdateArgs;
use crate::tools::ssh_helm_template::SshHelmTemplateArgs;
use crate::tools::ssh_helm_test::SshHelmTestArgs;
use crate::tools::ssh_k3s_addon_manifests::SshK3sAddonManifestsArgs;
use crate::tools::ssh_k3s_cert_rotate::SshK3sCertRotateArgs;
use crate::tools::ssh_k3s_check_config::SshK3sCheckConfigArgs;
use crate::tools::ssh_k3s_ctr_images::SshK3sCtrImagesArgs;
use crate::tools::ssh_k3s_etcd_snapshot_list::SshK3sEtcdSnapshotListArgs;
use crate::tools::ssh_k3s_etcd_snapshot_restore::SshK3sEtcdSnapshotRestoreArgs;
use crate::tools::ssh_k3s_etcd_snapshot_save::SshK3sEtcdSnapshotSaveArgs;
use crate::tools::ssh_k3s_killall::SshK3sKillallArgs;
use crate::tools::ssh_k3s_kubeconfig_get::SshK3sKubeconfigGetArgs;
use crate::tools::ssh_k3s_servicelb_status::SshK3sServicelbStatusArgs;
use crate::tools::ssh_k3s_uninstall::SshK3sUninstallArgs;
use crate::tools::ssh_k3s_upgrade::SshK3sUpgradeArgs;
use crate::tools::ssh_k8s_api_resources::SshK8sApiResourcesArgs;
use crate::tools::ssh_k8s_auth_can_i::SshK8sAuthCanIArgs;
use crate::tools::ssh_k8s_auth_reconcile::SshK8sAuthReconcileArgs;
use crate::tools::ssh_k8s_auth_whoami::SshK8sAuthWhoamiArgs;
use crate::tools::ssh_k8s_connectivity_test::SshK8sConnectivityTestArgs;
use crate::tools::ssh_k8s_create_configmap::SshK8sCreateConfigmapArgs;
use crate::tools::ssh_k8s_create_secret::SshK8sCreateSecretArgs;
use crate::tools::ssh_k8s_create_token::SshK8sCreateTokenArgs;
use crate::tools::ssh_k8s_diff::SshK8sDiffArgs;
use crate::tools::ssh_k8s_dns_check::SshK8sDnsCheckArgs;
use vstd::prelude::*;

verus! {

/// Every tool runs its command on the host that the arguments name.
pub proof fn commands_run_on_the_named_host(
    crictl_info: SshCrictlInfoArgs,
    crictl_inspect: SshCrictlInspectArgs,
    crictl_logs: SshCrictlLogsArgs,
    crictl_pods: SshCrictlPodsArgs,
    crictl_ps: SshCrictlPsArgs,
    crictl_rmi: SshCrictlRmiArgs,
    crictl_stats: SshCrictlStatsArgs,
    env_diff: SshEnvDiffArgs,
    esxi_network_list: SshEsxiNetworkListArgs,
    helm_dependency: SshHelmDependencyArgs,
    helm_diff: SshHelmDiffArgs,
    helm_get: SshHelmGetArgs,
    helm_lint: SshHelmLintArgs,
    helm_pull: SshHelmPullArgs,
    helm_repo_list: SshHelmRepoListArgs,
    helm_repo_update: SshHelmRepoUpdateArgs,
    helm_template: SshHelmTemplateArgs,
    helm_test: SshHelmTestArgs,
    k3s_addon_manifests: SshK3sAddonManifestsArgs,
    k3s_cert_rotate: SshK3sCertRotateArgs,
    k3s_check_config: SshK3sCheckConfigArgs,
    k3s_ctr_images: SshK3sCtrImagesArgs,
    k3s_etcd_snapshot_list: SshK3sEtcdSnapshotListArgs,
    k3s_etcd_snapshot_restore: SshK3sEtcdSnapshotRestoreArgs,
    k3s_etcd_snapshot_save: SshK3sEtcdSnapshotSaveArgs,
    k3s_killall: SshK3sKillallArgs,
    k3s_kubeconfig_get: SshK3sKubeconfigGetArgs,
    k3s_servicelb_status: SshK3sServicelbStatusArgs,
    k3s_uninstall: SshK3sUninstallArgs,
    k3s_upgrade: SshK3sUpgradeArgs,
    k8s_api_resources: SshK8sApiResourcesArgs,
    k8s_auth_can_i: SshK8sAuthCanIArgs,
    k8s_auth_reconcile: SshK8sAuthReconcileArgs,
    k8s_auth_whoami: SshK8sAuthWhoamiArgs,
    k8s_connectivity_test: SshK8sConnectivityTestArgs,
    k8s_create_configmap: SshK8sCreateConfigmapArgs,
    k8s_create_secret: SshK8sCreateSecretArgs,
    k8s_create_token: SshK8sCreateTokenArgs,
    k8s_diff: SshK8sDiffArgs,
    k8s_dns_check: SshK8sDnsCheckArgs,
)
    ensures
        crictl_info.host_name() == crictl_info.host@,
        crictl_inspect.host_name() == crictl_inspect.host@,
        crictl_logs.host_name() == crictl_logs.host@,
        crictl_pods.host_name() == crictl_pods.host@,
        crictl_ps.host_name() == crictl_ps.host@,
        crictl_rmi.host_name() == crictl_rmi.host@,
        crictl_stats.host_name() == crictl_stats.host@,
        env_diff.host_name() == env_diff.host@,
        esxi_network_list.host_name() == esxi_network_list.host@,
        helm_dependency.host_name() == helm_dependency.host@,
        helm_diff.host_name() == helm_diff.host@,
        helm_get.host_name() == helm_get.host@,
        helm_lint.host_name() == helm_lint.host@,
        helm_pull.host_name() == helm_pull.host@,
        helm_repo_list.host_name() == helm_repo_list.host@,
        helm_repo_update.host_name() == helm_repo_update.host@,
        helm_template.host_name() == helm_template.host@,
        helm_test.host_name() == helm_test.host@,
        k3s_addon_manifests.host_name() == k3s_addon_manifests.host@,
        k3s_cert_rotate.host_name() == k3s_cert_rotate.host@,
        k3s_check_config.host_name() == k3s_check_config.host@,
        k3s_ctr_images.host_name() == k3s_ctr_images.host@,
        k3s_etcd_snapshot_list.host_name() == k3s_etcd_snapshot_list.host@,
        k3s_etcd_snapshot_restore.host_name() == k3s_etcd_snapshot_restore.host@,
        k3s_etcd_snapshot_save.host_name() == k3s_etcd_snapshot_save.host@,
        k3s_killall.host_name() == k3s_killall.host@,
        k3s_kubeconfig_get.host_name() == k3s_kubeconfig_get.host@,
        k3s_servicelb_status.host_name() == k3s_servicelb_status.host@,
        k3s_uninstall.host_name() == k3s_uninstall.host@,
        k3s_upgrade.host_name() == k3s_upgrade.host@,
        k8s_api_resources.host_name() == k8s_api_resources.host@,
        k8s_auth_can_i.host_name() == k8s_auth_can_i.host@,
        k8s_auth_reconcile.host_name() == k8s_auth_reconcile.host@,
        k8s_auth_whoami.host_name() == k8s_auth_whoami.host@,
        k8s_connectivity_test.host_name() == k8s_connectivity_test.host@,
        k8s_create_configmap.host_name() == k8s_create_configmap.host@,
        k8s_create_secret.host_name() == k8s_create_secret.host@,
        k8s_create_token.host_name() == k8s_create_token.host@,
        k8s_diff.host_name() == k8s_diff.host@,
        k8s_dns_check.host_name() == k8s_dns_check.host@,
{
}

} // verus!
