//! The tools, one module each.
pub mod ssh_awx_adhoc_launch;
pub mod ssh_awx_approval_approve;
pub mod ssh_awx_approvals;
pub mod ssh_awx_bulk_launch;
pub mod ssh_awx_host_create;
pub mod ssh_awx_host_update;
pub mod ssh_awx_inventory_groups;
pub mod ssh_awx_job_relaunch;
pub mod ssh_awx_jobs;
pub mod ssh_awx_project_update_status;
pub mod ssh_awx_project_update_stdout;
pub mod ssh_awx_resolve;
pub mod ssh_awx_schedule_set;
pub mod ssh_awx_workflow_approvals;
pub mod ssh_awx_workflow_launch;
pub mod ssh_crictl_info;
pub mod ssh_crictl_inspect;
pub mod ssh_crictl_logs;
pub mod ssh_crictl_pods;
pub mod ssh_crictl_ps;
pub mod ssh_crictl_rmi;
pub mod ssh_crictl_stats;
pub mod ssh_env_diff;
pub mod ssh_esxi_network_list;
pub mod ssh_helm_dependency;
pub mod ssh_helm_diff;
pub mod ssh_helm_get;
pub mod ssh_helm_lint;
pub mod ssh_helm_pull;
pub mod ssh_helm_repo_list;
pub mod ssh_helm_repo_update;
pub mod ssh_helm_template;
pub mod ssh_k3s_addon_manifests;
pub mod ssh_k3s_cert_rotate;
pub mod ssh_k3s_check_config;
pub mod ssh_k3s_ctr_images;
pub mod ssh_k3s_etcd_snapshot_list;
pub mod ssh_k3s_etcd_snapshot_restore;
pub mod ssh_k3s_etcd_snapshot_save;
pub mod ssh_k3s_killall;
pub mod ssh_k3s_kubeconfig_get;
pub mod ssh_k3s_servicelb_status;
pub mod ssh_k3s_uninstall;
pub mod ssh_k3s_upgrade;
pub mod ssh_k8s_api_resources;
pub mod ssh_k8s_auth_can_i;
pub mod ssh_k8s_auth_reconcile;
pub mod ssh_k8s_auth_whoami;
pub mod ssh_k8s_create_configmap;
pub mod ssh_k8s_create_secret;
pub mod ssh_k8s_create_token;
pub mod ssh_k8s_diff;
pub mod ssh_k8s_dns_check;
