//! Which arguments are accepted, and which are refused.
use crate::builders::crictl::valid_container_id;
use crate::builders::helm::{repo_name_refusal, repo_names_refusal, valid_repo_name, valid_repo_url};
use crate::builders::k3s::{
    cert_service_refusal, cert_services_refusal, digits_end, valid_script_path, valid_server_ip,
    valid_snapshot_name, valid_version,
};
use crate::builders::kubernetes::{path_pieces, slash_from};
use crate::builders::names::{
    valid_context, valid_dns_name, valid_duration, valid_namespace, valid_target_host,
};
use crate::error::complaint;
use crate::shell::{opt_texts, Piece};
use crate::text::{
    after_last, base_name, has_char, has_prefix, is_digit, is_lower_char, is_word_char, lower_chars,
    word_chars,
};
use crate::tool::StandardTool;
use crate::tools::ssh_crictl_info::{CrictlInfoTool, SshCrictlInfoArgs};
use crate::tools::ssh_crictl_inspect::{CrictlInspectTool, SshCrictlInspectArgs};
use crate::tools::ssh_crictl_logs::{CrictlLogsTool, SshCrictlLogsArgs};
use crate::tools::ssh_crictl_pods::{CrictlPodsTool, SshCrictlPodsArgs};
use crate::tools::ssh_crictl_ps::{CrictlPsTool, SshCrictlPsArgs};
use crate::tools::ssh_crictl_rmi::{CrictlRmiTool, SshCrictlRmiArgs};
use crate::tools::ssh_crictl_stats::{CrictlStatsTool, SshCrictlStatsArgs};
use crate::tools::ssh_helm_dependency::{HelmDependencyTool, SshHelmDependencyArgs};
use crate::tools::ssh_helm_diff::{HelmDiffTool, SshHelmDiffArgs};
use crate::tools::ssh_helm_get::{HelmGetTool, SshHelmGetArgs};
use crate::tools::ssh_helm_lint::{HelmLintTool, SshHelmLintArgs};
use crate::tools::ssh_helm_pull::{HelmPullTool, SshHelmPullArgs};
use crate::tools::ssh_helm_repo_list::{HelmRepoListTool, SshHelmRepoListArgs};
use crate::tools::ssh_helm_repo_update::{HelmRepoUpdateTool, SshHelmRepoUpdateArgs};
use crate::tools::ssh_helm_template::{HelmTemplateTool, SshHelmTemplateArgs};
use crate::tools::ssh_helm_test::{HelmTestTool, SshHelmTestArgs};
use crate::tools::ssh_k3s_addon_manifests::{K3sAddonManifests, SshK3sAddonManifestsArgs};
use crate::tools::ssh_k3s_cert_rotate::{K3sCertRotateTool, SshK3sCertRotateArgs};
use crate::tools::ssh_k3s_check_config::{SshK3sCheckConfigArgs, SshK3sCheckConfigTool};
use crate::tools::ssh_k3s_ctr_images::{SshK3sCtrImagesArgs, SshK3sCtrImagesTool};
use crate::tools::ssh_k3s_etcd_snapshot_list::{
    SshK3sEtcdSnapshotListArgs, SshK3sEtcdSnapshotListTool,
};
use crate::tools::ssh_k3s_etcd_snapshot_restore::{
    K3sEtcdSnapshotRestoreTool, SshK3sEtcdSnapshotRestoreArgs,
};
use crate::tools::ssh_k3s_etcd_snapshot_save::{
    SshK3sEtcdSnapshotSaveArgs, SshK3sEtcdSnapshotSaveTool,
};
use crate::tools::ssh_k3s_killall::{K3sKillallTool, SshK3sKillallArgs};
use crate::tools::ssh_k3s_kubeconfig_get::{SshK3sKubeconfigGetArgs, SshK3sKubeconfigGetTool};
use crate::tools::ssh_k3s_servicelb_status::{K3sServicelbStatus, SshK3sServicelbStatusArgs};
use crate::tools::ssh_k3s_uninstall::{K3sUninstallTool, SshK3sUninstallArgs};
use crate::tools::ssh_k3s_upgrade::{K3sUpgradeTool, SshK3sUpgradeArgs};
use crate::tools::ssh_k8s_api_resources::{K8sApiResourcesTool, SshK8sApiResourcesArgs};
use crate::tools::ssh_k8s_auth_can_i::{K8sAuthCanITool, SshK8sAuthCanIArgs};
use crate::tools::ssh_k8s_auth_reconcile::{K8sAuthReconcileTool, SshK8sAuthReconcileArgs};
use crate::tools::ssh_k8s_auth_whoami::{K8sAuthWhoamiTool, SshK8sAuthWhoamiArgs};
use crate::tools::ssh_k8s_connectivity_test::{K8sConnectivityTest, SshK8sConnectivityTestArgs};
use crate::tools::ssh_k8s_create_configmap::{K8sCreateConfigmapTool, SshK8sCreateConfigmapArgs};
use crate::tools::ssh_k8s_create_secret::{K8sCreateSecretTool, SshK8sCreateSecretArgs};
use crate::tools::ssh_k8s_create_token::{K8sCreateTokenTool, SshK8sCreateTokenArgs};
use crate::tools::ssh_k8s_diff::{K8sDiffTool, SshK8sDiffArgs};
use crate::tools::ssh_k8s_dns_check::{K8sDnsCheck, SshK8sDnsCheckArgs};
use vstd::prelude::*;

verus! {

/// A letter from `a` to `z`, a digit or one of the marks.
pub open spec fn is_small(c: char, marks: Set<char>) -> bool {
    'a' <= c <= 'z' || '0' <= c <= '9' || marks.contains(c)
}

/// An ASCII letter, a digit or one of the marks.
pub open spec fn is_sign(c: char, marks: Set<char>) -> bool {
    'A' <= c <= 'Z' || is_small(c, marks)
}

/// All characters are letters from `a` to `z`, digits or marks.
pub open spec fn all_small(s: Seq<char>, marks: Set<char>) -> bool {
    forall|i: int| 0 <= i < s.len() ==> is_small(#[trigger] s[i], marks)
}

/// All characters are ASCII letters, digits or marks.
pub open spec fn all_signs(s: Seq<char>, marks: Set<char>) -> bool {
    forall|i: int| 0 <= i < s.len() ==> is_sign(#[trigger] s[i], marks)
}

/// A DNS label.
pub open spec fn is_label(s: Seq<char>) -> bool {
    &&& 1 <= s.len() <= 63
    &&& all_small(s, set!['-'])
    &&& s[0] != '-' && s[s.len() - 1] != '-'
}

/// A DNS subdomain.
pub open spec fn is_subdomain(s: Seq<char>) -> bool {
    &&& 1 <= s.len() <= 253
    &&& all_small(s, set!['-', '.'])
    &&& s[0] != '-' && s[s.len() - 1] != '-'
    &&& s[0] != '.' && s[s.len() - 1] != '.'
}

/// A host that a probe connects to.
pub open spec fn is_target(s: Seq<char>) -> bool {
    &&& 1 <= s.len() <= 253
    &&& all_small(s, set!['-', '.', ':'])
    &&& s[0] != '-' && s[s.len() - 1] != '-'
}

/// The name of a context.
pub open spec fn is_context(s: Seq<char>) -> bool {
    &&& s.len() >= 1
    &&& all_signs(s, set!['-', '_', '.', ':', '/', '@'])
    &&& s[0] != '-'
}

/// The ID of a container.
pub open spec fn is_container(s: Seq<char>) -> bool {
    &&& s.len() >= 1
    &&& all_signs(s, set!['-', '_', '.', ':', '/', '@'])
    &&& s[0] != '-'
}

/// The name of a chart repository.
pub open spec fn is_repo_name(s: Seq<char>) -> bool {
    &&& s.len() >= 1
    &&& all_signs(s, set!['-', '_', '.'])
    &&& s[0] != '-'
}

/// The name of a snapshot.
pub open spec fn is_snapshot(s: Seq<char>) -> bool {
    &&& s.len() >= 1
    &&& all_signs(s, set!['-', '_', '.'])
    &&& s[0] != '-'
}

/// The address of a server.
pub open spec fn is_server(s: Seq<char>) -> bool {
    s.len() >= 1 && all_signs(s, set!['.', '-'])
}

/// The URL of a chart repository.
pub open spec fn is_repository(s: Seq<char>) -> bool {
    &&& has_prefix(s, "https://"@) || has_prefix(s, "http://"@) || has_prefix(s, "oci://"@)
    &&& all_signs(s, set!['-', '.', '_', '~', ':', '/', '@', '%', '+', '=', '?'])
}

/// An absolute path.
pub open spec fn is_absolute(s: Seq<char>) -> bool {
    s.len() >= 1 && s[0] == '/'
}

/// The path of a script.
pub open spec fn is_script(s: Seq<char>) -> bool {
    is_absolute(s) && all_signs(s, set!['.', '_', '-', '/'])
}

/// The lifetime of a token: digits and a unit.
pub open spec fn is_lifetime(s: Seq<char>) -> bool {
    &&& s.len() >= 2
    &&& forall|i: int| 0 <= i < s.len() - 1 ==> '0' <= #[trigger] s[i] <= '9'
    &&& s[s.len() - 1] == 's' || s[s.len() - 1] == 'm' || s[s.len() - 1] == 'h'
}

/// A service whose certificate can be rotated.
pub open spec fn is_cert_service(s: Seq<char>) -> bool {
    ||| s == "admin"@
    ||| s == "api-server"@
    ||| s == "controller-manager"@
    ||| s == "scheduler"@
    ||| s == "k3s-controller"@
    ||| s == "k3s-server"@
    ||| s == "cloud-controller"@
    ||| s == "etcd"@
    ||| s == "auth-proxy"@
    ||| s == "kubelet"@
    ||| s == "kube-proxy"@
    ||| s == "k3s-server-load-balancer"@
}

/// A path whose last component is `name`.
pub open spec fn ends_in(path: Seq<char>, name: &str) -> bool {
    path.len() >= name@.len() && path.skip(path.len() - name@.len()) == name@ && (path.len()
        == name@.len() || path[path.len() - name@.len() - 1] == '/')
}

/// The type that is given is `name`.
pub open spec fn is_of_type(given: Option<String>, name: &str) -> bool {
    given matches Some(t) && t@ == name@
}

proof fn marks_are_found()
    ensures
        forall|c: char| #[trigger] has_char("-"@, c) <==> (c == '-'),
        forall|c: char| #[trigger] has_char("-."@, c) <==> (c == '-' || c == '.'),
        forall|c: char| #[trigger] has_char("-.:"@, c) <==> (c == '-' || c == '.' || c == ':'),
        forall|c: char| #[trigger] has_char("-_.:/@"@, c) <==> (c == '-' || c == '_' || c == '.'
            || c == ':' || c == '/' || c == '@'),
        forall|c: char| #[trigger] has_char("-._~:/@%+=?"@, c) <==> (c == '-' || c == '.'
            || c == '_' || c == '~' || c == ':' || c == '/' || c == '@' || c == '%' || c == '+'
            || c == '=' || c == '?'),
        forall|c: char| #[trigger] has_char("-_."@, c) <==> (c == '-' || c == '_' || c == '.'),
        forall|c: char| #[trigger] has_char("._-"@, c) <==> (c == '.' || c == '_' || c == '-'),
        forall|c: char| #[trigger] has_char("._-/"@, c) <==> (c == '.' || c == '_' || c == '-'
            || c == '/'),
        forall|c: char| #[trigger] has_char(".-"@, c) <==> (c == '.' || c == '-'),
        forall|c: char| #[trigger] has_char(".+-"@, c) <==> (c == '.' || c == '+' || c == '-'),
{
    reveal_strlit("-");
    assert forall|c: char| #[trigger] has_char("-"@, c) <==> (c == '-') by {
        let s = "-"@;
        assert(s[0] == '-');
    }
    reveal_strlit("-.");
    assert forall|c: char| #[trigger] has_char("-."@, c) <==> (c == '-' || c == '.') by {
        let s = "-."@;
        assert(s[0] == '-' && s[1] == '.');
    }
    reveal_strlit("-.:");
    assert forall|c: char| #[trigger] has_char("-.:"@, c) <==> (c == '-' || c == '.'
        || c == ':') by {
        let s = "-.:"@;
        assert(s[0] == '-' && s[1] == '.' && s[2] == ':');
    }
    reveal_strlit("-_.:/@");
    assert forall|c: char| #[trigger] has_char("-_.:/@"@, c) <==> (c == '-' || c == '_' || c == '.'
        || c == ':' || c == '/' || c == '@') by {
        let s = "-_.:/@"@;
        assert(s[0] == '-' && s[1] == '_' && s[2] == '.' && s[3] == ':' && s[4] == '/'
            && s[5] == '@');
    }
    reveal_strlit("-._~:/@%+=?");
    assert forall|c: char| #[trigger] has_char("-._~:/@%+=?"@, c) <==> (c == '-' || c == '.'
        || c == '_' || c == '~' || c == ':' || c == '/' || c == '@' || c == '%' || c == '+'
        || c == '=' || c == '?') by {
        let s = "-._~:/@%+=?"@;
        assert(s[0] == '-' && s[1] == '.' && s[2] == '_' && s[3] == '~' && s[4] == ':'
            && s[5] == '/' && s[6] == '@' && s[7] == '%' && s[8] == '+' && s[9] == '='
            && s[10] == '?');
    }
    reveal_strlit("-_.");
    assert forall|c: char| #[trigger] has_char("-_."@, c) <==> (c == '-' || c == '_'
        || c == '.') by {
        let s = "-_."@;
        assert(s[0] == '-' && s[1] == '_' && s[2] == '.');
    }
    reveal_strlit("._-");
    assert forall|c: char| #[trigger] has_char("._-"@, c) <==> (c == '.' || c == '_'
        || c == '-') by {
        let s = "._-"@;
        assert(s[0] == '.' && s[1] == '_' && s[2] == '-');
    }
    reveal_strlit("._-/");
    assert forall|c: char| #[trigger] has_char("._-/"@, c) <==> (c == '.' || c == '_' || c == '-'
        || c == '/') by {
        let s = "._-/"@;
        assert(s[0] == '.' && s[1] == '_' && s[2] == '-' && s[3] == '/');
    }
    reveal_strlit(".-");
    assert forall|c: char| #[trigger] has_char(".-"@, c) <==> (c == '.' || c == '-') by {
        let s = ".-"@;
        assert(s[0] == '.' && s[1] == '-');
    }
    reveal_strlit(".+-");
    assert forall|c: char| #[trigger] has_char(".+-"@, c) <==> (c == '.' || c == '+'
        || c == '-') by {
        let s = ".+-"@;
        assert(s[0] == '.' && s[1] == '+' && s[2] == '-');
    }
}

proof fn rules_are_met_character_by_character()
    ensures
        forall|s: Seq<char>| #[trigger] valid_namespace(s) <==> is_label(s),
        forall|s: Seq<char>| #[trigger] valid_dns_name(s) <==> is_subdomain(s),
        forall|s: Seq<char>| #[trigger] valid_target_host(s) <==> is_target(s),
        forall|s: Seq<char>| #[trigger] valid_context(s) <==> is_context(s),
        forall|s: Seq<char>| #[trigger] valid_container_id(s) <==> is_container(s),
        forall|s: Seq<char>| #[trigger] valid_repo_name(s) <==> is_repo_name(s),
        forall|s: Seq<char>| #[trigger] valid_snapshot_name(s) <==> is_snapshot(s),
        forall|s: Seq<char>| #[trigger] valid_server_ip(s) <==> is_server(s),
        forall|s: Seq<char>| #[trigger] valid_repo_url(s) <==> is_repository(s),
        forall|s: Seq<char>| #[trigger] valid_script_path(s) <==> is_script(s),
        forall|s: Seq<char>| #[trigger] valid_duration(s) <==> is_lifetime(s),
{
    marks_are_found();
    assert forall|s: Seq<char>| #[trigger] valid_namespace(s) <==> is_label(s) by {
        small_marks(s, "-"@, set!['-']);
    }
    assert forall|s: Seq<char>| #[trigger] valid_dns_name(s) <==> is_subdomain(s) by {
        small_marks(s, "-."@, set!['-', '.']);
    }
    assert forall|s: Seq<char>| #[trigger] valid_target_host(s) <==> is_target(s) by {
        small_marks(s, "-.:"@, set!['-', '.', ':']);
    }
    assert forall|s: Seq<char>| #[trigger] valid_context(s) <==> is_context(s) by {
        sign_marks(s, "-_.:/@"@, set!['-', '_', '.', ':', '/', '@']);
    }
    assert forall|s: Seq<char>| #[trigger] valid_container_id(s) <==> is_container(s) by {
        sign_marks(s, "-_.:/@"@, set!['-', '_', '.', ':', '/', '@']);
    }
    assert forall|s: Seq<char>| #[trigger] valid_repo_name(s) <==> is_repo_name(s) by {
        sign_marks(s, "-_."@, set!['-', '_', '.']);
    }
    assert forall|s: Seq<char>| #[trigger] valid_snapshot_name(s) <==> is_snapshot(s) by {
        sign_marks(s, "._-"@, set!['-', '_', '.']);
    }
    assert forall|s: Seq<char>| #[trigger] valid_server_ip(s) <==> is_server(s) by {
        sign_marks(s, ".-"@, set!['.', '-']);
    }
    assert forall|s: Seq<char>| #[trigger] valid_repo_url(s) <==> is_repository(s) by {
        sign_marks(s, "-._~:/@%+=?"@, set!['-', '.', '_', '~', ':', '/', '@', '%', '+', '=', '?']);
    }
    assert forall|s: Seq<char>| #[trigger] valid_script_path(s) <==> is_script(s) by {
        sign_marks(s, "._-/"@, set!['.', '_', '-', '/']);
    }
    assert forall|s: Seq<char>| #[trigger] valid_duration(s) <==> is_lifetime(s) by {
        if valid_duration(s) {
            assert forall|i: int| 0 <= i < s.len() - 1 implies '0' <= #[trigger] s[i] <= '9' by {
                assert(is_digit(s[i]));
            }
        }
        if is_lifetime(s) {
            assert forall|i: int| 0 <= i < s.len() - 1 implies is_digit(#[trigger] s[i]) by {
                assert('0' <= s[i] <= '9');
            }
        }
    }
}

proof fn small_marks(s: Seq<char>, extra: Seq<char>, marks: Set<char>)
    requires
        forall|c: char| #[trigger] has_char(extra, c) <==> marks.contains(c),
    ensures
        lower_chars(s, extra) <==> all_small(s, marks),
{
    if lower_chars(s, extra) {
        assert forall|i: int| 0 <= i < s.len() implies is_small(#[trigger] s[i], marks) by {
            assert(is_lower_char(s[i], extra));
        }
    }
    if all_small(s, marks) {
        assert forall|i: int| 0 <= i < s.len() implies is_lower_char(#[trigger] s[i], extra) by {
            assert(is_small(s[i], marks));
            assert(has_char(extra, s[i]) <==> marks.contains(s[i]));
        }
    }
}

proof fn sign_marks(s: Seq<char>, extra: Seq<char>, marks: Set<char>)
    requires
        forall|c: char| #[trigger] has_char(extra, c) <==> marks.contains(c),
    ensures
        word_chars(s, extra) <==> all_signs(s, marks),
{
    if word_chars(s, extra) {
        assert forall|i: int| 0 <= i < s.len() implies is_sign(#[trigger] s[i], marks) by {
            assert(is_word_char(s[i], extra));
        }
    }
    if all_signs(s, marks) {
        assert forall|i: int| 0 <= i < s.len() implies is_word_char(#[trigger] s[i], extra) by {
            assert(is_sign(s[i], marks));
            assert(has_char(extra, s[i]) <==> marks.contains(s[i]));
        }
    }
}

proof fn last_slash_is_found(path: Seq<char>)
    ensures
        0 <= after_last(path, '/') <= path.len(),
        after_last(path, '/') > 0 ==> path[after_last(path, '/') - 1] == '/',
        forall|i: int| after_last(path, '/') <= i < path.len() ==> #[trigger] path[i] != '/',
    decreases path.len(),
{
    if path.len() > 0 && path.last() != '/' {
        last_slash_is_found(path.drop_last());
        let n = after_last(path, '/');
        assert(path.drop_last().len() == path.len() - 1);
        assert forall|i: int| n <= i < path.len() implies #[trigger] path[i] != '/' by {
            if i < path.len() - 1 {
                assert(path.drop_last()[i] == path[i]);
            }
        }
        if n > 0 {
            assert(path.drop_last()[n - 1] == path[n - 1]);
        }
    }
}

/// The last component of a path is what stands behind its last slash: it is a name without
/// slashes exactly where the path ends in that name, as a component of its own.
pub proof fn base_name_stands_behind_the_last_slash(path: Seq<char>, name: &str)
    requires
        forall|i: int| 0 <= i < name@.len() ==> #[trigger] name@[i] != '/',
    ensures
        base_name(path) == name@ <==> ends_in(path, name),
{
    last_slash_is_found(path);
    let n = after_last(path, '/');
    let m = path.len() - name@.len();
    if ends_in(path, name) {
        assert forall|i: int| m <= i < path.len() implies #[trigger] path[i] != '/' by {
            assert(path.skip(m)[i - m] == path[i]);
        }
        if n > m {
            assert(path[n - 1] == '/');
        } else if n < m {
            assert(path[m - 1] == '/');
        }
        assert(n == m);
    }
}

proof fn repo_names_pass_together(names: Seq<Seq<char>>)
    ensures
        repo_names_refusal(names) is None <==> forall|i: int|
            0 <= i < names.len() ==> is_repo_name(#[trigger] names[i]),
    decreases names.len(),
{
    rules_are_met_character_by_character();
    if names.len() > 0 {
        let rest = names.skip(1);
        repo_names_pass_together(rest);
        assert(repo_name_refusal(names[0]) is None <==> is_repo_name(names[0]));
        if forall|i: int| 0 <= i < names.len() ==> is_repo_name(#[trigger] names[i]) {
            assert forall|i: int| 0 <= i < rest.len() implies is_repo_name(#[trigger] rest[i]) by {
                assert(rest[i] == names[i + 1]);
            }
        }
        if repo_names_refusal(names) is None {
            assert forall|i: int| 0 <= i < names.len() implies is_repo_name(
                #[trigger] names[i],
            ) by {
                if i > 0 {
                    assert(rest[i - 1] == names[i]);
                }
            }
        }
    }
}

proof fn services_pass_together(names: Seq<Seq<char>>)
    ensures
        cert_services_refusal(names) is None <==> forall|i: int|
            0 <= i < names.len() ==> is_cert_service(#[trigger] names[i]),
    decreases names.len(),
{
    if names.len() > 0 {
        let rest = names.skip(1);
        services_pass_together(rest);
        assert(cert_service_refusal(names[0]) is None <==> is_cert_service(names[0]));
        if forall|i: int| 0 <= i < names.len() ==> is_cert_service(#[trigger] names[i]) {
            assert forall|i: int| 0 <= i < rest.len() implies is_cert_service(
                #[trigger] rest[i],
            ) by {
                assert(rest[i] == names[i + 1]);
            }
        }
        if cert_services_refusal(names) is None {
            assert forall|i: int| 0 <= i < names.len() implies is_cert_service(
                #[trigger] names[i],
            ) by {
                if i > 0 {
                    assert(rest[i - 1] == names[i]);
                }
            }
        }
    }
}

/// A number: digits, at least one.
pub open spec fn is_number(s: Seq<char>) -> bool {
    s.len() >= 1 && forall|i: int| 0 <= i < s.len() ==> '0' <= #[trigger] s[i] <= '9'
}

/// What may follow the three numbers of a version: nothing, or `+` or `-` and what stands behind
/// it.
pub open spec fn is_suffix(s: Seq<char>) -> bool {
    s.len() == 0 || {
        &&& s.len() >= 2
        &&& s[0] == '+' || s[0] == '-'
        &&& all_signs(s.skip(1), set!['.', '+', '-'])
    }
}

/// The text of a version.
pub open spec fn version_text(
    major: Seq<char>,
    minor: Seq<char>,
    patch: Seq<char>,
    suffix: Seq<char>,
) -> Seq<char> {
    seq!['v'] + major + seq!['.'] + minor + seq!['.'] + patch + suffix
}

proof fn digits_end_there(s: Seq<char>, from: int, to: int)
    requires
        0 <= from <= to <= s.len(),
        forall|i: int| from <= i < to ==> is_digit(#[trigger] s[i]),
        to == s.len() || !is_digit(s[to]),
    ensures
        digits_end(s, from) == to,
    decreases to - from,
{
    if from < to {
        assert(is_digit(s[from]));
        digits_end_there(s, from + 1, to);
    }
}

proof fn digits_lead_to_their_end(s: Seq<char>, from: int)
    requires
        0 <= from <= s.len(),
    ensures
        from <= digits_end(s, from) <= s.len(),
        forall|i: int| from <= i < digits_end(s, from) ==> is_digit(#[trigger] s[i]),
    decreases s.len() - from,
{
    if from < s.len() && is_digit(s[from]) {
        digits_lead_to_their_end(s, from + 1);
    }
}

/// Every pinned version is accepted: `v`, three numbers with dots between them, and a suffix or
/// none.
pub proof fn pinned_version_is_accepted(
    major: Seq<char>,
    minor: Seq<char>,
    patch: Seq<char>,
    suffix: Seq<char>,
)
    requires
        is_number(major),
        is_number(minor),
        is_number(patch),
        is_suffix(suffix),
    ensures
        valid_version(version_text(major, minor, patch, suffix)),
{
    let v = version_text(major, minor, patch, suffix);
    let a: int = 1 + major.len() as int;
    let b: int = a + 1 + minor.len();
    let c: int = b + 1 + patch.len();
    assert forall|i: int| 1 <= i < a implies is_digit(#[trigger] v[i]) by {
        assert(v[i] == major[i - 1]);
    }
    assert forall|i: int| a + 1 <= i < b implies is_digit(#[trigger] v[i]) by {
        assert(v[i] == minor[i - a - 1]);
    }
    assert forall|i: int| b + 1 <= i < c implies is_digit(#[trigger] v[i]) by {
        assert(v[i] == patch[i - b - 1]);
    }
    assert(v[a] == '.');
    assert(v[b] == '.');
    assert(suffix.len() > 0 ==> v[c] == suffix[0]);
    digits_end_there(v, 1, a);
    digits_end_there(v, a + 1, b);
    digits_end_there(v, b + 1, c);
    if suffix.len() > 0 {
        assert(v.skip(c + 1) =~= suffix.skip(1));
        marks_are_found();
        sign_marks(suffix.skip(1), ".+-"@, set!['.', '+', '-']);
    }
}

/// A version that is accepted is pinned: `v`, three numbers with dots between them, and a suffix
/// or none.
pub proof fn accepted_version_is_pinned(version: Seq<char>)
    requires
        valid_version(version),
    ensures
        exists|major: Seq<char>, minor: Seq<char>, patch: Seq<char>, suffix: Seq<char>|
            is_number(major) && is_number(minor) && is_number(patch) && is_suffix(suffix)
                && version == #[trigger] version_text(major, minor, patch, suffix),
{
    let a = digits_end(version, 1);
    let b = digits_end(version, a + 1);
    let c = digits_end(version, b + 1);
    digits_lead_to_their_end(version, 1);
    digits_lead_to_their_end(version, a + 1);
    digits_lead_to_their_end(version, b + 1);
    let major = version.subrange(1, a);
    let minor = version.subrange(a + 1, b);
    let patch = version.subrange(b + 1, c);
    let suffix = version.skip(c);
    assert forall|i: int| 0 <= i < major.len() implies '0' <= #[trigger] major[i] <= '9' by {
        assert(is_digit(version[i + 1]));
    }
    assert forall|i: int| 0 <= i < minor.len() implies '0' <= #[trigger] minor[i] <= '9' by {
        assert(is_digit(version[i + a + 1]));
    }
    assert forall|i: int| 0 <= i < patch.len() implies '0' <= #[trigger] patch[i] <= '9' by {
        assert(is_digit(version[i + b + 1]));
    }
    if suffix.len() > 0 {
        assert(suffix.skip(1) =~= version.skip(c + 1));
        marks_are_found();
        sign_marks(suffix.skip(1), ".+-"@, set!['.', '+', '-']);
    }
    assert(version =~= version_text(major, minor, patch, suffix));
}

proof fn slash_is_there(path: Seq<char>, from: int, to: int)
    requires
        0 <= from <= to < path.len(),
        forall|i: int| from <= i < to ==> #[trigger] path[i] != '/',
        path[to] == '/',
    ensures
        slash_from(path, from) == to,
    decreases to - from,
{
    if from < to {
        assert(path[from] != '/');
        slash_is_there(path, from + 1, to);
    }
}

/// The home directory of a user stands outside the quotes of a path, where the shell finds it, and
/// all that follows it stands inside.
pub proof fn home_of_a_user_is_left_to_the_shell(user: Seq<char>, rest: Seq<char>)
    requires
        all_signs(user, set!['-', '_', '.']),
    ensures
        path_pieces(seq!['~'] + user + seq!['/'] + rest) == seq![
            Piece::Lit(seq!['~'] + user + seq!['/']),
            Piece::Arg(rest),
        ],
{
    let path = seq!['~'] + user + seq!['/'] + rest;
    let n: int = user.len() as int + 1;
    assert forall|i: int| 1 <= i < n implies #[trigger] path[i] != '/' by {
        assert(path[i] == user[i - 1]);
        assert(is_sign(user[i - 1], set!['-', '_', '.']));
    }
    assert(path[n] == '/');
    slash_is_there(path, 1, n);
    marks_are_found();
    sign_marks(user, "-_."@, set!['-', '_', '.']);
    assert(path.subrange(1, n) =~= user);
    assert(path.take(n + 1) =~= seq!['~'] + user + seq!['/']);
    assert(path.skip(n + 1) =~= rest);
}

/// A path that does not start with `~` is quoted whole.
pub proof fn other_paths_are_quoted_whole(path: Seq<char>)
    requires
        path.len() == 0 || path[0] != '~',
    ensures
        path_pieces(path) == seq![Piece::Arg(path)],
{
}

/// A complaint about a value shows the value, whole and between quotes.
pub proof fn complaint_shows_the_value(before: &str, value: Seq<char>, after: &str)
    ensures
        complaint(before, value, after).len() == before@.len() + value.len() + after@.len() + 2,
        complaint(before, value, after).take(before@.len() as int) == before@,
        complaint(before, value, after)[before@.len() as int] == '\'',
        complaint(before, value, after).skip(before@.len() as int + 1).take(value.len() as int)
            == value,
        complaint(before, value, after)[(before@.len() + value.len() + 1) as int] == '\'',
{
    reveal_strlit("'");
    let all = complaint(before, value, after);
    assert(all.take(before@.len() as int) =~= before@);
    assert(all.skip(before@.len() as int + 1).take(value.len() as int) =~= value);
}

/// All arguments of `ssh_crictl_info` are accepted.
pub proof fn info_is_never_refused(args: SshCrictlInfoArgs)
    ensures
        CrictlInfoTool::command(args) is Ok,
{
}

/// All arguments of `ssh_crictl_ps` are accepted.
pub proof fn ps_is_never_refused(args: SshCrictlPsArgs)
    ensures
        CrictlPsTool::command(args) is Ok,
{
}

/// All arguments of `ssh_helm_lint` are accepted.
pub proof fn lint_is_never_refused(args: SshHelmLintArgs)
    ensures
        HelmLintTool::command(args) is Ok,
{
}

/// All arguments of `ssh_k3s_check_config` are accepted.
pub proof fn check_config_is_never_refused(args: SshK3sCheckConfigArgs)
    ensures
        SshK3sCheckConfigTool::command(args) is Ok,
{
}

/// These arguments of `ssh_crictl_inspect` are accepted, and no others.
pub proof fn inspection_has_its_conditions(args: SshCrictlInspectArgs)
    ensures
        CrictlInspectTool::command(args) is Ok <==> {
            &&& args.kind@ == "container"@ || args.kind@ == "pod"@ || args.kind@ == "image"@
            &&& is_container(args.id@)
        },
{
    rules_are_met_character_by_character();
    reveal_strlit("container");
    reveal_strlit("pod");
    reveal_strlit("image");
}

/// These arguments of `ssh_crictl_logs` are accepted, and no others.
pub proof fn logs_has_its_conditions(args: SshCrictlLogsArgs)
    ensures
        CrictlLogsTool::command(args) is Ok <==> is_container(args.container_id@),
{
    rules_are_met_character_by_character();
}

/// These arguments of `ssh_crictl_pods` are accepted, and no others.
pub proof fn pods_has_its_conditions(args: SshCrictlPodsArgs)
    ensures
        CrictlPodsTool::command(args) is Ok <==> (args.state matches Some(v) ==> (v@ == "ready"@
            || v@ == "notready"@)),
{
    rules_are_met_character_by_character();
}

/// These arguments of `ssh_crictl_stats` are accepted, and no others.
pub proof fn stats_has_its_conditions(args: SshCrictlStatsArgs)
    ensures
        CrictlStatsTool::command(args) is Ok <==> (args.id matches Some(v) ==> is_container(v@)),
{
    rules_are_met_character_by_character();
}

/// These arguments of `ssh_crictl_rmi` are accepted, and no others.
pub proof fn removal_has_its_conditions(args: SshCrictlRmiArgs)
    ensures
        CrictlRmiTool::command(args) is Ok <==> {
            &&& args.image is None <==> args.prune
            &&& args.image matches Some(v) ==> v@.len() > 0 && v@[0] != '-'
        },
{
    rules_are_met_character_by_character();
}

/// These arguments of `ssh_helm_dependency` are accepted, and no others.
pub proof fn dependency_has_its_conditions(args: SshHelmDependencyArgs)
    ensures
        HelmDependencyTool::command(args) is Ok <==> (args.subcommand@ == "build"@
            || args.subcommand@ == "update"@ || args.subcommand@ == "list"@),
{
    rules_are_met_character_by_character();
}

/// These arguments of `ssh_helm_diff` are accepted, and no others.
pub proof fn helm_diff_has_its_conditions(args: SshHelmDiffArgs)
    ensures
        HelmDiffTool::command(args) is Ok <==> {
            &&& args.subcommand@ == "upgrade"@ || args.subcommand@ == "rollback"@
                || args.subcommand@ == "release"@ || args.subcommand@ == "revision"@
            &&& args.subcommand@ == "upgrade"@ ==> args.chart is Some
        },
{
    rules_are_met_character_by_character();
}

/// These arguments of `ssh_helm_get` are accepted, and no others.
pub proof fn release_has_its_conditions(args: SshHelmGetArgs)
    ensures
        HelmGetTool::command(args) is Ok <==> {
            &&& args.subcommand@ == "all"@ || args.subcommand@ == "values"@
                || args.subcommand@ == "manifest"@ || args.subcommand@ == "hooks"@
                || args.subcommand@ == "notes"@ || args.subcommand@ == "metadata"@
            &&& args.namespace matches Some(n) ==> is_label(n@)
        },
{
    rules_are_met_character_by_character();
}

/// These arguments of `ssh_helm_pull` are accepted, and no others.
pub proof fn pull_has_its_conditions(args: SshHelmPullArgs)
    ensures
        HelmPullTool::command(args) is Ok <==> (args.repo matches Some(v) ==> is_repository(v@)),
{
    rules_are_met_character_by_character();
}

/// These arguments of `ssh_helm_repo_list` are accepted, and no others.
pub proof fn repo_list_has_its_conditions(args: SshHelmRepoListArgs)
    ensures
        HelmRepoListTool::command(args) is Ok <==> (args.output matches Some(v) ==> (v@ == "table"@
            || v@ == "json"@ || v@ == "yaml"@)),
{
    rules_are_met_character_by_character();
}

/// These arguments of `ssh_helm_repo_update` are accepted, and no others.
pub proof fn repo_update_has_its_conditions(args: SshHelmRepoUpdateArgs)
    ensures
        HelmRepoUpdateTool::command(args) is Ok <==> (args.repos matches Some(v)
            ==> forall|i: int| 0 <= i < v@.len() ==> is_repo_name(#[trigger] v@[i]@)),
{
    rules_are_met_character_by_character();
    repo_names_pass_together(opt_texts(args.repos));
    if let Some(v) = args.repos {
        assert forall|i: int| 0 <= i < v@.len() implies opt_texts(args.repos)[i]
            == #[trigger] v@[i]@ by {}
    }
}

/// These arguments of `ssh_helm_template` are accepted, and no others.
pub proof fn template_has_its_conditions(args: SshHelmTemplateArgs)
    ensures
        HelmTemplateTool::command(args) is Ok <==> (args.namespace matches Some(n)
            ==> is_label(n@)),
{
    rules_are_met_character_by_character();
}

/// These arguments of `ssh_helm_test` are accepted, and no others.
pub proof fn release_test_has_its_conditions(args: SshHelmTestArgs)
    ensures
        HelmTestTool::command(args) is Ok <==> (args.namespace matches Some(n) ==> is_label(n@)),
{
    rules_are_met_character_by_character();
}

/// These arguments of `ssh_k3s_addon_manifests` are accepted, and no others.
pub proof fn addons_has_its_conditions(args: SshK3sAddonManifestsArgs)
    ensures
        K3sAddonManifests::command(args) is Ok <==> {
            &&& args.manifests_dir matches Some(v) ==> is_absolute(v@)
            &&& args.context matches Some(c) ==> is_context(c@)
        },
{
    rules_are_met_character_by_character();
}

/// These arguments of `ssh_k3s_cert_rotate` are accepted, and no others.
pub proof fn rotation_has_its_conditions(args: SshK3sCertRotateArgs)
    ensures
        K3sCertRotateTool::command(args) is Ok <==> (args.service matches Some(v)
            ==> forall|i: int| 0 <= i < v@.len() ==> is_cert_service(#[trigger] v@[i]@)),
{
    rules_are_met_character_by_character();
    services_pass_together(opt_texts(args.service));
    if let Some(v) = args.service {
        assert forall|i: int| 0 <= i < v@.len() implies opt_texts(args.service)[i]
            == #[trigger] v@[i]@ by {}
    }
}

/// These arguments of `ssh_k3s_ctr_images` are accepted, and no others.
pub proof fn images_has_its_conditions(args: SshK3sCtrImagesArgs)
    ensures
        SshK3sCtrImagesTool::command(args) is Ok <==> {
            &&& args.action@ == "ls"@ || args.action@ == "list"@ || args.action@ == "import"@
            &&& args.tarball matches Some(v) ==> is_absolute(v@)
            &&& args.action@ == "import"@ ==> args.tarball is Some
        },
{
    rules_are_met_character_by_character();
}

/// These arguments of `ssh_k3s_etcd_snapshot_list` are accepted, and no others.
pub proof fn snapshot_list_has_its_conditions(args: SshK3sEtcdSnapshotListArgs)
    ensures
        SshK3sEtcdSnapshotListTool::command(args) is Ok <==> (args.dir matches Some(v)
            ==> is_absolute(v@)),
{
    rules_are_met_character_by_character();
}

/// These arguments of `ssh_k3s_etcd_snapshot_restore` are accepted, and no others.
pub proof fn restore_has_its_conditions(args: SshK3sEtcdSnapshotRestoreArgs)
    ensures
        K3sEtcdSnapshotRestoreTool::command(args) is Ok <==> is_absolute(args.snapshot_path@),
{
    rules_are_met_character_by_character();
}

/// These arguments of `ssh_k3s_etcd_snapshot_save` are accepted, and no others.
pub proof fn snapshot_has_its_conditions(args: SshK3sEtcdSnapshotSaveArgs)
    ensures
        SshK3sEtcdSnapshotSaveTool::command(args) is Ok <==> {
            &&& args.name matches Some(v) ==> is_snapshot(v@)
            &&& args.dir matches Some(v) ==> is_absolute(v@)
        },
{
    rules_are_met_character_by_character();
}

/// These arguments of `ssh_k3s_killall` are accepted, and no others.
pub proof fn killall_has_its_conditions(args: SshK3sKillallArgs)
    ensures
        K3sKillallTool::command(args) is Ok <==> (args.script_path matches Some(v) ==> is_script(v@)
            && ends_in(v@, "k3s-killall.sh")),
{
    rules_are_met_character_by_character();
    reveal_strlit("k3s-killall.sh");
    if let Some(v) = args.script_path {
        base_name_stands_behind_the_last_slash(v@, "k3s-killall.sh");
    }
}

/// These arguments of `ssh_k3s_kubeconfig_get` are accepted, and no others.
pub proof fn kubeconfig_has_its_conditions(args: SshK3sKubeconfigGetArgs)
    ensures
        SshK3sKubeconfigGetTool::command(args) is Ok <==> {
            &&& args.path matches Some(v) ==> is_absolute(v@)
            &&& args.server_ip matches Some(v) ==> is_server(v@)
        },
{
    rules_are_met_character_by_character();
}

/// These arguments of `ssh_k3s_servicelb_status` are accepted, and no others.
pub proof fn load_balancers_has_its_conditions(args: SshK3sServicelbStatusArgs)
    ensures
        K3sServicelbStatus::command(args) is Ok <==> {
            &&& args.namespace matches Some(n) ==> is_label(n@)
            &&& args.context matches Some(c) ==> is_context(c@)
        },
{
    rules_are_met_character_by_character();
}

/// These arguments of `ssh_k3s_uninstall` are accepted, and no others.
pub proof fn uninstall_has_its_conditions(args: SshK3sUninstallArgs)
    ensures
        K3sUninstallTool::command(args) is Ok <==> (args.script_path matches Some(v)
            ==> is_script(v@) && (ends_in(v@, "k3s-uninstall.sh")
            || ends_in(v@, "k3s-agent-uninstall.sh"))),
{
    rules_are_met_character_by_character();
    reveal_strlit("k3s-uninstall.sh");
    reveal_strlit("k3s-agent-uninstall.sh");
    if let Some(v) = args.script_path {
        base_name_stands_behind_the_last_slash(v@, "k3s-uninstall.sh");
        base_name_stands_behind_the_last_slash(v@, "k3s-agent-uninstall.sh");
    }
}

/// These arguments of `ssh_k3s_upgrade` are accepted, and no others.
pub proof fn upgrade_has_its_conditions(args: SshK3sUpgradeArgs)
    ensures
        K3sUpgradeTool::command(args) is Ok <==> {
            &&& valid_version(args.version@)
            &&& args.channel matches Some(v) ==> (v@ == "stable"@ || v@ == "latest"@
                || v@ == "testing"@)
        },
{
    rules_are_met_character_by_character();
}

/// These arguments of `ssh_k8s_api_resources` are accepted, and no others.
pub proof fn api_resources_has_its_conditions(args: SshK8sApiResourcesArgs)
    ensures
        K8sApiResourcesTool::command(args) is Ok <==> (args.context matches Some(c)
            ==> is_context(c@)),
{
    rules_are_met_character_by_character();
}

/// These arguments of `ssh_k8s_auth_can_i` are accepted, and no others.
pub proof fn can_i_has_its_conditions(args: SshK8sAuthCanIArgs)
    ensures
        K8sAuthCanITool::command(args) is Ok <==> {
            &&& args.namespace matches Some(n) ==> is_label(n@)
            &&& args.context matches Some(c) ==> is_context(c@)
        },
{
    rules_are_met_character_by_character();
}

/// These arguments of `ssh_k8s_auth_reconcile` are accepted, and no others.
pub proof fn reconcile_has_its_conditions(args: SshK8sAuthReconcileArgs)
    ensures
        K8sAuthReconcileTool::command(args) is Ok <==> (args.context matches Some(c)
            ==> is_context(c@)),
{
    rules_are_met_character_by_character();
}

/// These arguments of `ssh_k8s_auth_whoami` are accepted, and no others.
pub proof fn whoami_has_its_conditions(args: SshK8sAuthWhoamiArgs)
    ensures
        K8sAuthWhoamiTool::command(args) is Ok <==> (args.context matches Some(c)
            ==> is_context(c@)),
{
    rules_are_met_character_by_character();
}

/// These arguments of `ssh_k8s_connectivity_test` are accepted, and no others.
pub proof fn connectivity_has_its_conditions(args: SshK8sConnectivityTestArgs)
    ensures
        K8sConnectivityTest::command(args) is Ok <==> {
            &&& is_target(args.target_host@)
            &&& args.target_port > 0
            &&& 1 <= args.wait_secs <= 300
            &&& args.namespace matches Some(n) ==> is_label(n@)
            &&& args.context matches Some(c) ==> is_context(c@)
        },
{
    rules_are_met_character_by_character();
}

/// These arguments of `ssh_k8s_create_configmap` are accepted, and no others.
pub proof fn configmap_has_its_conditions(args: SshK8sCreateConfigmapArgs)
    ensures
        K8sCreateConfigmapTool::command(args) is Ok <==> {
            &&& is_subdomain(args.name@)
            &&& args.namespace matches Some(n) ==> is_label(n@)
            &&& args.dry_run matches Some(v) ==> (v@ == "client"@ || v@ == "server"@
                || v@ == "none"@)
            &&& args.context matches Some(c) ==> is_context(c@)
            &&& args.from_literal@.len() > 0 || args.from_file@.len() > 0
                || args.from_env_file is Some
        },
{
    rules_are_met_character_by_character();
}

/// These arguments of `ssh_k8s_create_secret` are accepted, and no others.
pub proof fn secret_has_its_conditions(args: SshK8sCreateSecretArgs)
    ensures
        K8sCreateSecretTool::command(args) is Ok <==> {
            &&& is_subdomain(args.name@)
            &&& args.namespace matches Some(n) ==> is_label(n@)
            &&& args.dry_run matches Some(v) ==> (v@ == "client"@ || v@ == "server"@
                || v@ == "none"@)
            &&& args.context matches Some(c) ==> is_context(c@)
            &&& args.secret_type matches Some(v) ==> (v@ == "generic"@ || v@ == "Opaque"@
                || v@ == "tls"@ || v@ == "docker-registry"@)
            &&& is_of_type(args.secret_type, "tls") ==> args.tls_cert is Some
                && args.tls_key is Some
            &&& is_of_type(args.secret_type, "docker-registry") ==> args.docker_server is Some
                && args.docker_username is Some && args.docker_password is Some
        },
{
    rules_are_met_character_by_character();
    reveal_strlit("generic");
    reveal_strlit("Opaque");
    reveal_strlit("tls");
    reveal_strlit("docker-registry");
    assert("generic"@.len() == 7 && "Opaque"@.len() == 6);
    assert("tls"@.len() == 3 && "docker-registry"@.len() == 15);
}

/// These arguments of `ssh_k8s_create_token` are accepted, and no others.
pub proof fn token_has_its_conditions(args: SshK8sCreateTokenArgs)
    ensures
        K8sCreateTokenTool::command(args) is Ok <==> {
            &&& is_subdomain(args.service_account@)
            &&& args.namespace matches Some(n) ==> is_label(n@)
            &&& args.duration matches Some(v) ==> is_lifetime(v@)
            &&& args.bound_object_kind matches Some(v) ==> (v@ == "Pod"@ || v@ == "Secret"@)
            &&& args.bound_object_kind is Some <==> args.bound_object_name is Some
            &&& args.context matches Some(c) ==> is_context(c@)
        },
{
    rules_are_met_character_by_character();
}

/// These arguments of `ssh_k8s_diff` are accepted, and no others.
pub proof fn manifest_diff_has_its_conditions(args: SshK8sDiffArgs)
    ensures
        K8sDiffTool::command(args) is Ok <==> (args.namespace matches Some(n) ==> is_label(n@)),
{
    rules_are_met_character_by_character();
}

/// These arguments of `ssh_k8s_dns_check` are accepted, and no others.
pub proof fn dns_check_has_its_conditions(args: SshK8sDnsCheckArgs)
    ensures
        K8sDnsCheck::command(args) is Ok <==> {
            &&& args.resolve_name matches Some(v) ==> is_subdomain(v@)
            &&& args.namespace matches Some(n) ==> is_label(n@)
            &&& args.context matches Some(c) ==> is_context(c@)
        },
{
    rules_are_met_character_by_character();
}

} // verus!
